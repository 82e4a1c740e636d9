use vstd::prelude::*;

verus! {

/// Moving a value out of a place, or swapping a new one in.
pub trait TakeReplace<T: Default>: Sized {
    /// The value in place, seen as a `T`.
    spec fn held(&self) -> T;

    /// Take the value, leaving a default in its place.
    fn take(&mut self) -> (r: T)
        requires
            T::default.requires(()),
        ensures
            r == old(self).held(),
            T::default.ensures((), final(self).held()),
    ;

    /// Put `value` in place and hand back the value that was there.
    fn replace(&mut self, value: T) -> (r: T)
        ensures
            r == old(self).held(),
            final(self).held() == value,
    ;

    /// Replace the value in place by `f` applied to it.
    fn update<F>(&mut self, f: F)
        where
            F: FnOnce(T) -> T,
        requires
            T::default.requires(()),
            f.requires((old(self).held(),)),
        ensures
            f.ensures((old(self).held(),), final(self).held()),
    ;
}

impl<T: Default> TakeReplace<T> for T {
    open spec fn held(&self) -> T {
        *self
    }

    fn take(&mut self) -> (r: T) {
        let fresh = T::default();
        self.replace(fresh)
    }

    fn replace(&mut self, value: T) -> (r: T) {
        let mut out = value;
        core::mem::swap(self, &mut out);
        out
    }

    fn update<F>(&mut self, f: F)
        where
            F: FnOnce(T) -> T,
    {
        let old_val = self.take();
        self.replace(f(old_val));
    }
}

/// A value that is read and changed through short, scoped borrows.
///
/// Shared borrows and the exclusive borrow are kept apart by the borrow
/// checker: a second exclusive borrow while one is held does not compile, and
/// once it ends a new one may be taken.
pub struct SelfRef<T> {
    inner: T,
}

impl<T> SelfRef<T> {
    /// The value held.
    pub closed spec fn view(&self) -> T {
        self.inner
    }

    /// Wrap `value`.
    pub fn new(value: T) -> (r: Self)
        ensures
            r.view() == value,
    {
        SelfRef { inner: value }
    }

    /// A shared borrow of the value.
    pub fn borrow(&self) -> (r: &T)
        ensures
            *r == self.view(),
    {
        &self.inner
    }

    /// The exclusive borrow of the value; what is written through it is what
    /// the wrapper holds afterwards.
    pub fn borrow_mut(&mut self) -> (r: &mut T)
        ensures
            *r == old(self).view(),
            final(self).view() == *final(r),
    {
        &mut self.inner
    }

    /// Call `f` on a shared borrow of the value and return what it returns.
    pub fn with<R, F: FnOnce(&T) -> R>(&self, f: F) -> (r: R)
        requires
            f.requires((&self.view(),)),
        ensures
            f.ensures((&self.view(),), r),
    {
        f(&self.inner)
    }

    /// Call `f` on the exclusive borrow of the value and return what it
    /// returns; the borrow ends when `f` does.
    pub fn with_mut<R, F: FnOnce(&mut T) -> R>(&mut self, f: F) -> (r: R)
        requires
            forall|b: &mut T| *b == old(self).view() ==> f.requires((b,)),
        ensures
            exists|b: &mut T|
                *b == old(self).view() && *final(b) == final(self).view() && f.ensures((b,), r),
    {
        f(&mut self.inner)
    }
}

impl<T: Default> Default for SelfRef<T> {
    fn default() -> (r: Self)
        ensures
            T::default.ensures((), r.view()),
    {
        Self::new(T::default())
    }
}

/// Borrowing each part of a value exclusively at once.
pub trait SplitBorrow<'a> {
    /// The exclusive borrows of the parts.
    type SplitParts;

    /// Split the value into exclusive borrows of its parts.
    fn split(&'a mut self) -> Self::SplitParts;
}

impl<'a, T: 'a, U: 'a> SplitBorrow<'a> for (T, U) {
    type SplitParts = (&'a mut T, &'a mut U);

    fn split(&'a mut self) -> (r: Self::SplitParts)
        ensures
            *r.0 == old(self).0,
            *r.1 == old(self).1,
            *final(self) == (*final(r.0), *final(r.1)),
    {
        let (first, second) = self;
        (first, second)
    }
}

impl<'a, T: 'a, U: 'a, V: 'a> SplitBorrow<'a> for (T, U, V) {
    type SplitParts = (&'a mut T, &'a mut U, &'a mut V);

    fn split(&'a mut self) -> (r: Self::SplitParts)
        ensures
            *r.0 == old(self).0,
            *r.1 == old(self).1,
            *r.2 == old(self).2,
            *final(self) == (*final(r.0), *final(r.1), *final(r.2)),
    {
        let (first, second, third) = self;
        (first, second, third)
    }
}

/// Hands out exclusive borrows of parts of one value, one projection at a
/// time. Projections whose borrows are held together must pick disjoint parts.
pub struct FieldSplit<'a, T> {
    parent: &'a mut T,
}

impl<'a, T> FieldSplit<'a, T> {
    /// The value the splitter borrows, as it stands now.
    pub closed spec fn view(&self) -> T {
        *self.parent
    }

    /// The exclusive borrow the splitter holds.
    pub closed spec fn parent_ref(&self) -> &'a mut T {
        self.parent
    }

    /// A splitter over the exclusive borrow `parent`: what the splitter holds
    /// when it ends is what `parent` holds afterwards.
    pub fn new(parent: &'a mut T) -> (r: Self)
        ensures
            r.view() == *old(parent),
            *final(r.parent_ref()) == *final(parent),
    {
        FieldSplit { parent }
    }

    /// End the splitter, leaving its value in the borrowed place.
    pub fn finish(self)
        ensures
            *final(self.parent_ref()) == self.view(),
    {
    }

    /// The borrow of one part of the value, as `proj` picks it out.
    pub fn field<F, U>(&mut self, proj: F) -> (r: &mut U)
        where
            F: FnOnce(&mut T) -> &mut U,
        requires
            forall|p: &mut T| *p == old(self).view() ==> proj.requires((p,)),
        ensures
            *final(final(self).parent_ref()) == *final(old(self).parent_ref()),
            exists|p: &mut T|
                *p == old(self).view() && *final(p) == final(self).view() && proj.ensures(
                    (p,),
                    r,
                ),
    {
        proj(self.parent)
    }
}

/// A value whose contents can be swapped for a copy made on demand before it
/// is changed.
pub struct CowCell<T> {
    inner: T,
}

impl<T> CowCell<T> {
    /// The value held.
    pub closed spec fn view(&self) -> T {
        self.inner
    }

    /// Wrap `value`.
    pub fn new(value: T) -> (r: Self)
        ensures
            r.view() == value,
    {
        CowCell { inner: value }
    }

    /// A shared borrow of the value.
    pub fn get(&self) -> (r: &T)
        ensures
            *r == self.view(),
    {
        &self.inner
    }

    /// The exclusive borrow of the value.
    pub fn get_mut(&mut self) -> (r: &mut T)
        ensures
            *r == old(self).view(),
            final(self).view() == *final(r),
    {
        &mut self.inner
    }

    /// Replace the value by the copy `clone_fn` makes of it, then call `f` on
    /// the exclusive borrow of that copy and return what `f` returns.
    pub fn with_cow<R, F, C>(&mut self, clone_fn: C, f: F) -> (r: R)
        where
            F: FnOnce(&mut T) -> R,
            C: FnOnce(&T) -> T,
        requires
            clone_fn.requires((&old(self).view(),)),
            forall|c: T, b: &mut T|
                clone_fn.ensures((&old(self).view(),), c) && *b == c ==> f.requires((b,)),
        ensures
            exists|c: T, b: &mut T|
                clone_fn.ensures((&old(self).view(),), c) && *b == c && *final(b)
                    == final(self).view() && f.ensures((b,), r),
    {
        let cloned = clone_fn(&self.inner);
        self.inner = cloned;
        f(&mut self.inner)
    }
}

/// A value that can be read, replaced and updated in place.
pub struct MutShared<T>(T);

impl<T: Copy> MutShared<T> {
    /// The value held.
    pub closed spec fn view(&self) -> T {
        self.0
    }

    /// Wrap `value`.
    pub fn new(value: T) -> (r: Self)
        ensures
            r.view() == value,
    {
        MutShared(value)
    }

    /// The current value.
    pub fn get(&self) -> (r: T)
        ensures
            r == self.view(),
    {
        self.0
    }

    /// The wrapper once `value` is set in it.
    pub closed spec fn with_value(self, value: T) -> Self {
        MutShared(value)
    }

    /// The wrapper after `values` are set in it, one after the other.
    pub open spec fn after_sets(self, values: Seq<T>) -> Self
        decreases values.len(),
    {
        if values.len() == 0 {
            self
        } else {
            self.after_sets(values.drop_last()).with_value(values.last())
        }
    }

    /// After any series of `set` calls the value held is the one set last,
    /// or the first value when nothing was set; reading it changes nothing.
    pub proof fn lemma_last_set_wins(self, values: Seq<T>)
        ensures
            self.after_sets(values).view() == if values.len() == 0 {
                self.view()
            } else {
                values.last()
            },
    {
    }

    /// Replace the value.
    pub fn set(&mut self, value: T)
        ensures
            *final(self) == old(self).with_value(value),
            final(self).view() == value,
    {
        self.0 = value;
    }

    /// Replace the value by `f` applied to it.
    pub fn update<F: FnOnce(T) -> T>(&mut self, f: F)
        requires
            f.requires((old(self).view(),)),
        ensures
            f.ensures((old(self).view(),), final(self).view()),
    {
        let old = self.get();
        self.set(f(old));
    }
}

} // verus!
