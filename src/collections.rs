use vstd::prelude::*;

verus! {

/// Queries on vectors that answer without panicking.
pub trait VecExt<T> {
    /// The elements, in order.
    spec fn items(&self) -> Seq<T>;

    /// Whether every element satisfies `predicate`; true when there is none.
    fn all_or_empty<F>(&self, predicate: F) -> (r: bool)
        where
            F: Fn(&T) -> bool,
        requires
            forall|i: int| 0 <= i < self.items().len() ==> predicate.requires((&self.items()[i],)),
        ensures
            r ==> forall|i: int|
                0 <= i < self.items().len() ==> predicate.ensures((&self.items()[i],), true),
            !r ==> exists|i: int|
                0 <= i < self.items().len() && predicate.ensures((&self.items()[i],), false),
    ;

    /// The first element, if there is one.
    fn first_option(&self) -> (r: Option<&T>)
        ensures
            self.items().len() == 0 ==> r is None,
            self.items().len() > 0 ==> r == Some(&self.items()[0]),
    ;

    /// The last element, if there is one.
    fn last_option(&self) -> (r: Option<&T>)
        ensures
            self.items().len() == 0 ==> r is None,
            self.items().len() > 0 ==> r == Some(&self.items().last()),
    ;
}

impl<T> VecExt<T> for Vec<T> {
    open spec fn items(&self) -> Seq<T> {
        self@
    }

    fn all_or_empty<F>(&self, predicate: F) -> (r: bool)
        where
            F: Fn(&T) -> bool,
    {
        let mut i: usize = 0;
        while i < self.len()
            invariant
                0 <= i <= self@.len(),
                forall|k: int| 0 <= k < self.items().len() ==> predicate.requires((&self.items()[k],)),
                forall|k: int| 0 <= k < i ==> predicate.ensures((&self.items()[k],), true),
            decreases self@.len() - i,
        {
            let item: &T = &self[i];
            assert(predicate.requires((&self.items()[i as int],)));
            assert(*item == self.items()[i as int]);
            let ok = predicate(item);
            if !ok {
                assert(predicate.ensures((&self.items()[i as int],), false));
                return false;
            }
            i = i + 1;
        }
        true
    }

    fn first_option(&self) -> (r: Option<&T>) {
        if self.len() == 0 {
            None
        } else {
            Some(&self[0])
        }
    }

    fn last_option(&self) -> (r: Option<&T>) {
        if self.len() == 0 {
            None
        } else {
            Some(&self[self.len() - 1])
        }
    }
}

/// Whether the results hold an error.
pub open spec fn has_err<T, E>(rs: Seq<Result<T, E>>) -> bool {
    exists|i: int| 0 <= i < rs.len() && rs[i] is Err
}

/// Turning a vector of results into one result.
pub trait ResultVecExt<T, E> {
    /// The results, in order.
    spec fn results(&self) -> Seq<Result<T, E>>;

    /// All the values, in order, when every result is `Ok`; otherwise the
    /// first error.
    fn collect_results(self) -> (r: Result<Vec<T>, E>)
        ensures
            !has_err(self.results()) <==> r is Ok,
            r is Ok ==> r->Ok_0@.len() == self.results().len() && forall|i: int|
                0 <= i < self.results().len() ==> self.results()[i] == Ok::<T, E>(
                    #[trigger] r->Ok_0@[i],
                ),
            r is Err ==> exists|i: int|
                0 <= i < self.results().len() && self.results()[i] == Err::<T, E>(r->Err_0)
                    && forall|k: int| 0 <= k < i ==> self.results()[k] is Ok,
    ;
}

impl<T, E> ResultVecExt<T, E> for Vec<Result<T, E>> {
    open spec fn results(&self) -> Seq<Result<T, E>> {
        self@
    }

    fn collect_results(self) -> (r: Result<Vec<T>, E>) {
        let ghost rs = self@;
        let mut values: Vec<T> = Vec::with_capacity(self.len());
        for item in it: self
            invariant
                it.seq() == rs,
                values@.len() == it.index(),
                forall|k: int| 0 <= k < it.index() ==> rs[k] == Ok::<T, E>(#[trigger] values@[k]),
        {
            match item {
                Ok(value) => values.push(value),
                Err(e) => {
                    assert(rs[it.index() as int] == Err::<T, E>(e));
                    assert forall|k: int| 0 <= k < it.index() implies rs[k] is Ok by {
                        assert(rs[k] == Ok::<T, E>(values@[k]));
                    }
                    return Err(e);
                },
            }
        }
        assert(!has_err(rs)) by {
            assert forall|i: int| 0 <= i < rs.len() implies !(rs[i] is Err) by {
                assert(rs[i] == Ok::<T, E>(values@[i]));
            }
        }
        Ok(values)
    }
}

} // verus!
