use vstd::prelude::*;

verus! {

use vstd::arithmetic::div_mod::{lemma_mod_self_0, lemma_small_mod};

/// How many elements are passed over before the next one a stride of `n`
/// yields, `phase` elements into the current stride.
pub open spec fn gap(phase: nat, n: nat) -> nat {
    if phase == 0 {
        0
    } else {
        (n - phase) as nat
    }
}

/// Taking a prefix, or every `n`th element, of a sequence of values.
pub trait IterExt<T>: Sized {
    /// The elements, in order.
    spec fn elements(&self) -> Seq<T>;

    /// The first `n` elements, or all of them when there are fewer.
    fn take_vec(self, n: usize) -> (r: Vec<T>)
        ensures
            n <= self.elements().len() ==> r@ == self.elements().take(n as int),
            n > self.elements().len() ==> r@ == self.elements(),
    ;

    /// The elements at positions `0`, `n`, `2n`, ... handed out one by one.
    fn every_nth(self, n: usize) -> (r: EveryNth<T>)
        requires
            n > 0,
        ensures
            r.wf(),
            r.remaining() == self.elements(),
            r.step() == n,
            r.phase() == 0,
    ;
}

impl<T> IterExt<T> for Vec<T> {
    open spec fn elements(&self) -> Seq<T> {
        self@
    }

    fn take_vec(self, n: usize) -> (r: Vec<T>) {
        let mut v = self;
        v.truncate(n);
        v
    }

    fn every_nth(self, n: usize) -> (r: EveryNth<T>) {
        let ghost all = self@;
        let mut src = self;
        let mut rest: Vec<T> = Vec::with_capacity(src.len());
        while src.len() > 0
            invariant
                src@ == all.take(src@.len() as int),
                src@.len() <= all.len(),
                rest@.len() == all.len() - src@.len(),
                forall|k: int| 0 <= k < rest@.len() ==> rest@[k] == all[all.len() - 1 - k],
            decreases src@.len(),
        {
            match src.pop() {
                Some(x) => {
                    rest.push(x);
                    proof {
                        assert(src@ =~= all.take(src@.len() as int));
                    }
                },
                None => {},
            }
        }
        assert(rest@.reverse() =~= all);
        EveryNth { rest, n, index: 0 }
    }
}

/// Hands out every `n`th element of a sequence: the first, then each one `n`
/// places after the last handed out.
pub struct EveryNth<T> {
    /// The elements not looked at yet, the next one last.
    rest: Vec<T>,
    n: usize,
    index: usize,
}

impl<T> EveryNth<T> {
    /// The elements not looked at yet.
    pub closed spec fn remaining(&self) -> Seq<T> {
        self.rest@.reverse()
    }

    /// The stride.
    pub closed spec fn step(&self) -> nat {
        self.n as nat
    }

    /// How many elements have been looked at since the last position that is
    /// a multiple of the stride.
    pub closed spec fn phase(&self) -> nat {
        self.index as nat
    }

    /// The stride is positive and the phase lies within it.
    pub closed spec fn wf(&self) -> bool {
        0 < self.n && self.index < self.n
    }

    /// The next element whose position is a multiple of the stride, passing
    /// over those before it; `None` once no such element is left.
    pub fn next(&mut self) -> (r: Option<T>)
        requires
            old(self).wf(),
        ensures
            final(self).wf(),
            final(self).step() == old(self).step(),
            ({
                let rem = old(self).remaining();
                let j = gap(old(self).phase(), old(self).step());
                if j < rem.len() {
                    &&& r == Some(rem[j as int])
                    &&& final(self).remaining() == rem.skip(j + 1int)
                    &&& final(self).phase() == if old(self).step() == 1 {
                        0nat
                    } else {
                        1nat
                    }
                } else {
                    &&& r is None
                    &&& final(self).remaining() == Seq::<T>::empty()
                    &&& final(self).phase() == (old(self).phase() + rem.len()) % old(self).step()
                }
            }),
    {
        let ghost rem = self.remaining();
        let ghost p = self.index as nat;
        let ghost j = gap(p, self.n as nat);
        let ghost mut c: nat = 0;
        loop
            invariant
                self.wf(),
                self.n == old(self).n,
                rem == old(self).remaining(),
                p == old(self).phase(),
                p < self.n,
                j == gap(p, self.n as nat),
                c <= j,
                c <= rem.len(),
                self.rest@.reverse() == rem.skip(c as int),
                self.index == if p + c < self.n {
                    p + c
                } else {
                    0
                },
            decreases self.rest@.len(),
        {
            if self.rest.len() == 0 {
                proof {
                    assert(rem.skip(c as int).len() == 0);
                    assert(c == rem.len());
                    if p + c < self.n {
                        lemma_small_mod((p + c) as nat, self.n as nat);
                    } else {
                        lemma_mod_self_0(self.n as int);
                    }
                }
                return None;
            }
            let ghost before = self.rest@;
            let item = match self.rest.pop() {
                Some(x) => x,
                None => {
                    return None;
                },
            };
            let index = self.index;
            self.index = if self.index + 1 == self.n {
                0
            } else {
                self.index + 1
            };
            proof {
                assert(item == before.last());
                assert(before.reverse().len() == before.len());
                assert(c < rem.len());
                assert(before.reverse()[0] == before.last());
                assert(rem.skip(c as int)[0] == rem[c as int]);
                assert(item == rem[c as int]);
                assert(index == 0 <==> c == j);
                c = c + 1;
                assert(self.rest@.reverse() =~= before.reverse().drop_first());
                assert(self.rest@.reverse() =~= rem.skip(c as int));
            }
            if index == 0 {
                return Some(item);
            }
        }
    }
}

} // verus!
