use vstd::prelude::*;

verus! {

/// Dropping or rewriting the error of a `Result`.
pub trait ResultExt<T, E> {
    /// The result itself.
    spec fn as_result(&self) -> Result<T, E>;

    /// The value on success, `None` on error.
    fn ignore_err(self) -> (r: Option<T>)
        ensures
            self.as_result() is Ok ==> r == Some(self.as_result()->Ok_0),
            self.as_result() is Err ==> r is None,
    ;

    /// The same success; an error replaced by what `f` makes of it.
    fn map_err_with<F>(self, f: F) -> (r: Result<T, E>)
        where
            F: FnOnce(&E) -> E,
        requires
            self.as_result() is Err ==> f.requires((&self.as_result()->Err_0,)),
        ensures
            self.as_result() is Ok ==> r == self.as_result(),
            self.as_result() is Err ==> r is Err && f.ensures(
                (&self.as_result()->Err_0,),
                r->Err_0,
            ),
    ;
}

impl<T, E> ResultExt<T, E> for Result<T, E> {
    open spec fn as_result(&self) -> Result<T, E> {
        *self
    }

    fn ignore_err(self) -> (r: Option<T>) {
        match self {
            Ok(value) => Some(value),
            Err(_) => None,
        }
    }

    fn map_err_with<F>(self, f: F) -> (r: Result<T, E>)
        where
            F: FnOnce(&E) -> E,
    {
        match self {
            Ok(value) => Ok(value),
            Err(e) => Err(f(&e)),
        }
    }
}

} // verus!
