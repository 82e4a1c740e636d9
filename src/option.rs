use vstd::prelude::*;

verus! {

/// Mapping an `Option` with a fallback, or through a fallible function.
pub trait OptionExt<T> {
    /// The option itself.
    spec fn as_option(&self) -> Option<T>;

    /// `f` applied to the value if there is one, else `default`.
    fn map_or_default<U, F>(self, default: U, f: F) -> (r: U)
        where
            F: FnOnce(T) -> U,
        requires
            self.as_option() is Some ==> f.requires((self.as_option()->0,)),
        ensures
            self.as_option() is None ==> r == default,
            self.as_option() is Some ==> f.ensures((self.as_option()->0,), r),
    ;

    /// `Ok(None)` when there is no value; otherwise what `f` gives for the
    /// value, its success wrapped in `Some`.
    fn try_map<U, E, F>(self, f: F) -> (r: Result<Option<U>, E>)
        where
            F: FnOnce(T) -> Result<U, E>,
        requires
            self.as_option() is Some ==> f.requires((self.as_option()->0,)),
        ensures
            self.as_option() is None ==> r == Ok::<Option<U>, E>(None),
            self.as_option() is Some ==> match r {
                Ok(Some(u)) => f.ensures((self.as_option()->0,), Ok::<U, E>(u)),
                Ok(None) => false,
                Err(e) => f.ensures((self.as_option()->0,), Err::<U, E>(e)),
            },
    ;
}

impl<T> OptionExt<T> for Option<T> {
    open spec fn as_option(&self) -> Option<T> {
        *self
    }

    fn map_or_default<U, F>(self, default: U, f: F) -> (r: U)
        where
            F: FnOnce(T) -> U,
    {
        match self {
            Some(value) => f(value),
            None => default,
        }
    }

    fn try_map<U, E, F>(self, f: F) -> (r: Result<Option<U>, E>)
        where
            F: FnOnce(T) -> Result<U, E>,
    {
        match self {
            Some(value) => match f(value) {
                Ok(u) => Ok(Some(u)),
                Err(e) => Err(e),
            },
            None => Ok(None),
        }
    }
}

} // verus!
