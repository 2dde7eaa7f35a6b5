//! Forgetting what an `Option` or a `Result` carries on success.

use vstd::prelude::*;

verus! {

/// Values that can forget what they carry on success and keep only that
/// they succeeded.
pub trait Unit {
    type UnitVariant;

    fn unit(self) -> Self::UnitVariant;
}

impl<T> Unit for Option<T> {
    type UnitVariant = Option<()>;

    /// `Some(())` for a value that is there, `None` for none.
    fn unit(self) -> (forgotten: Option<()>)
        ensures
            forgotten is Some <==> self is Some,
    {
        match self {
            Some(_) => Some(()),
            None => None,
        }
    }
}

impl<T, E> Unit for Result<T, E> {
    type UnitVariant = Result<(), E>;

    /// `Ok(())` for a success, and a failure with its error unchanged.
    fn unit(self) -> (forgotten: Result<(), E>)
        ensures
            match self {
                Ok(_) => forgotten == Ok::<(), E>(()),
                Err(error) => forgotten == Err::<(), E>(error),
            },
    {
        match self {
            Ok(_) => Ok(()),
            Err(error) => Err(error),
        }
    }
}

} // verus!
