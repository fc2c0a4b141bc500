use vstd::prelude::*;

verus! {

/// Classification of every failure a core operation can report.
///
/// `NotFound`, `Unauthorized` and `ValidationError` are ordinary,
/// caller-correctable outcomes.  `UserError` covers other caller-caused
/// faults such as a request of the wrong shape, while `AppError` marks an
/// internal invariant violation and `StorageFailure` a fault of the
/// backing store.
#[derive(Clone, Copy, Debug, PartialEq, Eq, Structural)]
pub enum ErrorKinds {
    NotFound,
    Unauthorized,
    ValidationError,
    StorageFailure,
    UserError,
    AppError,
}

impl ErrorKinds {
    /// True for the outcomes a caller is expected to handle and correct,
    /// as opposed to substrate faults and internal invariant violations.
    pub open spec fn spec_is_user_correctable(self) -> bool {
        match self {
            ErrorKinds::NotFound => true,
            ErrorKinds::Unauthorized => true,
            ErrorKinds::ValidationError => true,
            ErrorKinds::UserError => true,
            ErrorKinds::StorageFailure => false,
            ErrorKinds::AppError => false,
        }
    }

    pub fn is_user_correctable(&self) -> (r: bool)
        ensures
            r == self.spec_is_user_correctable(),
    {
        match self {
            ErrorKinds::StorageFailure => false,
            ErrorKinds::AppError => false,
            _ => true,
        }
    }

    /// A human-readable description of the failure class.
    pub fn message(&self) -> (r: String) {
        match self {
            ErrorKinds::NotFound => String::from_str("entity not found"),
            ErrorKinds::Unauthorized => String::from_str("caller is not a current editor"),
            ErrorKinds::ValidationError => String::from_str("malformed input"),
            ErrorKinds::StorageFailure => String::from_str("backing store failure"),
            ErrorKinds::UserError => String::from_str("request of the wrong shape"),
            ErrorKinds::AppError => String::from_str("internal invariant violation"),
        }
    }
}

/// The result type threaded through every core operation.
pub type AppResult<T> = Result<T, ErrorKinds>;

} // verus!
