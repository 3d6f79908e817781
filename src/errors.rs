use vstd::prelude::*;

verus! {

/// The ways an operation on users can fail.
#[derive(Clone, Copy, Debug, PartialEq, Eq, Structural)]
pub enum ApiError {
    /// Another user already owns the email (a client error).
    DuplicateEmail,
    /// No user has the requested public identifier.
    NotFound,
    /// A login request carried no token.
    MissingToken,
    /// The table refused a row (a taken email or identifier, or no
    /// internal identifier left).
    ConstraintViolation,
    /// The password hasher failed.
    HashingError,
    /// No connection to the table could be had.
    ConnectionError,
}

/// The HTTP status that stands for each error.
pub open spec fn status_of(e: ApiError) -> u16 {
    match e {
        ApiError::DuplicateEmail => 400,
        ApiError::MissingToken => 400,
        ApiError::NotFound => 404,
        _ => 500,
    }
}

impl ApiError {
    /// The HTTP status code of the error.
    pub fn status(&self) -> (r: u16)
        ensures
            r == status_of(*self),
    {
        match self {
            ApiError::DuplicateEmail => 400,
            ApiError::MissingToken => 400,
            ApiError::NotFound => 404,
            _ => 500,
        }
    }

    /// The message sent to the client with the status.
    pub fn message(&self) -> (r: String)
        ensures
            *self == ApiError::DuplicateEmail ==> r@ == "A user with that email already exists"@,
            *self == ApiError::NotFound ==> r@ == "User not found"@,
            *self == ApiError::MissingToken ==> r@ == "Missing required token"@,
            *self == ApiError::ConstraintViolation ==> r@
                == "The row breaks a constraint of the users table"@,
            *self == ApiError::HashingError ==> r@ == "Failed hashing the password"@,
            *self == ApiError::ConnectionError ==> r@ == "Failed getting db connection"@,
    {
        let s: &str = match self {
            ApiError::DuplicateEmail => "A user with that email already exists",
            ApiError::NotFound => "User not found",
            ApiError::MissingToken => "Missing required token",
            ApiError::ConstraintViolation => "The row breaks a constraint of the users table",
            ApiError::HashingError => "Failed hashing the password",
            ApiError::ConnectionError => "Failed getting db connection",
        };
        String::from_str(s)
    }
}

} // verus!
