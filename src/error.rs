use vstd::prelude::*;
use vstd::string::StringExecFns;

verus! {

/// The closed set of failures the application reports.
#[derive(Debug, Clone, PartialEq, Eq)]
pub enum AppError {
    /// A user with the same email (compared without ASCII case) exists.
    DuplicateEmail,
    /// The email is unknown or the password does not match it.
    InvalidCredentials,
    /// The request carries no token.
    NoToken,
    /// The token is malformed, badly signed or expired.
    InvalidToken,
    /// The user named by a valid token cannot be loaded.
    UserGone,
    /// No todo has the requested id.
    NotFound,
    /// A todo title is empty or blank.
    ValidationError,
    /// A server-side facility (the database, the password hasher, the token
    /// signer) failed; the text says how.
    StorageError(String),
}

/// The human-readable text of each failure.
pub open spec fn message_of(e: AppError) -> Seq<char> {
    match e {
        AppError::DuplicateEmail => "the email is already in use."@,
        AppError::InvalidCredentials => "invalid email or password."@,
        AppError::NoToken => "You are not logged in, please provide token"@,
        AppError::InvalidToken => "Invalid token"@,
        AppError::UserGone => "The user belonging to this token no longer exists"@,
        AppError::NotFound => "todo does not exist in the database."@,
        AppError::ValidationError => "You must enter at least one title for the Todo"@,
        AppError::StorageError(detail) => detail@,
    }
}

impl AppError {
    /// The text shown to the user for this failure.
    pub fn message(&self) -> (r: String)
        ensures
            r@ == message_of(*self),
    {
        match self {
            AppError::DuplicateEmail => String::from_str("the email is already in use."),
            AppError::InvalidCredentials => String::from_str("invalid email or password."),
            AppError::NoToken => String::from_str("You are not logged in, please provide token"),
            AppError::InvalidToken => String::from_str("Invalid token"),
            AppError::UserGone => String::from_str(
                "The user belonging to this token no longer exists",
            ),
            AppError::NotFound => String::from_str("todo does not exist in the database."),
            AppError::ValidationError => String::from_str(
                "You must enter at least one title for the Todo",
            ),
            AppError::StorageError(detail) => detail.clone(),
        }
    }
}

} // verus!
