//! The typed outcomes that the authentication core hands back to its callers.
use vstd::prelude::*;
use vstd::string::StringExecFns;

verus! {

/// One variant per kind of failure; the payload, where there is one, is the
/// email concerned or the repository's own detail.
#[derive(Debug)]
pub enum UserServiceError {
    /// The password does not meet the complexity rule.
    PasswordComplexityNotMet,
    /// The hashing primitive refused the password (it is longer than it takes).
    InvalidPassword(String),
    /// A credential already exists for this email and application.
    UserAlreadyExists(String),
    /// The old password did not authenticate.
    AuthenticationFailed,
    /// The repository failed; the detail is kept for logs.
    DatabaseError(String),
    /// No user has this email; never returned where that would reveal
    /// whether an email is registered.
    UserNotFound(String),
    /// No credential exists where one was expected.
    AccessNotFound,
}

/// `prefix` followed by `detail`.
fn joined(prefix: &str, detail: &String) -> (r: String)
    ensures
        r@ == prefix@ + detail@,
{
    let mut s = String::from_str(prefix);
    s.append(detail.as_str());
    s
}

/// The description of each error.
pub open spec fn error_message(e: &UserServiceError) -> Seq<char> {
    match e {
        UserServiceError::PasswordComplexityNotMet =>
            "Password does not meet complexity requirements: at least 8 characters, including uppercase, lowercase, and digit."@,
        UserServiceError::InvalidPassword(msg) => "Invalid password: "@ + msg@,
        UserServiceError::UserAlreadyExists(email) => "User already exists: "@ + email@,
        UserServiceError::AuthenticationFailed => "Authentication failed"@,
        UserServiceError::DatabaseError(msg) => "Database error: "@ + msg@,
        UserServiceError::UserNotFound(_) => "Unknown error"@,
        UserServiceError::AccessNotFound => "Access not found"@,
    }
}

impl UserServiceError {
    /// A human-readable description of the error.
    pub fn message(&self) -> (r: String)
        ensures
            r@ == error_message(self),
    {
        match self {
            UserServiceError::PasswordComplexityNotMet => String::from_str(
                "Password does not meet complexity requirements: at least 8 characters, including uppercase, lowercase, and digit.",
            ),
            UserServiceError::InvalidPassword(msg) => joined("Invalid password: ", msg),
            UserServiceError::UserAlreadyExists(email) => joined("User already exists: ", email),
            UserServiceError::AuthenticationFailed => String::from_str("Authentication failed"),
            UserServiceError::DatabaseError(msg) => joined("Database error: ", msg),
            UserServiceError::UserNotFound(_) => String::from_str("Unknown error"),
            UserServiceError::AccessNotFound => String::from_str("Access not found"),
        }
    }
}

} // verus!
