use vstd::prelude::*;

verus! {

/// Every way a registration or login request can fail.
#[derive(Debug, Clone, Copy, PartialEq, Eq, Structural)]
pub enum AuthError {
    /// The username already belongs to a credential record.
    UsernameTaken,
    /// No credential record carries the username.
    UserNotFound,
    /// The supplied password does not match the stored hash.
    InvalidPassword,
    /// Hashing, signing or storage failed.
    InternalError,
}

/// The HTTP status under which each error is reported.
pub open spec fn status_of(e: AuthError) -> u16 {
    match e {
        AuthError::UsernameTaken => 409,
        AuthError::UserNotFound => 404,
        AuthError::InvalidPassword => 403,
        AuthError::InternalError => 500,
    }
}

/// The text placed under `"error"` in the JSON body of each error response.
pub open spec fn message_of(e: AuthError) -> Seq<char> {
    match e {
        AuthError::UsernameTaken => "Username already exists"@,
        AuthError::UserNotFound => "User not found"@,
        AuthError::InvalidPassword => "Invalid password"@,
        AuthError::InternalError => "Database error"@,
    }
}

impl AuthError {
    pub fn status_code(&self) -> (r: u16)
        ensures
            r == status_of(*self),
    {
        match self {
            AuthError::UsernameTaken => 409,
            AuthError::UserNotFound => 404,
            AuthError::InvalidPassword => 403,
            AuthError::InternalError => 500,
        }
    }

    pub fn message(&self) -> (r: String)
        ensures
            r@ == message_of(*self),
    {
        match self {
            AuthError::UsernameTaken => "Username already exists".to_owned(),
            AuthError::UserNotFound => "User not found".to_owned(),
            AuthError::InvalidPassword => "Invalid password".to_owned(),
            AuthError::InternalError => "Database error".to_owned(),
        }
    }
}

} // verus!
