//! The failures that the account and profile operations report.
use vstd::prelude::*;

verus! {

/// Why an operation on the user store did not succeed.
#[derive(Clone, Copy, Debug, PartialEq, Eq, Structural)]
pub enum AuthError {
    /// The requested row does not exist.
    Absent,
    /// A uniqueness rule of the schema would be broken.
    Conflict,
    /// The credentials do not open any account: the email is unknown or the
    /// password is wrong. The two are deliberately not told apart.
    Unauthorized,
    /// Hashing failed, the store failed, or the store broke its own rules.
    Internal,
}

impl AuthError {
    /// A short lower-case label for the failure.
    pub fn label(&self) -> (r: &'static str)
        ensures
            r@ == match *self {
                AuthError::Absent => "absent"@,
                AuthError::Conflict => "conflict"@,
                AuthError::Unauthorized => "unauthorized"@,
                AuthError::Internal => "internal"@,
            },
    {
        match self {
            AuthError::Absent => "absent",
            AuthError::Conflict => "conflict",
            AuthError::Unauthorized => "unauthorized",
            AuthError::Internal => "internal",
        }
    }

    /// Classifies a failure of the relational store by its SQLSTATE code:
    /// `23505`, a unique-constraint violation, is a `Conflict`; every other
    /// code, and a failure that carries none, is `Internal`.
    pub fn from_sqlstate(code: &Option<String>) -> (r: AuthError)
        ensures
            r == if *code matches Some(c) && c@ == "23505"@ {
                AuthError::Conflict
            } else {
                AuthError::Internal
            },
    {
        match code {
            Some(c) => {
                let unique_violation = String::from_str("23505");
                if *c == unique_violation {
                    AuthError::Conflict
                } else {
                    AuthError::Internal
                }
            },
            None => AuthError::Internal,
        }
    }
}

} // verus!
