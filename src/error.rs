//! Why an operation of the library failed.

use vstd::prelude::*;

verus! {

/// A session cookie pair that does not stand for a session.
#[derive(Clone, Copy, Debug, PartialEq, Eq, Structural)]
pub enum AuthFailure {
    /// One of the two cookies is absent.
    NoSession,
    /// The secret names no session of the cookie's user.
    InvalidSession,
}

/// A sign-up that was refused. When several apply, the first one listed wins.
#[derive(Clone, Copy, Debug, PartialEq, Eq, Structural)]
pub enum SignupFailure {
    UsernameTooShort,
    UsernameInvalidChars,
    PasswordMismatch,
    PasswordTooShort,
    UsernameTaken,
}

/// A log-in that was refused.
#[derive(Clone, Copy, Debug, PartialEq, Eq, Structural)]
pub enum LoginFailure {
    UnknownUser,
    WrongPassword,
}

/// Why an operation failed.
#[derive(Clone, Copy, Debug, PartialEq, Eq, Structural)]
pub enum Failure {
    Auth(AuthFailure),
    Signup(SignupFailure),
    Login(LoginFailure),
    /// The password given for a privileged action is wrong, or its account is gone.
    PrivilegedVerificationFailed,
    /// No password hash could be made.
    Hashing,
    /// The store gave a reply of an unexpected shape.
    Store,
}

} // verus!
