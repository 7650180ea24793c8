//! The errors that the service reports to its callers.
//!
//! Every failure that leaves the service is an [`AppError`]: a numeric code,
//! which fixes the HTTP status, and a message for the caller. Internal detail
//! never travels in the message.

use vstd::prelude::*;
use vstd::string::StringExecFns;

verus! {

/// The numeric code of an [`AppError`].
#[derive(Debug, Clone, Copy, PartialEq, Eq)]
pub struct AppErrorCode(i32);

/// A failure as the caller sees it.
#[derive(Debug, Clone, PartialEq, Eq)]
pub struct AppError {
    message: String,
    code: AppErrorCode,
}

/// The mathematical content of an [`AppError`].
pub ghost struct AppErrorView {
    pub message: Seq<char>,
    pub code: int,
}

impl View for AppErrorCode {
    type V = int;

    closed spec fn view(&self) -> int {
        self.0 as int
    }
}

impl View for AppError {
    type V = AppErrorView;

    closed spec fn view(&self) -> AppErrorView {
        AppErrorView { message: self.message@, code: self.code@ }
    }
}

/// The message that goes with a code when the caller is told nothing more
/// specific.
pub open spec fn default_message(code: int) -> Seq<char> {
    if code == AppError::INVALID_INPUT {
        "Invalid input."@
    } else if code == AppError::INVALID_CREDENTIALS {
        "Invalid username or password provided"@
    } else if code == AppError::NOT_AUTHORIZED {
        "Not authorized."@
    } else if code == AppError::NOT_FOUND {
        "Item not found."@
    } else {
        "An unexpected error has occurred."@
    }
}

/// The HTTP status that a code is answered with.
pub open spec fn status_of(code: int) -> int {
    if code == AppError::INVALID_INPUT {
        400
    } else if code == AppError::NOT_FOUND {
        404
    } else if code == AppError::INVALID_CREDENTIALS || code == AppError::NOT_AUTHORIZED {
        401
    } else {
        500
    }
}

/// The error with the given code and its default message.
pub open spec fn default_error(code: int) -> AppErrorView {
    AppErrorView { message: default_message(code), code }
}

/// The error that stands for any failure the service did not foresee.
pub open spec fn unexpected_error() -> AppErrorView {
    AppErrorView { message: "An unexpected error ocurred."@, code: AppError::INTERNAL_ERROR as int }
}

impl AppErrorCode {
    /// The code as a number.
    pub fn value(&self) -> (r: i32)
        ensures
            r == self@,
    {
        self.0
    }

    /// An error with this code and the given message.
    pub fn message(self, message: String) -> (r: AppError)
        ensures
            r@ == (AppErrorView { message: message@, code: self@ }),
    {
        AppError { message, code: self }
    }

    /// An error with this code and the message that belongs to it.
    pub fn default(self) -> (r: AppError)
        ensures
            r@ == default_error(self@),
    {
        let message = if self.0 == AppError::INVALID_INPUT {
            String::from_str("Invalid input.")
        } else if self.0 == AppError::INVALID_CREDENTIALS {
            String::from_str("Invalid username or password provided")
        } else if self.0 == AppError::NOT_AUTHORIZED {
            String::from_str("Not authorized.")
        } else if self.0 == AppError::NOT_FOUND {
            String::from_str("Item not found.")
        } else {
            String::from_str("An unexpected error has occurred.")
        };
        AppError { message, code: self }
    }
}

impl AppError {
    /// Something failed that the caller can do nothing about.
    pub const INTERNAL_ERROR: i32 = 1001;

    /// The content of the request was refused.
    pub const INVALID_INPUT: i32 = 2001;

    /// The login was refused.
    pub const INVALID_CREDENTIALS: i32 = 3001;

    /// The request carried no acceptable proof of identity.
    pub const NOT_AUTHORIZED: i32 = 3002;

    /// What was asked for does not exist.
    pub const NOT_FOUND: i32 = 4001;

    /// The code of a failure that the caller can do nothing about.
    pub fn internal_error() -> (r: AppErrorCode)
        ensures
            r@ == Self::INTERNAL_ERROR,
    {
        AppErrorCode(Self::INTERNAL_ERROR)
    }

    /// The code of a request whose content was refused.
    pub fn invalid_input() -> (r: AppErrorCode)
        ensures
            r@ == Self::INVALID_INPUT,
    {
        AppErrorCode(Self::INVALID_INPUT)
    }

    /// The code of a login that was refused.
    pub fn invalid_credentials() -> (r: AppErrorCode)
        ensures
            r@ == Self::INVALID_CREDENTIALS,
    {
        AppErrorCode(Self::INVALID_CREDENTIALS)
    }

    /// The code of a request that carried no acceptable proof of identity.
    pub fn not_authorized() -> (r: AppErrorCode)
        ensures
            r@ == Self::NOT_AUTHORIZED,
    {
        AppErrorCode(Self::NOT_AUTHORIZED)
    }

    /// The code of a request for something that does not exist.
    pub fn not_found() -> (r: AppErrorCode)
        ensures
            r@ == Self::NOT_FOUND,
    {
        AppErrorCode(Self::NOT_FOUND)
    }

    /// The error that any unforeseen failure turns into: the caller learns
    /// that something went wrong and nothing else.
    pub fn unexpected() -> (r: AppError)
        ensures
            r@ == unexpected_error(),
    {
        Self::internal_error().message(String::from_str("An unexpected error ocurred."))
    }

    /// The code of this error.
    pub fn code(&self) -> (r: AppErrorCode)
        ensures
            r@ == self@.code,
    {
        self.code
    }

    /// The message of this error.
    pub fn text(&self) -> (r: &str)
        ensures
            r@ == self@.message,
    {
        self.message.as_str()
    }

    /// A second error with the same code and message.
    pub fn duplicate(&self) -> (r: AppError)
        ensures
            r@ == self@,
    {
        AppError { message: self.message.clone(), code: self.code }
    }

    /// The HTTP status that this error is answered with.
    pub fn status_code(&self) -> (r: u16)
        ensures
            r == status_of(self@.code),
    {
        let code = self.code.0;
        if code == Self::INVALID_INPUT {
            400
        } else if code == Self::NOT_FOUND {
            404
        } else if code == Self::INVALID_CREDENTIALS || code == Self::NOT_AUTHORIZED {
            401
        } else {
            500
        }
    }
}

} // verus!
