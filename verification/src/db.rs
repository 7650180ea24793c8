//! The user store as the flows see it: the requests they make of it, and what
//! they read of its failures.

use crate::errors::{default_error, AppError};
use crate::models::{UpdateProfile, UpdateProfileView};
use vstd::prelude::*;
use vstd::string::StringExecFns;

verus! {

/// The SQLSTATE code by which the store reports that a value which must be
/// unique is already taken.
pub const UNIQUE_VIOLATION_CODE: &'static str = "23505";

/// A failure of the user store.
#[derive(Debug, Clone, PartialEq, Eq)]
pub enum StoreError {
    /// The database refused the statement. `code` is its SQLSTATE code and
    /// `column` the column concerned, where the database names them.
    Database { code: Option<String>, column: Option<String> },
    /// Any other failure: the connection, the pool, a row that cannot be read.
    Other,
}

/// The identifier that a signup collided on.
#[derive(Debug, Clone, Copy, PartialEq, Eq, Structural)]
pub enum Conflict {
    Email,
    Username,
    /// The store did not say which of the two.
    Unnamed,
}

/// A request to the user store.
#[derive(Debug, Clone, PartialEq, Eq)]
pub enum StoreRequest {
    /// Insert a user; the store gives the stored row back.
    Insert { username: String, email: String, password_hash: String },
    /// Set the profile fields of a user; the store gives the stored row back.
    UpdateProfile { user_id: u128, profile: UpdateProfile },
    /// Look a user up by what they log in with: user name or email, in the
    /// case in which it is stored.
    FindByIdentifier { identifier: String },
    /// Look a user up by id.
    FindById { id: u128 },
}

/// The mathematical content of a [`StoreError`].
pub ghost enum StoreErrorView {
    Database { code: Option<Seq<char>>, column: Option<Seq<char>> },
    Other,
}

/// The mathematical content of a [`StoreRequest`].
pub ghost enum StoreRequestView {
    Insert { username: Seq<char>, email: Seq<char>, password_hash: Seq<char> },
    UpdateProfile { user_id: u128, profile: UpdateProfileView },
    FindByIdentifier { identifier: Seq<char> },
    FindById { id: u128 },
}

impl View for StoreError {
    type V = StoreErrorView;

    open spec fn view(&self) -> StoreErrorView {
        match self {
            StoreError::Database { code, column } => StoreErrorView::Database {
                code: code.deep_view(),
                column: column.deep_view(),
            },
            StoreError::Other => StoreErrorView::Other,
        }
    }
}

impl View for StoreRequest {
    type V = StoreRequestView;

    open spec fn view(&self) -> StoreRequestView {
        match self {
            StoreRequest::Insert { username, email, password_hash } => StoreRequestView::Insert {
                username: username@,
                email: email@,
                password_hash: password_hash@,
            },
            StoreRequest::UpdateProfile { user_id, profile } => StoreRequestView::UpdateProfile {
                user_id: *user_id,
                profile: profile@,
            },
            StoreRequest::FindByIdentifier { identifier } => StoreRequestView::FindByIdentifier {
                identifier: identifier@,
            },
            StoreRequest::FindById { id } => StoreRequestView::FindById { id: *id },
        }
    }
}

/// The identifier that a failure says is taken, if that is what it says: the
/// code is the one of a unique violation, and the column is `email`,
/// `username` or not named. A unique violation on any other column is none.
pub open spec fn conflict_of(error: StoreErrorView) -> Option<Conflict> {
    match error {
        StoreErrorView::Database { code: Some(code), column } => if code
            != UNIQUE_VIOLATION_CODE@ {
            None
        } else {
            match column {
                None => Some(Conflict::Unnamed),
                Some(name) => if name == "email"@ {
                    Some(Conflict::Email)
                } else if name == "username"@ {
                    Some(Conflict::Username)
                } else {
                    None
                },
            }
        },
        _ => None,
    }
}

/// Whether `text` is exactly `literal`.
fn text_is(text: &String, literal: &str) -> (r: bool)
    ensures
        r == (text@ == literal@),
{
    *text == String::from_str(literal)
}

/// Decides what a handler gets when it asks the request for the store: the
/// handle, or a refusal as not authorized where the request has none.
pub fn from_request<P>(pool: Option<P>) -> (r: Result<P, AppError>)
    ensures
        match pool {
            Some(handle) => r == Ok::<P, AppError>(handle),
            None => r matches Err(error) && error@ == default_error(AppError::NOT_AUTHORIZED as int),
        },
{
    match pool {
        Some(handle) => Ok(handle),
        None => Err(AppError::not_authorized().default()),
    }
}

impl StoreError {
    /// The identifier that this failure says is already taken, if any.
    pub fn conflict(&self) -> (r: Option<Conflict>)
        ensures
            r == conflict_of(self@),
    {
        match self {
            StoreError::Database { code: Some(code), column } => {
                if !text_is(code, UNIQUE_VIOLATION_CODE) {
                    None
                } else {
                    match column {
                        None => Some(Conflict::Unnamed),
                        Some(name) => {
                            if text_is(name, "email") {
                                Some(Conflict::Email)
                            } else if text_is(name, "username") {
                                Some(Conflict::Username)
                            } else {
                                None
                            }
                        },
                    }
                }
            },
            _ => None,
        }
    }
}

} // verus!
