//! The flows of the service, each as a state machine.
//!
//! A flow never waits. It starts from what the request boundary extracted and
//! answers with an [`Action`]: either a [`Request`] that the caller must carry
//! out against the user store or the password hasher, or the response that
//! ends the flow. The caller hands the [`Reply`] to the flow's state, which
//! answers with the next action.

use crate::config::crypto::CryptoError;
use crate::db::{StoreError, StoreErrorView, StoreRequest, StoreRequestView};
use crate::errors::{AppError, AppErrorView};
use crate::models::{User, UserView};
use vstd::prelude::*;

pub mod auth;
pub mod user;

verus! {

/// Work that a flow asks its caller to do.
#[derive(Debug, Clone, PartialEq, Eq)]
pub enum Request {
    /// Ask the user store.
    Store(StoreRequest),
    /// Hash a password under the server's key.
    HashPassword { password: String },
    /// Tell whether a password matches a stored hash.
    VerifyPassword { password: String, password_hash: String },
}

/// The outcome of a [`Request`].
#[derive(Debug, Clone, PartialEq, Eq)]
pub enum Reply {
    /// The store's answer to a look-up: the user, if there is one.
    Found(Option<User>),
    /// The store's answer to an insert or an update: the row as stored.
    Stored(User),
    /// The store failed.
    StoreFailed(StoreError),
    /// The hasher's answer to `HashPassword`: the hash.
    Hashed(String),
    /// The hasher's answer to `VerifyPassword`: whether the password matches.
    /// A mismatch is `Verified(false)`, not a failure.
    Verified(bool),
    /// The hasher failed: it could not compute, or could not read the hash.
    HasherFailed(CryptoError),
}

/// What a flow wants next: outside work, or to end with a response.
#[derive(Debug, PartialEq, Eq)]
pub enum Action<T> {
    Call(Request),
    Respond(Result<T, AppError>),
}

/// The mathematical content of a [`Request`].
pub ghost enum RequestView {
    Store(StoreRequestView),
    HashPassword { password: Seq<char> },
    VerifyPassword { password: Seq<char>, password_hash: Seq<char> },
}

/// The mathematical content of a [`Reply`].
pub ghost enum ReplyView {
    Found(Option<UserView>),
    Stored(UserView),
    StoreFailed(StoreErrorView),
    Hashed(Seq<char>),
    Verified(bool),
    HasherFailed(CryptoError),
}

/// The mathematical content of an [`Action`].
pub ghost enum ActionView<V> {
    Call(RequestView),
    Respond(Result<V, AppErrorView>),
}

impl View for Request {
    type V = RequestView;

    open spec fn view(&self) -> RequestView {
        match self {
            Request::Store(request) => RequestView::Store(request@),
            Request::HashPassword { password } => RequestView::HashPassword { password: password@ },
            Request::VerifyPassword { password, password_hash } => RequestView::VerifyPassword {
                password: password@,
                password_hash: password_hash@,
            },
        }
    }
}

impl View for Reply {
    type V = ReplyView;

    open spec fn view(&self) -> ReplyView {
        match self {
            Reply::Found(Some(user)) => ReplyView::Found(Some(user@)),
            Reply::Found(None) => ReplyView::Found(None),
            Reply::Stored(user) => ReplyView::Stored(user@),
            Reply::StoreFailed(error) => ReplyView::StoreFailed(error@),
            Reply::Hashed(hash) => ReplyView::Hashed(hash@),
            Reply::Verified(matches) => ReplyView::Verified(*matches),
            Reply::HasherFailed(error) => ReplyView::HasherFailed(*error),
        }
    }
}

impl<T: View> View for Action<T> {
    type V = ActionView<T::V>;

    open spec fn view(&self) -> ActionView<T::V> {
        match self {
            Action::Call(request) => ActionView::Call(request@),
            Action::Respond(Ok(value)) => ActionView::Respond(Ok(value@)),
            Action::Respond(Err(error)) => ActionView::Respond(Err(error@)),
        }
    }
}

impl<V> ActionView<V> {
    /// The action that ends a flow with the given error.
    pub open spec fn fail(error: AppErrorView) -> ActionView<V> {
        ActionView::Respond(Err(error))
    }
}

} // verus!
