//! Signup and the two profile flows.

use crate::db::{
    conflict_of, Conflict, StoreError, StoreErrorView, StoreRequest, StoreRequestView,
    UNIQUE_VIOLATION_CODE,
};
use crate::errors::{default_error, unexpected_error, AppError, AppErrorView};
use crate::handlers::auth::AuthenticatedUser;
use crate::handlers::{Action, ActionView, Reply, ReplyView, Request, RequestView};
use crate::models::{
    new_user_errors, profile_errors, NewUser, NewUserErrors, NewUserView, ProfileErrors,
    UpdateProfile, UpdateProfileView, User, UserView,
};
use vstd::prelude::*;
use vstd::string::StringExecFns;

verus! {

/// Where a signup stands.
#[derive(Debug, Clone, PartialEq, Eq)]
pub enum SignupState {
    /// The password is with the hasher. The state keeps what goes to the store
    /// beside the hash; it does not keep the password.
    Hashing { username: String, email: String },
    /// The new user is with the store.
    Inserting,
    /// The flow has answered.
    Done,
}

/// The mathematical content of a [`SignupState`].
pub ghost enum SignupStateView {
    Hashing { username: Seq<char>, email: Seq<char> },
    Inserting,
    Done,
}

impl View for SignupState {
    type V = SignupStateView;

    open spec fn view(&self) -> SignupStateView {
        match self {
            SignupState::Hashing { username, email } => SignupStateView::Hashing {
                username: username@,
                email: email@,
            },
            SignupState::Inserting => SignupStateView::Inserting,
            SignupState::Done => SignupStateView::Done,
        }
    }
}

/// An error with the code of a refused input and the given message.
pub open spec fn invalid_input(message: Seq<char>) -> AppErrorView {
    AppErrorView { message, code: AppError::INVALID_INPUT as int }
}

/// What the caller is told of a signup body that broke a rule. Of several
/// broken rules the first is named: user name, then email, then password.
pub open spec fn signup_refusal(errors: NewUserErrors, user: NewUserView) -> Seq<char> {
    if errors.username {
        "Invalid username. \""@ + user.username + "\" is too short."@
    } else if errors.email {
        "Invalid email address \""@ + user.email + "\""@
    } else if errors.password {
        "Invalid password. Too short"@
    } else {
        "Invalid input."@
    }
}

/// What the caller is told when the store refuses the new user. A collision
/// names the identifier that is taken; nothing else of the failure shows.
pub open spec fn signup_failure(error: StoreErrorView) -> AppErrorView {
    match conflict_of(error) {
        Some(Conflict::Email) => invalid_input("Email address already exists."@),
        Some(Conflict::Username) => invalid_input("Username already exists."@),
        Some(Conflict::Unnamed) => invalid_input("Username or email already exists."@),
        None => default_error(AppError::INTERNAL_ERROR as int),
    }
}

/// The first step of a signup: a body that breaks a rule is refused; of any
/// other the password goes to the hasher.
pub open spec fn signup_begin(user: NewUserView) -> (SignupStateView, ActionView<UserView>) {
    if new_user_errors(user).is_clean() {
        (
            SignupStateView::Hashing { username: user.username, email: user.email },
            ActionView::Call(RequestView::HashPassword { password: user.password }),
        )
    } else {
        (
            SignupStateView::Done,
            ActionView::fail(invalid_input(signup_refusal(new_user_errors(user), user))),
        )
    }
}

/// The later steps of a signup: the hash goes to the store with the user name
/// and the email; the stored user is the answer. A reply that the state does
/// not wait for ends the flow with an internal error.
pub open spec fn signup_resume(state: SignupStateView, reply: ReplyView) -> (
    SignupStateView,
    ActionView<UserView>,
) {
    match (state, reply) {
        (SignupStateView::Hashing { username, email }, ReplyView::Hashed(hash)) => (
            SignupStateView::Inserting,
            ActionView::Call(
                RequestView::Store(StoreRequestView::Insert { username, email, password_hash: hash }),
            ),
        ),
        (SignupStateView::Inserting, ReplyView::Stored(user)) => (
            SignupStateView::Done,
            ActionView::Respond(Ok(user)),
        ),
        (SignupStateView::Inserting, ReplyView::StoreFailed(error)) => (
            SignupStateView::Done,
            ActionView::fail(signup_failure(error)),
        ),
        _ => (SignupStateView::Done, ActionView::fail(default_error(AppError::INTERNAL_ERROR as int))),
    }
}

/// `before`, then `text`, then `after`.
fn enclose(before: &str, text: &str, after: &str) -> (r: String)
    ensures
        r@ == before@ + text@ + after@,
{
    let mut r = String::from_str(before);
    r.append(text);
    r.append(after);
    r
}

/// The message for a signup body that broke a rule.
fn signup_refusal_text(errors: NewUserErrors, user: &NewUser) -> (r: String)
    ensures
        r@ == signup_refusal(errors, user@),
{
    if errors.username {
        enclose("Invalid username. \"", user.username.as_str(), "\" is too short.")
    } else if errors.email {
        enclose("Invalid email address \"", user.email.as_str(), "\"")
    } else if errors.password {
        String::from_str("Invalid password. Too short")
    } else {
        String::from_str("Invalid input.")
    }
}

/// The error for a new user that the store refused.
fn signup_failure_error(error: &StoreError) -> (r: AppError)
    ensures
        r@ == signup_failure(error@),
{
    match error.conflict() {
        Some(Conflict::Email) => AppError::invalid_input().message(
            String::from_str("Email address already exists."),
        ),
        Some(Conflict::Username) => AppError::invalid_input().message(
            String::from_str("Username already exists."),
        ),
        Some(Conflict::Unnamed) => AppError::invalid_input().message(
            String::from_str("Username or email already exists."),
        ),
        None => AppError::internal_error().default(),
    }
}

/// Starts a signup with the body of the request.
pub fn create_user(user: NewUser) -> (r: (SignupState, Action<User>))
    ensures
        (r.0@, r.1@) == signup_begin(user@),
{
    match user.validate() {
        Err(errors) => {
            let message = signup_refusal_text(errors, &user);
            (SignupState::Done, Action::Respond(Err(AppError::invalid_input().message(message))))
        },
        Ok(()) => {
            let NewUser { username, email, password } = user;
            (
                SignupState::Hashing { username, email },
                Action::Call(Request::HashPassword { password }),
            )
        },
    }
}

impl SignupState {
    /// Takes the reply to the request that the signup made last.
    pub fn resume(self, reply: Reply) -> (r: (SignupState, Action<User>))
        ensures
            (r.0@, r.1@) == signup_resume(self@, reply@),
    {
        match (self, reply) {
            (SignupState::Hashing { username, email }, Reply::Hashed(hash)) => (
                SignupState::Inserting,
                Action::Call(
                    Request::Store(StoreRequest::Insert { username, email, password_hash: hash }),
                ),
            ),
            (SignupState::Inserting, Reply::Stored(user)) => (
                SignupState::Done,
                Action::Respond(Ok(user)),
            ),
            (SignupState::Inserting, Reply::StoreFailed(error)) => (
                SignupState::Done,
                Action::Respond(Err(signup_failure_error(&error))),
            ),
            _ => (SignupState::Done, Action::Respond(Err(AppError::internal_error().default()))),
        }
    }
}

/// Where a profile flow stands: both wait for the store once.
#[derive(Debug, Clone, Copy, PartialEq, Eq, Structural)]
pub enum ProfileState {
    /// The update is with the store.
    Updating,
    /// The look-up of the caller's own row is with the store.
    Finding,
    /// The flow has answered.
    Done,
}

/// What the caller is told of a profile update that broke a rule.
pub open spec fn profile_refusal(errors: ProfileErrors, profile: UpdateProfileView) -> Seq<char> {
    match profile.image {
        Some(image) => if errors.image {
            "Invalid image. \""@ + image + "\" is not a valid url."@
        } else {
            "Invalid input."@
        },
        None => "Invalid input."@,
    }
}

/// The first step of a profile update: a body that breaks a rule is refused;
/// any other goes to the store under the id of the authenticated user.
pub open spec fn update_begin(user: u128, profile: UpdateProfileView) -> (
    ProfileState,
    ActionView<UserView>,
) {
    if profile_errors(profile).image {
        (
            ProfileState::Done,
            ActionView::fail(invalid_input(profile_refusal(profile_errors(profile), profile))),
        )
    } else {
        (
            ProfileState::Updating,
            ActionView::Call(
                RequestView::Store(StoreRequestView::UpdateProfile { user_id: user, profile }),
            ),
        )
    }
}

/// The first step of reading one's own profile: the look-up of the
/// authenticated user.
pub open spec fn me_begin(user: u128) -> (ProfileState, ActionView<UserView>) {
    (
        ProfileState::Finding,
        ActionView::Call(RequestView::Store(StoreRequestView::FindById { id: user })),
    )
}

/// The last step of a profile flow: the row that the store gives is the answer.
/// A user that the authorization gate let through and the store does not find
/// is an internal error; so is a store that failed, and a reply that the state
/// does not wait for.
pub open spec fn profile_resume(state: ProfileState, reply: ReplyView) -> (
    ProfileState,
    ActionView<UserView>,
) {
    (
        ProfileState::Done,
        match (state, reply) {
            (ProfileState::Updating, ReplyView::Stored(user)) => ActionView::Respond(Ok(user)),
            (ProfileState::Finding, ReplyView::Found(Some(user))) => ActionView::Respond(Ok(user)),
            (ProfileState::Finding, ReplyView::Found(None)) => ActionView::fail(
                default_error(AppError::INTERNAL_ERROR as int),
            ),
            _ => ActionView::fail(unexpected_error()),
        },
    )
}

/// The message for a profile update that broke a rule.
fn profile_refusal_text(errors: ProfileErrors, profile: &UpdateProfile) -> (r: String)
    ensures
        r@ == profile_refusal(errors, profile@),
{
    match &profile.image {
        Some(image) => {
            if errors.image {
                enclose("Invalid image. \"", image.as_str(), "\" is not a valid url.")
            } else {
                String::from_str("Invalid input.")
            }
        },
        None => String::from_str("Invalid input."),
    }
}

/// Starts a profile update for the authenticated user with the body of the
/// request.
pub fn update_profile(user: AuthenticatedUser, profile: UpdateProfile) -> (r: (
    ProfileState,
    Action<User>,
))
    ensures
        (r.0, r.1@) == update_begin(user@, profile@),
{
    match profile.validate() {
        Err(errors) => {
            let message = profile_refusal_text(errors, &profile);
            (ProfileState::Done, Action::Respond(Err(AppError::invalid_input().message(message))))
        },
        Ok(()) => (
            ProfileState::Updating,
            Action::Call(Request::Store(StoreRequest::UpdateProfile { user_id: user.0, profile })),
        ),
    }
}

/// Starts the reading of the authenticated user's own profile.
pub fn me(user: AuthenticatedUser) -> (r: (ProfileState, Action<User>))
    ensures
        (r.0, r.1@) == me_begin(user@),
{
    (ProfileState::Finding, Action::Call(Request::Store(StoreRequest::FindById { id: user.0 })))
}

impl ProfileState {
    /// Takes the store's reply to the request that the flow made.
    pub fn resume(self, reply: Reply) -> (r: (ProfileState, Action<User>))
        ensures
            (r.0, r.1@) == profile_resume(self, reply@),
    {
        let action = match (self, reply) {
            (ProfileState::Updating, Reply::Stored(user)) => Action::Respond(Ok(user)),
            (ProfileState::Finding, Reply::Found(Some(user))) => Action::Respond(Ok(user)),
            (ProfileState::Finding, Reply::Found(None)) => Action::Respond(
                Err(AppError::internal_error().default()),
            ),
            _ => Action::Respond(Err(AppError::unexpected())),
        };
        (ProfileState::Done, action)
    }
}

/// The failure by which the store says that a unique value is taken.
pub open spec fn unique_violation(column: Option<Seq<char>>) -> StoreErrorView {
    StoreErrorView::Database { code: Some(UNIQUE_VIOLATION_CODE@), column }
}

/// A signup that collides with a stored user is refused as invalid input, and
/// the message names what is taken: the email address, the user name, or one
/// of the two where the store does not say which.
pub proof fn lemma_signup_conflict_is_named()
    ensures
        signup_resume(
            SignupStateView::Inserting,
            ReplyView::StoreFailed(unique_violation(Some("email"@))),
        ) == (
            SignupStateView::Done,
            ActionView::<UserView>::fail(invalid_input("Email address already exists."@)),
        ),
        signup_resume(
            SignupStateView::Inserting,
            ReplyView::StoreFailed(unique_violation(Some("username"@))),
        ) == (
            SignupStateView::Done,
            ActionView::<UserView>::fail(invalid_input("Username already exists."@)),
        ),
        signup_resume(
            SignupStateView::Inserting,
            ReplyView::StoreFailed(unique_violation(None)),
        ) == (
            SignupStateView::Done,
            ActionView::<UserView>::fail(invalid_input("Username or email already exists."@)),
        ),
{
    reveal_strlit("email");
    reveal_strlit("username");
    assert("username"@.len() != "email"@.len());
}

/// What a signup hands to the store as the password hash is what the hasher
/// gave, and the user name and the email are those of the request. The
/// password itself leaves the flow in one request only, the one to the hasher.
pub proof fn lemma_signup_stores_only_the_hash(
    user: NewUserView,
    state: SignupStateView,
    reply: ReplyView,
    username: Seq<char>,
    email: Seq<char>,
    password_hash: Seq<char>,
)
    requires
        signup_resume(state, reply).1 == ActionView::<UserView>::Call(
            RequestView::Store(StoreRequestView::Insert { username, email, password_hash }),
        ),
    ensures
        reply == ReplyView::Hashed(password_hash),
        state == (SignupStateView::Hashing { username, email }),
        signup_begin(user).1 matches ActionView::Call(request) ==> request == (
        RequestView::HashPassword { password: user.password }),
        signup_begin(user).0 == state ==> username == user.username && email == user.email,
{
}

/// A signup ends after at most two replies, and an ended signup stays ended.
pub proof fn lemma_signup_ends(user: NewUserView, first: ReplyView, second: ReplyView)
    ensures
        ({
            let begun = signup_begin(user);
            let next = signup_resume(begun.0, first);
            let last = signup_resume(next.0, second);
            &&& last.0 == SignupStateView::Done
            &&& last.1 is Respond
            &&& begun.0 == SignupStateView::Done ==> begun.1 is Respond
            &&& next.0 == SignupStateView::Done ==> next.1 is Respond
        }),
{
}

/// A signup whose body breaks a rule never reaches the hasher or the store,
/// and is refused as invalid input.
pub proof fn lemma_signup_refuses_before_any_request(user: NewUserView)
    requires
        !new_user_errors(user).is_clean(),
    ensures
        signup_begin(user).0 == SignupStateView::Done,
        signup_begin(user).1 matches ActionView::Respond(Err(error)) && error.code
            == AppError::INVALID_INPUT,
{
}

/// A signup whose body keeps every rule, whose password the hasher hashes and
/// whose row the store stores, ends with that row. On the way the password
/// goes to the hasher, and the user name, the email and the hash go to the
/// store.
pub proof fn lemma_signup_succeeds(user: NewUserView, hash: Seq<char>, row: UserView)
    requires
        new_user_errors(user).is_clean(),
    ensures
        ({
            let begun = signup_begin(user);
            let next = signup_resume(begun.0, ReplyView::Hashed(hash));
            let last = signup_resume(next.0, ReplyView::Stored(row));
            &&& begun.1 == ActionView::<UserView>::Call(
                RequestView::HashPassword { password: user.password },
            )
            &&& next.1 == ActionView::<UserView>::Call(
                RequestView::Store(
                    StoreRequestView::Insert {
                        username: user.username,
                        email: user.email,
                        password_hash: hash,
                    },
                ),
            )
            &&& last == (SignupStateView::Done, ActionView::<UserView>::Respond(Ok(row)))
        }),
{
}

} // verus!
