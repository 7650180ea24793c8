//! The authorization gate and the login flow.

use crate::config::crypto::{
    claims_issued, clock_reading, current_timestamp, expiry_of, holds_until_expiry, issued,
    verified, CryptoError, CryptoService,
};
use crate::db::{StoreRequest, StoreRequestView};
use crate::errors::{default_error, unexpected_error, AppError, AppErrorView};
use crate::handlers::{Action, ActionView, Reply, ReplyView, Request, RequestView};
use crate::models::Auth;
use vstd::prelude::*;

verus! {

/// The identity that a request was made under. Only a pass through the
/// authorization gate yields one.
#[derive(Debug, Clone, Copy, PartialEq, Eq, Structural)]
pub struct AuthenticatedUser(pub u128);

impl View for AuthenticatedUser {
    type V = u128;

    open spec fn view(&self) -> u128 {
        self.0
    }
}

/// Where one request stands in the authorization gate.
#[derive(Debug, Clone, PartialEq, Eq)]
pub enum GateState {
    /// Nothing has been looked at yet.
    NoCredential,
    /// The request carries a bearer token; nothing is known of it.
    TokenPresented { token: String },
    /// The token is rightly signed and has not expired. Whether its subject
    /// still exists is with the store.
    TokenValid { subject: u128 },
    /// The subject exists: the request is made under this identity.
    IdentityResolved { user: AuthenticatedUser },
    /// The request is refused.
    Rejected { error: AppError },
}

impl GateStateView {
    /// Whether the authorization gate has decided.
    pub open spec fn is_final(self) -> bool {
        self is IdentityResolved || self is Rejected
    }
}

/// The mathematical content of a [`GateState`].
pub ghost enum GateStateView {
    NoCredential,
    TokenPresented { token: Seq<char> },
    TokenValid { subject: u128 },
    IdentityResolved { user: u128 },
    Rejected { error: AppErrorView },
}

impl View for GateState {
    type V = GateStateView;

    open spec fn view(&self) -> GateStateView {
        match self {
            GateState::NoCredential => GateStateView::NoCredential,
            GateState::TokenPresented { token } => GateStateView::TokenPresented { token: token@ },
            GateState::TokenValid { subject } => GateStateView::TokenValid { subject: *subject },
            GateState::IdentityResolved { user } => GateStateView::IdentityResolved { user: user@ },
            GateState::Rejected { error } => GateStateView::Rejected { error: error@ },
        }
    }
}

/// The one answer to a request whose identity is not established. It is the
/// same whatever the reason: no token, a forged one, an expired one, a subject
/// that is gone.
pub open spec fn not_authorized() -> AppErrorView {
    default_error(AppError::NOT_AUTHORIZED as int)
}

/// The authorization gate's first transition: a request with a bearer token
/// presents it; any other is refused. So is one for which the store or the
/// crypto service is not at hand.
pub open spec fn gate_present(
    bearer: Option<Seq<char>>,
    store_ready: bool,
    crypto_ready: bool,
) -> GateStateView {
    match bearer {
        Some(token) => if store_ready && crypto_ready {
            GateStateView::TokenPresented { token }
        } else {
            GateStateView::Rejected { error: not_authorized() }
        },
        None => GateStateView::Rejected { error: not_authorized() },
    }
}

/// The authorization gate's second transition: a presented token that verifies
/// under `secret` at the instant `now` is valid, and names its subject; one
/// that does not is refused. Every other state stays.
pub open spec fn gate_check(state: GateStateView, secret: Seq<char>, now: i64) -> GateStateView {
    match state {
        GateStateView::TokenPresented { token } => match verified(secret, token, now) {
            Ok(claims) => GateStateView::TokenValid { subject: claims.sub },
            Err(_) => GateStateView::Rejected { error: not_authorized() },
        },
        _ => state,
    }
}

/// The authorization gate's last transition, on the store's reply to the
/// look-up of the subject: a subject that is found is the identity; one that is
/// not is refused. The two final states stay whatever comes. A reply that was
/// not asked for, or a store that failed, refuses the request with an internal
/// error.
pub open spec fn gate_resolve(state: GateStateView, reply: ReplyView) -> GateStateView {
    match state {
        GateStateView::TokenValid { subject } => match reply {
            ReplyView::Found(Some(_)) => GateStateView::IdentityResolved { user: subject },
            ReplyView::Found(None) => GateStateView::Rejected { error: not_authorized() },
            _ => GateStateView::Rejected { error: unexpected_error() },
        },
        GateStateView::IdentityResolved { .. } => state,
        GateStateView::Rejected { .. } => state,
        _ => GateStateView::Rejected { error: unexpected_error() },
    }
}

/// What the authorization gate wants in a state: of a valid token, the look-up
/// of its subject; in a final state, to answer. A state in which no identity is
/// established and nothing is asked of the store answers as a refusal.
pub open spec fn gate_action(state: GateStateView) -> ActionView<u128> {
    match state {
        GateStateView::TokenValid { subject } => ActionView::Call(
            RequestView::Store(StoreRequestView::FindById { id: subject }),
        ),
        GateStateView::IdentityResolved { user } => ActionView::Respond(Ok(user)),
        GateStateView::Rejected { error } => ActionView::Respond(Err(error)),
        _ => ActionView::fail(not_authorized()),
    }
}

/// The authorization gate from the request up to the look-up: the token is
/// presented and, where the crypto service with `secret` is at hand, checked at
/// once.
pub open spec fn gate_begin(
    bearer: Option<Seq<char>>,
    store_ready: bool,
    secret: Option<Seq<char>>,
    now: i64,
) -> GateStateView {
    match secret {
        Some(secret) => gate_check(gate_present(bearer, store_ready, true), secret, now),
        None => gate_present(bearer, store_ready, false),
    }
}

/// The secret of a crypto service that may be missing.
pub open spec fn secret_of(crypto: Option<&CryptoService>) -> Option<Seq<char>> {
    match crypto {
        Some(crypto) => Some(crypto.signing_secret()),
        None => None,
    }
}

impl GateState {
    /// The refusal that tells the caller nothing.
    fn refuse() -> (r: GateState)
        ensures
            r@ == (GateStateView::Rejected { error: not_authorized() }),
    {
        GateState::Rejected { error: AppError::not_authorized().default() }
    }

    /// Takes what the request boundary extracted: the bearer token, if the
    /// request has one, and whether the store and the crypto service are at
    /// hand.
    pub fn present(bearer: Option<String>, store_ready: bool, crypto_ready: bool) -> (r: GateState)
        ensures
            r@ == gate_present(bearer.deep_view(), store_ready, crypto_ready),
    {
        match bearer {
            Some(token) => {
                if store_ready && crypto_ready {
                    GateState::TokenPresented { token }
                } else {
                    Self::refuse()
                }
            },
            None => Self::refuse(),
        }
    }

    /// Verifies a presented token at the instant `now`.
    pub fn check_at(self, crypto: &CryptoService, now: i64) -> (r: GateState)
        ensures
            r@ == gate_check(self@, crypto.signing_secret(), now),
    {
        match self {
            GateState::TokenPresented { token } => match crypto.verify_jwt_at(token.as_str(), now) {
                Ok(claims) => GateState::TokenValid { subject: claims.sub },
                Err(_) => Self::refuse(),
            },
            other => other,
        }
    }

    /// What the authorization gate wants in this state.
    pub fn action(&self) -> (r: Action<AuthenticatedUser>)
        ensures
            r@ == gate_action(self@),
    {
        match self {
            GateState::TokenValid { subject } => Action::Call(
                Request::Store(StoreRequest::FindById { id: *subject }),
            ),
            GateState::IdentityResolved { user } => Action::Respond(Ok(*user)),
            GateState::Rejected { error } => Action::Respond(Err(error.duplicate())),
            _ => Action::Respond(Err(AppError::not_authorized().default())),
        }
    }

    /// Takes the store's reply to the look-up of the token's subject.
    pub fn resume(self, reply: Reply) -> (r: (GateState, Action<AuthenticatedUser>))
        ensures
            r.0@ == gate_resolve(self@, reply@),
            r.1@ == gate_action(r.0@),
    {
        let next = match self {
            GateState::TokenValid { subject } => match reply {
                Reply::Found(Some(_)) => GateState::IdentityResolved {
                    user: AuthenticatedUser(subject),
                },
                Reply::Found(None) => Self::refuse(),
                _ => GateState::Rejected { error: AppError::unexpected() },
            },
            GateState::IdentityResolved { user } => GateState::IdentityResolved { user },
            GateState::Rejected { error } => GateState::Rejected { error },
            _ => GateState::Rejected { error: AppError::unexpected() },
        };
        let action = next.action();
        (next, action)
    }
}

impl AuthenticatedUser {
    /// Runs the authorization gate on what the request boundary extracted,
    /// judging the token at the instant `now`, up to the look-up of the
    /// subject.
    pub fn from_request_at(
        bearer: Option<String>,
        store_ready: bool,
        crypto: Option<&CryptoService>,
        now: i64,
    ) -> (r: (GateState, Action<AuthenticatedUser>))
        ensures
            r.0@ == gate_begin(bearer.deep_view(), store_ready, secret_of(crypto), now),
            r.1@ == gate_action(r.0@),
    {
        let state = match crypto {
            Some(crypto) => GateState::present(bearer, store_ready, true).check_at(crypto, now),
            None => GateState::present(bearer, store_ready, false),
        };
        let action = state.action();
        (state, action)
    }

    /// Runs the authorization gate on what the request boundary extracted,
    /// judging the token at the instant the clock shows.
    pub fn from_request(
        bearer: Option<String>,
        store_ready: bool,
        crypto: Option<&CryptoService>,
    ) -> (r: (GateState, Action<AuthenticatedUser>))
        ensures
            exists|now: i64|
                clock_reading(now) && r.0@ == #[trigger] gate_begin(
                    bearer.deep_view(),
                    store_ready,
                    secret_of(crypto),
                    now,
                ),
            r.1@ == gate_action(r.0@),
    {
        let now = current_timestamp();
        Self::from_request_at(bearer, store_ready, crypto, now)
    }
}

/// Judges a bearer token at the instant `now`: a token that verifies leads to
/// the look-up of its subject, any other to a refusal.
pub fn validate_jwt_at(crypto: &CryptoService, bearer: &str, now: i64) -> (r: (
    GateState,
    Action<AuthenticatedUser>,
))
    ensures
        r.0@ == gate_check(
            GateStateView::TokenPresented { token: bearer@ },
            crypto.signing_secret(),
            now,
        ),
        r.1@ == gate_action(r.0@),
{
    let state = match crypto.verify_jwt_at(bearer, now) {
        Ok(claims) => GateState::TokenValid { subject: claims.sub },
        Err(_) => GateState::refuse(),
    };
    let action = state.action();
    (state, action)
}

/// Judges a bearer token at the instant the clock shows.
pub fn validate_jwt(crypto: &CryptoService, bearer: &str) -> (r: (
    GateState,
    Action<AuthenticatedUser>,
))
    ensures
        exists|now: i64|
            clock_reading(now) && r.0@ == #[trigger] gate_check(
                GateStateView::TokenPresented { token: bearer@ },
                crypto.signing_secret(),
                now,
            ),
        r.1@ == gate_action(r.0@),
{
    let now = current_timestamp();
    validate_jwt_at(crypto, bearer, now)
}

/// Where a login stands.
#[derive(Debug, Clone, PartialEq, Eq)]
pub enum LoginState {
    /// The identifier is with the store. The state keeps the password that the
    /// user's hash will be held against.
    FindingUser { password: String },
    /// The password and the stored hash are with the hasher. The state keeps
    /// the id that a token will be issued for.
    CheckingPassword { user_id: u128 },
    /// The flow has answered.
    Done,
}

/// The mathematical content of a [`LoginState`].
pub ghost enum LoginStateView {
    FindingUser { password: Seq<char> },
    CheckingPassword { user_id: u128 },
    Done,
}

impl View for LoginState {
    type V = LoginStateView;

    open spec fn view(&self) -> LoginStateView {
        match self {
            LoginState::FindingUser { password } => LoginStateView::FindingUser {
                password: password@,
            },
            LoginState::CheckingPassword { user_id } => LoginStateView::CheckingPassword {
                user_id: *user_id,
            },
            LoginState::Done => LoginStateView::Done,
        }
    }
}

/// The one answer to a login that is refused. It is the same whether the
/// identifier is unknown or the password is wrong.
pub open spec fn invalid_credentials() -> AppErrorView {
    default_error(AppError::INVALID_CREDENTIALS as int)
}

/// The first step of a login: the identifier goes to the store. A request
/// without a password is refused at once.
pub open spec fn login_begin(identifier: Seq<char>, password: Option<Seq<char>>) -> (
    LoginStateView,
    ActionView<Seq<char>>,
) {
    match password {
        Some(password) => (
            LoginStateView::FindingUser { password },
            ActionView::Call(
                RequestView::Store(StoreRequestView::FindByIdentifier { identifier }),
            ),
        ),
        None => (LoginStateView::Done, ActionView::fail(invalid_credentials())),
    }
}

/// The answer to a login whose password matched: a token issued for the user
/// at the instant `now` under `secret`.
pub open spec fn login_grant(secret: Seq<char>, user_id: u128, now: i64) -> ActionView<Seq<char>> {
    match issued(secret, user_id, now) {
        Ok(token) => ActionView::Respond(Ok(token)),
        Err(_) => ActionView::fail(unexpected_error()),
    }
}

/// The later steps of a login. A user that is found has the password held
/// against the stored hash; a match is answered with a token for that user.
/// An unknown identifier and a wrong password are refused alike. A failure of
/// the store or the hasher, and a reply that the state does not wait for, end
/// the flow with an internal error.
pub open spec fn login_resume(state: LoginStateView, reply: ReplyView, secret: Seq<char>, now: i64) -> (
    LoginStateView,
    ActionView<Seq<char>>,
) {
    match (state, reply) {
        (LoginStateView::FindingUser { password }, ReplyView::Found(Some(user))) => (
            LoginStateView::CheckingPassword { user_id: user.id },
            ActionView::Call(
                RequestView::VerifyPassword { password, password_hash: user.password_hash },
            ),
        ),
        (LoginStateView::FindingUser { .. }, ReplyView::Found(None)) => (
            LoginStateView::Done,
            ActionView::fail(invalid_credentials()),
        ),
        (LoginStateView::CheckingPassword { user_id }, ReplyView::Verified(matches)) => (
            LoginStateView::Done,
            if matches {
                login_grant(secret, user_id, now)
            } else {
                ActionView::fail(invalid_credentials())
            },
        ),
        _ => (LoginStateView::Done, ActionView::fail(unexpected_error())),
    }
}

/// Whether the token that a login answers with is good: where the state
/// waited for the hasher's verdict on a user and the answer is a token issued
/// at the instant `now`, the token verifies under `secret` and gives that
/// user's id up to and including its expiry, and is refused after it. Nothing
/// is asked of a token whose expiry is before the epoch.
pub open spec fn login_token_holds(
    state: LoginStateView,
    answer: ActionView<Seq<char>>,
    secret: Seq<char>,
    now: i64,
) -> bool {
    state matches LoginStateView::CheckingPassword { user_id } ==> (answer matches ActionView::Respond(
        Ok(token),
    ) ==> (0 <= expiry_of(now as int) ==> holds_until_expiry(
        secret,
        token,
        claims_issued(user_id, now),
    )))
}

/// Ends a login with the given error.
fn login_fail(error: AppError) -> (r: (LoginState, Action<Auth>))
    ensures
        r.0@ == LoginStateView::Done,
        r.1@ == ActionView::<Seq<char>>::fail(error@),
{
    (LoginState::Done, Action::Respond(Err(error)))
}

/// Starts a login with the pair that the request boundary extracted.
pub fn auth(identifier: String, password: Option<String>) -> (r: (LoginState, Action<Auth>))
    ensures
        (r.0@, r.1@) == login_begin(identifier@, password.deep_view()),
{
    match password {
        Some(password) => (
            LoginState::FindingUser { password },
            Action::Call(Request::Store(StoreRequest::FindByIdentifier { identifier })),
        ),
        None => login_fail(AppError::invalid_credentials().default()),
    }
}

impl LoginState {
    /// Takes the reply to the request that the login made last. A token, where
    /// one is due, is issued at the instant `now`.
    pub fn resume_at(self, reply: Reply, crypto: &CryptoService, now: i64) -> (r: (
        LoginState,
        Action<Auth>,
    ))
        ensures
            (r.0@, r.1@) == login_resume(self@, reply@, crypto.signing_secret(), now),
            login_token_holds(self@, r.1@, crypto.signing_secret(), now),
    {
        match (self, reply) {
            (LoginState::FindingUser { password }, Reply::Found(Some(user))) => (
                LoginState::CheckingPassword { user_id: user.id },
                Action::Call(
                    Request::VerifyPassword { password, password_hash: user.password_hash },
                ),
            ),
            (LoginState::FindingUser { .. }, Reply::Found(None)) => login_fail(
                AppError::invalid_credentials().default(),
            ),
            (LoginState::CheckingPassword { user_id }, Reply::Verified(matches)) => {
                if matches {
                    match crypto.generate_jwt_at(user_id, now) {
                        Ok(token) => (LoginState::Done, Action::Respond(Ok(Auth { token }))),
                        Err(_) => login_fail(AppError::unexpected()),
                    }
                } else {
                    login_fail(AppError::invalid_credentials().default())
                }
            },
            _ => login_fail(AppError::unexpected()),
        }
    }

    /// Takes the reply to the request that the login made last. A token, where
    /// one is due, is issued at the instant the clock shows.
    pub fn resume(self, reply: Reply, crypto: &CryptoService) -> (r: (LoginState, Action<Auth>))
        ensures
            exists|now: i64|
                clock_reading(now) && (r.0@, r.1@) == #[trigger] login_resume(
                    self@,
                    reply@,
                    crypto.signing_secret(),
                    now,
                ) && login_token_holds(self@, r.1@, crypto.signing_secret(), now),
    {
        let now = current_timestamp();
        self.resume_at(reply, crypto, now)
    }
}

/// The authorization gate refuses, with the one answer that tells nothing: a
/// request without a token; a token that does not verify, be it malformed,
/// forged or expired; a valid token whose subject the store does not find.
pub proof fn lemma_gate_refuses(
    bearer: Option<Seq<char>>,
    store_ready: bool,
    secret: Option<Seq<char>>,
    now: i64,
    subject: u128,
)
    ensures
        bearer is None ==> gate_begin(bearer, store_ready, secret, now) == (GateStateView::Rejected {
            error: not_authorized(),
        }),
        bearer matches Some(token) ==> (secret matches Some(secret) ==> (verified(
            secret,
            token,
            now,
        ) is Err ==> gate_begin(bearer, store_ready, Some(secret), now) == (GateStateView::Rejected {
            error: not_authorized(),
        }))),
        gate_resolve(GateStateView::TokenValid { subject }, ReplyView::Found(None)) == (
        GateStateView::Rejected { error: not_authorized() }),
        not_authorized().code == AppError::NOT_AUTHORIZED,
{
}

/// The authorization gate lets a request through only under the subject of a
/// token that the request carried and that verified, and only after the store
/// found that subject.
pub proof fn lemma_gate_admits_only_verified(
    bearer: Option<Seq<char>>,
    store_ready: bool,
    secret: Option<Seq<char>>,
    now: i64,
    reply: ReplyView,
    user: u128,
)
    requires
        gate_resolve(gate_begin(bearer, store_ready, secret, now), reply) == (
        GateStateView::IdentityResolved { user }),
    ensures
        store_ready,
        reply matches ReplyView::Found(Some(_)),
        bearer matches Some(token) && secret matches Some(secret) && verified(secret, token, now)
            matches Ok(claims) && claims.sub == user,
{
}

/// Before the look-up the authorization gate stands in one of two states: the
/// token is valid, or the request is refused as not authorized. It never admits
/// without the store.
pub proof fn lemma_gate_begin_states(
    bearer: Option<Seq<char>>,
    store_ready: bool,
    secret: Option<Seq<char>>,
    now: i64,
)
    ensures
        gate_begin(bearer, store_ready, secret, now) is TokenValid || gate_begin(
            bearer,
            store_ready,
            secret,
            now,
        ) == (GateStateView::Rejected { error: not_authorized() }),
{
}

/// A decision of the authorization gate is final: no reply changes it.
pub proof fn lemma_gate_decision_is_final(state: GateStateView, reply: ReplyView)
    requires
        state.is_final(),
    ensures
        gate_resolve(state, reply) == state,
{
}

/// A login with an unknown identifier, a login with a wrong password and a
/// login without a password end alike: in the same state, with the same code
/// and the same message.
pub proof fn lemma_login_refusals_are_alike(
    identifier: Seq<char>,
    password: Seq<char>,
    user_id: u128,
    secret: Seq<char>,
    now: i64,
)
    ensures
        login_resume(
            LoginStateView::FindingUser { password },
            ReplyView::Found(None),
            secret,
            now,
        ) == login_resume(
            LoginStateView::CheckingPassword { user_id },
            ReplyView::Verified(false),
            secret,
            now,
        ),
        login_resume(
            LoginStateView::FindingUser { password },
            ReplyView::Found(None),
            secret,
            now,
        ) == login_begin(identifier, None),
        login_begin(identifier, None) == (
            LoginStateView::Done,
            ActionView::<Seq<char>>::fail(invalid_credentials()),
        ),
        invalid_credentials().code == AppError::INVALID_CREDENTIALS,
{
}

/// A login answers with a token only after the hasher said that the password
/// matches, and the token is the one issued for the user whose hash it was.
pub proof fn lemma_login_grants_only_on_match(
    state: LoginStateView,
    reply: ReplyView,
    secret: Seq<char>,
    now: i64,
    token: Seq<char>,
)
    requires
        login_resume(state, reply, secret, now).1 == ActionView::<Seq<char>>::Respond(Ok(token)),
    ensures
        reply == ReplyView::Verified(true),
        state matches LoginStateView::CheckingPassword { user_id } && issued(secret, user_id, now)
            == Ok::<Seq<char>, CryptoError>(token),
{
}

/// Whatever the token and whatever the store replies, a request that the
/// authorization gate refuses learns one of two things: that it is not
/// authorized, or that something went wrong. Nothing of the reason shows.
pub proof fn lemma_gate_refusal_tells_nothing(
    bearer: Option<Seq<char>>,
    store_ready: bool,
    secret: Option<Seq<char>>,
    now: i64,
    reply: ReplyView,
)
    ensures
        gate_resolve(gate_begin(bearer, store_ready, secret, now), reply) matches GateStateView::Rejected {
            error,
        } ==> error == not_authorized() || error == unexpected_error(),
        gate_resolve(gate_begin(bearer, store_ready, secret, now), reply) is IdentityResolved
            || gate_resolve(gate_begin(bearer, store_ready, secret, now), reply) is Rejected,
{
}

/// A login ends after at most two replies, and an ended login stays ended.
/// Whatever it is refused with is one of two fixed errors.
pub proof fn lemma_login_ends(
    identifier: Seq<char>,
    password: Option<Seq<char>>,
    first: ReplyView,
    second: ReplyView,
    secret: Seq<char>,
    now: i64,
)
    ensures
        ({
            let begun = login_begin(identifier, password);
            let next = login_resume(begun.0, first, secret, now);
            let last = login_resume(next.0, second, secret, now);
            &&& last.0 == LoginStateView::Done
            &&& last.1 is Respond
            &&& begun.0 == LoginStateView::Done ==> begun.1 is Respond
            &&& next.0 == LoginStateView::Done ==> next.1 is Respond
            &&& last.1 matches ActionView::Respond(Err(error)) ==> error == invalid_credentials()
                || error == unexpected_error()
            &&& next.1 matches ActionView::Respond(Err(error)) ==> error == invalid_credentials()
                || error == unexpected_error()
        }),
{
}

} // verus!
