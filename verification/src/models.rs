//! The values that travel between the request boundary, the flows and the
//! user store, and the field rules of the two request bodies.

use validator::{ValidateEmail, ValidateLength, ValidateUrl};
use vstd::prelude::*;

verus! {

/// A stored user. `id` is the user's UUID as a number; the two instants are
/// microseconds since the epoch.
#[derive(Debug, Clone, PartialEq, Eq)]
pub struct User {
    pub id: u128,
    pub username: Option<String>,
    pub email: String,
    pub password_hash: String,
    pub full_name: Option<String>,
    pub bio: Option<String>,
    pub image: Option<String>,
    pub email_verified: bool,
    pub active: bool,
    pub created_at: i64,
    pub updated_at: i64,
}

/// The body of a signup request.
#[derive(Debug, Clone, PartialEq, Eq)]
pub struct NewUser {
    pub username: String,
    pub email: String,
    pub password: String,
}

/// The body of a profile update.
#[derive(Debug, Clone, PartialEq, Eq)]
pub struct UpdateProfile {
    pub full_name: Option<String>,
    pub bio: Option<String>,
    pub image: Option<String>,
}

/// The answer to a successful login.
#[derive(Debug, Clone, PartialEq, Eq)]
pub struct Auth {
    pub token: String,
}

/// The fields of a [`NewUser`] that broke their rule.
#[derive(Debug, Clone, Copy, PartialEq, Eq, Structural)]
pub struct NewUserErrors {
    pub username: bool,
    pub email: bool,
    pub password: bool,
}

/// The fields of an [`UpdateProfile`] that broke their rule.
#[derive(Debug, Clone, Copy, PartialEq, Eq, Structural)]
pub struct ProfileErrors {
    pub image: bool,
}

/// The mathematical content of a [`User`].
pub ghost struct UserView {
    pub id: u128,
    pub username: Option<Seq<char>>,
    pub email: Seq<char>,
    pub password_hash: Seq<char>,
    pub full_name: Option<Seq<char>>,
    pub bio: Option<Seq<char>>,
    pub image: Option<Seq<char>>,
    pub email_verified: bool,
    pub active: bool,
    pub created_at: i64,
    pub updated_at: i64,
}

/// The mathematical content of a [`NewUser`].
pub ghost struct NewUserView {
    pub username: Seq<char>,
    pub email: Seq<char>,
    pub password: Seq<char>,
}

/// The mathematical content of an [`UpdateProfile`].
pub ghost struct UpdateProfileView {
    pub full_name: Option<Seq<char>>,
    pub bio: Option<Seq<char>>,
    pub image: Option<Seq<char>>,
}

impl View for User {
    type V = UserView;

    open spec fn view(&self) -> UserView {
        UserView {
            id: self.id,
            username: self.username.deep_view(),
            email: self.email@,
            password_hash: self.password_hash@,
            full_name: self.full_name.deep_view(),
            bio: self.bio.deep_view(),
            image: self.image.deep_view(),
            email_verified: self.email_verified,
            active: self.active,
            created_at: self.created_at,
            updated_at: self.updated_at,
        }
    }
}

impl View for NewUser {
    type V = NewUserView;

    open spec fn view(&self) -> NewUserView {
        NewUserView { username: self.username@, email: self.email@, password: self.password@ }
    }
}

impl View for UpdateProfile {
    type V = UpdateProfileView;

    open spec fn view(&self) -> UpdateProfileView {
        UpdateProfileView {
            full_name: self.full_name.deep_view(),
            bio: self.bio.deep_view(),
            image: self.image.deep_view(),
        }
    }
}

impl View for Auth {
    type V = Seq<char>;

    open spec fn view(&self) -> Seq<char> {
        self.token@
    }
}

/// The least number of characters in a user name and in a password.
pub const MIN_LENGTH: u64 = 3;

/// Whether `validator`'s email rule accepts the text.
pub uninterp spec fn email_is_valid(text: Seq<char>) -> bool;

/// Whether `validator`'s URL rule accepts the text.
pub uninterp spec fn url_is_valid(text: Seq<char>) -> bool;

/// Calls `validator::ValidateLength::validate_length` with a lower bound only.
///
/// Trusted: the length it compares is the number of characters.
#[verifier::external_body]
fn has_min_length(text: &str, min: u64) -> (r: bool)
    ensures
        r == (text@.len() >= min),
{
    text.validate_length(Some(min), None, None)
}

/// Calls `validator::ValidateEmail::validate_email`.
///
/// Trusted: the answer depends on the text alone.
#[verifier::external_body]
fn is_email(text: &str) -> (r: bool)
    ensures
        r == email_is_valid(text@),
{
    text.validate_email()
}

/// Calls `validator::ValidateUrl::validate_url`.
///
/// Trusted: the answer depends on the text alone.
#[verifier::external_body]
fn is_url(text: &str) -> (r: bool)
    ensures
        r == url_is_valid(text@),
{
    text.validate_url()
}

/// The fields of a signup body that break their rule: a user name or a
/// password of fewer than three characters, an email address that is none.
pub open spec fn new_user_errors(user: NewUserView) -> NewUserErrors {
    NewUserErrors {
        username: user.username.len() < MIN_LENGTH,
        email: !email_is_valid(user.email),
        password: user.password.len() < MIN_LENGTH,
    }
}

/// What is made of the broken rules of a body: the body passes if there is
/// none, and fails with them if there is one.
pub open spec fn verdict_on<E>(broken: bool, errors: E) -> Result<(), E> {
    if broken {
        Err(errors)
    } else {
        Ok(())
    }
}

/// The fields of a profile update that break their rule: an image that is
/// given and is no URL.
pub open spec fn profile_errors(profile: UpdateProfileView) -> ProfileErrors {
    ProfileErrors {
        image: match profile.image {
            Some(image) => !url_is_valid(image),
            None => false,
        },
    }
}

impl NewUserErrors {
    /// Whether no field broke its rule.
    pub open spec fn is_clean(self) -> bool {
        !self.username && !self.email && !self.password
    }
}

impl NewUserErrors {
    /// Takes the three answers of the field rules, each `true` where the
    /// field keeps its rule: the body passes if all three are, and fails with
    /// the fields that are not.
    pub fn from_checks(username: bool, email: bool, password: bool) -> (r: Result<
        (),
        NewUserErrors,
    >)
        ensures
            r == verdict_on(
                !(username && email && password),
                NewUserErrors { username: !username, email: !email, password: !password },
            ),
    {
        if username && email && password {
            Ok(())
        } else {
            Err(NewUserErrors { username: !username, email: !email, password: !password })
        }
    }
}

impl ProfileErrors {
    /// Takes the answer of the URL rule on the image, if an image is given,
    /// `true` where it is a URL: the body fails only on an image that is none.
    pub fn from_check(image: Option<bool>) -> (r: Result<(), ProfileErrors>)
        ensures
            r == verdict_on(image == Some(false), ProfileErrors { image: true }),
    {
        match image {
            Some(false) => Err(ProfileErrors { image: true }),
            _ => Ok(()),
        }
    }
}

impl NewUser {
    /// Checks every field against its rule. Fails with the fields that broke
    /// theirs, and only if one did.
    pub fn validate(&self) -> (r: Result<(), NewUserErrors>)
        ensures
            r == verdict_on(!new_user_errors(self@).is_clean(), new_user_errors(self@)),
    {
        NewUserErrors::from_checks(
            has_min_length(self.username.as_str(), MIN_LENGTH),
            is_email(self.email.as_str()),
            has_min_length(self.password.as_str(), MIN_LENGTH),
        )
    }
}

impl UpdateProfile {
    /// Checks every field against its rule. Fails if the image is given and is
    /// no URL.
    pub fn validate(&self) -> (r: Result<(), ProfileErrors>)
        ensures
            r == verdict_on(profile_errors(self@).image, profile_errors(self@)),
    {
        let image = match &self.image {
            Some(image) => Some(is_url(image.as_str())),
            None => None,
        };
        ProfileErrors::from_check(image)
    }
}

} // verus!
