//! Logging in and registering, as decisions on what the store said.
//!
//! Passwords are hashed and checked by the `bcrypt` crate. The two functions
//! that call it are trusted; what follows each call is verified.

use crate::models::users::{
    AuthPayload, AuthResponse, AuthResponseView, User, UserNotifications,
    UserNotificationsView, UserProfile, UserProfileView, UserSettings, UserSettingsView, UserView,
};
use crate::object_id::{object_id_to_hex, ObjectId};
use vstd::prelude::*;

verus! {

/// The balance of a new account: 10000, as the bits of a double.
pub const STARTING_BALANCE: u64 = 0x40C3_8800_0000_0000;

/// What the store said when asked for the account of an email address.
#[derive(Debug, PartialEq)]
pub enum UserLookup {
    Found(User),
    NotFound,
    /// The store failed.
    Failed,
}

/// What `bcrypt` says of a password and a stored hash: whether they match, or
/// `None` where it cannot read the hash.
pub uninterp spec fn bcrypt_verdict(password: Seq<char>, hash: Seq<char>) -> Option<bool>;

/// Calls `bcrypt::verify`. Trusted: the outcome is a function of the password
/// and the hash alone; an error of `bcrypt` is `None`.
#[verifier::external_body]
fn check_password(password: &str, hash: &str) -> (verdict: Option<bool>)
    ensures
        verdict == bcrypt_verdict(password@, hash@),
{
    bcrypt::verify(password, hash).ok()
}

/// Calls `bcrypt::hash` at `bcrypt::DEFAULT_COST`. The salt is drawn at
/// random, so the hash itself is not fixed; `None` stands for an error of
/// `bcrypt`. Trusted: a hash that comes back is one that `bcrypt::verify`
/// accepts for the same password.
#[verifier::external_body]
fn hash_password(password: &str) -> (hash: Option<String>)
    ensures
        hash matches Some(h) ==> bcrypt_verdict(password@, h@) == Some(true),
{
    bcrypt::hash(password, bcrypt::DEFAULT_COST).ok()
}

/// The identifier of an account in hexadecimal, where it has one.
pub open spec fn user_id_hex(id: Option<ObjectId>) -> Option<Seq<char>> {
    match id {
        Some(id) => Some(object_id_to_hex(id.bytes@)),
        None => None,
    }
}

/// The answer to a login, given whether there is an account and what came of
/// checking the password against its hash. Any hash that could be read admits
/// the login, whatever the verdict on the password; only a hash that could not
/// be read refuses it.
pub open spec fn login_of(lookup: UserLookup, verdict: Option<bool>) -> Result<
    AuthResponseView,
    Seq<char>,
> {
    match lookup {
        UserLookup::Found(user) => if verdict is Some {
            Ok(
                AuthResponseView {
                    success: true,
                    message: "Login successful"@,
                    user_id: user_id_hex(user.id),
                },
            )
        } else {
            Err("Invalid email or password"@)
        },
        UserLookup::NotFound => Err("User not found"@),
        UserLookup::Failed => Err("Internal server error"@),
    }
}

/// Decides a login from what the store said and from the outcome of checking
/// the password.
pub fn login_outcome(lookup: &UserLookup, verdict: Option<bool>) -> (r: Result<
    AuthResponse,
    String,
>)
    ensures
        match r {
            Ok(response) => login_of(*lookup, verdict) == Ok::<AuthResponseView, Seq<char>>(
                response@,
            ),
            Err(message) => login_of(*lookup, verdict) == Err::<AuthResponseView, Seq<char>>(
                message@,
            ),
        },
{
    match lookup {
        UserLookup::Found(user) => {
            if verdict.is_some() {
                let user_id = match &user.id {
                    Some(id) => Some(id.to_hex()),
                    None => None,
                };
                Ok(
                    AuthResponse {
                        success: true,
                        message: "Login successful".to_owned(),
                        user_id,
                    },
                )
            } else {
                Err("Invalid email or password".to_owned())
            }
        },
        UserLookup::NotFound => Err("User not found".to_owned()),
        UserLookup::Failed => Err("Internal server error".to_owned()),
    }
}

/// The outcome of checking the password of a login against the account that
/// was found, if one was.
pub open spec fn login_verdict(password: Seq<char>, lookup: UserLookup) -> Option<bool> {
    match lookup {
        UserLookup::Found(user) => bcrypt_verdict(password, user.password@),
        _ => None,
    }
}

/// Answers a login from what the store said of the email address.
pub fn login(payload: &AuthPayload, lookup: &UserLookup) -> (r: Result<AuthResponse, String>)
    ensures
        match r {
            Ok(response) => login_of(*lookup, login_verdict(payload.password@, *lookup)) == Ok::<
                AuthResponseView,
                Seq<char>,
            >(response@),
            Err(message) => login_of(*lookup, login_verdict(payload.password@, *lookup)) == Err::<
                AuthResponseView,
                Seq<char>,
            >(message@),
        },
{
    let verdict = match lookup {
        UserLookup::Found(user) => check_password(payload.password.as_str(), user.password.as_str()),
        _ => None,
    };
    login_outcome(lookup, verdict)
}

/// A new account: not yet stored, with the given email address and password
/// hash, no name and no profile, the light theme, notifications by email only,
/// the starting balance and no trades.
pub open spec fn new_user_of(email: Seq<char>, hash: Seq<char>) -> UserView {
    UserView {
        id: None,
        email,
        password: hash,
        name: None,
        profile: UserProfileView { bio: None, avatar_url: None },
        settings: UserSettingsView {
            theme: "light"@,
            notifications: UserNotificationsView { email: true, sms: false },
        },
        balance: STARTING_BALANCE,
        trades: Seq::empty(),
    }
}

/// Makes the account of a registration.
pub fn new_user(email: &str, hash: String) -> (user: User)
    ensures
        user@ == new_user_of(email@, hash@),
{
    User {
        id: None,
        email: email.to_owned(),
        password: hash,
        name: None,
        profile: UserProfile { bio: None, avatar_url: None },
        settings: UserSettings {
            theme: "light".to_owned(),
            notifications: UserNotifications { email: true, sms: false },
        },
        balance: STARTING_BALANCE,
        trades: Vec::new(),
    }
}

/// The account to store for a registration, given whether the email address
/// already has one and the hash of the password, if hashing went through.
pub open spec fn registration_of(email: Seq<char>, taken: bool, hash: Option<Seq<char>>) -> Result<
    UserView,
    Seq<char>,
> {
    if taken {
        Err("Email already registered"@)
    } else {
        match hash {
            Some(h) => Ok(new_user_of(email, h)),
            None => Err("Password hashing failed"@),
        }
    }
}

/// Decides a registration from whether the email address is taken and from
/// the hash of the password, if hashing went through.
pub fn registration(email: &str, taken: bool, hash: Option<String>) -> (r: Result<User, String>)
    ensures
        match r {
            Ok(user) => registration_of(email@, taken, hash.deep_view()) == Ok::<
                UserView,
                Seq<char>,
            >(user@),
            Err(message) => registration_of(email@, taken, hash.deep_view()) == Err::<
                UserView,
                Seq<char>,
            >(message@),
        },
{
    if taken {
        return Err("Email already registered".to_owned());
    }
    match hash {
        Some(h) => Ok(new_user(email, h)),
        None => Err("Password hashing failed".to_owned()),
    }
}

/// Prepares the account of a registration from what the store said of the
/// email address. The store must have answered: `lookup` is not `Failed`.
///
/// An address that has an account is refused. Otherwise the password is
/// hashed. The hash has a fresh random salt, so it is not fixed, and hashing
/// may fail; but the account that comes back is the new account of the
/// address with a hash that `bcrypt` accepts for the password.
pub fn register(payload: &AuthPayload, lookup: &UserLookup) -> (r: Result<User, String>)
    requires
        !(*lookup is Failed),
    ensures
        match r {
            Ok(user) => registration_of(payload.email@, *lookup is Found, Some(user.password@))
                == Ok::<UserView, Seq<char>>(user@),
            Err(message) => registration_of(payload.email@, *lookup is Found, None) == Err::<
                UserView,
                Seq<char>,
            >(message@),
        },
        r matches Ok(user) ==> bcrypt_verdict(payload.password@, user.password@) == Some(true),
        *lookup is Found ==> r is Err,
{
    let taken = match lookup {
        UserLookup::Found(_) => true,
        _ => false,
    };
    if taken {
        return registration(payload.email.as_str(), true, None);
    }
    let hash = hash_password(payload.password.as_str());
    registration(payload.email.as_str(), false, hash)
}

/// The answer to a registration, given the identifier under which the store
/// kept the new account, if it did.
pub open spec fn registration_response_of(stored: Option<ObjectId>) -> Result<
    AuthResponseView,
    Seq<char>,
> {
    match stored {
        Some(id) => Ok(
            AuthResponseView {
                success: true,
                message: "Registration successful"@,
                user_id: Some(object_id_to_hex(id.bytes@)),
            },
        ),
        None => Err("Internal server error"@),
    }
}

/// Answers a registration once the store has been asked to keep the account.
pub fn registration_response(stored: Option<ObjectId>) -> (r: Result<AuthResponse, String>)
    ensures
        match r {
            Ok(response) => registration_response_of(stored) == Ok::<AuthResponseView, Seq<char>>(
                response@,
            ),
            Err(message) => registration_response_of(stored) == Err::<AuthResponseView, Seq<char>>(
                message@,
            ),
        },
{
    match stored {
        Some(id) => Ok(
            AuthResponse {
                success: true,
                message: "Registration successful".to_owned(),
                user_id: Some(id.to_hex()),
            },
        ),
        None => Err("Internal server error".to_owned()),
    }
}

} // verus!
