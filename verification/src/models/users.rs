//! Accounts, and what is exchanged to open or enter one.

use crate::document::FloatBits;
use crate::object_id::ObjectId;
use vstd::prelude::*;

verus! {

/// What a user tells of themselves.
#[derive(Debug, PartialEq)]
pub struct UserProfile {
    pub bio: Option<String>,
    pub avatar_url: Option<String>,
}

/// The mathematical value of a [`UserProfile`].
pub struct UserProfileView {
    pub bio: Option<Seq<char>>,
    pub avatar_url: Option<Seq<char>>,
}

impl View for UserProfile {
    type V = UserProfileView;

    open spec fn view(&self) -> UserProfileView {
        UserProfileView {
            bio: self.bio.deep_view(),
            avatar_url: self.avatar_url.deep_view(),
        }
    }
}

impl DeepView for UserProfile {
    type V = UserProfileView;

    open spec fn deep_view(&self) -> UserProfileView {
        self@
    }
}

/// The channels on which a user takes notifications.
#[derive(Debug, PartialEq, Eq, Clone, Copy)]
pub struct UserNotifications {
    pub email: bool,
    pub sms: bool,
}

/// The mathematical value of a [`UserNotifications`].
pub struct UserNotificationsView {
    pub email: bool,
    pub sms: bool,
}

impl View for UserNotifications {
    type V = UserNotificationsView;

    open spec fn view(&self) -> UserNotificationsView {
        UserNotificationsView {
            email: self.email,
            sms: self.sms,
        }
    }
}

impl DeepView for UserNotifications {
    type V = UserNotificationsView;

    open spec fn deep_view(&self) -> UserNotificationsView {
        self@
    }
}

/// How a user has set the client up.
#[derive(Debug, PartialEq)]
pub struct UserSettings {
    pub theme: String,
    pub notifications: UserNotifications,
}

/// The mathematical value of a [`UserSettings`].
pub struct UserSettingsView {
    pub theme: Seq<char>,
    pub notifications: UserNotificationsView,
}

impl View for UserSettings {
    type V = UserSettingsView;

    open spec fn view(&self) -> UserSettingsView {
        UserSettingsView {
            theme: self.theme@,
            notifications: self.notifications@,
        }
    }
}

impl DeepView for UserSettings {
    type V = UserSettingsView;

    open spec fn deep_view(&self) -> UserSettingsView {
        self@
    }
}

/// An account.
#[derive(Debug, PartialEq)]
pub struct User {
    /// The identifier that the store gave the account; `None` before it is stored.
    pub id: Option<ObjectId>,
    pub email: String,
    /// The bcrypt hash of the password, never the password.
    pub password: String,
    pub name: Option<String>,
    pub profile: UserProfile,
    pub settings: UserSettings,
    /// Play money at hand, as the bits of a double.
    pub balance: FloatBits,
    /// The trades of the account.
    pub trades: Vec<ObjectId>,
}

/// The mathematical value of a [`User`].
pub struct UserView {
    pub id: Option<ObjectId>,
    pub email: Seq<char>,
    pub password: Seq<char>,
    pub name: Option<Seq<char>>,
    pub profile: UserProfileView,
    pub settings: UserSettingsView,
    pub balance: FloatBits,
    pub trades: Seq<ObjectId>,
}

impl View for User {
    type V = UserView;

    open spec fn view(&self) -> UserView {
        UserView {
            id: self.id,
            email: self.email@,
            password: self.password@,
            name: self.name.deep_view(),
            profile: self.profile@,
            settings: self.settings@,
            balance: self.balance,
            trades: self.trades@,
        }
    }
}

impl DeepView for User {
    type V = UserView;

    open spec fn deep_view(&self) -> UserView {
        self@
    }
}

/// What a user sends to log in or to register.
#[derive(Debug, PartialEq)]
pub struct AuthPayload {
    pub email: String,
    pub password: String,
}

/// The mathematical value of a [`AuthPayload`].
pub struct AuthPayloadView {
    pub email: Seq<char>,
    pub password: Seq<char>,
}

impl View for AuthPayload {
    type V = AuthPayloadView;

    open spec fn view(&self) -> AuthPayloadView {
        AuthPayloadView {
            email: self.email@,
            password: self.password@,
        }
    }
}

impl DeepView for AuthPayload {
    type V = AuthPayloadView;

    open spec fn deep_view(&self) -> AuthPayloadView {
        self@
    }
}

/// The answer to a login or a registration that went through.
#[derive(Debug, PartialEq)]
pub struct AuthResponse {
    pub success: bool,
    pub message: String,
    /// The account's identifier in hexadecimal.
    pub user_id: Option<String>,
}

/// The mathematical value of a [`AuthResponse`].
pub struct AuthResponseView {
    pub success: bool,
    pub message: Seq<char>,
    pub user_id: Option<Seq<char>>,
}

impl View for AuthResponse {
    type V = AuthResponseView;

    open spec fn view(&self) -> AuthResponseView {
        AuthResponseView {
            success: self.success,
            message: self.message@,
            user_id: self.user_id.deep_view(),
        }
    }
}

impl DeepView for AuthResponse {
    type V = AuthResponseView;

    open spec fn deep_view(&self) -> AuthResponseView {
        self@
    }
}


} // verus!
