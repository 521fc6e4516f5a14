//! Authentication: the messages of the login and of the session check, and
//! the check that every command passes before it is routed.

use vstd::prelude::*;

use crate::error::ServiceError;
use crate::messages::{ClientMessage, Command};
use crate::model;
use crate::users::Users;
use crate::views::result_view;

verus! {

/// The credentials of a login: a user's name and secret.
#[derive(Clone, Debug, PartialEq, Eq)]
pub struct Auth {
    pub u: String,
    pub p: String,
}

/// The mathematical value of an [`Auth`].
pub struct AuthView {
    pub u: Seq<char>,
    pub p: Seq<char>,
}

impl View for Auth {
    type V = AuthView;

    open spec fn view(&self) -> AuthView {
        AuthView { u: self.u@, p: self.p@ }
    }
}

/// A session as the client holds it: the token and the role. It answers a
/// login and asks the session check.
#[derive(Clone, Debug, PartialEq, Eq)]
pub struct A {
    pub t: String,
    pub r: i64,
}

/// The mathematical value of an [`A`].
pub struct AView {
    pub t: Seq<char>,
    pub r: i64,
}

impl View for A {
    type V = AView;

    open spec fn view(&self) -> AView {
        AView { t: self.t@, r: self.r }
    }
}

/// The answer to the session check.
#[derive(Clone, Copy, Debug, PartialEq, Eq)]
pub struct C {
    pub r: bool,
}

/// Authenticates and authorizes one message. The message's token has to
/// stand for a user, or the message is refused as not authenticated; the
/// user's role has to allow the command, or it is refused as not permitted.
/// A command that passes is handed back as it came. The token stands for
/// no other user than the one whose role decided.
pub fn check(users: &Users, message: ClientMessage) -> (verdict: Result<Command, ServiceError>)
    ensures
        result_view(verdict) == model::check(users@, message@),
        verdict matches Ok(same) ==> same == message.command,
        users.wf(),
{
    match users.get_user(message.addon.as_str()) {
        Some(user) => user.permissions(message.command),
        None => Err(ServiceError::NotAuth),
    }
}

} // verus!
