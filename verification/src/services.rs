//! The services of the gateway: the router of commands, the login and the
//! session check. Each decides; none of them talks to the store or to a
//! client.

use vstd::prelude::*;

use crate::auth::{check, Auth, A, C};
use crate::dbo::{
    conclude, delete_item, get_item, get_list, insert_item, update_item, DbObject,
};
use crate::error::ServiceError;
use crate::messages::{ClientMessage, Command, WsMsg, WsMsgView};
use crate::model;
use crate::store::{Answer, StoreCall, StoreCallView, StoreReply};
use crate::users::{user_cmd, user_reply, Users, WsUserMsg, WsUserMsgView};
use crate::views::result_view;

verus! {

/// A command that waits for the store: the call to perform, and what the
/// envelope needs besides the reply.
#[derive(Clone, Debug, PartialEq, Eq)]
pub enum Pending {
    /// A command of the catalog, with the tag that its envelope goes out
    /// under.
    Entity { name: String, call: StoreCall },
    /// A command on the users.
    User { call: StoreCall },
}

/// The mathematical value of a [`Pending`].
pub enum PendingView {
    Entity { name: Seq<char>, call: StoreCallView },
    User { call: StoreCallView },
}

impl View for Pending {
    type V = PendingView;

    open spec fn view(&self) -> PendingView {
        match self {
            Pending::Entity { name, call } => PendingView::Entity { name: name@, call: call@ },
            Pending::User { call } => PendingView::User { call: call@ },
        }
    }
}

impl PendingView {
    /// The call that waits.
    pub open spec fn call(self) -> StoreCallView {
        match self {
            PendingView::Entity { call, .. } => call,
            PendingView::User { call } => call,
        }
    }
}

impl Pending {
    /// The call that waits.
    pub fn call(&self) -> (call: &StoreCall)
        ensures
            call@ == self@.call(),
    {
        match self {
            Pending::Entity { call, .. } => call,
            Pending::User { call } => call,
        }
    }
}

/// What goes back to the client: the envelope of a command of the catalog
/// or of a command on the users.
#[derive(Clone, Debug, PartialEq, Eq)]
pub enum Response {
    Entity(WsMsg),
    User(WsUserMsg),
}

/// The mathematical value of a [`Response`].
pub enum ResponseView {
    Entity(WsMsgView),
    User(WsUserMsgView),
}

impl View for Response {
    type V = ResponseView;

    open spec fn view(&self) -> ResponseView {
        match self {
            Response::Entity(msg) => ResponseView::Entity(msg@),
            Response::User(msg) => ResponseView::User(msg@),
        }
    }
}

/// What the router decided on a message that passed the check.
#[derive(Clone, Debug, PartialEq, Eq)]
pub enum Routed {
    /// The answer is ready; the store is not asked.
    Reply(Response),
    /// The store is to be asked; its reply completes the answer.
    Call(Pending),
}

/// The mathematical value of a [`Routed`].
pub enum RoutedView {
    Reply(ResponseView),
    Call(PendingView),
}

impl View for Routed {
    type V = RoutedView;

    open spec fn view(&self) -> RoutedView {
        match self {
            Routed::Reply(response) => RoutedView::Reply(response@),
            Routed::Call(pending) => RoutedView::Call(pending@),
        }
    }
}

/// Routes what the catalog resolved a command to: a call waits for the
/// store, a refusal is answered at once in the envelope.
fn planned(command: &str, name: String, plan: Result<StoreCall, ServiceError>) -> (routed: Routed)
    ensures
        routed@ == model::planned(command@, name@, result_view(plan)),
{
    match plan {
        Ok(call) => Routed::Call(Pending::Entity { name, call }),
        Err(err) => Routed::Reply(Response::Entity(WsMsg::from_dbo(command, name, Err(err)))),
    }
}

/// Routes one message. The message is first authenticated and authorized;
/// one that fails either is refused, and nothing is asked of the store. A
/// command that passes is resolved by the catalog: to the call that carries
/// it out, which then waits for the store, or to a refusal, which is
/// answered at once in the envelope.
pub fn jsonpost(users: &Users, message: ClientMessage) -> (routed: Result<Routed, ServiceError>)
    ensures
        result_view(routed) == model::jsonpost(users@, message@),
{
    match check(users, message) {
        Err(err) => Err(err),
        Ok(command) => Ok(
            match command {
                Command::GetItem(item) => {
                    let plan = get_item(&item);
                    planned("GetItem", item.name, plan)
                },
                Command::GetList(list) => {
                    let plan = get_list(list.as_str());
                    planned("GetList", list, plan)
                },
                Command::InsertItem(dbobject) => {
                    let name = dbobject.name();
                    planned("InsertItem", name, insert_item(dbobject))
                },
                Command::UpdateItem(dbobject) => {
                    let name = dbobject.name();
                    planned("UpdateItem", name, update_item(dbobject))
                },
                Command::DeleteItem(item) => {
                    let plan = delete_item(&item);
                    planned("DeleteItem", item.name, plan)
                },
                Command::User(obj) => Routed::Call(Pending::User { call: user_cmd(obj) }),
            },
        ),
    }
}

/// The name of the command of the catalog that a call carries out.
fn command_name(call: &StoreCall) -> (name: &'static str)
    ensures
        name@ == model::command_name(call@),
{
    match call {
        StoreCall::Get(_, _) => "GetItem",
        StoreCall::List(_) => "GetList",
        StoreCall::Insert(_, _) => "InsertItem",
        StoreCall::Update(_, _) => "UpdateItem",
        StoreCall::Delete(_, _) => "DeleteItem",
    }
}

/// Completes the answer to a command from the store's reply to its call.
/// A fetched payload goes out in the envelope; an insertion, an update and
/// a deletion go out with a payload of nothing; a failure of the store goes
/// out as its text, and so does a reply that answers another kind of call.
pub fn respond(pending: Pending, reply: StoreReply) -> (response: Response)
    ensures
        response@ == model::respond(pending@, reply@),
{
    match pending {
        Pending::Entity { name, call } => {
            let dbo = match conclude(&call, reply) {
                Ok(Answer::Object(object)) => Ok(object),
                Ok(_) => Ok(DbObject::Null),
                Err(err) => Err(err),
            };
            Response::Entity(WsMsg::from_dbo(command_name(&call), name, dbo))
        },
        Pending::User { call } => Response::User(user_reply(&call, reply)),
    }
}

/// The session check: whether the token stands for a user whose role is
/// the given one.
pub fn check_auth(users: &Users, params: &A) -> (answer: C)
    ensures
        answer.r == model::check_auth(users@, params@),
{
    match users.get_user(params.t.as_str()) {
        Some(user) => C { r: user.role == params.r },
        None => C { r: false },
    }
}

/// The login: exchanges a name and a secret for the token and the role of
/// a session of that user. The session that is handed out passes the
/// session check, and its token stands for that user. Credentials that no
/// user has are refused as not authenticated.
pub fn login(users: &Users, params: &Auth) -> (session: Result<A, ServiceError>)
    ensures
        result_view(session) == model::login(users@, params@),
        match session {
            Ok(opened) => model::check_auth(users@, opened@) && model::stands_for(
                users@,
                opened.t@,
                params.u@,
                params.p@,
                opened.r,
            ),
            Err(_) => !model::has_credentials(users@, params.u@, params.p@),
        },
{
    match users.get_reply(params.u.as_str(), params.p.as_str()) {
        Some(reply) => Ok(A { t: reply.0, r: reply.1 }),
        None => Err(ServiceError::NotAuth),
    }
}

} // verus!
