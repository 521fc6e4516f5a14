//! The gateway as mathematics: what each operation yields, stated over the
//! values of its arguments. The executable functions are proved to compute
//! exactly these.

use vstd::prelude::*;

use crate::auth::{AView, AuthView};
use crate::dbo::{DbObjectView, Entity, Listing};
use crate::error::ServiceErrorView;
use crate::messages::{ClientMessageView, CommandView, ItemView, WsMsgView};
use crate::services::{PendingView, ResponseView, RoutedView};
use crate::store::{AnswerView, StoreCallView, StoreReplyView};
use crate::text::{debug_text, decimal};
use crate::users::{DbUserObjectView, UserDataView, UserObjectView, WsUserMsgView};

verus! {

/// The call that fetches the entity an item refers to: the tag has to name
/// a kind; otherwise the refusal names the tag and the identifier.
pub open spec fn get_item(item: ItemView) -> Result<StoreCallView, ServiceErrorView> {
    match Entity::named(item.name) {
        Some(entity) => Ok(StoreCallView::Get(entity, item.id)),
        None => Err(
            ServiceErrorView::BadRequest(
                "bad item object: "@ + item.name + " "@ + decimal(item.id as int),
            ),
        ),
    }
}

/// The call that fetches the listing a tag names; a tag that names none is
/// refused by name.
pub open spec fn get_list(name: Seq<char>) -> Result<StoreCallView, ServiceErrorView> {
    match Listing::named(name) {
        Some(listing) => Ok(StoreCallView::List(listing)),
        None => Err(ServiceErrorView::BadRequest("bad list object: "@ + name)),
    }
}

/// The call that stores a payload as a new entity: the payload has to be
/// one entity.
pub open spec fn insert_item(object: DbObjectView) -> Result<StoreCallView, ServiceErrorView> {
    match object.as_item() {
        Some((entity, record)) => Ok(StoreCallView::Insert(entity, record)),
        None => Err(ServiceErrorView::BadRequest("bad item object"@)),
    }
}

/// The call that overwrites a stored entity with a payload: the payload has
/// to be one entity.
pub open spec fn update_item(object: DbObjectView) -> Result<StoreCallView, ServiceErrorView> {
    match object.as_item() {
        Some((entity, record)) => Ok(StoreCallView::Update(entity, record)),
        None => Err(ServiceErrorView::BadRequest("bad item object"@)),
    }
}

/// The refusal of a deletion, given the tag as the standard library's
/// `Debug` formatting writes it.
pub open spec fn bad_path(quoted: Seq<char>) -> ServiceErrorView {
    ServiceErrorView::BadRequest("bad path "@ + quoted)
}

/// The call that removes the entity an item refers to: the tag has to name
/// a kind; otherwise the refusal names the tag.
pub open spec fn delete_item(item: ItemView) -> Result<StoreCallView, ServiceErrorView> {
    match Entity::named(item.name) {
        Some(entity) => Ok(StoreCallView::Delete(entity, item.id)),
        None => Err(bad_path(debug_text(item.name))),
    }
}

/// The failure that a reply stands for where it is not the answer its call
/// asks for: the store's failure with the store's own message, or, for an
/// answer to another kind of call, a failure of the store without a message.
pub open spec fn failure(reply: StoreReplyView) -> ServiceErrorView {
    match reply {
        StoreReplyView::Failed(detail) => ServiceErrorView::Rpel(detail),
        _ => ServiceErrorView::Rpel(Seq::empty()),
    }
}

/// What a catalog operation yields from the store's reply to its call: a
/// fetch the payload under the tag of its kind, an insertion the identifier
/// that the entity was stored with, an update or a deletion the number of
/// rows it touched; any other reply its failure.
pub open spec fn conclude(call: StoreCallView, reply: StoreReplyView) -> Result<
    AnswerView,
    ServiceErrorView,
> {
    match call {
        StoreCallView::Get(entity, _) => match reply {
            StoreReplyView::Item(record) => Ok(
                AnswerView::Object(DbObjectView::item(entity, record)),
            ),
            other => Err(failure(other)),
        },
        StoreCallView::List(listing) => match reply {
            StoreReplyView::Items(list) => Ok(
                AnswerView::Object(DbObjectView::list(listing, list)),
            ),
            other => Err(failure(other)),
        },
        StoreCallView::Insert(_, _) => match reply {
            StoreReplyView::Item(record) => Ok(AnswerView::Id(record.id)),
            other => Err(failure(other)),
        },
        StoreCallView::Update(_, _) => match reply {
            StoreReplyView::Count(rows) => Ok(AnswerView::Rows(rows as i64)),
            other => Err(failure(other)),
        },
        StoreCallView::Delete(_, _) => match reply {
            StoreReplyView::Count(rows) => Ok(AnswerView::Rows(rows as i64)),
            other => Err(failure(other)),
        },
    }
}

/// The envelope of a catalog operation's outcome: a payload with an empty
/// failure text, or the failure's text with a payload of nothing.
pub open spec fn from_dbo(
    command: Seq<char>,
    name: Seq<char>,
    dbo: Result<DbObjectView, ServiceErrorView>,
) -> WsMsgView {
    match dbo {
        Ok(object) => WsMsgView { command, name, object, error: Seq::empty() },
        Err(err) => WsMsgView { command, name, object: DbObjectView::Null, error: err.message() },
    }
}

/// The bit position that a kind of command asks of a role.
pub open spec fn required_bit(command: CommandView) -> u32 {
    match command {
        CommandView::GetItem(_) => 1,
        CommandView::GetList(_) => 2,
        CommandView::InsertItem(_) => 3,
        CommandView::UpdateItem(_) => 4,
        CommandView::DeleteItem(_) => 5,
        CommandView::User(UserObjectView::GetUser(_)) => 6,
        CommandView::User(UserObjectView::GetUserList) => 6,
        CommandView::User(UserObjectView::InsertUser(_)) => 7,
        CommandView::User(UserObjectView::UpdateUser(_)) => 8,
        CommandView::User(UserObjectView::DeleteUser(_)) => 9,
    }
}

/// Whether a role reaches a bit position: the role, shifted right by that
/// many bits, is greater than zero.
pub open spec fn permits(role: i64, position: u32) -> bool {
    role >> position > 0
}

/// The verdict on a command under a role: the command itself where the role
/// reaches the command's bit position, a refusal otherwise.
pub open spec fn permissions(role: i64, command: CommandView) -> Result<
    CommandView,
    ServiceErrorView,
> {
    if permits(role, required_bit(command)) {
        Ok(command)
    } else {
        Err(ServiceErrorView::NotPermission)
    }
}

/// Whether a character is an ASCII letter or digit.
pub open spec fn is_alphanumeric(c: char) -> bool {
    ('a' <= c && c <= 'z') || ('A' <= c && c <= 'Z') || ('0' <= c && c <= '9')
}

/// Whether a text has the form of a session token of the given length: so
/// many characters, each an ASCII letter or digit.
pub open spec fn is_token(text: Seq<char>, length: nat) -> bool {
    &&& text.len() == length
    &&& forall|i: int| 0 <= i < text.len() ==> is_alphanumeric(#[trigger] text[i])
}

/// The mathematical value of one session: a token and the user it stands
/// for.
pub struct SessionView {
    pub token: Seq<char>,
    pub user: UserDataView,
}

/// No two sessions have the same token.
pub open spec fn distinct_tokens(sessions: Seq<SessionView>) -> bool {
    forall|i: int, j: int|
        0 <= i < j < sessions.len() ==> (#[trigger] sessions[i]).token != (
        #[trigger] sessions[j]).token
}

/// The session at `i` has the token, and none before it has.
pub open spec fn is_first_with_token(sessions: Seq<SessionView>, token: Seq<char>, i: int) -> bool {
    &&& 0 <= i < sessions.len()
    &&& sessions[i].token == token
    &&& forall|j: int| 0 <= j < i ==> (#[trigger] sessions[j]).token != token
}

/// Some session has the token.
pub open spec fn has_token(sessions: Seq<SessionView>, token: Seq<char>) -> bool {
    exists|i: int| 0 <= i < sessions.len() && (#[trigger] sessions[i]).token == token
}

/// The place of the first session with the token.
pub open spec fn token_position(sessions: Seq<SessionView>, token: Seq<char>) -> int {
    choose|i: int| is_first_with_token(sessions, token, i)
}

/// The user that a token stands for, if it stands for one.
pub open spec fn get_user(sessions: Seq<SessionView>, token: Seq<char>) -> Option<UserDataView> {
    if has_token(sessions, token) {
        Some(sessions[token_position(sessions, token)].user)
    } else {
        None
    }
}

/// The sessions after a token is given to a user: the token's session is
/// replaced where there is one, and added at the end where there is none.
pub open spec fn insert(sessions: Seq<SessionView>, token: Seq<char>, user: UserDataView) -> Seq<
    SessionView,
> {
    if has_token(sessions, token) {
        sessions.update(token_position(sessions, token), SessionView { token, user })
    } else {
        sessions.push(SessionView { token, user })
    }
}

/// The session at `i` is of a user with the name and the secret, and none
/// before it is.
pub open spec fn is_first_with_credentials(
    sessions: Seq<SessionView>,
    name: Seq<char>,
    key: Seq<char>,
    i: int,
) -> bool {
    &&& 0 <= i < sessions.len()
    &&& sessions[i].user.name == name
    &&& sessions[i].user.key == key
    &&& forall|j: int|
        0 <= j < i ==> !((#[trigger] sessions[j]).user.name == name && sessions[j].user.key == key)
}

/// Some session is of a user with the name and the secret.
pub open spec fn has_credentials(
    sessions: Seq<SessionView>,
    name: Seq<char>,
    key: Seq<char>,
) -> bool {
    exists|i: int|
        0 <= i < sessions.len() && (#[trigger] sessions[i]).user.name == name
            && sessions[i].user.key == key
}

/// The place of the first session of a user with the name and the secret.
pub open spec fn credentials_position(
    sessions: Seq<SessionView>,
    name: Seq<char>,
    key: Seq<char>,
) -> int {
    choose|i: int| is_first_with_credentials(sessions, name, key, i)
}

/// What a name and a secret are exchanged for: the token and the role of
/// the first session whose user has exactly that name and that secret.
pub open spec fn get_reply(sessions: Seq<SessionView>, name: Seq<char>, key: Seq<char>) -> Option<
    (Seq<char>, i64),
> {
    if has_credentials(sessions, name, key) {
        let session = sessions[credentials_position(sessions, name, key)];
        Some((session.token, session.user.role))
    } else {
        None
    }
}

/// Whether a token stands for a user with the name, the secret and the
/// role.
pub open spec fn stands_for(
    sessions: Seq<SessionView>,
    token: Seq<char>,
    name: Seq<char>,
    key: Seq<char>,
    role: i64,
) -> bool {
    get_user(sessions, token) matches Some(user) && user.name == name && user.key == key
        && user.role == role
}

/// The sessions after each user, in turn, is given the token that stands at
/// the user's place.
pub open spec fn issued(users: Seq<UserDataView>, tokens: Seq<Seq<char>>) -> Seq<SessionView>
    recommends
        users.len() == tokens.len(),
    decreases users.len(),
{
    if users.len() == 0 {
        Seq::empty()
    } else {
        insert(issued(users.drop_last(), tokens.drop_last()), tokens.last(), users.last())
    }
}

/// The users with their tokens, place by place.
pub open spec fn paired(users: Seq<UserDataView>, tokens: Seq<Seq<char>>) -> Seq<SessionView>
    recommends
        users.len() == tokens.len(),
{
    Seq::new(users.len(), |i: int| SessionView { token: tokens[i], user: users[i] })
}

/// Whether the sessions are what the users get when each is given a token
/// of the given length.
pub open spec fn is_issue(
    sessions: Seq<SessionView>,
    users: Seq<UserDataView>,
    length: nat,
) -> bool {
    exists|tokens: Seq<Seq<char>>|
        {
            &&& tokens.len() == users.len()
            &&& forall|i: int| 0 <= i < tokens.len() ==> is_token(#[trigger] tokens[i], length)
            &&& sessions == #[trigger] issued(users, tokens)
        }
}

/// The call that a command on the users resolves to.
pub open spec fn user_cmd(object: UserObjectView) -> StoreCallView {
    match object {
        UserObjectView::GetUser(id) => StoreCallView::Get(Entity::User, id),
        UserObjectView::GetUserList => StoreCallView::List(Listing::UserList),
        UserObjectView::InsertUser(user) => StoreCallView::Insert(Entity::User, user),
        UserObjectView::UpdateUser(user) => StoreCallView::Update(Entity::User, user),
        UserObjectView::DeleteUser(id) => StoreCallView::Delete(Entity::User, id),
    }
}

/// The envelope of a command on the users that failed: the command's name,
/// a payload of nothing and the failure's text.
pub open spec fn user_failure(command: Seq<char>, err: ServiceErrorView) -> WsUserMsgView {
    WsUserMsgView { command, object: DbUserObjectView::Null, error: err.message() }
}

/// The envelope that answers a command on the users, from the store's reply
/// to its call: the fetched user, the fetched list, the identifier of the
/// stored user or the number of rows touched, under the command's name; for
/// any other reply its failure as text, beside a payload of nothing.
pub open spec fn user_reply(call: StoreCallView, reply: StoreReplyView) -> WsUserMsgView {
    match call {
        StoreCallView::Get(_, _) => match reply {
            StoreReplyView::Item(user) => WsUserMsgView {
                command: "GetUser"@,
                object: DbUserObjectView::User(user),
                error: Seq::empty(),
            },
            other => user_failure("GetUser"@, failure(other)),
        },
        StoreCallView::List(_) => match reply {
            StoreReplyView::Items(list) => WsUserMsgView {
                command: "GetUserList"@,
                object: DbUserObjectView::UserList(list),
                error: Seq::empty(),
            },
            other => user_failure("GetUserList"@, failure(other)),
        },
        StoreCallView::Insert(_, _) => match reply {
            StoreReplyView::Item(user) => WsUserMsgView {
                command: "InsertUser"@,
                object: DbUserObjectView::Id(user.id),
                error: Seq::empty(),
            },
            other => user_failure("InsertUser"@, failure(other)),
        },
        StoreCallView::Update(_, _) => match reply {
            StoreReplyView::Count(rows) => WsUserMsgView {
                command: "UpdateUser"@,
                object: DbUserObjectView::Id(rows as i64),
                error: Seq::empty(),
            },
            other => user_failure("UpdateUser"@, failure(other)),
        },
        StoreCallView::Delete(_, _) => match reply {
            StoreReplyView::Count(rows) => WsUserMsgView {
                command: "DeleteUser"@,
                object: DbUserObjectView::Id(rows as i64),
                error: Seq::empty(),
            },
            other => user_failure("DeleteUser"@, failure(other)),
        },
    }
}

/// The verdict on a message: its token has to stand for a user, and the
/// user's role has to allow the command.
pub open spec fn check(sessions: Seq<SessionView>, message: ClientMessageView) -> Result<
    CommandView,
    ServiceErrorView,
> {
    match get_user(sessions, message.addon) {
        Some(user) => permissions(user.role, message.command),
        None => Err(ServiceErrorView::NotAuth),
    }
}

/// Where a command of the catalog goes once the catalog has resolved it: a
/// call waits for the store under the command's tag; a refusal is answered
/// at once, in the envelope.
pub open spec fn planned(
    command: Seq<char>,
    name: Seq<char>,
    plan: Result<StoreCallView, ServiceErrorView>,
) -> RoutedView {
    match plan {
        Ok(call) => RoutedView::Call(PendingView::Entity { name, call }),
        Err(err) => RoutedView::Reply(ResponseView::Entity(from_dbo(command, name, Err(err)))),
    }
}

/// Where a command goes: each command of the catalog to what the catalog
/// resolves it to, under the command's name and the tag of its entity kind;
/// a command on the users to the call that carries it out.
pub open spec fn dispatch(command: CommandView) -> RoutedView {
    match command {
        CommandView::GetItem(item) => planned("GetItem"@, item.name, get_item(item)),
        CommandView::GetList(name) => planned("GetList"@, name, get_list(name)),
        CommandView::InsertItem(object) => planned(
            "InsertItem"@,
            object.name(),
            insert_item(object),
        ),
        CommandView::UpdateItem(object) => planned(
            "UpdateItem"@,
            object.name(),
            update_item(object),
        ),
        CommandView::DeleteItem(item) => planned("DeleteItem"@, item.name, delete_item(item)),
        CommandView::User(object) => RoutedView::Call(PendingView::User { call: user_cmd(object) }),
    }
}

/// What the router decides on a message: a message that fails the check is
/// refused, one that passes is dispatched.
pub open spec fn jsonpost(sessions: Seq<SessionView>, message: ClientMessageView) -> Result<
    RoutedView,
    ServiceErrorView,
> {
    match check(sessions, message) {
        Ok(command) => Ok(dispatch(command)),
        Err(err) => Err(err),
    }
}

/// The name of the command of the catalog that a call carries out.
pub open spec fn command_name(call: StoreCallView) -> Seq<char> {
    match call {
        StoreCallView::Get(_, _) => "GetItem"@,
        StoreCallView::List(_) => "GetList"@,
        StoreCallView::Insert(_, _) => "InsertItem"@,
        StoreCallView::Update(_, _) => "UpdateItem"@,
        StoreCallView::Delete(_, _) => "DeleteItem"@,
    }
}

/// The payload that an envelope carries for what a catalog operation
/// yielded: the fetched payload; nothing for an identifier or a count.
pub open spec fn payload(outcome: Result<AnswerView, ServiceErrorView>) -> Result<
    DbObjectView,
    ServiceErrorView,
> {
    match outcome {
        Ok(AnswerView::Object(object)) => Ok(object),
        Ok(_) => Ok(DbObjectView::Null),
        Err(err) => Err(err),
    }
}

/// The answer to a command that waited for the store, from the store's
/// reply to its call.
pub open spec fn respond(pending: PendingView, reply: StoreReplyView) -> ResponseView {
    match pending {
        PendingView::Entity { name, call } => ResponseView::Entity(
            from_dbo(command_name(call), name, payload(conclude(call, reply))),
        ),
        PendingView::User { call } => ResponseView::User(user_reply(call, reply)),
    }
}

/// The session check: the token stands for a user, and the user's role is
/// the given one.
pub open spec fn check_auth(sessions: Seq<SessionView>, params: AView) -> bool {
    match get_user(sessions, params.t) {
        Some(user) => user.role == params.r,
        None => false,
    }
}

/// The login: the token and the role that the credentials are exchanged
/// for, or a refusal where no user has them.
pub open spec fn login(sessions: Seq<SessionView>, params: AuthView) -> Result<
    AView,
    ServiceErrorView,
> {
    match get_reply(sessions, params.u, params.p) {
        Some((token, role)) => Ok(AView { t: token, r: role }),
        None => Err(ServiceErrorView::NotAuth),
    }
}

} // verus!
