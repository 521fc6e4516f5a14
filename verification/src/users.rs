//! The users of the gateway: their sessions, what a role permits, and the
//! commands that administer the users themselves.

use rand::distributions::Alphanumeric;
use rand::Rng;
use vstd::prelude::*;

use crate::dbo::{failure, records, Entity, Listing, Record, RecordView};
use crate::error::ServiceError;
use crate::laws;
use crate::messages::Command;
use crate::model;
use crate::model::SessionView;
use crate::store::{StoreCall, StoreReply};
use crate::text::str_eq;
use crate::views::{option_view, result_view};

verus! {

/// The number of characters in a session token.
pub const TOKEN_LENGTH: usize = 20;

/// The generator of random numbers that `rand` keeps for each thread.
/// Nothing is known of a value of this type.
#[verifier::external_type_specification]
#[verifier::external_body]
pub struct ExThreadRng(rand::rngs::ThreadRng);

/// `rand::thread_rng` hands out the calling thread's generator. Nothing is
/// claimed of it. Where the operating system's source of randomness fails,
/// the generator panics at its first use or when it reseeds; no argument
/// decides that.
pub assume_specification[ rand::thread_rng ]() -> (generator: rand::rngs::ThreadRng);

/// Draws `count` samples of `rand::distributions::Alphanumeric` from the
/// generator, through `Rng::sample_iter`, and collects them as characters.
/// The contract is not proved. It claims what holds of every draw: there
/// are `count` characters, and each is one of the ASCII letters and digits
/// that the distribution picks from.
#[verifier::external_body]
fn sample_alphanumeric(generator: &mut rand::rngs::ThreadRng, count: usize) -> (text: String)
    ensures
        model::is_token(text@, count as nat),
{
    generator.sample_iter(Alphanumeric).take(count).map(char::from).collect()
}

/// A user as the sessions know it: identifier, name, secret and role.
#[derive(Debug, PartialEq, Eq)]
pub struct UserData {
    pub id: i64,
    pub name: String,
    pub key: String,
    pub role: i64,
}

/// The mathematical value of a [`UserData`].
pub struct UserDataView {
    pub id: i64,
    pub name: Seq<char>,
    pub key: Seq<char>,
    pub role: i64,
}

impl View for UserData {
    type V = UserDataView;

    open spec fn view(&self) -> UserDataView {
        UserDataView { id: self.id, name: self.name@, key: self.key@, role: self.role }
    }
}

impl Clone for UserData {
    fn clone(&self) -> (copy: Self)
        ensures
            copy == *self,
    {
        UserData { id: self.id, name: self.name.clone(), key: self.key.clone(), role: self.role }
    }
}

/// The values of a list of users, in order.
pub open spec fn users_view(list: Seq<UserData>) -> Seq<UserDataView> {
    list.map_values(|user: UserData| user@)
}

/// A command on the users themselves.
#[derive(Clone, Debug, PartialEq, Eq)]
pub enum UserObject {
    /// Fetch the user that has the identifier.
    GetUser(i64),
    /// Fetch the summaries of all users.
    GetUserList,
    /// Store a new user.
    InsertUser(Record),
    /// Overwrite a stored user.
    UpdateUser(Record),
    /// Remove the user that has the identifier.
    DeleteUser(i64),
}

/// The mathematical value of a [`UserObject`].
pub enum UserObjectView {
    GetUser(i64),
    GetUserList,
    InsertUser(RecordView),
    UpdateUser(RecordView),
    DeleteUser(i64),
}

impl View for UserObject {
    type V = UserObjectView;

    open spec fn view(&self) -> UserObjectView {
        match self {
            UserObject::GetUser(id) => UserObjectView::GetUser(*id),
            UserObject::GetUserList => UserObjectView::GetUserList,
            UserObject::InsertUser(user) => UserObjectView::InsertUser(user@),
            UserObject::UpdateUser(user) => UserObjectView::UpdateUser(user@),
            UserObject::DeleteUser(id) => UserObjectView::DeleteUser(*id),
        }
    }
}

/// What a command on the users is answered with.
#[derive(Clone, Debug, PartialEq, Eq)]
pub enum DbUserObject {
    /// No payload.
    Null,
    /// One user.
    User(Record),
    /// The summaries of all users.
    UserList(Vec<Record>),
    /// An identifier, or a number of rows.
    Id(i64),
}

/// The mathematical value of a [`DbUserObject`].
pub enum DbUserObjectView {
    Null,
    User(RecordView),
    UserList(Seq<RecordView>),
    Id(i64),
}

impl View for DbUserObject {
    type V = DbUserObjectView;

    open spec fn view(&self) -> DbUserObjectView {
        match self {
            DbUserObject::Null => DbUserObjectView::Null,
            DbUserObject::User(user) => DbUserObjectView::User(user@),
            DbUserObject::UserList(list) => DbUserObjectView::UserList(records(list@)),
            DbUserObject::Id(id) => DbUserObjectView::Id(*id),
        }
    }
}

impl UserData {
    /// Decides whether this user's role allows a command. Each kind of
    /// command has a bit position; the role allows the command when the
    /// role, shifted right by that many bits, is greater than zero. An
    /// allowed command is handed back as it came.
    pub fn permissions(&self, command: Command) -> (verdict: Result<Command, ServiceError>)
        ensures
            result_view(verdict) == model::permissions(self.role, command@),
            verdict matches Ok(same) ==> same == command,
    {
        let allowed = match &command {
            Command::GetItem(_) => self.role >> 1u32 > 0,
            Command::GetList(_) => self.role >> 2u32 > 0,
            Command::InsertItem(_) => self.role >> 3u32 > 0,
            Command::UpdateItem(_) => self.role >> 4u32 > 0,
            Command::DeleteItem(_) => self.role >> 5u32 > 0,
            Command::User(UserObject::GetUser(_)) => self.role >> 6u32 > 0,
            Command::User(UserObject::GetUserList) => self.role >> 6u32 > 0,
            Command::User(UserObject::InsertUser(_)) => self.role >> 7u32 > 0,
            Command::User(UserObject::UpdateUser(_)) => self.role >> 8u32 > 0,
            Command::User(UserObject::DeleteUser(_)) => self.role >> 9u32 > 0,
        };
        if allowed {
            Ok(command)
        } else {
            Err(ServiceError::NotPermission)
        }
    }
}

/// One session: a token and the user it stands for.
#[derive(Clone, Debug)]
struct Session {
    token: String,
    user: UserData,
}

impl View for Session {
    type V = SessionView;

    closed spec fn view(&self) -> SessionView {
        SessionView { token: self.token@, user: self.user@ }
    }
}

/// The values of a list of sessions, in order.
spec fn sessions_view(list: Seq<Session>) -> Seq<SessionView> {
    list.map_values(|session: Session| session@)
}

/// The sessions: for each token the user it stands for. No token stands
/// for two users.
#[derive(Debug)]
pub struct Users {
    values: Vec<Session>,
}

impl View for Users {
    type V = Seq<SessionView>;

    closed spec fn view(&self) -> Seq<SessionView> {
        sessions_view(self.values@)
    }
}

impl Clone for Users {
    fn clone(&self) -> (copy: Self)
        ensures
            copy@ == self@,
    {
        proof {
            use_type_invariant(self);
        }
        let mut values: Vec<Session> = Vec::new();
        let mut i: usize = 0;
        while i < self.values.len()
            invariant
                i <= self.values.len(),
                values.len() == i,
                forall|j: int| 0 <= j < i ==> (#[trigger] values@[j])@ == self.values@[j]@,
            decreases self.values.len() - i,
        {
            let session = &self.values[i];
            values.push(Session { token: session.token.clone(), user: session.user.clone() });
            i += 1;
        }
        assert(sessions_view(values@) =~= self@);
        Users { values }
    }
}

impl Users {
    /// Whether no token stands for two users. It holds of every store.
    #[verifier::type_invariant]
    pub open spec fn wf(&self) -> bool {
        model::distinct_tokens(self@)
    }

    /// No sessions.
    pub fn empty() -> (store: Users)
        ensures
            store@ == Seq::<SessionView>::empty(),
            store.wf(),
    {
        let values: Vec<Session> = Vec::new();
        assert(sessions_view(values@) =~= Seq::<SessionView>::empty());
        Users { values }
    }

    /// Gives a user the session of a token. A session that the token stood
    /// for before is replaced.
    pub fn insert(&mut self, token: String, user: UserData)
        ensures
            final(self)@ == model::insert(old(self)@, token@, user@),
            final(self).wf(),
    {
        proof {
            use_type_invariant(&*self);
        }
        let ghost before = self@;
        let mut values: Vec<Session> = Vec::new();
        assert(sessions_view(values@) =~= Seq::<SessionView>::empty());
        core::mem::swap(&mut self.values, &mut values);
        let mut i: usize = 0;
        let mut found = false;
        while i < values.len() && !found
            invariant
                i <= values.len(),
                sessions_view(values@) == before,
                found ==> i < values.len() && before[i as int].token == token@,
                forall|j: int| 0 <= j < i ==> (#[trigger] before[j]).token != token@,
            decreases values.len() - i + if found { 0int } else { 1int },
        {
            if str_eq(values[i].token.as_str(), token.as_str()) {
                found = true;
            } else {
                i += 1;
            }
        }
        if found {
            assert(model::is_first_with_token(before, token@, i as int));
            values.set(i, Session { token, user });
        } else {
            assert(!model::has_token(before, token@));
            values.push(Session { token, user });
        }
        proof {
            assert(sessions_view(values@) =~= model::insert(before, token@, user@));
            laws::law_insert_keeps_tokens_distinct(before, token@, user@);
        }
        *self = Users { values };
    }

    /// Opens a session for each user, in turn, under a fresh random token
    /// of [`TOKEN_LENGTH`] letters and digits. Where two users draw the same
    /// token, the later one keeps it.
    pub fn new(all_users: &[UserData]) -> (store: Users)
        ensures
            model::is_issue(store@, users_view(all_users@), TOKEN_LENGTH as nat),
            store.wf(),
    {
        let mut generator = rand::thread_rng();
        let mut store = Users::empty();
        let ghost users = users_view(all_users@);
        let ghost mut tokens: Seq<Seq<char>> = Seq::empty();
        let mut i: usize = 0;
        while i < all_users.len()
            invariant
                i <= all_users.len(),
                users == users_view(all_users@),
                tokens.len() == i,
                forall|k: int|
                    0 <= k < tokens.len() ==> model::is_token(
                        #[trigger] tokens[k],
                        TOKEN_LENGTH as nat,
                    ),
                store@ == model::issued(users.take(i as int), tokens),
                store.wf(),
            decreases all_users.len() - i,
        {
            let key = sample_alphanumeric(&mut generator, TOKEN_LENGTH);
            let user = all_users[i].clone();
            proof {
                let grown = tokens.push(key@);
                assert(grown.drop_last() =~= tokens);
                assert(users.take(i + 1).drop_last() =~= users.take(i as int));
                assert(users.take(i + 1).last() == user@);
                tokens = grown;
            }
            store.insert(key, user);
            i += 1;
        }
        proof {
            assert(users.take(i as int) =~= users);
            assert(store@ == model::issued(users, tokens));
        }
        store
    }

    /// The user that a token stands for, if it stands for one. No other
    /// session has the token.
    pub fn get_user(&self, key: &str) -> (found: Option<UserData>)
        ensures
            option_view(found) == model::get_user(self@, key@),
            self.wf(),
    {
        proof {
            use_type_invariant(self);
        }
        let mut i: usize = 0;
        while i < self.values.len()
            invariant
                i <= self.values.len(),
                self.wf(),
                forall|j: int| 0 <= j < i ==> (#[trigger] self@[j]).token != key@,
            decreases self.values.len() - i,
        {
            if str_eq(self.values[i].token.as_str(), key) {
                assert(model::is_first_with_token(self@, key@, i as int));
                return Some(self.values[i].user.clone());
            }
            i += 1;
        }
        assert(!model::has_token(self@, key@));
        None
    }

    /// Exchanges a name and a secret for the token and the role of the
    /// first session whose user has exactly that name and that secret. The
    /// token stands for that user, with that role; and where nothing is
    /// handed out, no session is of a user with the name and the secret.
    pub fn get_reply(&self, username: &str, userkey: &str) -> (reply: Option<(String, i64)>)
        ensures
            option_view(reply) == model::get_reply(self@, username@, userkey@),
            self.wf(),
            match reply {
                Some((token, role)) => model::stands_for(
                    self@,
                    token@,
                    username@,
                    userkey@,
                    role,
                ),
                None => !model::has_credentials(self@, username@, userkey@),
            },
    {
        proof {
            use_type_invariant(self);
        }
        let mut i: usize = 0;
        while i < self.values.len()
            invariant
                i <= self.values.len(),
                self.wf(),
                forall|j: int|
                    0 <= j < i ==> !((#[trigger] self@[j]).user.name == username@
                        && self@[j].user.key == userkey@),
            decreases self.values.len() - i,
        {
            let session = &self.values[i];
            if str_eq(session.user.name.as_str(), username) && str_eq(
                session.user.key.as_str(),
                userkey,
            ) {
                assert(model::is_first_with_credentials(self@, username@, userkey@, i as int));
                proof {
                    laws::law_reply_resolves(self@, username@, userkey@);
                }
                return Some((session.token.clone(), session.user.role));
            }
            i += 1;
        }
        assert(!model::has_credentials(self@, username@, userkey@));
        None
    }
}

/// The envelope that answers a command on the users: the command's name,
/// the payload and the failure's text. On success the text is empty; on
/// failure the payload is [`DbUserObject::Null`].
#[derive(Clone, Debug, PartialEq, Eq)]
pub struct WsUserMsg {
    pub command: String,
    pub object: DbUserObject,
    pub error: String,
}

/// The mathematical value of a [`WsUserMsg`].
pub struct WsUserMsgView {
    pub command: Seq<char>,
    pub object: DbUserObjectView,
    pub error: Seq<char>,
}

impl View for WsUserMsg {
    type V = WsUserMsgView;

    open spec fn view(&self) -> WsUserMsgView {
        WsUserMsgView { command: self.command@, object: self.object@, error: self.error@ }
    }
}

impl WsUserMsg {
    /// The answer to `GetUser`: the user.
    pub fn from_get(object: Record) -> (msg: WsUserMsg)
        ensures
            msg@ == (WsUserMsgView {
                command: "GetUser"@,
                object: DbUserObjectView::User(object@),
                error: Seq::empty(),
            }),
    {
        WsUserMsg {
            command: "GetUser".to_owned(),
            object: DbUserObject::User(object),
            error: String::new(),
        }
    }

    /// The answer to `GetUserList`: the list.
    pub fn from_list(object: Vec<Record>) -> (msg: WsUserMsg)
        ensures
            msg@ == (WsUserMsgView {
                command: "GetUserList"@,
                object: DbUserObjectView::UserList(records(object@)),
                error: Seq::empty(),
            }),
    {
        WsUserMsg {
            command: "GetUserList".to_owned(),
            object: DbUserObject::UserList(object),
            error: String::new(),
        }
    }

    /// The answer to `InsertUser`: the identifier the user was stored with.
    pub fn from_insert(object: Record) -> (msg: WsUserMsg)
        ensures
            msg@ == (WsUserMsgView {
                command: "InsertUser"@,
                object: DbUserObjectView::Id(object.id),
                error: Seq::empty(),
            }),
    {
        WsUserMsg {
            command: "InsertUser".to_owned(),
            object: DbUserObject::Id(object.id),
            error: String::new(),
        }
    }

    /// The answer to `UpdateUser`: the number of rows touched.
    pub fn from_update(object: u64) -> (msg: WsUserMsg)
        ensures
            msg@ == (WsUserMsgView {
                command: "UpdateUser"@,
                object: DbUserObjectView::Id(object as i64),
                error: Seq::empty(),
            }),
    {
        WsUserMsg {
            command: "UpdateUser".to_owned(),
            object: DbUserObject::Id(object as i64),
            error: String::new(),
        }
    }

    /// The answer to `DeleteUser`: the number of rows touched.
    pub fn from_delete(object: u64) -> (msg: WsUserMsg)
        ensures
            msg@ == (WsUserMsgView {
                command: "DeleteUser"@,
                object: DbUserObjectView::Id(object as i64),
                error: Seq::empty(),
            }),
    {
        WsUserMsg {
            command: "DeleteUser".to_owned(),
            object: DbUserObject::Id(object as i64),
            error: String::new(),
        }
    }

    /// The answer to a command that failed: the failure's text.
    pub fn from_error(command: &str, err: &ServiceError) -> (msg: WsUserMsg)
        ensures
            msg@ == model::user_failure(command@, err@),
    {
        WsUserMsg {
            command: command.to_owned(),
            object: DbUserObject::Null,
            error: err.to_string(),
        }
    }
}

/// Resolves a command on the users to the call that carries it out.
pub fn user_cmd(obj: UserObject) -> (call: StoreCall)
    ensures
        call@ == model::user_cmd(obj@),
{
    match obj {
        UserObject::GetUser(id) => StoreCall::Get(Entity::User, id),
        UserObject::GetUserList => StoreCall::List(Listing::UserList),
        UserObject::InsertUser(item) => StoreCall::Insert(Entity::User, item),
        UserObject::UpdateUser(item) => StoreCall::Update(Entity::User, item),
        UserObject::DeleteUser(id) => StoreCall::Delete(Entity::User, id),
    }
}

/// Answers a command on the users from the store's reply to its call: with
/// the fetched user, the fetched list, the identifier of the stored user or
/// the number of rows touched. A failure of the store goes out as its text;
/// a reply that answers another kind of call counts as a failure of the
/// store without a message.
pub fn user_reply(call: &StoreCall, reply: StoreReply) -> (msg: WsUserMsg)
    ensures
        msg@ == model::user_reply(call@, reply@),
{
    match call {
        StoreCall::Get(_, _) => match reply {
            StoreReply::Item(user) => WsUserMsg::from_get(user),
            other => WsUserMsg::from_error("GetUser", &failure(other)),
        },
        StoreCall::List(_) => match reply {
            StoreReply::Items(list) => WsUserMsg::from_list(list),
            other => WsUserMsg::from_error("GetUserList", &failure(other)),
        },
        StoreCall::Insert(_, _) => match reply {
            StoreReply::Item(user) => WsUserMsg::from_insert(user),
            other => WsUserMsg::from_error("InsertUser", &failure(other)),
        },
        StoreCall::Update(_, _) => match reply {
            StoreReply::Count(rows) => WsUserMsg::from_update(rows),
            other => WsUserMsg::from_error("UpdateUser", &failure(other)),
        },
        StoreCall::Delete(_, _) => match reply {
            StoreReply::Count(rows) => WsUserMsg::from_delete(rows),
            other => WsUserMsg::from_error("DeleteUser", &failure(other)),
        },
    }
}

} // verus!
