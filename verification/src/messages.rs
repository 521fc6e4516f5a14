//! The messages that cross the gateway: the command a client sends and the
//! envelope it is answered with.

use vstd::prelude::*;

use crate::dbo::{DbObject, DbObjectView};
use crate::error::ServiceError;
use crate::model;
use crate::users::{UserObject, UserObjectView};
use crate::views::result_view;

verus! {

/// What a client sends: a command, and the token of the session it is sent
/// under.
#[derive(Clone, Debug, PartialEq, Eq)]
pub struct ClientMessage {
    pub command: Command,
    pub addon: String,
}

/// The mathematical value of a [`ClientMessage`].
pub struct ClientMessageView {
    pub command: CommandView,
    pub addon: Seq<char>,
}

impl View for ClientMessage {
    type V = ClientMessageView;

    open spec fn view(&self) -> ClientMessageView {
        ClientMessageView { command: self.command@, addon: self.addon@ }
    }
}

/// A reference to one entity: the tag of its kind and its identifier.
#[derive(Clone, Debug, PartialEq, Eq)]
pub struct Item {
    pub name: String,
    pub id: i64,
}

/// The mathematical value of an [`Item`].
pub struct ItemView {
    pub name: Seq<char>,
    pub id: i64,
}

impl View for Item {
    type V = ItemView;

    open spec fn view(&self) -> ItemView {
        ItemView { name: self.name@, id: self.id }
    }
}

/// A command: an operation of the catalog on the entity or listing it names,
/// or an operation on the users themselves.
#[derive(Clone, Debug, PartialEq, Eq)]
pub enum Command {
    /// Fetch one entity.
    GetItem(Item),
    /// Fetch the listing that the tag names.
    GetList(String),
    /// Store the payload as a new entity.
    InsertItem(DbObject),
    /// Overwrite a stored entity with the payload.
    UpdateItem(DbObject),
    /// Remove one entity.
    DeleteItem(Item),
    /// Administer the users.
    User(UserObject),
}

/// The mathematical value of a [`Command`].
pub enum CommandView {
    GetItem(ItemView),
    GetList(Seq<char>),
    InsertItem(DbObjectView),
    UpdateItem(DbObjectView),
    DeleteItem(ItemView),
    User(UserObjectView),
}

impl View for Command {
    type V = CommandView;

    open spec fn view(&self) -> CommandView {
        match self {
            Command::GetItem(item) => CommandView::GetItem(item@),
            Command::GetList(name) => CommandView::GetList(name@),
            Command::InsertItem(object) => CommandView::InsertItem(object@),
            Command::UpdateItem(object) => CommandView::UpdateItem(object@),
            Command::DeleteItem(item) => CommandView::DeleteItem(item@),
            Command::User(object) => CommandView::User(object@),
        }
    }
}

/// The envelope that answers a command of the catalog: the command's name,
/// the tag of the entity kind, the payload and the failure's text. On
/// success the text is empty; on failure the payload is
/// [`DbObject::Null`].
#[derive(Clone, Debug, PartialEq, Eq)]
pub struct WsMsg {
    pub command: String,
    pub name: String,
    pub object: DbObject,
    pub error: String,
}

/// The mathematical value of a [`WsMsg`].
pub struct WsMsgView {
    pub command: Seq<char>,
    pub name: Seq<char>,
    pub object: DbObjectView,
    pub error: Seq<char>,
}

impl View for WsMsg {
    type V = WsMsgView;

    open spec fn view(&self) -> WsMsgView {
        WsMsgView {
            command: self.command@,
            name: self.name@,
            object: self.object@,
            error: self.error@,
        }
    }
}

impl WsMsg {
    /// Wraps the outcome of a catalog operation: a payload goes out with an
    /// empty failure text, a failure as its text beside a payload of
    /// nothing.
    pub fn from_dbo(
        command: &str,
        name: String,
        dbo: Result<DbObject, ServiceError>,
    ) -> (msg: WsMsg)
        ensures
            msg@ == model::from_dbo(command@, name@, result_view(dbo)),
    {
        match dbo {
            Ok(object) => WsMsg { command: command.to_owned(), name, object, error: String::new() },
            Err(err) => WsMsg {
                command: command.to_owned(),
                name,
                object: DbObject::Null,
                error: err.to_string(),
            },
        }
    }
}

} // verus!
