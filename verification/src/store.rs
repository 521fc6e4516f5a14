//! What the gateway asks of the store and what the store answers. The
//! gateway decides on a call; whoever holds the connection performs it and
//! hands the reply back.

use vstd::prelude::*;

use crate::dbo::{records, DbObject, DbObjectView, Entity, Listing, Record, RecordView};

verus! {

/// One operation on the store.
#[derive(Clone, Debug, PartialEq, Eq)]
pub enum StoreCall {
    /// Fetch the entity of a kind that has the identifier.
    Get(Entity, i64),
    /// Fetch a listing.
    List(Listing),
    /// Store a new entity of a kind.
    Insert(Entity, Record),
    /// Overwrite the stored entity of a kind that has the record's
    /// identifier.
    Update(Entity, Record),
    /// Remove the entity of a kind that has the identifier.
    Delete(Entity, i64),
}

/// The mathematical value of a [`StoreCall`].
pub enum StoreCallView {
    Get(Entity, i64),
    List(Listing),
    Insert(Entity, RecordView),
    Update(Entity, RecordView),
    Delete(Entity, i64),
}

impl View for StoreCall {
    type V = StoreCallView;

    open spec fn view(&self) -> StoreCallView {
        match self {
            StoreCall::Get(entity, id) => StoreCallView::Get(*entity, *id),
            StoreCall::List(listing) => StoreCallView::List(*listing),
            StoreCall::Insert(entity, record) => StoreCallView::Insert(*entity, record@),
            StoreCall::Update(entity, record) => StoreCallView::Update(*entity, record@),
            StoreCall::Delete(entity, id) => StoreCallView::Delete(*entity, *id),
        }
    }
}

/// What the store hands back for one call.
#[derive(Clone, Debug, PartialEq, Eq)]
pub enum StoreReply {
    /// The entity that was fetched, or the entity as it was stored, with the
    /// identifier it was given.
    Item(Record),
    /// The rows of a listing.
    Items(Vec<Record>),
    /// The number of rows that an update or a deletion touched.
    Count(u64),
    /// The store failed; its own message.
    Failed(String),
}

/// The mathematical value of a [`StoreReply`].
pub enum StoreReplyView {
    Item(RecordView),
    Items(Seq<RecordView>),
    Count(u64),
    Failed(Seq<char>),
}

impl View for StoreReply {
    type V = StoreReplyView;

    open spec fn view(&self) -> StoreReplyView {
        match self {
            StoreReply::Item(record) => StoreReplyView::Item(record@),
            StoreReply::Items(list) => StoreReplyView::Items(records(list@)),
            StoreReply::Count(rows) => StoreReplyView::Count(*rows),
            StoreReply::Failed(detail) => StoreReplyView::Failed(detail@),
        }
    }
}

impl StoreCallView {
    /// Whether a reply is one that the store gives to this call: a failure
    /// to any call, one entity to a fetch and to an insertion, rows to a
    /// listing, a count to an update and to a deletion.
    pub open spec fn answered_by(self, reply: StoreReplyView) -> bool {
        match reply {
            StoreReplyView::Failed(_) => true,
            StoreReplyView::Item(_) => self is Get || self is Insert,
            StoreReplyView::Items(_) => self is List,
            StoreReplyView::Count(_) => self is Update || self is Delete,
        }
    }
}

/// What a catalog operation yields once the store has answered.
#[derive(Clone, Debug, PartialEq, Eq)]
pub enum Answer {
    /// The payload that was fetched.
    Object(DbObject),
    /// The identifier that an insertion gave.
    Id(i64),
    /// The number of rows that an update or a deletion touched.
    Rows(i64),
}

/// The mathematical value of an [`Answer`].
pub enum AnswerView {
    Object(DbObjectView),
    Id(i64),
    Rows(i64),
}

impl View for Answer {
    type V = AnswerView;

    open spec fn view(&self) -> AnswerView {
        match self {
            Answer::Object(object) => AnswerView::Object(object@),
            Answer::Id(id) => AnswerView::Id(*id),
            Answer::Rows(rows) => AnswerView::Rows(*rows),
        }
    }
}

} // verus!
