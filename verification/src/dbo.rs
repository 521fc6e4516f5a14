//! The entity catalog: the payloads the gateway carries, the kinds of entity
//! it knows by name, and the store call that each catalog operation resolves
//! to.

use vstd::prelude::*;

use crate::error::ServiceError;
use crate::messages::Item;
use crate::model;
use crate::store::{Answer, StoreCall, StoreReply};
use crate::text::{debug_string, decimal_string, str_eq};
use crate::views::{option_view, result_view};

verus! {

/// One stored entity as the gateway sees it: its identifier, and its fields
/// in their encoded form, which the gateway carries and never reads.
#[derive(Clone, Debug, PartialEq, Eq)]
pub struct Record {
    pub id: i64,
    pub fields: String,
}

/// The mathematical value of a [`Record`].
pub struct RecordView {
    pub id: i64,
    pub fields: Seq<char>,
}

impl View for Record {
    type V = RecordView;

    open spec fn view(&self) -> RecordView {
        RecordView { id: self.id, fields: self.fields@ }
    }
}

/// The values of a list of records, in order.
pub open spec fn records(list: Seq<Record>) -> Seq<RecordView> {
    list.map_values(|record: Record| record@)
}

/// A payload: nothing, one entity of a kind, or a list of one kind.
#[derive(Clone, Debug, PartialEq, Eq)]
pub enum DbObject {
    /// No payload.
    Null,
    /// One certificate record.
    Certificate(Record),
    /// The summaries of all certificate records.
    CertificateList(Vec<Record>),
    /// One company record.
    Company(Record),
    /// The summaries of all company records.
    CompanyList(Vec<Record>),
    /// One contact record.
    Contact(Record),
    /// The summaries of all contact records.
    ContactList(Vec<Record>),
    /// One department record.
    Department(Record),
    /// The summaries of all department records.
    DepartmentList(Vec<Record>),
    /// One education record.
    Education(Record),
    /// The summaries of all education records.
    EducationList(Vec<Record>),
    /// The education records of the near time window.
    EducationShort(Vec<Record>),
    /// One kind record.
    Kind(Record),
    /// The summaries of all kind records.
    KindList(Vec<Record>),
    /// One post record.
    Post(Record),
    /// The summaries of all post records.
    PostList(Vec<Record>),
    /// One practice record.
    Practice(Record),
    /// The summaries of all practice records.
    PracticeList(Vec<Record>),
    /// The practice records of the near time window.
    PracticeShort(Vec<Record>),
    /// One rank record.
    Rank(Record),
    /// The summaries of all rank records.
    RankList(Vec<Record>),
    /// One scope record.
    Scope(Record),
    /// The summaries of all scope records.
    ScopeList(Vec<Record>),
    /// Identifier and label pairs, for a choice among entities.
    SelectItem(Vec<Record>),
    /// One siren record.
    Siren(Record),
    /// The summaries of all siren records.
    SirenList(Vec<Record>),
    /// One siren type record.
    SirenType(Record),
    /// The summaries of all siren type records.
    SirenTypeList(Vec<Record>),
    /// One user record.
    User(Record),
    /// The summaries of all user records.
    UserList(Vec<Record>),
}

/// The mathematical value of a [`DbObject`].
pub enum DbObjectView {
    Null,
    Certificate(RecordView),
    CertificateList(Seq<RecordView>),
    Company(RecordView),
    CompanyList(Seq<RecordView>),
    Contact(RecordView),
    ContactList(Seq<RecordView>),
    Department(RecordView),
    DepartmentList(Seq<RecordView>),
    Education(RecordView),
    EducationList(Seq<RecordView>),
    EducationShort(Seq<RecordView>),
    Kind(RecordView),
    KindList(Seq<RecordView>),
    Post(RecordView),
    PostList(Seq<RecordView>),
    Practice(RecordView),
    PracticeList(Seq<RecordView>),
    PracticeShort(Seq<RecordView>),
    Rank(RecordView),
    RankList(Seq<RecordView>),
    Scope(RecordView),
    ScopeList(Seq<RecordView>),
    SelectItem(Seq<RecordView>),
    Siren(RecordView),
    SirenList(Seq<RecordView>),
    SirenType(RecordView),
    SirenTypeList(Seq<RecordView>),
    User(RecordView),
    UserList(Seq<RecordView>),
}

impl View for DbObject {
    type V = DbObjectView;

    open spec fn view(&self) -> DbObjectView {
        match self {
            DbObject::Null => DbObjectView::Null,
            DbObject::Certificate(record) => DbObjectView::Certificate(record@),
            DbObject::CertificateList(list) => DbObjectView::CertificateList(records(list@)),
            DbObject::Company(record) => DbObjectView::Company(record@),
            DbObject::CompanyList(list) => DbObjectView::CompanyList(records(list@)),
            DbObject::Contact(record) => DbObjectView::Contact(record@),
            DbObject::ContactList(list) => DbObjectView::ContactList(records(list@)),
            DbObject::Department(record) => DbObjectView::Department(record@),
            DbObject::DepartmentList(list) => DbObjectView::DepartmentList(records(list@)),
            DbObject::Education(record) => DbObjectView::Education(record@),
            DbObject::EducationList(list) => DbObjectView::EducationList(records(list@)),
            DbObject::EducationShort(list) => DbObjectView::EducationShort(records(list@)),
            DbObject::Kind(record) => DbObjectView::Kind(record@),
            DbObject::KindList(list) => DbObjectView::KindList(records(list@)),
            DbObject::Post(record) => DbObjectView::Post(record@),
            DbObject::PostList(list) => DbObjectView::PostList(records(list@)),
            DbObject::Practice(record) => DbObjectView::Practice(record@),
            DbObject::PracticeList(list) => DbObjectView::PracticeList(records(list@)),
            DbObject::PracticeShort(list) => DbObjectView::PracticeShort(records(list@)),
            DbObject::Rank(record) => DbObjectView::Rank(record@),
            DbObject::RankList(list) => DbObjectView::RankList(records(list@)),
            DbObject::Scope(record) => DbObjectView::Scope(record@),
            DbObject::ScopeList(list) => DbObjectView::ScopeList(records(list@)),
            DbObject::SelectItem(list) => DbObjectView::SelectItem(records(list@)),
            DbObject::Siren(record) => DbObjectView::Siren(record@),
            DbObject::SirenList(list) => DbObjectView::SirenList(records(list@)),
            DbObject::SirenType(record) => DbObjectView::SirenType(record@),
            DbObject::SirenTypeList(list) => DbObjectView::SirenTypeList(records(list@)),
            DbObject::User(record) => DbObjectView::User(record@),
            DbObject::UserList(list) => DbObjectView::UserList(records(list@)),
        }
    }
}

impl DbObjectView {
    /// The tag of the payload's kind; a payload of nothing has the empty tag.
    pub open spec fn name(self) -> Seq<char> {
        match self {
            DbObjectView::Null => Seq::<char>::empty(),
            DbObjectView::Certificate(_) => "Certificate"@,
            DbObjectView::CertificateList(_) => "CertificateList"@,
            DbObjectView::Company(_) => "Company"@,
            DbObjectView::CompanyList(_) => "CompanyList"@,
            DbObjectView::Contact(_) => "Contact"@,
            DbObjectView::ContactList(_) => "ContactList"@,
            DbObjectView::Department(_) => "Department"@,
            DbObjectView::DepartmentList(_) => "DepartmentList"@,
            DbObjectView::Education(_) => "Education"@,
            DbObjectView::EducationList(_) => "EducationList"@,
            DbObjectView::EducationShort(_) => "EducationShort"@,
            DbObjectView::Kind(_) => "Kind"@,
            DbObjectView::KindList(_) => "KindList"@,
            DbObjectView::Post(_) => "Post"@,
            DbObjectView::PostList(_) => "PostList"@,
            DbObjectView::Practice(_) => "Practice"@,
            DbObjectView::PracticeList(_) => "PracticeList"@,
            DbObjectView::PracticeShort(_) => "PracticeShort"@,
            DbObjectView::Rank(_) => "Rank"@,
            DbObjectView::RankList(_) => "RankList"@,
            DbObjectView::Scope(_) => "Scope"@,
            DbObjectView::ScopeList(_) => "ScopeList"@,
            DbObjectView::SelectItem(_) => "SelectItem"@,
            DbObjectView::Siren(_) => "Siren"@,
            DbObjectView::SirenList(_) => "SirenList"@,
            DbObjectView::SirenType(_) => "SirenType"@,
            DbObjectView::SirenTypeList(_) => "SirenTypeList"@,
            DbObjectView::User(_) => "User"@,
            DbObjectView::UserList(_) => "UserList"@,
        }
    }
}

impl DbObject {
    /// The tag of the payload's kind, by which it is routed and under which
    /// it is sent; a payload of nothing has the empty tag.
    pub fn name(&self) -> (tag: String)
        ensures
            tag@ == self@.name(),
    {
        match self {
            DbObject::Null => String::new(),
            DbObject::Certificate(_) => "Certificate".to_owned(),
            DbObject::CertificateList(_) => "CertificateList".to_owned(),
            DbObject::Company(_) => "Company".to_owned(),
            DbObject::CompanyList(_) => "CompanyList".to_owned(),
            DbObject::Contact(_) => "Contact".to_owned(),
            DbObject::ContactList(_) => "ContactList".to_owned(),
            DbObject::Department(_) => "Department".to_owned(),
            DbObject::DepartmentList(_) => "DepartmentList".to_owned(),
            DbObject::Education(_) => "Education".to_owned(),
            DbObject::EducationList(_) => "EducationList".to_owned(),
            DbObject::EducationShort(_) => "EducationShort".to_owned(),
            DbObject::Kind(_) => "Kind".to_owned(),
            DbObject::KindList(_) => "KindList".to_owned(),
            DbObject::Post(_) => "Post".to_owned(),
            DbObject::PostList(_) => "PostList".to_owned(),
            DbObject::Practice(_) => "Practice".to_owned(),
            DbObject::PracticeList(_) => "PracticeList".to_owned(),
            DbObject::PracticeShort(_) => "PracticeShort".to_owned(),
            DbObject::Rank(_) => "Rank".to_owned(),
            DbObject::RankList(_) => "RankList".to_owned(),
            DbObject::Scope(_) => "Scope".to_owned(),
            DbObject::ScopeList(_) => "ScopeList".to_owned(),
            DbObject::SelectItem(_) => "SelectItem".to_owned(),
            DbObject::Siren(_) => "Siren".to_owned(),
            DbObject::SirenList(_) => "SirenList".to_owned(),
            DbObject::SirenType(_) => "SirenType".to_owned(),
            DbObject::SirenTypeList(_) => "SirenTypeList".to_owned(),
            DbObject::User(_) => "User".to_owned(),
            DbObject::UserList(_) => "UserList".to_owned(),
        }
    }
}

/// The kinds of entity that are fetched, inserted, updated and deleted one
/// at a time.
#[derive(Clone, Copy, Debug, PartialEq, Eq, Structural)]
pub enum Entity {
    Certificate,
    Company,
    Contact,
    Department,
    Education,
    Kind,
    Post,
    Practice,
    Rank,
    Scope,
    Siren,
    SirenType,
    User,
}

/// The listings the catalog offers.
#[derive(Clone, Copy, Debug, PartialEq, Eq, Structural)]
pub enum Listing {
    /// The summaries of all certificate records.
    CertificateList,
    /// The summaries of all company records.
    CompanyList,
    /// Identifier and label of every company.
    CompanySelect,
    /// The summaries of all contact records.
    ContactList,
    /// Identifier and label of every contact.
    ContactSelect,
    /// The summaries of all department records.
    DepartmentList,
    /// Identifier and label of every department.
    DepartmentSelect,
    /// The summaries of all education records.
    EducationList,
    /// The education records of the near time window.
    EducationNear,
    /// The summaries of all kind records.
    KindList,
    /// Identifier and label of every kind.
    KindSelect,
    /// The summaries of all post records.
    PostList,
    /// Identifier and label of every post that is not marked as a go post.
    PostSelect,
    /// Identifier and label of every post that is marked as a go post.
    PostGoSelect,
    /// The summaries of all practice records.
    PracticeList,
    /// The practice records of the near time window.
    PracticeNear,
    /// The summaries of all rank records.
    RankList,
    /// Identifier and label of every rank.
    RankSelect,
    /// The summaries of all scope records.
    ScopeList,
    /// Identifier and label of every scope.
    ScopeSelect,
    /// The summaries of all siren records.
    SirenList,
    /// The summaries of all siren type records.
    SirenTypeList,
    /// Identifier and label of every siren type.
    SirenTypeSelect,
    /// The summaries of all user records.
    UserList,
}

impl View for Entity {
    type V = Entity;

    open spec fn view(&self) -> Entity {
        *self
    }
}

impl View for Listing {
    type V = Listing;

    open spec fn view(&self) -> Listing {
        *self
    }
}

impl Entity {
    /// The tag of the kind.
    pub open spec fn name(self) -> Seq<char> {
        match self {
            Entity::Certificate => "Certificate"@,
            Entity::Company => "Company"@,
            Entity::Contact => "Contact"@,
            Entity::Department => "Department"@,
            Entity::Education => "Education"@,
            Entity::Kind => "Kind"@,
            Entity::Post => "Post"@,
            Entity::Practice => "Practice"@,
            Entity::Rank => "Rank"@,
            Entity::Scope => "Scope"@,
            Entity::Siren => "Siren"@,
            Entity::SirenType => "SirenType"@,
            Entity::User => "User"@,
        }
    }

    /// The kind that a tag names, if it names one.
    pub open spec fn named(name: Seq<char>) -> Option<Entity> {
        if name == "Certificate"@ {
            Some(Entity::Certificate)
        } else if name == "Company"@ {
            Some(Entity::Company)
        } else if name == "Contact"@ {
            Some(Entity::Contact)
        } else if name == "Department"@ {
            Some(Entity::Department)
        } else if name == "Education"@ {
            Some(Entity::Education)
        } else if name == "Kind"@ {
            Some(Entity::Kind)
        } else if name == "Post"@ {
            Some(Entity::Post)
        } else if name == "Practice"@ {
            Some(Entity::Practice)
        } else if name == "Rank"@ {
            Some(Entity::Rank)
        } else if name == "Scope"@ {
            Some(Entity::Scope)
        } else if name == "Siren"@ {
            Some(Entity::Siren)
        } else if name == "SirenType"@ {
            Some(Entity::SirenType)
        } else if name == "User"@ {
            Some(Entity::User)
        } else {
            None
        }
    }

    /// Resolves a tag to the kind it names.
    pub fn from_name(name: &str) -> (found: Option<Entity>)
        ensures
            found == Entity::named(name@),
    {
        if str_eq(name, "Certificate") {
            Some(Entity::Certificate)
        } else if str_eq(name, "Company") {
            Some(Entity::Company)
        } else if str_eq(name, "Contact") {
            Some(Entity::Contact)
        } else if str_eq(name, "Department") {
            Some(Entity::Department)
        } else if str_eq(name, "Education") {
            Some(Entity::Education)
        } else if str_eq(name, "Kind") {
            Some(Entity::Kind)
        } else if str_eq(name, "Post") {
            Some(Entity::Post)
        } else if str_eq(name, "Practice") {
            Some(Entity::Practice)
        } else if str_eq(name, "Rank") {
            Some(Entity::Rank)
        } else if str_eq(name, "Scope") {
            Some(Entity::Scope)
        } else if str_eq(name, "Siren") {
            Some(Entity::Siren)
        } else if str_eq(name, "SirenType") {
            Some(Entity::SirenType)
        } else if str_eq(name, "User") {
            Some(Entity::User)
        } else {
            None
        }
    }
}

impl Listing {
    /// The tag of the listing.
    pub open spec fn name(self) -> Seq<char> {
        match self {
            Listing::CertificateList => "CertificateList"@,
            Listing::CompanyList => "CompanyList"@,
            Listing::CompanySelect => "CompanySelect"@,
            Listing::ContactList => "ContactList"@,
            Listing::ContactSelect => "ContactSelect"@,
            Listing::DepartmentList => "DepartmentList"@,
            Listing::DepartmentSelect => "DepartmentSelect"@,
            Listing::EducationList => "EducationList"@,
            Listing::EducationNear => "EducationNear"@,
            Listing::KindList => "KindList"@,
            Listing::KindSelect => "KindSelect"@,
            Listing::PostList => "PostList"@,
            Listing::PostSelect => "PostSelect"@,
            Listing::PostGoSelect => "PostGoSelect"@,
            Listing::PracticeList => "PracticeList"@,
            Listing::PracticeNear => "PracticeNear"@,
            Listing::RankList => "RankList"@,
            Listing::RankSelect => "RankSelect"@,
            Listing::ScopeList => "ScopeList"@,
            Listing::ScopeSelect => "ScopeSelect"@,
            Listing::SirenList => "SirenList"@,
            Listing::SirenTypeList => "SirenTypeList"@,
            Listing::SirenTypeSelect => "SirenTypeSelect"@,
            Listing::UserList => "UserList"@,
        }
    }

    /// The listing that a tag names, if it names one.
    pub open spec fn named(name: Seq<char>) -> Option<Listing> {
        if name == "CertificateList"@ {
            Some(Listing::CertificateList)
        } else if name == "CompanyList"@ {
            Some(Listing::CompanyList)
        } else if name == "CompanySelect"@ {
            Some(Listing::CompanySelect)
        } else if name == "ContactList"@ {
            Some(Listing::ContactList)
        } else if name == "ContactSelect"@ {
            Some(Listing::ContactSelect)
        } else if name == "DepartmentList"@ {
            Some(Listing::DepartmentList)
        } else if name == "DepartmentSelect"@ {
            Some(Listing::DepartmentSelect)
        } else if name == "EducationList"@ {
            Some(Listing::EducationList)
        } else if name == "EducationNear"@ {
            Some(Listing::EducationNear)
        } else if name == "KindList"@ {
            Some(Listing::KindList)
        } else if name == "KindSelect"@ {
            Some(Listing::KindSelect)
        } else if name == "PostList"@ {
            Some(Listing::PostList)
        } else if name == "PostSelect"@ {
            Some(Listing::PostSelect)
        } else if name == "PostGoSelect"@ {
            Some(Listing::PostGoSelect)
        } else if name == "PracticeList"@ {
            Some(Listing::PracticeList)
        } else if name == "PracticeNear"@ {
            Some(Listing::PracticeNear)
        } else if name == "RankList"@ {
            Some(Listing::RankList)
        } else if name == "RankSelect"@ {
            Some(Listing::RankSelect)
        } else if name == "ScopeList"@ {
            Some(Listing::ScopeList)
        } else if name == "ScopeSelect"@ {
            Some(Listing::ScopeSelect)
        } else if name == "SirenList"@ {
            Some(Listing::SirenList)
        } else if name == "SirenTypeList"@ {
            Some(Listing::SirenTypeList)
        } else if name == "SirenTypeSelect"@ {
            Some(Listing::SirenTypeSelect)
        } else if name == "UserList"@ {
            Some(Listing::UserList)
        } else {
            None
        }
    }

    /// Resolves a tag to the listing it names.
    pub fn from_name(name: &str) -> (found: Option<Listing>)
        ensures
            found == Listing::named(name@),
    {
        if str_eq(name, "CertificateList") {
            Some(Listing::CertificateList)
        } else if str_eq(name, "CompanyList") {
            Some(Listing::CompanyList)
        } else if str_eq(name, "CompanySelect") {
            Some(Listing::CompanySelect)
        } else if str_eq(name, "ContactList") {
            Some(Listing::ContactList)
        } else if str_eq(name, "ContactSelect") {
            Some(Listing::ContactSelect)
        } else if str_eq(name, "DepartmentList") {
            Some(Listing::DepartmentList)
        } else if str_eq(name, "DepartmentSelect") {
            Some(Listing::DepartmentSelect)
        } else if str_eq(name, "EducationList") {
            Some(Listing::EducationList)
        } else if str_eq(name, "EducationNear") {
            Some(Listing::EducationNear)
        } else if str_eq(name, "KindList") {
            Some(Listing::KindList)
        } else if str_eq(name, "KindSelect") {
            Some(Listing::KindSelect)
        } else if str_eq(name, "PostList") {
            Some(Listing::PostList)
        } else if str_eq(name, "PostSelect") {
            Some(Listing::PostSelect)
        } else if str_eq(name, "PostGoSelect") {
            Some(Listing::PostGoSelect)
        } else if str_eq(name, "PracticeList") {
            Some(Listing::PracticeList)
        } else if str_eq(name, "PracticeNear") {
            Some(Listing::PracticeNear)
        } else if str_eq(name, "RankList") {
            Some(Listing::RankList)
        } else if str_eq(name, "RankSelect") {
            Some(Listing::RankSelect)
        } else if str_eq(name, "ScopeList") {
            Some(Listing::ScopeList)
        } else if str_eq(name, "ScopeSelect") {
            Some(Listing::ScopeSelect)
        } else if str_eq(name, "SirenList") {
            Some(Listing::SirenList)
        } else if str_eq(name, "SirenTypeList") {
            Some(Listing::SirenTypeList)
        } else if str_eq(name, "SirenTypeSelect") {
            Some(Listing::SirenTypeSelect)
        } else if str_eq(name, "UserList") {
            Some(Listing::UserList)
        } else {
            None
        }
    }
}

impl DbObjectView {
    /// The payload of one entity of the given kind.
    pub open spec fn item(entity: Entity, record: RecordView) -> DbObjectView {
        match entity {
            Entity::Certificate => DbObjectView::Certificate(record),
            Entity::Company => DbObjectView::Company(record),
            Entity::Contact => DbObjectView::Contact(record),
            Entity::Department => DbObjectView::Department(record),
            Entity::Education => DbObjectView::Education(record),
            Entity::Kind => DbObjectView::Kind(record),
            Entity::Post => DbObjectView::Post(record),
            Entity::Practice => DbObjectView::Practice(record),
            Entity::Rank => DbObjectView::Rank(record),
            Entity::Scope => DbObjectView::Scope(record),
            Entity::Siren => DbObjectView::Siren(record),
            Entity::SirenType => DbObjectView::SirenType(record),
            Entity::User => DbObjectView::User(record),
        }
    }

    /// The payload that a listing is answered with.
    pub open spec fn list(listing: Listing, list: Seq<RecordView>) -> DbObjectView {
        match listing {
            Listing::CertificateList => DbObjectView::CertificateList(list),
            Listing::CompanyList => DbObjectView::CompanyList(list),
            Listing::CompanySelect => DbObjectView::SelectItem(list),
            Listing::ContactList => DbObjectView::ContactList(list),
            Listing::ContactSelect => DbObjectView::SelectItem(list),
            Listing::DepartmentList => DbObjectView::DepartmentList(list),
            Listing::DepartmentSelect => DbObjectView::SelectItem(list),
            Listing::EducationList => DbObjectView::EducationList(list),
            Listing::EducationNear => DbObjectView::EducationShort(list),
            Listing::KindList => DbObjectView::KindList(list),
            Listing::KindSelect => DbObjectView::SelectItem(list),
            Listing::PostList => DbObjectView::PostList(list),
            Listing::PostSelect => DbObjectView::SelectItem(list),
            Listing::PostGoSelect => DbObjectView::SelectItem(list),
            Listing::PracticeList => DbObjectView::PracticeList(list),
            Listing::PracticeNear => DbObjectView::PracticeShort(list),
            Listing::RankList => DbObjectView::RankList(list),
            Listing::RankSelect => DbObjectView::SelectItem(list),
            Listing::ScopeList => DbObjectView::ScopeList(list),
            Listing::ScopeSelect => DbObjectView::SelectItem(list),
            Listing::SirenList => DbObjectView::SirenList(list),
            Listing::SirenTypeList => DbObjectView::SirenTypeList(list),
            Listing::SirenTypeSelect => DbObjectView::SelectItem(list),
            Listing::UserList => DbObjectView::UserList(list),
        }
    }

    /// The kind and the record of a payload of one entity; a payload of
    /// nothing or of a list has neither.
    pub open spec fn as_item(self) -> Option<(Entity, RecordView)> {
        match self {
            DbObjectView::Certificate(record) => Some((Entity::Certificate, record)),
            DbObjectView::Company(record) => Some((Entity::Company, record)),
            DbObjectView::Contact(record) => Some((Entity::Contact, record)),
            DbObjectView::Department(record) => Some((Entity::Department, record)),
            DbObjectView::Education(record) => Some((Entity::Education, record)),
            DbObjectView::Kind(record) => Some((Entity::Kind, record)),
            DbObjectView::Post(record) => Some((Entity::Post, record)),
            DbObjectView::Practice(record) => Some((Entity::Practice, record)),
            DbObjectView::Rank(record) => Some((Entity::Rank, record)),
            DbObjectView::Scope(record) => Some((Entity::Scope, record)),
            DbObjectView::Siren(record) => Some((Entity::Siren, record)),
            DbObjectView::SirenType(record) => Some((Entity::SirenType, record)),
            DbObjectView::User(record) => Some((Entity::User, record)),
            _ => None,
        }
    }
}

impl DbObject {
    /// The payload of one entity of the given kind.
    pub fn item(entity: Entity, record: Record) -> (object: DbObject)
        ensures
            object@ == DbObjectView::item(entity, record@),
    {
        match entity {
            Entity::Certificate => DbObject::Certificate(record),
            Entity::Company => DbObject::Company(record),
            Entity::Contact => DbObject::Contact(record),
            Entity::Department => DbObject::Department(record),
            Entity::Education => DbObject::Education(record),
            Entity::Kind => DbObject::Kind(record),
            Entity::Post => DbObject::Post(record),
            Entity::Practice => DbObject::Practice(record),
            Entity::Rank => DbObject::Rank(record),
            Entity::Scope => DbObject::Scope(record),
            Entity::Siren => DbObject::Siren(record),
            Entity::SirenType => DbObject::SirenType(record),
            Entity::User => DbObject::User(record),
        }
    }

    /// The payload that a listing is answered with.
    pub fn list(listing: Listing, list: Vec<Record>) -> (object: DbObject)
        ensures
            object@ == DbObjectView::list(listing, records(list@)),
    {
        match listing {
            Listing::CertificateList => DbObject::CertificateList(list),
            Listing::CompanyList => DbObject::CompanyList(list),
            Listing::CompanySelect => DbObject::SelectItem(list),
            Listing::ContactList => DbObject::ContactList(list),
            Listing::ContactSelect => DbObject::SelectItem(list),
            Listing::DepartmentList => DbObject::DepartmentList(list),
            Listing::DepartmentSelect => DbObject::SelectItem(list),
            Listing::EducationList => DbObject::EducationList(list),
            Listing::EducationNear => DbObject::EducationShort(list),
            Listing::KindList => DbObject::KindList(list),
            Listing::KindSelect => DbObject::SelectItem(list),
            Listing::PostList => DbObject::PostList(list),
            Listing::PostSelect => DbObject::SelectItem(list),
            Listing::PostGoSelect => DbObject::SelectItem(list),
            Listing::PracticeList => DbObject::PracticeList(list),
            Listing::PracticeNear => DbObject::PracticeShort(list),
            Listing::RankList => DbObject::RankList(list),
            Listing::RankSelect => DbObject::SelectItem(list),
            Listing::ScopeList => DbObject::ScopeList(list),
            Listing::ScopeSelect => DbObject::SelectItem(list),
            Listing::SirenList => DbObject::SirenList(list),
            Listing::SirenTypeList => DbObject::SirenTypeList(list),
            Listing::SirenTypeSelect => DbObject::SelectItem(list),
            Listing::UserList => DbObject::UserList(list),
        }
    }

    /// Takes a payload of one entity apart into its kind and its record.
    pub fn into_item(self) -> (parts: Option<(Entity, Record)>)
        ensures
            option_view(parts) == self@.as_item(),
    {
        match self {
            DbObject::Certificate(record) => Some((Entity::Certificate, record)),
            DbObject::Company(record) => Some((Entity::Company, record)),
            DbObject::Contact(record) => Some((Entity::Contact, record)),
            DbObject::Department(record) => Some((Entity::Department, record)),
            DbObject::Education(record) => Some((Entity::Education, record)),
            DbObject::Kind(record) => Some((Entity::Kind, record)),
            DbObject::Post(record) => Some((Entity::Post, record)),
            DbObject::Practice(record) => Some((Entity::Practice, record)),
            DbObject::Rank(record) => Some((Entity::Rank, record)),
            DbObject::Scope(record) => Some((Entity::Scope, record)),
            DbObject::Siren(record) => Some((Entity::Siren, record)),
            DbObject::SirenType(record) => Some((Entity::SirenType, record)),
            DbObject::User(record) => Some((Entity::User, record)),
            _ => None,
        }
    }
}

/// Resolves a reference to one entity to the call that fetches it. A tag
/// that names no kind is refused as a bad request that names the tag and
/// the identifier.
pub fn get_item(item: &Item) -> (plan: Result<StoreCall, ServiceError>)
    ensures
        result_view(plan) == model::get_item(item@),
{
    match Entity::from_name(item.name.as_str()) {
        Some(entity) => Ok(StoreCall::Get(entity, item.id)),
        None => {
            let id = decimal_string(item.id);
            let mut detail = "bad item object: ".to_owned();
            detail.append(item.name.as_str());
            detail.append(" ");
            detail.append(id.as_str());
            Err(ServiceError::BadRequest(detail))
        },
    }
}

/// Resolves the tag of a listing to the call that fetches it. A tag that
/// names no listing is refused as a bad request that names the tag.
pub fn get_list(name: &str) -> (plan: Result<StoreCall, ServiceError>)
    ensures
        result_view(plan) == model::get_list(name@),
{
    match Listing::from_name(name) {
        Some(listing) => Ok(StoreCall::List(listing)),
        None => {
            let mut detail = "bad list object: ".to_owned();
            detail.append(name);
            Err(ServiceError::BadRequest(detail))
        },
    }
}

/// Resolves a payload to the call that stores it as a new entity. A payload
/// that is not one entity is refused as a bad request.
pub fn insert_item(object: DbObject) -> (plan: Result<StoreCall, ServiceError>)
    ensures
        result_view(plan) == model::insert_item(object@),
{
    match object.into_item() {
        Some((entity, record)) => Ok(StoreCall::Insert(entity, record)),
        None => Err(ServiceError::BadRequest("bad item object".to_owned())),
    }
}

/// Resolves a payload to the call that overwrites the stored entity with it.
/// A payload that is not one entity is refused as a bad request.
pub fn update_item(object: DbObject) -> (plan: Result<StoreCall, ServiceError>)
    ensures
        result_view(plan) == model::update_item(object@),
{
    match object.into_item() {
        Some((entity, record)) => Ok(StoreCall::Update(entity, record)),
        None => Err(ServiceError::BadRequest("bad item object".to_owned())),
    }
}

/// The refusal of a deletion whose tag names no kind, from the tag as
/// `Debug` formatting writes it.
pub fn bad_path(quoted: &str) -> (refusal: ServiceError)
    ensures
        refusal@ == model::bad_path(quoted@),
{
    let mut detail = "bad path ".to_owned();
    detail.append(quoted);
    ServiceError::BadRequest(detail)
}

/// Resolves a reference to one entity to the call that removes it. A tag
/// that names no kind is refused as a bad request that names the tag.
pub fn delete_item(item: &Item) -> (plan: Result<StoreCall, ServiceError>)
    ensures
        result_view(plan) == model::delete_item(item@),
{
    match Entity::from_name(item.name.as_str()) {
        Some(entity) => Ok(StoreCall::Delete(entity, item.id)),
        None => {
            let quoted = debug_string(item.name.as_str());
            Err(bad_path(quoted.as_str()))
        },
    }
}

/// The failure that a reply stands for where it is not the answer its call
/// asks for.
pub fn failure(reply: StoreReply) -> (err: ServiceError)
    ensures
        err@ == model::failure(reply@),
{
    match reply {
        StoreReply::Failed(detail) => ServiceError::Rpel(detail),
        _ => ServiceError::Rpel(String::new()),
    }
}

/// Concludes a catalog operation from the store's reply to its call: a
/// fetch yields the payload under the tag of its kind, an insertion the
/// identifier the entity was stored with, an update or a deletion the
/// number of rows it touched. A failure of the store is handed on with its
/// message; a reply that answers another kind of call counts as a failure
/// of the store without a message.
pub fn conclude(call: &StoreCall, reply: StoreReply) -> (outcome: Result<Answer, ServiceError>)
    ensures
        result_view(outcome) == model::conclude(call@, reply@),
{
    match call {
        StoreCall::Get(entity, _) => match reply {
            StoreReply::Item(record) => Ok(Answer::Object(DbObject::item(*entity, record))),
            other => Err(failure(other)),
        },
        StoreCall::List(listing) => match reply {
            StoreReply::Items(list) => Ok(Answer::Object(DbObject::list(*listing, list))),
            other => Err(failure(other)),
        },
        StoreCall::Insert(_, _) => match reply {
            StoreReply::Item(record) => Ok(Answer::Id(record.id)),
            other => Err(failure(other)),
        },
        StoreCall::Update(_, _) => match reply {
            StoreReply::Count(rows) => Ok(Answer::Rows(rows as i64)),
            other => Err(failure(other)),
        },
        StoreCall::Delete(_, _) => match reply {
            StoreReply::Count(rows) => Ok(Answer::Rows(rows as i64)),
            other => Err(failure(other)),
        },
    }
}

} // verus!
