//! What holds of the gateway for all inputs, proved from the model.

use vstd::prelude::*;

use crate::auth::AuthView;
use crate::dbo::{DbObjectView, Entity, Listing, RecordView};
use crate::error::ServiceErrorView;
use crate::messages::{ClientMessageView, CommandView, ItemView};
use crate::model::{
    bad_path, check, check_auth, conclude, credentials_position, delete_item, distinct_tokens,
    failure, from_dbo, get_item, get_list, get_reply, get_user, has_credentials, has_token,
    insert, insert_item, is_first_with_credentials, is_first_with_token, issued, jsonpost,
    login, paired, permissions, permits, required_bit, respond, token_position, SessionView,
};
use crate::services::{PendingView, ResponseView};
use crate::store::{AnswerView, StoreCallView, StoreReplyView};
use crate::text::{debug_text, decimal};
use crate::users::{UserDataView, UserObjectView};

verus! {

/// A role reaches a bit position exactly when it is at least two to the
/// power of the position: any bit at or above the position will do, and a
/// negative role reaches none.
pub proof fn law_permits_from_threshold(role: i64, position: u32)
    requires
        position < 63,
    ensures
        permits(role, position) <==> role >= (1i64 << position),
{
    assert((role >> position > 0) <==> role >= (1i64 << position)) by (bit_vector)
        requires
            position < 63,
    ;
}

/// A role that reaches a bit position reaches every lower one.
pub proof fn law_permits_lower(role: i64, position: u32, lower: u32)
    requires
        lower <= position,
        permits(role, position),
    ensures
        permits(role, lower),
{
    assert(role >> position > 0 ==> role >> lower > 0) by (bit_vector)
        requires
            lower <= position,
    ;
}

/// The least role that allows a command: two to the power of the command's
/// bit position.
pub open spec fn least_role(command: CommandView) -> int {
    match command {
        CommandView::GetItem(_) => 2,
        CommandView::GetList(_) => 4,
        CommandView::InsertItem(_) => 8,
        CommandView::UpdateItem(_) => 16,
        CommandView::DeleteItem(_) => 32,
        CommandView::User(UserObjectView::GetUser(_)) => 64,
        CommandView::User(UserObjectView::GetUserList) => 64,
        CommandView::User(UserObjectView::InsertUser(_)) => 128,
        CommandView::User(UserObjectView::UpdateUser(_)) => 256,
        CommandView::User(UserObjectView::DeleteUser(_)) => 512,
    }
}

/// A command is allowed exactly when the role, shifted right by the
/// command's bit position, is greater than zero; that is, when the role is
/// at least the least role of the command. An allowed command comes back
/// unchanged, and the one refusal is that of permission.
pub proof fn law_permissions(role: i64, command: CommandView)
    ensures
        permissions(role, command) is Ok <==> role >> required_bit(command) > 0,
        permissions(role, command) is Ok <==> role >= least_role(command),
        permissions(role, command) is Ok ==> permissions(role, command) == Ok::<
            CommandView,
            ServiceErrorView,
        >(command),
        permissions(role, command) is Err ==> permissions(role, command) == Err::<
            CommandView,
            ServiceErrorView,
        >(ServiceErrorView::NotPermission),
{
    assert((role >> 1u32 > 0) <==> role >= 2) by (bit_vector);
    assert((role >> 2u32 > 0) <==> role >= 4) by (bit_vector);
    assert((role >> 3u32 > 0) <==> role >= 8) by (bit_vector);
    assert((role >> 4u32 > 0) <==> role >= 16) by (bit_vector);
    assert((role >> 5u32 > 0) <==> role >= 32) by (bit_vector);
    assert((role >> 6u32 > 0) <==> role >= 64) by (bit_vector);
    assert((role >> 7u32 > 0) <==> role >= 128) by (bit_vector);
    assert((role >> 8u32 > 0) <==> role >= 256) by (bit_vector);
    assert((role >> 9u32 > 0) <==> role >= 512) by (bit_vector);
}

/// Every kind of entity is found by its tag; a tag that names a kind is
/// that kind's tag.
pub proof fn law_entity_tags_resolve(entity: Entity, name: Seq<char>)
    ensures
        Entity::named(entity.name()) == Some(entity),
        Entity::named(name) == Some(entity) ==> name == entity.name(),
{
    reveal_strlit("Certificate");
    assert("Certificate"@ =~= seq!['C', 'e', 'r', 't', 'i', 'f', 'i', 'c', 'a', 't', 'e']);
    reveal_strlit("Company");
    assert("Company"@ =~= seq!['C', 'o', 'm', 'p', 'a', 'n', 'y']);
    reveal_strlit("Contact");
    assert("Contact"@ =~= seq!['C', 'o', 'n', 't', 'a', 'c', 't']);
    reveal_strlit("Department");
    assert("Department"@ =~= seq!['D', 'e', 'p', 'a', 'r', 't', 'm', 'e', 'n', 't']);
    reveal_strlit("Education");
    assert("Education"@ =~= seq!['E', 'd', 'u', 'c', 'a', 't', 'i', 'o', 'n']);
    reveal_strlit("Kind");
    assert("Kind"@ =~= seq!['K', 'i', 'n', 'd']);
    reveal_strlit("Post");
    assert("Post"@ =~= seq!['P', 'o', 's', 't']);
    reveal_strlit("Practice");
    assert("Practice"@ =~= seq!['P', 'r', 'a', 'c', 't', 'i', 'c', 'e']);
    reveal_strlit("Rank");
    assert("Rank"@ =~= seq!['R', 'a', 'n', 'k']);
    reveal_strlit("Scope");
    assert("Scope"@ =~= seq!['S', 'c', 'o', 'p', 'e']);
    reveal_strlit("Siren");
    assert("Siren"@ =~= seq!['S', 'i', 'r', 'e', 'n']);
    reveal_strlit("SirenType");
    assert("SirenType"@ =~= seq!['S', 'i', 'r', 'e', 'n', 'T', 'y', 'p', 'e']);
    reveal_strlit("User");
    assert("User"@ =~= seq!['U', 's', 'e', 'r']);
}

/// Every listing is found by its tag; a tag that names a listing is that
/// listing's tag.
pub proof fn law_listing_tags_resolve(listing: Listing, name: Seq<char>)
    ensures
        Listing::named(listing.name()) == Some(listing),
        Listing::named(name) == Some(listing) ==> name == listing.name(),
{
    reveal_strlit("CertificateList");
    assert("CertificateList"@ =~= seq![
        'C', 'e', 'r', 't', 'i', 'f', 'i', 'c', 'a', 't', 'e', 'L', 'i', 's', 't'
    ]);
    reveal_strlit("CompanyList");
    assert("CompanyList"@ =~= seq!['C', 'o', 'm', 'p', 'a', 'n', 'y', 'L', 'i', 's', 't']);
    reveal_strlit("CompanySelect");
    assert("CompanySelect"@ =~= seq![
        'C', 'o', 'm', 'p', 'a', 'n', 'y', 'S', 'e', 'l', 'e', 'c', 't'
    ]);
    reveal_strlit("ContactList");
    assert("ContactList"@ =~= seq!['C', 'o', 'n', 't', 'a', 'c', 't', 'L', 'i', 's', 't']);
    reveal_strlit("ContactSelect");
    assert("ContactSelect"@ =~= seq![
        'C', 'o', 'n', 't', 'a', 'c', 't', 'S', 'e', 'l', 'e', 'c', 't'
    ]);
    reveal_strlit("DepartmentList");
    assert("DepartmentList"@ =~= seq![
        'D', 'e', 'p', 'a', 'r', 't', 'm', 'e', 'n', 't', 'L', 'i', 's', 't'
    ]);
    reveal_strlit("DepartmentSelect");
    assert("DepartmentSelect"@ =~= seq![
        'D', 'e', 'p', 'a', 'r', 't', 'm', 'e', 'n', 't', 'S', 'e', 'l', 'e', 'c',
        't'
    ]);
    reveal_strlit("EducationList");
    assert("EducationList"@ =~= seq![
        'E', 'd', 'u', 'c', 'a', 't', 'i', 'o', 'n', 'L', 'i', 's', 't'
    ]);
    reveal_strlit("EducationNear");
    assert("EducationNear"@ =~= seq![
        'E', 'd', 'u', 'c', 'a', 't', 'i', 'o', 'n', 'N', 'e', 'a', 'r'
    ]);
    reveal_strlit("KindList");
    assert("KindList"@ =~= seq!['K', 'i', 'n', 'd', 'L', 'i', 's', 't']);
    reveal_strlit("KindSelect");
    assert("KindSelect"@ =~= seq!['K', 'i', 'n', 'd', 'S', 'e', 'l', 'e', 'c', 't']);
    reveal_strlit("PostList");
    assert("PostList"@ =~= seq!['P', 'o', 's', 't', 'L', 'i', 's', 't']);
    reveal_strlit("PostSelect");
    assert("PostSelect"@ =~= seq!['P', 'o', 's', 't', 'S', 'e', 'l', 'e', 'c', 't']);
    reveal_strlit("PostGoSelect");
    assert("PostGoSelect"@ =~= seq!['P', 'o', 's', 't', 'G', 'o', 'S', 'e', 'l', 'e', 'c', 't']);
    reveal_strlit("PracticeList");
    assert("PracticeList"@ =~= seq!['P', 'r', 'a', 'c', 't', 'i', 'c', 'e', 'L', 'i', 's', 't']);
    reveal_strlit("PracticeNear");
    assert("PracticeNear"@ =~= seq!['P', 'r', 'a', 'c', 't', 'i', 'c', 'e', 'N', 'e', 'a', 'r']);
    reveal_strlit("RankList");
    assert("RankList"@ =~= seq!['R', 'a', 'n', 'k', 'L', 'i', 's', 't']);
    reveal_strlit("RankSelect");
    assert("RankSelect"@ =~= seq!['R', 'a', 'n', 'k', 'S', 'e', 'l', 'e', 'c', 't']);
    reveal_strlit("ScopeList");
    assert("ScopeList"@ =~= seq!['S', 'c', 'o', 'p', 'e', 'L', 'i', 's', 't']);
    reveal_strlit("ScopeSelect");
    assert("ScopeSelect"@ =~= seq!['S', 'c', 'o', 'p', 'e', 'S', 'e', 'l', 'e', 'c', 't']);
    reveal_strlit("SirenList");
    assert("SirenList"@ =~= seq!['S', 'i', 'r', 'e', 'n', 'L', 'i', 's', 't']);
    reveal_strlit("SirenTypeList");
    assert("SirenTypeList"@ =~= seq![
        'S', 'i', 'r', 'e', 'n', 'T', 'y', 'p', 'e', 'L', 'i', 's', 't'
    ]);
    reveal_strlit("SirenTypeSelect");
    assert("SirenTypeSelect"@ =~= seq![
        'S', 'i', 'r', 'e', 'n', 'T', 'y', 'p', 'e', 'S', 'e', 'l', 'e', 'c', 't'
    ]);
    reveal_strlit("UserList");
    assert("UserList"@ =~= seq!['U', 's', 'e', 'r', 'L', 'i', 's', 't']);
}

/// The catalog refuses a fetch exactly when the tag names no kind, or no
/// listing, and the refusal names the tag: the detail of the bad request
/// ends with it.
pub proof fn law_unknown_kind_is_refused_by_name(item: ItemView, name: Seq<char>)
    ensures
        get_item(item) is Err <==> Entity::named(item.name) is None,
        get_item(item) matches Err(err) ==> err == ServiceErrorView::BadRequest(
            "bad item object: "@ + item.name + " "@ + decimal(item.id as int),
        ),
        get_list(name) is Err <==> Listing::named(name) is None,
        get_list(name) matches Err(err) ==> err == ServiceErrorView::BadRequest(
            "bad list object: "@ + name,
        ),
{
}

/// A catalog operation is concluded with what it yields exactly when the
/// reply is the answer that its call asks for; every other reply is
/// concluded with the reply's failure.
pub proof fn law_conclude_fails_on_other_replies(call: StoreCallView, reply: StoreReplyView)
    ensures
        conclude(call, reply) is Ok <==> call.answered_by(reply) && !(reply is Failed),
        conclude(call, reply) matches Err(err) ==> err == failure(reply),
{
}

/// The text a failure is reported with is never empty.
pub proof fn law_message_is_not_empty(err: ServiceErrorView)
    ensures
        err.message().len() > 0,
{
    reveal_strlit("Socket address parse: ");
    assert("Socket address parse: "@.len() == 22);
    reveal_strlit("Bad request: ");
    assert("Bad request: "@.len() == 13);
    reveal_strlit("IO: ");
    assert("IO: "@.len() == 4);
    reveal_strlit("Rpel: ");
    assert("Rpel: "@.len() == 6);
    reveal_strlit("Serde JSON: ");
    assert("Serde JSON: "@.len() == 12);
    reveal_strlit("Not auth");
    assert("Not auth"@.len() == 8);
    reveal_strlit("Not permission");
    assert("Not permission"@.len() == 14);
    reveal_strlit("Hyper: ");
    assert("Hyper: "@.len() == 7);
    reveal_strlit("Hyper http: ");
    assert("Hyper http: "@.len() == 12);
    reveal_strlit("Request not contain state");
    assert("Request not contain state"@.len() == 25);
    reveal_strlit("No build router");
    assert("No build router"@.len() == 15);
    reveal_strlit("std ");
    assert("std "@.len() == 4);
}

/// An envelope carries a failure's text exactly when the catalog operation
/// failed, and then it carries a payload of nothing; when the operation
/// succeeded it carries the operation's payload.
pub proof fn law_envelope_has_payload_or_error(
    command: Seq<char>,
    name: Seq<char>,
    dbo: Result<DbObjectView, ServiceErrorView>,
)
    ensures
        from_dbo(command, name, dbo).error.len() > 0 <==> dbo is Err,
        dbo is Err ==> from_dbo(command, name, dbo).object == DbObjectView::Null,
        dbo matches Ok(object) ==> from_dbo(command, name, dbo).object == object,
        from_dbo(command, name, dbo).command == command,
        from_dbo(command, name, dbo).name == name,
{
    if let Err(err) = dbo {
        law_message_is_not_empty(err);
    }
}

/// A payload of one entity has the tag of the entity's kind, and comes
/// apart into the kind and the record it was made of.
pub proof fn law_item_payload(entity: Entity, record: RecordView)
    ensures
        DbObjectView::item(entity, record).name() == entity.name(),
        DbObjectView::item(entity, record).as_item() == Some((entity, record)),
{
}

/// With a store that keeps what it is given, a payload that is inserted is
/// read back as it was: the insertion carries the payload's record to the
/// store and is concluded with the identifier that the store gave, and the
/// fetch of that kind and identifier is concluded with the stored record
/// under the tag of the kind.
pub proof fn law_inserted_payload_reads_back(entity: Entity, record: RecordView, id: i64)
    ensures
        ({
            let stored = RecordView { id, fields: record.fields };
            let insertion = StoreCallView::Insert(entity, record);
            let fetch = StoreCallView::Get(entity, id);
            &&& insert_item(DbObjectView::item(entity, record)) == Ok::<
                StoreCallView,
                ServiceErrorView,
            >(insertion)
            &&& conclude(insertion, StoreReplyView::Item(stored)) == Ok::<
                AnswerView,
                ServiceErrorView,
            >(AnswerView::Id(id))
            &&& get_item(ItemView { name: entity.name(), id }) == Ok::<
                StoreCallView,
                ServiceErrorView,
            >(fetch)
            &&& conclude(fetch, StoreReplyView::Item(stored)) == Ok::<AnswerView, ServiceErrorView>(
                AnswerView::Object(DbObjectView::item(entity, stored)),
            )
        }),
{
    law_entity_tags_resolve(entity, entity.name());
    law_item_payload(entity, record);
}

/// Every kind of entity is deleted under its own tag, the tag under which
/// it is fetched: the deletion is resolved exactly when the fetch is, to
/// the same kind and identifier, and it is concluded with the number of
/// rows that the store reports.
pub proof fn law_deletion_goes_by_the_tag_of_the_kind(
    entity: Entity,
    item: ItemView,
    rows: u64,
)
    ensures
        delete_item(ItemView { name: entity.name(), id: item.id }) == Ok::<
            StoreCallView,
            ServiceErrorView,
        >(StoreCallView::Delete(entity, item.id)),
        delete_item(item) is Ok <==> get_item(item) is Ok,
        delete_item(item) is Ok <==> Entity::named(item.name) is Some,
        delete_item(item) matches Ok(call) ==> call == StoreCallView::Delete(
            Entity::named(item.name)->Some_0,
            item.id,
        ),
        delete_item(item) matches Err(err) ==> err == bad_path(debug_text(item.name)),
        conclude(StoreCallView::Delete(entity, item.id), StoreReplyView::Count(rows)) == Ok::<
            AnswerView,
            ServiceErrorView,
        >(AnswerView::Rows(rows as i64)),
{
    law_entity_tags_resolve(entity, entity.name());
}

/// The envelope of a fetched entity goes out under the tag that the command
/// named, and that tag is the tag of the payload in it.
pub proof fn law_fetched_item_goes_out_under_its_tag(item: ItemView, record: RecordView)
    requires
        get_item(item) is Ok,
    ensures
        respond(
            PendingView::Entity { name: item.name, call: get_item(item)->Ok_0 },
            StoreReplyView::Item(record),
        ) matches ResponseView::Entity(msg) && msg.command == "GetItem"@ && msg.name == item.name
            && msg.object.name() == item.name && msg.object.as_item() == Some(
            (Entity::named(item.name)->Some_0, record),
        ) && msg.error == Seq::<char>::empty(),
{
    let entity = Entity::named(item.name)->Some_0;
    law_entity_tags_resolve(entity, item.name);
    law_item_payload(entity, record);
}

/// Where some session has a token, some session is the first that has it,
/// and it stands no later.
pub proof fn law_token_is_first_somewhere(sessions: Seq<SessionView>, token: Seq<char>, i: int)
    requires
        0 <= i < sessions.len(),
        sessions[i].token == token,
    ensures
        has_token(sessions, token),
        token_position(sessions, token) <= i,
        is_first_with_token(sessions, token, token_position(sessions, token)),
    decreases i,
{
    if exists|j: int| 0 <= j < i && (#[trigger] sessions[j]).token == token {
        let j = choose|j: int| 0 <= j < i && (#[trigger] sessions[j]).token == token;
        law_token_is_first_somewhere(sessions, token, j);
    } else {
        assert(is_first_with_token(sessions, token, i));
        let at = token_position(sessions, token);
        assert(is_first_with_token(sessions, token, at));
        if at > i {
            assert(sessions[i].token != token);
        }
    }
}

/// Where some session is of a user with a name and a secret, some session
/// is the first that is, and it stands no later.
pub proof fn law_credentials_are_first_somewhere(
    sessions: Seq<SessionView>,
    name: Seq<char>,
    key: Seq<char>,
    i: int,
)
    requires
        0 <= i < sessions.len(),
        sessions[i].user.name == name,
        sessions[i].user.key == key,
    ensures
        has_credentials(sessions, name, key),
        credentials_position(sessions, name, key) <= i,
        is_first_with_credentials(sessions, name, key, credentials_position(sessions, name, key)),
    decreases i,
{
    if exists|j: int|
        0 <= j < i && (#[trigger] sessions[j]).user.name == name && sessions[j].user.key == key {
        let j = choose|j: int|
            0 <= j < i && (#[trigger] sessions[j]).user.name == name && sessions[j].user.key
                == key;
        law_credentials_are_first_somewhere(sessions, name, key, j);
    } else {
        assert(is_first_with_credentials(sessions, name, key, i));
        let at = credentials_position(sessions, name, key);
        assert(is_first_with_credentials(sessions, name, key, at));
        if at > i {
            assert(!(sessions[i].user.name == name && sessions[i].user.key == key));
        }
    }
}

/// Where some session has a token, the place of the first is the place of
/// a session that has the token and before which none has it.
pub proof fn law_token_position_is_first(sessions: Seq<SessionView>, token: Seq<char>)
    requires
        has_token(sessions, token),
    ensures
        is_first_with_token(sessions, token, token_position(sessions, token)),
{
    let i = choose|i: int| 0 <= i < sessions.len() && (#[trigger] sessions[i]).token == token;
    law_token_is_first_somewhere(sessions, token, i);
}

/// Where some session is of a user with a name and a secret, the place of
/// the first is the place of such a session before which there is none.
pub proof fn law_credentials_position_is_first(
    sessions: Seq<SessionView>,
    name: Seq<char>,
    key: Seq<char>,
)
    requires
        has_credentials(sessions, name, key),
    ensures
        is_first_with_credentials(sessions, name, key, credentials_position(sessions, name, key)),
{
    let i = choose|i: int|
        0 <= i < sessions.len() && (#[trigger] sessions[i]).user.name == name
            && sessions[i].user.key == key;
    law_credentials_are_first_somewhere(sessions, name, key, i);
}

/// Giving a token to a user leaves the tokens distinct.
pub proof fn law_insert_keeps_tokens_distinct(
    sessions: Seq<SessionView>,
    token: Seq<char>,
    user: UserDataView,
)
    requires
        distinct_tokens(sessions),
    ensures
        distinct_tokens(insert(sessions, token, user)),
{
    let after = insert(sessions, token, user);
    if has_token(sessions, token) {
        let at = token_position(sessions, token);
        law_token_position_is_first(sessions, token);
        assert forall|i: int, j: int| 0 <= i < j < after.len() implies (#[trigger] after[i]).token
            != (#[trigger] after[j]).token by {
            assert(after[i].token == sessions[i].token);
            assert(after[j].token == sessions[j].token);
        }
    } else {
        assert forall|i: int, j: int| 0 <= i < j < after.len() implies (#[trigger] after[i]).token
            != (#[trigger] after[j]).token by {
            if j == sessions.len() && sessions[i].token == token {
                law_token_is_first_somewhere(sessions, token, i);
            }
        }
    }
}

/// After a token is given to a user, the token stands for that user, and
/// every other token stands for whom it stood before.
pub proof fn law_get_user_after_insert(
    sessions: Seq<SessionView>,
    token: Seq<char>,
    user: UserDataView,
    other: Seq<char>,
)
    ensures
        get_user(insert(sessions, token, user), other) == if other == token {
            Some(user)
        } else {
            get_user(sessions, other)
        },
{
    let after = insert(sessions, token, user);
    if has_token(sessions, token) {
        let at = token_position(sessions, token);
        law_token_position_is_first(sessions, token);
        assert forall|k: int| 0 <= k < after.len() implies (#[trigger] after[k]).token
            == sessions[k].token by {}
        assert forall|k: int| 0 <= k < after.len() implies (#[trigger] sessions[k]).token
            == after[k].token by {}
        if other == token {
            assert(is_first_with_token(after, token, at));
            assert(is_first_with_token(after, token, token_position(after, token)));
        } else {
            if has_token(sessions, other) {
                let p = token_position(sessions, other);
                law_token_position_is_first(sessions, other);
                assert(is_first_with_token(after, other, p));
                assert(is_first_with_token(after, other, token_position(after, other)));
            } else if has_token(after, other) {
                let q = token_position(after, other);
                law_token_position_is_first(after, other);
                assert(is_first_with_token(sessions, other, q));
            }
        }
    } else {
        let end = sessions.len() as int;
        assert forall|k: int| 0 <= k < end implies (#[trigger] after[k]) == sessions[k] by {}
        assert forall|k: int| 0 <= k < end implies (#[trigger] sessions[k]) == after[k] by {}
        if other == token {
            assert forall|k: int| 0 <= k < end implies (#[trigger] after[k]).token != token by {
                if sessions[k].token == token {
                    law_token_is_first_somewhere(sessions, token, k);
                }
            }
            assert(is_first_with_token(after, token, end));
            assert(is_first_with_token(after, token, token_position(after, token)));
        } else {
            if has_token(sessions, other) {
                let p = token_position(sessions, other);
                law_token_position_is_first(sessions, other);
                assert(is_first_with_token(after, other, p));
                assert(is_first_with_token(after, other, token_position(after, other)));
            } else if has_token(after, other) {
                let q = token_position(after, other);
                law_token_position_is_first(after, other);
                assert(is_first_with_token(sessions, other, q));
            }
        }
    }
}

/// However the tokens fall, the sessions that are issued have distinct
/// tokens.
pub proof fn law_issued_tokens_distinct(users: Seq<UserDataView>, tokens: Seq<Seq<char>>)
    requires
        users.len() == tokens.len(),
    ensures
        distinct_tokens(issued(users, tokens)),
    decreases users.len(),
{
    if users.len() > 0 {
        law_issued_tokens_distinct(users.drop_last(), tokens.drop_last());
        law_insert_keeps_tokens_distinct(
            issued(users.drop_last(), tokens.drop_last()),
            tokens.last(),
            users.last(),
        );
    }
}

/// However the tokens fall, there are no more sessions than users.
pub proof fn law_issue_has_no_more_sessions_than_users(
    users: Seq<UserDataView>,
    tokens: Seq<Seq<char>>,
)
    requires
        users.len() == tokens.len(),
    ensures
        issued(users, tokens).len() <= users.len(),
    decreases users.len(),
{
    if users.len() > 0 {
        let before = issued(users.drop_last(), tokens.drop_last());
        law_issue_has_no_more_sessions_than_users(users.drop_last(), tokens.drop_last());
        if has_token(before, tokens.last()) {
            law_token_position_is_first(before, tokens.last());
        }
    }
}

/// Where no two users drew the same token, the sessions that are issued
/// are the users with their tokens, place by place: every user holds
/// exactly one session.
pub proof fn law_issue_without_collision(users: Seq<UserDataView>, tokens: Seq<Seq<char>>)
    requires
        users.len() == tokens.len(),
        forall|i: int, j: int| 0 <= i < j < tokens.len() ==> tokens[i] != tokens[j],
    ensures
        issued(users, tokens) == paired(users, tokens),
    decreases users.len(),
{
    if users.len() == 0 {
        assert(issued(users, tokens) =~= paired(users, tokens));
    } else {
        let last = users.len() - 1;
        let before = issued(users.drop_last(), tokens.drop_last());
        law_issue_without_collision(users.drop_last(), tokens.drop_last());
        assert(before == paired(users.drop_last(), tokens.drop_last()));
        if has_token(before, tokens.last()) {
            let at = token_position(before, tokens.last());
            assert(is_first_with_token(before, tokens.last(), at));
            assert(before[at].token == tokens[at]);
            assert(tokens[at] != tokens[last]);
        }
        assert(issued(users, tokens) =~= paired(users, tokens));
    }
}

/// A token that was issued stands for the user it was issued to, unless a
/// later user drew the same token.
pub proof fn law_issued_token_resolves(users: Seq<UserDataView>, tokens: Seq<Seq<char>>, i: int)
    requires
        users.len() == tokens.len(),
        0 <= i < users.len(),
        forall|j: int| i < j < tokens.len() ==> tokens[j] != tokens[i],
    ensures
        get_user(issued(users, tokens), tokens[i]) == Some(users[i]),
    decreases users.len(),
{
    let last = users.len() - 1;
    law_get_user_after_insert(
        issued(users.drop_last(), tokens.drop_last()),
        tokens.last(),
        users.last(),
        tokens[i],
    );
    if i < last {
        assert(tokens[last] != tokens[i]);
        law_issued_token_resolves(users.drop_last(), tokens.drop_last(), i);
    }
}

/// A token that was issued to nobody stands for nobody.
pub proof fn law_unissued_token_unknown(
    users: Seq<UserDataView>,
    tokens: Seq<Seq<char>>,
    token: Seq<char>,
)
    requires
        users.len() == tokens.len(),
        forall|j: int| 0 <= j < tokens.len() ==> tokens[j] != token,
    ensures
        get_user(issued(users, tokens), token) is None,
    decreases users.len(),
{
    if users.len() > 0 {
        let last = users.len() - 1;
        assert(tokens[last] != token);
        law_get_user_after_insert(
            issued(users.drop_last(), tokens.drop_last()),
            tokens.last(),
            users.last(),
            token,
        );
        law_unissued_token_unknown(users.drop_last(), tokens.drop_last(), token);
    } else {
        assert(!has_token(issued(users, tokens), token));
    }
}

/// Among sessions with distinct tokens, what a name and a secret are
/// exchanged for is the role and a token of a user with exactly that name
/// and that secret, and the token stands for that user; they are exchanged
/// for nothing exactly when no session is of such a user.
pub proof fn law_reply_resolves(sessions: Seq<SessionView>, name: Seq<char>, key: Seq<char>)
    requires
        distinct_tokens(sessions),
    ensures
        match get_reply(sessions, name, key) {
            Some((token, role)) => get_user(sessions, token) matches Some(user) && user.name == name
                && user.key == key && user.role == role,
            None => forall|i: int|
                0 <= i < sessions.len() ==> !((#[trigger] sessions[i]).user.name == name
                    && sessions[i].user.key == key),
        },
{
    if has_credentials(sessions, name, key) {
        let at = credentials_position(sessions, name, key);
        law_credentials_position_is_first(sessions, name, key);
        let token = sessions[at].token;
        assert(is_first_with_token(sessions, token, at));
        assert(is_first_with_token(sessions, token, token_position(sessions, token)));
    } else {
        assert forall|i: int| 0 <= i < sessions.len() implies !((#[trigger] sessions[i]).user.name
            == name && sessions[i].user.key == key) by {
            if sessions[i].user.name == name && sessions[i].user.key == key {
                law_credentials_are_first_somewhere(sessions, name, key, i);
            }
        }
    }
}

/// Among sessions with distinct tokens, a login is refused exactly when no
/// session is of a user with the name and the secret; the session that a
/// login hands out passes the session check, and its token stands for a
/// user with that name, that secret and the session's role.
pub proof fn law_login_opens_a_valid_session(sessions: Seq<SessionView>, params: AuthView)
    requires
        distinct_tokens(sessions),
    ensures
        login(sessions, params) is Err <==> forall|i: int|
            0 <= i < sessions.len() ==> !((#[trigger] sessions[i]).user.name == params.u
                && sessions[i].user.key == params.p),
        login(sessions, params) matches Err(err) ==> err == ServiceErrorView::NotAuth,
        login(sessions, params) matches Ok(session) ==> check_auth(sessions, session) && (get_user(
            sessions,
            session.t,
        ) matches Some(user) && user.name == params.u && user.key == params.p && user.role
            == session.r),
{
    law_reply_resolves(sessions, params.u, params.p);
    if has_credentials(sessions, params.u, params.p) {
        law_credentials_position_is_first(sessions, params.u, params.p);
    }
}

/// A message under a token that stands for nobody is refused as not
/// authenticated: nothing is routed, and nothing is asked of the store.
pub proof fn law_unknown_token_is_refused(sessions: Seq<SessionView>, message: ClientMessageView)
    requires
        get_user(sessions, message.addon) is None,
    ensures
        check(sessions, message) == Err::<CommandView, ServiceErrorView>(ServiceErrorView::NotAuth),
        jsonpost(sessions, message) is Err,
        jsonpost(sessions, message)->Err_0 == ServiceErrorView::NotAuth,
{
}

/// A message whose command the user's role does not allow is refused as not
/// permitted: nothing is routed, and nothing is asked of the store.
pub proof fn law_forbidden_command_is_refused(
    sessions: Seq<SessionView>,
    message: ClientMessageView,
)
    requires
        get_user(sessions, message.addon) matches Some(user) && !(user.role >> required_bit(
            message.command,
        ) > 0),
    ensures
        check(sessions, message) == Err::<CommandView, ServiceErrorView>(
            ServiceErrorView::NotPermission,
        ),
        jsonpost(sessions, message) is Err,
        jsonpost(sessions, message)->Err_0 == ServiceErrorView::NotPermission,
{
}

/// The router refuses a message exactly when the check refuses it, and
/// then as not authenticated or as not permitted; whatever the catalog
/// refuses and whatever fails in the store is answered in an envelope.
pub proof fn law_router_refuses_only_for_the_check(
    sessions: Seq<SessionView>,
    message: ClientMessageView,
)
    ensures
        jsonpost(sessions, message) is Err <==> check(sessions, message) is Err,
        jsonpost(sessions, message) matches Err(err) ==> err == ServiceErrorView::NotAuth || err
            == ServiceErrorView::NotPermission,
{
}

/// Whatever the router routes, to the store or back to the client, it
/// routes for a user that the token stands for and whose role allows the
/// command.
pub proof fn law_routed_is_checked(sessions: Seq<SessionView>, message: ClientMessageView)
    requires
        jsonpost(sessions, message) is Ok,
    ensures
        get_user(sessions, message.addon) matches Some(user) && permits(
            user.role,
            required_bit(message.command),
        ),
{
}

} // verus!
