use command_gateway::auth::{check, Auth, A, C};
use command_gateway::dbo::{DbObject, Entity, Listing, Record};
use command_gateway::error::ServiceError;
use command_gateway::messages::{ClientMessage, Command, Item, WsMsg};
use command_gateway::services::{check_auth, jsonpost, login, respond, Pending, Response, Routed};
use command_gateway::store::{StoreCall, StoreReply};
use command_gateway::users::{
    user_cmd, user_reply, DbUserObject, UserData, UserObject, Users, WsUserMsg,
};

fn record(id: i64, fields: &str) -> Record {
    Record { id, fields: fields.to_string() }
}

fn store() -> Users {
    let mut users = Users::empty();
    users.insert(
        "reader".to_string(),
        UserData { id: 1, name: "ann".to_string(), key: "pw1".to_string(), role: 4 },
    );
    users.insert(
        "writer".to_string(),
        UserData { id: 2, name: "bob".to_string(), key: "pw2".to_string(), role: 32 },
    );
    users.insert(
        "admin".to_string(),
        UserData { id: 3, name: "root".to_string(), key: "pw3".to_string(), role: 512 },
    );
    users.insert(
        "guest".to_string(),
        UserData { id: 4, name: "guest".to_string(), key: "".to_string(), role: 0 },
    );
    users
}

fn message(token: &str, command: Command) -> ClientMessage {
    ClientMessage { command, addon: token.to_string() }
}

fn item(name: &str, id: i64) -> Item {
    Item { name: name.to_string(), id }
}

fn envelope(command: &str, name: &str, object: DbObject, error: &str) -> WsMsg {
    WsMsg {
        command: command.to_string(),
        name: name.to_string(),
        object,
        error: error.to_string(),
    }
}

fn user_envelope(command: &str, object: DbUserObject, error: &str) -> WsUserMsg {
    WsUserMsg { command: command.to_string(), object, error: error.to_string() }
}

#[test]
fn check_hands_an_allowed_command_back() {
    let command = Command::GetList("CompanyList".to_string());
    assert_eq!(check(&store(), message("reader", command.clone())), Ok(command));
}

#[test]
fn check_refuses_an_unknown_token() {
    let command = Command::GetList("CompanyList".to_string());
    assert_eq!(check(&store(), message("nobody", command.clone())), Err(ServiceError::NotAuth));
    assert_eq!(check(&store(), message("", command.clone())), Err(ServiceError::NotAuth));
    assert_eq!(check(&Users::empty(), message("reader", command)), Err(ServiceError::NotAuth));
}

#[test]
fn check_refuses_a_command_above_the_role() {
    let command = Command::DeleteItem(item("Company", 1));
    assert_eq!(check(&store(), message("reader", command.clone())), Err(ServiceError::NotPermission));
    assert_eq!(check(&store(), message("guest", command.clone())), Err(ServiceError::NotPermission));
    assert_eq!(check(&store(), message("writer", command.clone())), Ok(command));
}

#[test]
fn from_dbo_wraps_a_payload_with_an_empty_error() {
    let msg = WsMsg::from_dbo("GetItem", "Company".to_string(), Ok(DbObject::Company(record(1, "x"))));
    assert_eq!(msg, envelope("GetItem", "Company", DbObject::Company(record(1, "x")), ""));
}

#[test]
fn from_dbo_wraps_a_failure_with_a_payload_of_nothing() {
    let msg = WsMsg::from_dbo(
        "GetItem",
        "Company".to_string(),
        Err(ServiceError::Rpel("no rows".to_string())),
    );
    assert_eq!(msg, envelope("GetItem", "Company", DbObject::Null, "Rpel: no rows"));
    let msg = WsMsg::from_dbo("GetList", "Nope".to_string(), Err(ServiceError::NotAuth));
    assert_eq!(msg, envelope("GetList", "Nope", DbObject::Null, "Not auth"));
}

#[test]
fn jsonpost_routes_each_catalog_command_to_its_call() {
    let users = store();
    assert_eq!(
        jsonpost(&users, message("admin", Command::GetItem(item("Company", 42)))),
        Ok(Routed::Call(Pending::Entity {
            name: "Company".to_string(),
            call: StoreCall::Get(Entity::Company, 42),
        }))
    );
    assert_eq!(
        jsonpost(&users, message("admin", Command::GetList("ContactSelect".to_string()))),
        Ok(Routed::Call(Pending::Entity {
            name: "ContactSelect".to_string(),
            call: StoreCall::List(Listing::ContactSelect),
        }))
    );
    assert_eq!(
        jsonpost(&users, message("admin", Command::InsertItem(DbObject::Post(record(0, "p"))))),
        Ok(Routed::Call(Pending::Entity {
            name: "Post".to_string(),
            call: StoreCall::Insert(Entity::Post, record(0, "p")),
        }))
    );
    assert_eq!(
        jsonpost(&users, message("admin", Command::UpdateItem(DbObject::Rank(record(4, "r"))))),
        Ok(Routed::Call(Pending::Entity {
            name: "Rank".to_string(),
            call: StoreCall::Update(Entity::Rank, record(4, "r")),
        }))
    );
    assert_eq!(
        jsonpost(&users, message("admin", Command::DeleteItem(item("SirenType", 9)))),
        Ok(Routed::Call(Pending::Entity {
            name: "SirenType".to_string(),
            call: StoreCall::Delete(Entity::SirenType, 9),
        }))
    );
}

#[test]
fn jsonpost_routes_each_user_command_to_its_call() {
    let users = store();
    let cases = vec![
        (UserObject::GetUser(5), StoreCall::Get(Entity::User, 5)),
        (UserObject::GetUserList, StoreCall::List(Listing::UserList)),
        (UserObject::InsertUser(record(0, "u")), StoreCall::Insert(Entity::User, record(0, "u"))),
        (UserObject::UpdateUser(record(5, "u")), StoreCall::Update(Entity::User, record(5, "u"))),
        (UserObject::DeleteUser(5), StoreCall::Delete(Entity::User, 5)),
    ];
    for (object, call) in cases {
        assert_eq!(user_cmd(object.clone()), call);
        assert_eq!(
            jsonpost(&users, message("admin", Command::User(object))),
            Ok(Routed::Call(Pending::User { call }))
        );
    }
}

#[test]
fn jsonpost_answers_a_bad_request_in_the_envelope() {
    let users = store();
    assert_eq!(
        jsonpost(&users, message("admin", Command::GetItem(item("NotAKind", 1)))),
        Ok(Routed::Reply(Response::Entity(envelope(
            "GetItem",
            "NotAKind",
            DbObject::Null,
            "Bad request: bad item object: NotAKind 1"
        ))))
    );
    assert_eq!(
        jsonpost(&users, message("admin", Command::GetList("NotAKind".to_string()))),
        Ok(Routed::Reply(Response::Entity(envelope(
            "GetList",
            "NotAKind",
            DbObject::Null,
            "Bad request: bad list object: NotAKind"
        ))))
    );
    assert_eq!(
        jsonpost(
            &users,
            message("admin", Command::InsertItem(DbObject::CompanyList(vec![record(1, "x")])))
        ),
        Ok(Routed::Reply(Response::Entity(envelope(
            "InsertItem",
            "CompanyList",
            DbObject::Null,
            "Bad request: bad item object"
        ))))
    );
    assert_eq!(
        jsonpost(&users, message("admin", Command::UpdateItem(DbObject::Null))),
        Ok(Routed::Reply(Response::Entity(envelope(
            "UpdateItem",
            "",
            DbObject::Null,
            "Bad request: bad item object"
        ))))
    );
    assert_eq!(
        jsonpost(&users, message("admin", Command::DeleteItem(item("Siren_type", 1)))),
        Ok(Routed::Reply(Response::Entity(envelope(
            "DeleteItem",
            "Siren_type",
            DbObject::Null,
            "Bad request: bad path \"Siren_type\""
        ))))
    );
}

#[test]
fn jsonpost_checks_before_it_resolves() {
    let users = store();
    assert_eq!(
        jsonpost(&users, message("nobody", Command::GetItem(item("NotAKind", 1)))),
        Err(ServiceError::NotAuth)
    );
    assert_eq!(
        jsonpost(&users, message("guest", Command::GetItem(item("NotAKind", 1)))),
        Err(ServiceError::NotPermission)
    );
    assert_eq!(
        jsonpost(&users, message("writer", Command::User(UserObject::GetUserList))),
        Err(ServiceError::NotPermission)
    );
}

#[test]
fn respond_puts_a_fetched_entity_in_the_envelope() {
    let pending = Pending::Entity {
        name: "Company".to_string(),
        call: StoreCall::Get(Entity::Company, 42),
    };
    assert_eq!(
        respond(pending, StoreReply::Item(record(42, "acme"))),
        Response::Entity(envelope("GetItem", "Company", DbObject::Company(record(42, "acme")), ""))
    );
}

#[test]
fn respond_puts_a_fetched_listing_in_the_envelope() {
    let pending = Pending::Entity {
        name: "PostGoSelect".to_string(),
        call: StoreCall::List(Listing::PostGoSelect),
    };
    assert_eq!(
        respond(pending, StoreReply::Items(vec![record(1, "a"), record(2, "b")])),
        Response::Entity(envelope(
            "GetList",
            "PostGoSelect",
            DbObject::SelectItem(vec![record(1, "a"), record(2, "b")]),
            ""
        ))
    );
}

#[test]
fn respond_answers_a_change_with_a_payload_of_nothing() {
    let insert = Pending::Entity {
        name: "Company".to_string(),
        call: StoreCall::Insert(Entity::Company, record(0, "acme")),
    };
    assert_eq!(
        respond(insert, StoreReply::Item(record(42, "acme"))),
        Response::Entity(envelope("InsertItem", "Company", DbObject::Null, ""))
    );
    let update = Pending::Entity {
        name: "Company".to_string(),
        call: StoreCall::Update(Entity::Company, record(42, "acme")),
    };
    assert_eq!(
        respond(update, StoreReply::Count(1)),
        Response::Entity(envelope("UpdateItem", "Company", DbObject::Null, ""))
    );
    let delete = Pending::Entity {
        name: "Company".to_string(),
        call: StoreCall::Delete(Entity::Company, 42),
    };
    assert_eq!(
        respond(delete, StoreReply::Count(1)),
        Response::Entity(envelope("DeleteItem", "Company", DbObject::Null, ""))
    );
}

#[test]
fn respond_renders_a_failure_of_the_store_in_the_envelope() {
    let calls = vec![
        (StoreCall::Get(Entity::Company, 42), "GetItem"),
        (StoreCall::List(Listing::CompanyList), "GetList"),
        (StoreCall::Insert(Entity::Company, record(0, "x")), "InsertItem"),
        (StoreCall::Update(Entity::Company, record(1, "x")), "UpdateItem"),
        (StoreCall::Delete(Entity::Company, 1), "DeleteItem"),
    ];
    for (call, command) in calls {
        let pending = Pending::Entity { name: "Tag".to_string(), call };
        assert_eq!(
            respond(pending, StoreReply::Failed("db down".to_string())),
            Response::Entity(envelope(command, "Tag", DbObject::Null, "Rpel: db down"))
        );
    }
}

#[test]
fn respond_answers_each_user_command_in_its_own_envelope() {
    assert_eq!(
        respond(
            Pending::User { call: StoreCall::Get(Entity::User, 5) },
            StoreReply::Item(record(5, "u"))
        ),
        Response::User(user_envelope("GetUser", DbUserObject::User(record(5, "u")), ""))
    );
    assert_eq!(
        respond(
            Pending::User { call: StoreCall::List(Listing::UserList) },
            StoreReply::Items(vec![record(5, "u")])
        ),
        Response::User(user_envelope("GetUserList", DbUserObject::UserList(vec![record(5, "u")]), ""))
    );
    assert_eq!(
        respond(
            Pending::User { call: StoreCall::Insert(Entity::User, record(0, "u")) },
            StoreReply::Item(record(77, "u"))
        ),
        Response::User(user_envelope("InsertUser", DbUserObject::Id(77), ""))
    );
    assert_eq!(
        respond(
            Pending::User { call: StoreCall::Update(Entity::User, record(5, "u")) },
            StoreReply::Count(1)
        ),
        Response::User(user_envelope("UpdateUser", DbUserObject::Id(1), ""))
    );
    assert_eq!(
        respond(Pending::User { call: StoreCall::Delete(Entity::User, 5) }, StoreReply::Count(2)),
        Response::User(user_envelope("DeleteUser", DbUserObject::Id(2), ""))
    );
}

#[test]
fn user_reply_renders_a_failure_of_the_store_in_the_envelope() {
    let calls = vec![
        (StoreCall::Get(Entity::User, 5), "GetUser"),
        (StoreCall::List(Listing::UserList), "GetUserList"),
        (StoreCall::Insert(Entity::User, record(0, "u")), "InsertUser"),
        (StoreCall::Update(Entity::User, record(5, "u")), "UpdateUser"),
        (StoreCall::Delete(Entity::User, 5), "DeleteUser"),
    ];
    for (call, command) in calls {
        assert_eq!(
            user_reply(&call, StoreReply::Failed("db down".to_string())),
            user_envelope(command, DbUserObject::Null, "Rpel: db down")
        );
    }
}

#[test]
fn respond_renders_a_reply_to_another_kind_of_call_as_a_failure() {
    let pending = Pending::Entity {
        name: "Company".to_string(),
        call: StoreCall::Get(Entity::Company, 42),
    };
    assert_eq!(
        respond(pending, StoreReply::Count(3)),
        Response::Entity(envelope("GetItem", "Company", DbObject::Null, "Rpel: "))
    );
    assert_eq!(
        respond(Pending::User { call: StoreCall::Delete(Entity::User, 5) }, StoreReply::Items(vec![])),
        Response::User(user_envelope("DeleteUser", DbUserObject::Null, "Rpel: "))
    );
}

#[test]
fn user_envelopes_are_built_under_their_command() {
    assert_eq!(
        WsUserMsg::from_get(record(5, "u")),
        user_envelope("GetUser", DbUserObject::User(record(5, "u")), "")
    );
    assert_eq!(
        WsUserMsg::from_list(vec![record(5, "u"), record(6, "v")]),
        user_envelope("GetUserList", DbUserObject::UserList(vec![record(5, "u"), record(6, "v")]), "")
    );
    assert_eq!(
        WsUserMsg::from_insert(record(5, "u")),
        user_envelope("InsertUser", DbUserObject::Id(5), "")
    );
    assert_eq!(WsUserMsg::from_update(3), user_envelope("UpdateUser", DbUserObject::Id(3), ""));
    assert_eq!(WsUserMsg::from_delete(0), user_envelope("DeleteUser", DbUserObject::Id(0), ""));
    assert_eq!(
        WsUserMsg::from_delete(u64::MAX),
        user_envelope("DeleteUser", DbUserObject::Id(-1), "")
    );
    assert_eq!(
        WsUserMsg::from_error("GetUser", &ServiceError::NotPermission),
        user_envelope("GetUser", DbUserObject::Null, "Not permission")
    );
}

#[test]
fn the_call_of_a_pending_command_is_the_one_it_waits_for() {
    let entity = Pending::Entity { name: "Company".to_string(), call: StoreCall::Get(Entity::Company, 1) };
    assert_eq!(entity.call(), &StoreCall::Get(Entity::Company, 1));
    let user = Pending::User { call: StoreCall::List(Listing::UserList) };
    assert_eq!(user.call(), &StoreCall::List(Listing::UserList));
}

#[test]
fn check_auth_compares_the_role_of_the_session() {
    let users = store();
    assert_eq!(check_auth(&users, &A { t: "reader".to_string(), r: 4 }), C { r: true });
    assert_eq!(check_auth(&users, &A { t: "reader".to_string(), r: 5 }), C { r: false });
    assert_eq!(check_auth(&users, &A { t: "guest".to_string(), r: 0 }), C { r: true });
    assert_eq!(check_auth(&users, &A { t: "nobody".to_string(), r: 0 }), C { r: false });
    assert_eq!(check_auth(&users, &A { t: "".to_string(), r: 4 }), C { r: false });
}

#[test]
fn login_exchanges_credentials_for_a_session() {
    let users = store();
    assert_eq!(
        login(&users, &Auth { u: "ann".to_string(), p: "pw1".to_string() }),
        Ok(A { t: "reader".to_string(), r: 4 })
    );
    assert_eq!(
        login(&users, &Auth { u: "guest".to_string(), p: "".to_string() }),
        Ok(A { t: "guest".to_string(), r: 0 })
    );
}

#[test]
fn login_refuses_credentials_that_nobody_has() {
    let users = store();
    assert_eq!(
        login(&users, &Auth { u: "ann".to_string(), p: "pw2".to_string() }),
        Err(ServiceError::NotAuth)
    );
    assert_eq!(
        login(&users, &Auth { u: "".to_string(), p: "".to_string() }),
        Err(ServiceError::NotAuth)
    );
    assert_eq!(
        login(&Users::empty(), &Auth { u: "ann".to_string(), p: "pw1".to_string() }),
        Err(ServiceError::NotAuth)
    );
}

#[test]
fn the_session_of_a_login_passes_the_session_check() {
    let users = store();
    let session = login(&users, &Auth { u: "bob".to_string(), p: "pw2".to_string() }).unwrap();
    assert_eq!(check_auth(&users, &session), C { r: true });
}
