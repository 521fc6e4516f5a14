use command_gateway::dbo::{DbObject, Record};
use command_gateway::error::ServiceError;
use command_gateway::messages::{Command, Item};
use command_gateway::users::{UserData, UserObject};

fn user_with_role(role: i64) -> UserData {
    UserData { id: 1, name: "ann".to_string(), key: "secret".to_string(), role }
}

fn record() -> Record {
    Record { id: 3, fields: "{}".to_string() }
}

fn commands() -> Vec<(Command, u32)> {
    vec![
        (Command::GetItem(Item { name: "Company".to_string(), id: 1 }), 1),
        (Command::GetList("CompanyList".to_string()), 2),
        (Command::InsertItem(DbObject::Company(record())), 3),
        (Command::UpdateItem(DbObject::Company(record())), 4),
        (Command::DeleteItem(Item { name: "Company".to_string(), id: 1 }), 5),
        (Command::User(UserObject::GetUser(7)), 6),
        (Command::User(UserObject::GetUserList), 6),
        (Command::User(UserObject::InsertUser(record())), 7),
        (Command::User(UserObject::UpdateUser(record())), 8),
        (Command::User(UserObject::DeleteUser(7)), 9),
    ]
}

#[test]
fn a_command_is_allowed_from_its_bit_upwards() {
    for (command, position) in commands() {
        let least: i64 = 1 << position;
        assert_eq!(user_with_role(least).permissions(command.clone()), Ok(command.clone()));
        assert_eq!(user_with_role(least + 1).permissions(command.clone()), Ok(command.clone()));
        assert_eq!(user_with_role(i64::MAX).permissions(command.clone()), Ok(command));
    }
}

#[test]
fn a_command_is_refused_below_its_bit() {
    for (command, position) in commands() {
        let least: i64 = 1 << position;
        assert_eq!(
            user_with_role(least - 1).permissions(command.clone()),
            Err(ServiceError::NotPermission)
        );
        assert_eq!(user_with_role(0).permissions(command.clone()), Err(ServiceError::NotPermission));
        assert_eq!(user_with_role(1).permissions(command), Err(ServiceError::NotPermission));
    }
}

#[test]
fn a_negative_role_allows_nothing() {
    for (command, _) in commands() {
        assert_eq!(user_with_role(-1).permissions(command.clone()), Err(ServiceError::NotPermission));
        assert_eq!(
            user_with_role(i64::MIN).permissions(command),
            Err(ServiceError::NotPermission)
        );
    }
}

#[test]
fn a_single_high_bit_allows_every_lower_command() {
    let role: i64 = 1 << 9;
    for (command, _) in commands() {
        assert_eq!(user_with_role(role).permissions(command.clone()), Ok(command));
    }
}

#[test]
fn the_bit_of_a_command_alone_does_not_allow_the_next() {
    let role: i64 = 1 << 5;
    let delete = Command::DeleteItem(Item { name: "Company".to_string(), id: 1 });
    let get_user = Command::User(UserObject::GetUser(1));
    assert_eq!(user_with_role(role).permissions(delete.clone()), Ok(delete));
    assert_eq!(user_with_role(role).permissions(get_user), Err(ServiceError::NotPermission));
}

#[test]
fn permission_follows_the_shift_for_many_roles() {
    for role in -70i64..1100 {
        for (command, position) in commands() {
            let expected = role >> position > 0;
            assert_eq!(user_with_role(role).permissions(command).is_ok(), expected);
        }
    }
}
