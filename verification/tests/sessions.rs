use command_gateway::users::{UserData, Users, TOKEN_LENGTH};

fn user(id: i64, name: &str, key: &str, role: i64) -> UserData {
    UserData { id, name: name.to_string(), key: key.to_string(), role }
}

fn two_users() -> Users {
    let mut store = Users::empty();
    store.insert("tokenA".to_string(), user(1, "ann", "pw1", 6));
    store.insert("tokenB".to_string(), user(2, "bob", "pw2", 1022));
    store
}

#[test]
fn an_empty_store_knows_nobody() {
    let store = Users::empty();
    assert_eq!(store.get_user("tokenA"), None);
    assert_eq!(store.get_user(""), None);
    assert_eq!(store.get_reply("ann", "pw1"), None);
}

#[test]
fn a_token_stands_for_the_user_it_was_given_to() {
    let store = two_users();
    assert_eq!(store.get_user("tokenA"), Some(user(1, "ann", "pw1", 6)));
    assert_eq!(store.get_user("tokenB"), Some(user(2, "bob", "pw2", 1022)));
}

#[test]
fn a_token_that_was_not_given_stands_for_nobody() {
    let store = two_users();
    assert_eq!(store.get_user("tokenC"), None);
    assert_eq!(store.get_user("tokena"), None);
    assert_eq!(store.get_user("token"), None);
    assert_eq!(store.get_user(""), None);
}

#[test]
fn a_token_given_twice_stands_for_the_later_user() {
    let mut store = two_users();
    store.insert("tokenA".to_string(), user(3, "cat", "pw3", 2));
    assert_eq!(store.get_user("tokenA"), Some(user(3, "cat", "pw3", 2)));
    assert_eq!(store.get_user("tokenB"), Some(user(2, "bob", "pw2", 1022)));
    assert_eq!(store.get_reply("ann", "pw1"), None);
    assert_eq!(store.get_reply("cat", "pw3"), Some(("tokenA".to_string(), 2)));
}

#[test]
fn credentials_are_exchanged_for_token_and_role() {
    let store = two_users();
    assert_eq!(store.get_reply("ann", "pw1"), Some(("tokenA".to_string(), 6)));
    assert_eq!(store.get_reply("bob", "pw2"), Some(("tokenB".to_string(), 1022)));
}

#[test]
fn credentials_have_to_match_exactly() {
    let store = two_users();
    assert_eq!(store.get_reply("ann", "pw2"), None);
    assert_eq!(store.get_reply("bob", "pw1"), None);
    assert_eq!(store.get_reply("ann", ""), None);
    assert_eq!(store.get_reply("", "pw1"), None);
    assert_eq!(store.get_reply("Ann", "pw1"), None);
    assert_eq!(store.get_reply("ann", "pw1 "), None);
    assert_eq!(store.get_reply("carl", "pw9"), None);
}

#[test]
fn the_token_of_a_login_resolves_to_the_same_user() {
    let store = two_users();
    for (name, key) in [("ann", "pw1"), ("bob", "pw2")] {
        let (token, role) = store.get_reply(name, key).unwrap();
        let found = store.get_user(&token).unwrap();
        assert_eq!(found.name, name);
        assert_eq!(found.key, key);
        assert_eq!(found.role, role);
    }
}

#[test]
fn of_two_users_with_the_same_credentials_the_first_answers() {
    let mut store = Users::empty();
    store.insert("first".to_string(), user(1, "ann", "pw", 2));
    store.insert("second".to_string(), user(2, "ann", "pw", 4));
    assert_eq!(store.get_reply("ann", "pw"), Some(("first".to_string(), 2)));
}

#[test]
fn new_gives_every_user_a_token_of_twenty_letters_and_digits() {
    let users = vec![user(1, "ann", "pw1", 6), user(2, "bob", "pw2", 1022), user(3, "cat", "pw3", 0)];
    let store = Users::new(&users);
    for u in &users {
        let (token, role) = store.get_reply(&u.name, &u.key).unwrap();
        assert_eq!(token.chars().count(), TOKEN_LENGTH);
        assert_eq!(token.len(), 20);
        assert!(token.chars().all(|c| c.is_ascii_alphanumeric()));
        assert_eq!(role, u.role);
        assert_eq!(store.get_user(&token), Some(u.clone()));
    }
}

#[test]
fn new_gives_different_users_different_tokens() {
    let users = vec![user(1, "ann", "pw1", 6), user(2, "bob", "pw2", 1022)];
    let store = Users::new(&users);
    let (first, _) = store.get_reply("ann", "pw1").unwrap();
    let (second, _) = store.get_reply("bob", "pw2").unwrap();
    assert_ne!(first, second);
}

#[test]
fn new_draws_fresh_tokens_each_time() {
    let users = vec![user(1, "ann", "pw1", 6)];
    let one = Users::new(&users);
    let other = Users::new(&users);
    let (first, _) = one.get_reply("ann", "pw1").unwrap();
    let (second, _) = other.get_reply("ann", "pw1").unwrap();
    assert_ne!(first, second);
    assert_eq!(other.get_user(&first), None);
}

#[test]
fn new_of_no_users_knows_nobody() {
    let store = Users::new(&[]);
    assert_eq!(store.get_reply("ann", "pw1"), None);
    assert_eq!(store.get_user("tokenA"), None);
}

#[test]
fn a_copy_of_the_store_answers_alike() {
    let store = two_users();
    let copy = store.clone();
    assert_eq!(copy.get_user("tokenA"), store.get_user("tokenA"));
    assert_eq!(copy.get_reply("bob", "pw2"), store.get_reply("bob", "pw2"));
}
