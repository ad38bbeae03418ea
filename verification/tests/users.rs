use camera_bot::time::Timestamp;
use camera_bot::users::{User, Users, UsersFile};

fn user(chat_id: i64, name: &str, admin: bool, active: bool) -> User {
    User {
        chat_id,
        date: Timestamp { secs: 1_700_000_000, nanos: 0 },
        username: name.to_string(),
        is_admin: admin,
        is_active: active,
    }
}

#[test]
fn new_users_list_is_empty_and_keeps_path() {
    let u = Users::new("files/user.json".to_string());
    assert!(u.all_users().is_empty());
    assert_eq!(u.path, "files/user.json");
}

#[test]
fn add_id_registers_inactive_user_once() {
    let mut u = Users::new("p".to_string());
    u.add_id(42, "alice".to_string());
    u.add_id(42, "again".to_string());
    assert_eq!(u.all_users().len(), 1);
    assert_eq!(u.users[0].chat_id, 42);
    assert_eq!(u.users[0].username, "alice");
    assert!(!u.users[0].is_admin);
    assert!(!u.users[0].is_active);
    assert_eq!(u.is_access(42), (false, false));
}

#[test]
fn push_appends_even_when_known() {
    let mut u = Users::new("p".to_string());
    u.push(7, "a".to_string());
    u.push(7, "b".to_string());
    assert_eq!(u.all_users().len(), 2);
    assert_eq!(u.users[1].username, "b");
}

#[test]
fn new_user_is_stamped_with_current_time() {
    let u = User::new(1, "x".to_string());
    assert!(u.date.secs > 1_600_000_000);
    assert!(u.date.nanos < 1_000_000_000);
}

#[test]
fn is_access_reads_first_entry_of_chat() {
    let mut u = Users::new("p".to_string());
    u.load(vec![user(1, "a", true, true), user(2, "b", false, true), user(2, "c", true, false)]);
    assert_eq!(u.is_access(1), (true, true));
    assert_eq!(u.is_access(2), (true, false));
    assert_eq!(u.is_access(3), (false, false));
}

#[test]
fn activate_deactivate_toggles_first_entry_only() {
    let mut u = Users::new("p".to_string());
    u.load(vec![user(5, "a", false, false), user(5, "b", false, false), user(6, "c", false, true)]);
    u.activate_deactivate(5);
    assert!(u.users[0].is_active);
    assert!(!u.users[1].is_active);
    assert!(u.users[2].is_active);
    assert_eq!(u.is_access(5), (true, false));
    u.activate_deactivate(5);
    assert!(!u.users[0].is_active);
    u.activate_deactivate(99);
    assert_eq!(u.all_users().len(), 3);
}

#[test]
fn activate_deactivate_twice_restores() {
    let mut u = Users::new("p".to_string());
    u.load(vec![user(1, "a", false, true), user(2, "b", true, false)]);
    u.activate_deactivate(2);
    u.activate_deactivate(2);
    assert_eq!(u.is_access(2), (false, true));
    assert_eq!(u.is_access(1), (true, false));
}

#[test]
fn remove_drops_every_entry_of_chat() {
    let mut u = Users::new("p".to_string());
    u.load(vec![user(1, "a", false, true), user(2, "b", true, true), user(1, "c", false, true)]);
    u.remove(1);
    assert_eq!(u.all_users().len(), 1);
    assert_eq!(u.users[0].chat_id, 2);
    assert_eq!(u.is_access(1), (false, false));
    assert_eq!(u.is_access(2), (true, true));
    assert_eq!(u.path, "p");
}

#[test]
fn remove_on_empty_list_does_nothing() {
    let mut u = Users::new("p".to_string());
    u.remove(3);
    assert!(u.all_users().is_empty());
}

#[test]
fn load_replaces_users() {
    let mut u = Users::new("p".to_string());
    u.add_id(1, "a".to_string());
    u.load(vec![user(9, "z", true, true)]);
    assert_eq!(u.all_users().len(), 1);
    assert_eq!(u.users[0].chat_id, 9);
}

#[test]
fn with_date_keeps_the_given_time() {
    let t = Timestamp { secs: -5, nanos: 7 };
    let u = User::with_date(3, "n".to_string(), t);
    assert_eq!(u.date, t);
    assert!(!u.is_active && !u.is_admin);
}

#[test]
fn registering_then_removing_restores_list() {
    let mut u = Users::new("p".to_string());
    u.load(vec![user(1, "a", true, true), user(2, "b", false, false)]);
    u.add_id(3, "c".to_string());
    assert_eq!(u.all_users().len(), 3);
    u.remove(3);
    assert_eq!(u.all_users().len(), 2);
    assert_eq!(u.users[0].chat_id, 1);
    assert_eq!(u.users[1].chat_id, 2);
    assert_eq!(u.is_access(1), (true, true));
}

#[test]
fn restore_keeps_users_unless_file_is_well_formed() {
    let mut u = Users::new("p".to_string());
    u.add_id(1, "a".to_string());
    u.restore(UsersFile::Empty);
    assert_eq!(u.all_users().len(), 1);
    u.restore(UsersFile::Malformed);
    assert_eq!(u.all_users().len(), 1);
    u.restore(UsersFile::Parsed(vec![user(2, "b", false, true), user(3, "c", false, false)]));
    assert_eq!(u.all_users().len(), 2);
    assert_eq!(u.users[0].chat_id, 2);
    assert_eq!(u.path, "p");
}
