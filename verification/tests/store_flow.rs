use thread_tracker::endpoints::{
    get_threads, login, signout_get, signout_post, signup, update_thread, update_threads,
};
use thread_tracker::model::{ExistingUser, NewUser, Thread, UpdateThreadMessage, UpdateThreadOptions};
use thread_tracker::session::SessionJar;
use thread_tracker::store::Store;

fn signed_up(username: &str, password: &str) -> (Store, SessionJar, ExistingUser) {
    let mut store = Store::new();
    let mut jar = SessionJar::empty();
    let data = NewUser::new(username.to_string(), password.to_string());
    let r = signup(&mut store, &mut jar, &data).expect("signup of a fresh username must succeed");
    assert_eq!(r.target, "/");
    let user = ExistingUser::from_request(&store, &jar).expect("fresh signup must authenticate");
    (store, jar, user)
}

fn msg(floss: i32, action: UpdateThreadOptions) -> UpdateThreadMessage {
    UpdateThreadMessage::new(floss, format!("floss {floss}"), "#102030".to_string(), action)
}

#[test]
fn new_user_json_rendering() {
    let data = NewUser::new("ada".to_string(), "pw one".to_string());
    assert_eq!(data.to_json_string(), "{\"data\": \"username: ada, password: pw one\"}");
}

#[test]
fn signup_then_getthreads_is_empty() {
    let (store, _jar, user) = signed_up("ada", "pw one");
    let threads = get_threads(&store, &user).expect("listing cannot fail");
    assert!(threads.is_empty());
}

#[test]
fn duplicate_signup_is_rejected() {
    let (mut store, _jar, _user) = signed_up("ada", "pw one");
    let users_before = store.users.len();
    let mut jar2 = SessionJar::empty();
    let again = NewUser::new("ada".to_string(), "other pw".to_string());
    let err = signup(&mut store, &mut jar2, &again)
        .expect_err("a duplicate username must surface an error");
    assert_eq!(err, "Unable to create user: duplicate username");
    assert_eq!(store.users.len(), users_before);
    assert!(ExistingUser::from_request(&store, &jar2).is_none());
}

#[test]
fn wrong_password_login_never_succeeds() {
    let (store, _jar, _user) = signed_up("ada", "right password");
    let mut jar2 = SessionJar::empty();
    let attempt = NewUser::new("ada".to_string(), "wrong password".to_string());
    let r = login(&store, &mut jar2, &attempt);
    assert_eq!(r.target, "/login");
    // no cookie was issued, so the guard forwards
    assert!(ExistingUser::from_request(&store, &jar2).is_none());
}

#[test]
fn right_password_login_succeeds() {
    let (store, _jar, user) = signed_up("ada", "right password");
    let mut jar2 = SessionJar::empty();
    let attempt = NewUser::new("ada".to_string(), "right password".to_string());
    let r = login(&store, &mut jar2, &attempt);
    assert_eq!(r.target, "/");
    let resolved = ExistingUser::from_request(&store, &jar2).expect("login must authenticate");
    assert_eq!(resolved.user_id, user.user_id);
}

#[test]
fn increment_creates_then_counts() {
    let (mut store, _jar, user) = signed_up("ada", "pw");
    let m = msg(310, UpdateThreadOptions::Increment);
    update_thread(&mut store, &user, &m).expect("first increment");
    let threads = get_threads(&store, &user).unwrap();
    assert_eq!(threads.len(), 1);
    assert_eq!(threads[0].floss, 310);
    assert_eq!(threads[0].amount, 1);
    update_thread(&mut store, &user, &m).expect("second increment");
    let threads = get_threads(&store, &user).unwrap();
    assert_eq!(threads.len(), 1);
    assert_eq!(threads[0].amount, 2);
}

#[test]
fn decrement_at_one_deletes_row() {
    let (mut store, _jar, user) = signed_up("ada", "pw");
    update_thread(&mut store, &user, &msg(310, UpdateThreadOptions::Increment)).unwrap();
    update_thread(&mut store, &user, &msg(310, UpdateThreadOptions::Decrement)).unwrap();
    let threads = get_threads(&store, &user).unwrap();
    assert!(threads.iter().all(|t| t.floss != 310));
    assert!(threads.is_empty());
}

#[test]
fn decrement_of_absent_row_is_rejected() {
    let (mut store, _jar, user) = signed_up("ada", "pw");
    let err = update_thread(&mut store, &user, &msg(930, UpdateThreadOptions::Decrement))
        .expect_err("absent row cannot be decremented");
    assert_eq!(err, "Unable to decrement a non-existent thread");
    assert!(get_threads(&store, &user).unwrap().is_empty());
}

#[test]
fn overflowed_amount_is_rejected() {
    let (mut store, _jar, user) = signed_up("ada", "pw");
    let inventory = vec![Thread {
        floss: 5,
        amount: i32::MAX,
        name: "Sky".to_string(),
        color: "#0000FF".to_string(),
    }];
    update_threads(&mut store, &user, &inventory);
    let err = update_thread(&mut store, &user, &msg(5, UpdateThreadOptions::Increment))
        .expect_err("amount cannot pass the integer limit");
    assert_eq!(err, "Thread amount is out of range");
}

#[test]
fn bulk_upsert_updates_amount_in_place() {
    let (mut store, _jar, user) = signed_up("ada", "pw");
    let first = vec![Thread {
        floss: 5,
        amount: 3,
        name: "Sky".to_string(),
        color: "#0000FF".to_string(),
    }];
    update_threads(&mut store, &user, &first);
    let second = vec![Thread {
        floss: 5,
        amount: 7,
        name: "Renamed".to_string(),
        color: "#FFFFFF".to_string(),
    }];
    update_threads(&mut store, &user, &second);
    let threads = get_threads(&store, &user).unwrap();
    assert_eq!(threads.len(), 1);
    assert_eq!(threads[0].floss, 5);
    assert_eq!(threads[0].amount, 7);
    // the conflict clause updates amount only
    assert_eq!(threads[0].name, "Sky");
    assert_eq!(threads[0].color, "#0000FF");
}

#[test]
fn bulk_upsert_of_nothing_is_a_no_op() {
    let (mut store, _jar, user) = signed_up("ada", "pw");
    update_threads(&mut store, &user, &Vec::new());
    assert!(get_threads(&store, &user).unwrap().is_empty());
}

#[test]
fn signout_forwards_like_a_stranger() {
    let (store, mut jar, user) = signed_up("ada", "pw");
    let confirmation = signout_post(&user, &mut jar);
    assert_eq!(confirmation, "Successfully signed out");
    assert!(ExistingUser::from_request(&store, &jar).is_none());
    let fresh = SessionJar::empty();
    assert!(ExistingUser::from_request(&store, &fresh).is_none());
}

#[test]
fn signout_get_matches_post() {
    let (store, mut jar, user) = signed_up("ada", "pw");
    let confirmation = signout_get(&user, &mut jar);
    assert_eq!(confirmation, "Successfully signed out");
    assert!(ExistingUser::from_request(&store, &jar).is_none());
}

#[test]
fn tampered_cookie_forwards() {
    let (store, mut jar, _user) = signed_up("ada", "pw");
    jar.cookie = Some("not a number".to_string());
    assert!(ExistingUser::from_request(&store, &jar).is_none());
    jar.cookie = Some("999".to_string());
    assert!(ExistingUser::from_request(&store, &jar).is_none());
}
