use user_auth::error::AuthError;
use user_auth::models::{Account, Profile};
use user_auth::store::Database;

fn text(s: &str) -> String {
    String::from(s)
}

#[test]
fn test_profile_crud() {
    let mut db = Database::new();

    let email1 = String::from("rust@rust.com");
    let password1 = String::from("123456asdfgf");
    let password2 = String::from("13456asdfgf");

    let profile = Account::register(&mut db, &email1, &password1).unwrap();
    println!("register: {:?}", profile);
    assert_eq!(profile.account_id, 1);

    let profile = Account::authenticate(&mut db, &email1, &password1);
    println!("auth: {:?}", profile);
    assert!(profile.is_ok());

    let profile = Account::authenticate(&mut db, &email1, &password2);
    println!("auth failed: {:?}", profile);
    assert_eq!(profile, Err(AuthError::Unauthorized));

    let profiles = Profile::all(&db);
    println!("all: {:?}", profiles);
    assert_eq!(profiles.len(), 1);

    let profile = Profile::get(&db, 1);
    println!("get: {:?}", profile);
    assert!(profile.is_some());
    let profile = Profile::get(&db, 2);
    println!("get: {:?}", profile);
    assert!(profile.is_none());

    let profile = Profile::get_by_account(&db, 1);
    println!("get_by_account: {:?}", profile);
    assert!(profile.is_some());

    let exists = Profile::nickname_exist(&db, &"Rut".to_owned());
    println!("{:?}", exists);
    assert!(!exists);
}

#[test]
fn register_creates_first_profile() {
    let mut db = Database::new();
    let profile = Account::register(&mut db, &text("rust@rust.com"), &text("123456asdfgf")).unwrap();
    assert_eq!(profile.profile_id, 1);
    assert_eq!(profile.account_id, 1);
    assert_eq!(profile.nickname, Some(text("学霸 10001")));
    assert_eq!(profile.reputation, 0);
    assert_eq!(profile.avatar, None);
    assert_eq!(profile.bibo, None);
    assert_eq!(db.account_count(), 1);
}

#[test]
fn authenticate_returns_registered_profile() {
    let mut db = Database::new();
    let registered =
        Account::register(&mut db, &text("rust@rust.com"), &text("123456asdfgf")).unwrap();
    let opened =
        Account::authenticate(&mut db, &text("rust@rust.com"), &text("123456asdfgf")).unwrap();
    assert_eq!(opened, registered);
}

#[test]
fn authenticate_rejects_wrong_password() {
    let mut db = Database::new();
    Account::register(&mut db, &text("rust@rust.com"), &text("123456asdfgf")).unwrap();
    let r = Account::authenticate(&mut db, &text("rust@rust.com"), &text("13456asdfgf"));
    assert_eq!(r, Err(AuthError::Unauthorized));
}

#[test]
fn authenticate_unknown_email_is_unauthorized() {
    let mut db = Database::new();
    let r = Account::authenticate(&mut db, &text("ghost@rust.com"), &text("anything"));
    assert_eq!(r, Err(AuthError::Unauthorized));
    assert_ne!(r, Err(AuthError::Absent));
    assert_eq!(db.account_count(), 0);
}

#[test]
fn second_registration_conflicts() {
    let mut db = Database::new();
    let first = Account::register(&mut db, &text("rust@rust.com"), &text("x"));
    assert!(first.is_ok());
    let second = Account::register(&mut db, &text("rust@rust.com"), &text("x"));
    assert_eq!(second, Err(AuthError::Conflict));
    assert_eq!(Profile::all(&db).len(), 1);
    assert_eq!(db.account_count(), 1);
    assert!(Profile::get(&db, 2).is_none());
}

#[test]
fn nickname_exists_after_registration() {
    let mut db = Database::new();
    Account::register(&mut db, &text("rust@rust.com"), &text("123456asdfgf")).unwrap();
    assert!(Profile::nickname_exist(&db, &text("学霸 10001")));
    assert!(!Profile::nickname_exist(&db, &text("Rut")));
}

#[test]
fn every_account_owns_one_profile() {
    let mut db = Database::new();
    let emails = ["a@rust.com", "b@rust.com", "c@rust.com"];
    for e in emails.iter() {
        Account::register(&mut db, &text(e), &text("pw")).unwrap();
    }
    let all = Profile::all(&db);
    assert_eq!(all.len(), 3);
    for (i, p) in all.iter().enumerate() {
        let id = i as i32 + 1;
        assert_eq!(p.profile_id, id);
        assert_eq!(p.account_id, id);
        assert_eq!(all.iter().filter(|q| q.account_id == id).count(), 1);
        assert_eq!(Profile::get_by_account(&db, id).unwrap(), *p);
    }
    assert_eq!(all[1].nickname, Some(text("学霸 10002")));
    assert_eq!(all[2].nickname, Some(text("学霸 10003")));
}

#[test]
fn email_exist_follows_registration() {
    let mut db = Database::new();
    assert!(!Account::email_exist(&db, &text("rust@rust.com")));
    Account::register(&mut db, &text("rust@rust.com"), &text("pw")).unwrap();
    assert!(Account::email_exist(&db, &text("rust@rust.com")));
    assert!(!Account::email_exist(&db, &text("Rust@rust.com")));
}

#[test]
fn fetch_credentials_gives_id_and_hash() {
    let mut db = Database::new();
    assert!(Account::fetch_credentials(&db, &text("a@rust.com")).is_none());
    Account::register(&mut db, &text("a@rust.com"), &text("pw-a")).unwrap();
    Account::register(&mut db, &text("b@rust.com"), &text("pw-b")).unwrap();
    let (id, hash) = Account::fetch_credentials(&db, &text("b@rust.com")).unwrap();
    assert_eq!(id, 2);
    assert_ne!(hash, "pw-b");
    assert!(hash.starts_with("$argon2"));
    assert_eq!(Account::check_password(&text("pw-b"), &hash), Ok(true));
    assert_eq!(Account::check_password(&text("pw-a"), &hash), Ok(false));
}

#[test]
fn login_stamps_last_login() {
    let mut db = Database::new();
    let salt = [7u8; 32];
    Account::register_with(&mut db, &text("a@rust.com"), &text("pw"), &salt, 1000).unwrap();
    assert_eq!(db.last_login_of(1), Some(1000));
    assert_eq!(db.last_login_of(2), None);
    assert_eq!(db.last_login_of(0), None);
    let wrong = Account::authenticate_at(&mut db, &text("a@rust.com"), &text("nope"), 2000);
    assert_eq!(wrong, Err(AuthError::Unauthorized));
    assert_eq!(db.last_login_of(1), Some(1000));
    let right = Account::authenticate_at(&mut db, &text("a@rust.com"), &text("pw"), 3000);
    assert_eq!(right.unwrap().account_id, 1);
    assert_eq!(db.last_login_of(1), Some(3000));
}

#[test]
fn register_with_short_salt_is_internal() {
    let mut db = Database::new();
    let r = Account::register_with(&mut db, &text("a@rust.com"), &text("pw"), &[1u8, 2, 3], 5);
    assert_eq!(r, Err(AuthError::Internal));
    assert_eq!(db.account_count(), 0);
    assert_eq!(Profile::all(&db).len(), 0);
}

#[test]
fn judge_and_conclude() {
    assert_eq!(Account::judge(None, &text("pw")), Err(AuthError::Unauthorized));
    let hash = user_auth::hasher::hash_with_salt(&text("pw"), &[9u8; 32]).unwrap();
    assert_eq!(Account::judge(Some((4, hash.clone())), &text("pw")), Ok(4));
    assert_eq!(Account::judge(Some((4, hash)), &text("pw2")), Err(AuthError::Unauthorized));
    assert_eq!(Account::judge(Some((4, text("not a hash"))), &text("pw")), Err(AuthError::Internal));
    assert_eq!(Account::conclude(None), Err(AuthError::Internal));
    let p = Profile {
        profile_id: 3,
        nickname: None,
        avatar: None,
        bibo: None,
        reputation: 2,
        account_id: 3,
    };
    assert_eq!(Account::conclude(Some(p.duplicate())), Ok(p));
}

#[test]
fn profile_lookups() {
    let mut db = Database::new();
    Account::register(&mut db, &text("a@rust.com"), &text("pw")).unwrap();
    Account::register(&mut db, &text("b@rust.com"), &text("pw")).unwrap();
    assert_eq!(Profile::get(&db, 2).unwrap().nickname, Some(text("学霸 10002")));
    assert!(Profile::get(&db, 0).is_none());
    assert!(Profile::get(&db, -1).is_none());
    assert!(Profile::get(&db, 3).is_none());
    assert!(Profile::get_by_account(&db, 3).is_none());
    assert_eq!(Profile::get_by_account(&db, 1).unwrap().profile_id, 1);
    let found = Profile::filter_by_nickname(&db, &text("学霸 10002")).unwrap();
    assert_eq!(found.profile_id, 2);
    assert!(Profile::filter_by_nickname(&db, &text("学霸 10003")).is_none());
}

#[test]
fn profile_updates() {
    let mut db = Database::new();
    let p = Account::register(&mut db, &text("a@rust.com"), &text("pw")).unwrap();
    Account::register(&mut db, &text("b@rust.com"), &text("pw")).unwrap();
    assert_eq!(p.update_nickname(&mut db, text("Ferris")), Ok(()));
    assert_eq!(p.update_avatar(&mut db, text("crab.png")), Ok(()));
    assert_eq!(p.update_reputation(&mut db, 42), Ok(()));
    let stored = Profile::get(&db, 1).unwrap();
    assert_eq!(stored.nickname, Some(text("Ferris")));
    assert_eq!(stored.avatar, Some(text("crab.png")));
    assert_eq!(stored.reputation, 42);
    assert_eq!(stored.account_id, 1);
    let other = Profile::get(&db, 2).unwrap();
    assert_eq!(other.nickname, Some(text("学霸 10002")));
    assert_eq!(other.reputation, 0);
    assert!(Profile::nickname_exist(&db, &text("Ferris")));
    assert!(!Profile::nickname_exist(&db, &text("学霸 10001")));
    let ghost = Profile {
        profile_id: 9,
        nickname: None,
        avatar: None,
        bibo: None,
        reputation: 0,
        account_id: 9,
    };
    assert_eq!(ghost.update_nickname(&mut db, text("x")), Err(AuthError::Absent));
    assert_eq!(ghost.update_avatar(&mut db, text("x")), Err(AuthError::Absent));
    assert_eq!(ghost.update_reputation(&mut db, 1), Err(AuthError::Absent));
    assert_eq!(Profile::all(&db).len(), 2);
}

#[test]
fn placeholder_nickname_formula() {
    assert_eq!(Account::placeholder_nickname(1), "学霸 10001");
    assert_eq!(Account::placeholder_nickname(0), "学霸 10000");
    assert_eq!(Account::placeholder_nickname(-10000), "学霸 0");
    assert_eq!(Account::placeholder_nickname(-10001), "学霸 -1");
    assert_eq!(Account::placeholder_nickname(90000), "学霸 100000");
    assert_eq!(Account::placeholder_nickname(i32::MAX), "学霸 2147493647");
    assert_eq!(Account::placeholder_nickname(i32::MIN), "学霸 -2147473648");
}

fn quickest_login(db: &mut Database, email: &str, password: &str) -> std::time::Duration {
    let mut best = std::time::Duration::from_secs(3600);
    for _ in 0..7 {
        let started = std::time::Instant::now();
        let r = Account::authenticate(db, &text(email), &text(password));
        let spent = started.elapsed();
        assert_eq!(r, Err(AuthError::Unauthorized));
        if spent < best {
            best = spent;
        }
    }
    best
}

#[test]
fn unknown_email_costs_what_a_wrong_password_costs() {
    let mut empty = Database::new();
    let mut db = Database::new();
    Account::register(&mut db, &text("rust@rust.com"), &text("123456asdfgf")).unwrap();
    let unknown = quickest_login(&mut empty, "ghost@rust.com", "anything");
    let wrong = quickest_login(&mut db, "rust@rust.com", "13456asdfgf");
    assert!(unknown < wrong * 2, "unknown {:?}, wrong {:?}", unknown, wrong);
    assert!(wrong < unknown * 2, "unknown {:?}, wrong {:?}", unknown, wrong);
}

#[test]
fn over_wide_columns_are_refused() {
    let mut db = Database::new();
    let wide_email = "e".repeat(256);
    let r = Account::register(&mut db, &wide_email, &text("pw"));
    assert_eq!(r, Err(AuthError::Internal));
    assert_eq!(db.account_count(), 0);
    let fitting_email = "e".repeat(255);
    let p = Account::register(&mut db, &fitting_email, &text("pw")).unwrap();
    assert_eq!(p.update_nickname(&mut db, "学".repeat(51)), Err(AuthError::Internal));
    assert_eq!(p.update_nickname(&mut db, "学".repeat(50)), Ok(()));
    assert_eq!(p.update_avatar(&mut db, "a".repeat(256)), Err(AuthError::Internal));
    assert_eq!(p.update_avatar(&mut db, "a".repeat(255)), Ok(()));
    assert_eq!(Profile::get(&db, 1).unwrap().nickname, Some("学".repeat(50)));
}
