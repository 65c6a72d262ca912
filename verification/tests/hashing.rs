use user_auth::error::AuthError;
use user_auth::flow::{registration_step, RegistrationAction, RegistrationState, StoreReply};
use user_auth::hasher::{hash_with_salt, SALT_LEN, THROWAWAY_HASH};
use user_auth::models::Account;
use user_auth::models::Profile;

fn text(s: &str) -> String {
    String::from(s)
}

#[test]
fn hash_verifies_own_password() {
    let p = text("123456asdfgf");
    let h = Account::hash_password(&p).unwrap();
    assert_eq!(Account::check_password(&p, &h), Ok(true));
    assert_eq!(Account::check_password(&text("13456asdfgf"), &h), Ok(false));
}

#[test]
fn hash_is_not_the_password() {
    let p = text("123456asdfgf");
    let h = Account::hash_password(&p).unwrap();
    assert_ne!(h, p);
    assert!(h.starts_with("$argon2"));
}

#[test]
fn successive_hashes_differ() {
    let p = text("123456asdfgf");
    let a = Account::hash_password(&p).unwrap();
    let b = Account::hash_password(&p).unwrap();
    assert_ne!(a, b);
    assert_eq!(Account::check_password(&p, &a), Ok(true));
    assert_eq!(Account::check_password(&p, &b), Ok(true));
}

#[test]
fn hash_with_salt_is_a_function_of_its_inputs() {
    let p = text("password");
    let a = hash_with_salt(&p, b"somesalt").unwrap();
    let b = hash_with_salt(&p, b"somesalt").unwrap();
    let c = hash_with_salt(&p, b"othersalt").unwrap();
    assert_eq!(a, b);
    assert_ne!(a, c);
    assert_ne!(a, p);
    assert_eq!(
        a,
        "$argon2i$v=19$m=4096,t=3,p=1$c29tZXNhbHQ$iWh06vD8Fy27wf9npn6FXWiCX4K6pW6Ue1Bnzz07Z8A"
    );
}

#[test]
fn hash_with_salt_refuses_short_salt() {
    assert_eq!(hash_with_salt(&text("password"), b"short"), Err(AuthError::Internal));
}

#[test]
fn malformed_hash_is_internal() {
    assert_eq!(Account::check_password(&text("pw"), &text("pw")), Err(AuthError::Internal));
    assert_eq!(Account::check_password(&text("pw"), &text("")), Err(AuthError::Internal));
}

#[test]
fn throwaway_hash_is_well_formed() {
    assert_eq!(Account::check_password(&text("password"), &text(THROWAWAY_HASH)), Ok(true));
    assert_eq!(Account::check_password(&text("anything"), &text(THROWAWAY_HASH)), Ok(false));
    assert_eq!(SALT_LEN, 32);
}

#[test]
fn error_labels() {
    assert_eq!(AuthError::Absent.label(), "absent");
    assert_eq!(AuthError::Conflict.label(), "conflict");
    assert_eq!(AuthError::Unauthorized.label(), "unauthorized");
    assert_eq!(AuthError::Internal.label(), "internal");
}

#[test]
fn sqlstate_classification() {
    assert_eq!(AuthError::from_sqlstate(&Some(text("23505"))), AuthError::Conflict);
    assert_eq!(AuthError::from_sqlstate(&Some(text("23503"))), AuthError::Internal);
    assert_eq!(AuthError::from_sqlstate(&Some(text(""))), AuthError::Internal);
    assert_eq!(AuthError::from_sqlstate(&None), AuthError::Internal);
}

fn sample_profile(account_id: i32) -> Profile {
    Profile {
        profile_id: 5,
        nickname: Some(text("n")),
        avatar: None,
        bibo: None,
        reputation: 0,
        account_id,
    }
}

#[test]
fn registration_protocol_happy_path() {
    let (state, action) = registration_step(
        RegistrationState::AwaitingAccount,
        StoreReply::AccountInserted { account_id: 7 },
    );
    assert!(matches!(state, RegistrationState::AwaitingProfile { account_id: 7 }));
    match action {
        RegistrationAction::InsertProfile { nickname, account_id } => {
            assert_eq!(nickname, "学霸 10007");
            assert_eq!(account_id, 7);
        }
        _ => panic!("the profile insert was not asked for"),
    }
    let (state, action) =
        registration_step(state, StoreReply::ProfileInserted { profile: sample_profile(7) });
    assert!(matches!(state, RegistrationState::Finished));
    match action {
        RegistrationAction::Commit { profile } => assert_eq!(profile, sample_profile(7)),
        _ => panic!("the transaction was not committed"),
    }
}

#[test]
fn registration_protocol_failures_roll_back() {
    let (state, action) = registration_step(
        RegistrationState::AwaitingAccount,
        StoreReply::Failed { reason: AuthError::Conflict },
    );
    assert!(matches!(state, RegistrationState::Finished));
    assert!(matches!(action, RegistrationAction::Rollback { reason: AuthError::Conflict }));

    let (_, action) = registration_step(
        RegistrationState::AwaitingProfile { account_id: 7 },
        StoreReply::Failed { reason: AuthError::Internal },
    );
    assert!(matches!(action, RegistrationAction::Rollback { reason: AuthError::Internal }));

    let (_, action) = registration_step(
        RegistrationState::AwaitingProfile { account_id: 7 },
        StoreReply::ProfileInserted { profile: sample_profile(8) },
    );
    assert!(matches!(action, RegistrationAction::Rollback { reason: AuthError::Internal }));

    let (_, action) = registration_step(
        RegistrationState::AwaitingAccount,
        StoreReply::ProfileInserted { profile: sample_profile(7) },
    );
    assert!(matches!(action, RegistrationAction::Rollback { reason: AuthError::Internal }));

    let (_, action) = registration_step(
        RegistrationState::Finished,
        StoreReply::AccountInserted { account_id: 1 },
    );
    assert!(matches!(action, RegistrationAction::Rollback { reason: AuthError::Internal }));
}
