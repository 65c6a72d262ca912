//! What holds between registration and login, proved over the store's view.
use crate::error::AuthError;
use crate::hasher::{argon2_encoded, argon2_verdict, password_matches};
use crate::models::initial_profile;
use crate::store::{lemma_email_row, lemma_registration_keeps_rules, DatabaseView, HASH_MAX};
use vstd::prelude::*;

verus! {

/// After a registration that went through, a login with the same email and
/// password is accepted, and the account it opens owns the very profile that
/// the registration returned, under the same `account_id`.
pub proof fn law_registered_credentials_open_the_account(
    before: DatabaseView,
    email: Seq<char>,
    password: Seq<char>,
    salt: Seq<u8>,
    now: int,
)
    requires
        before.wf(),
        before.registration_outcome(email, argon2_encoded(password, salt)) is Ok,
    ensures
        ({
            let after = before.with_registration(email, argon2_encoded(password, salt)->0, now);
            let row = before.accounts.len() as int;
            &&& after.wf()
            &&& after.login_outcome(email, password) == Ok::<int, AuthError>(row)
            &&& after.profiles[row] == initial_profile(before.next_id(), before.next_id())
            &&& after.profiles[row].account_id == after.accounts[row].account_id
        }),
{
    let encoded = argon2_encoded(password, salt)->0;
    let after = before.with_registration(email, encoded, now);
    let row = before.accounts.len() as int;
    lemma_registration_keeps_rules(before, email, encoded, now);
    lemma_email_row(after, email, row);
    assert(argon2_encoded(password, salt) == Some(encoded));
    assert(password_matches(encoded, password));
}

/// A login is accepted only for a known email whose stored hash the password
/// opens. Whenever verification rejects the password, and for every unknown
/// email, the answer is the same `Unauthorized`.
pub proof fn law_rejected_password_is_unauthorized(
    db: DatabaseView,
    email: Seq<char>,
    password: Seq<char>,
)
    requires
        db.wf(),
    ensures
        db.login_outcome(email, password) is Ok ==> db.has_email(email) && password_matches(
            db.accounts[db.row_of_email(email)].password_hash->0,
            password,
        ),
        !db.has_email(email) ==> db.login_outcome(email, password) == Err::<int, AuthError>(
            AuthError::Unauthorized,
        ),
        db.has_email(email) && !password_matches(
            db.accounts[db.row_of_email(email)].password_hash->0,
            password,
        ) && argon2_verdict(db.accounts[db.row_of_email(email)].password_hash->0, password)
            is Some ==> db.login_outcome(email, password) == Err::<int, AuthError>(
            AuthError::Unauthorized,
        ),
{
}

/// Once an email is registered, registering it again never goes through,
/// whatever the password, and is a `Conflict` whenever the new password was
/// hashed to something the hash column takes. The store still holds one
/// profile for each account.
pub proof fn law_second_registration_conflicts(
    before: DatabaseView,
    email: Seq<char>,
    first_hash: Seq<char>,
    now: int,
    second_hash: Option<Seq<char>>,
)
    requires
        before.wf(),
        before.registration_outcome(email, Some(first_hash)) is Ok,
    ensures
        ({
            let after = before.with_registration(email, first_hash, now);
            &&& after.registration_outcome(email, second_hash) is Err
            &&& (second_hash matches Some(h) && h.len() <= HASH_MAX)
                ==> after.registration_outcome(email, second_hash) == Err::<(), AuthError>(
                AuthError::Conflict,
            )
            &&& after.profiles.len() == after.accounts.len()
            &&& after.profiles.len() == before.profiles.len() + 1
        }),
{
    let after = before.with_registration(email, first_hash, now);
    lemma_registration_keeps_rules(before, email, first_hash, now);
    lemma_email_row(after, email, before.accounts.len() as int);
}

/// Every account owns exactly one profile: the profile at its position
/// carries its `account_id`, and no other profile does.
pub proof fn law_one_profile_per_account(db: DatabaseView, row: int)
    requires
        db.wf(),
        0 <= row < db.accounts.len(),
    ensures
        db.profiles[row].account_id == db.accounts[row].account_id,
        db.profile_by_account(db.accounts[row].account_id) == Some(db.profiles[row]),
        forall|other: int|
            0 <= other < db.profiles.len() && (#[trigger] db.profiles[other]).account_id
                == db.accounts[row].account_id ==> other == row,
        forall|other: int|
            0 <= other < db.profiles.len() ==> exists|owner: int|
                0 <= owner < db.accounts.len() && (#[trigger] db.accounts[owner]).account_id == (
                #[trigger] db.profiles[other]).account_id,
{
    assert forall|other: int| 0 <= other < db.profiles.len() implies exists|owner: int|
        0 <= owner < db.accounts.len() && (#[trigger] db.accounts[owner]).account_id == (
        #[trigger] db.profiles[other]).account_id by {
        assert(db.accounts[other].account_id == db.profiles[other].account_id);
    }
}

} // verus!
