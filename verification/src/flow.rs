//! The registration protocol: what the coordinator asks of the store next,
//! given what the store answered. Whoever owns the transaction performs the
//! actions and reports the replies.
use crate::error::AuthError;
use crate::models::{initial_nickname, Account, Profile};
use vstd::prelude::*;

verus! {

/// Where a registration stands.
pub enum RegistrationState {
    /// The account insert was issued; its reply is awaited.
    AwaitingAccount,
    /// The account exists inside the transaction; the reply to the insert of
    /// its profile is awaited.
    AwaitingProfile { account_id: i32 },
    /// The transaction was told to commit or to roll back.
    Finished,
}

/// What the store answered to the last statement.
pub enum StoreReply {
    /// The account row was inserted under this id.
    AccountInserted { account_id: i32 },
    /// The profile row was inserted.
    ProfileInserted { profile: Profile },
    /// The statement failed.
    Failed { reason: AuthError },
}

/// What to do next inside the transaction.
pub enum RegistrationAction {
    /// Insert the initial profile of the new account.
    InsertProfile { nickname: String, account_id: i32 },
    /// Commit, and hand this profile to the caller.
    Commit { profile: Profile },
    /// Roll back, and hand this failure to the caller.
    Rollback { reason: AuthError },
}

/// One step of a registration. After the account insert the initial profile
/// is asked for, under the placeholder nickname of the new account; after the
/// profile insert the transaction commits, provided the profile belongs to
/// that account. A failed statement rolls back with its own reason. A reply
/// that does not answer the awaited statement, or a profile of another
/// account, rolls back as `Internal`.
pub fn registration_step(state: RegistrationState, reply: StoreReply) -> (next: (
    RegistrationState,
    RegistrationAction,
))
    ensures
        match (state, reply) {
            (_, StoreReply::Failed { reason }) => next == (
                RegistrationState::Finished,
                RegistrationAction::Rollback { reason },
            ),
            (
                RegistrationState::AwaitingAccount,
                StoreReply::AccountInserted { account_id },
            ) => {
                &&& next.0 == (RegistrationState::AwaitingProfile { account_id })
                &&& next.1 matches RegistrationAction::InsertProfile { nickname, account_id: owner }
                &&& owner == account_id
                &&& nickname@ == initial_nickname(account_id as int)
            },
            (
                RegistrationState::AwaitingProfile { account_id },
                StoreReply::ProfileInserted { profile },
            ) => next == (
                RegistrationState::Finished,
                if profile.account_id == account_id {
                    RegistrationAction::Commit { profile }
                } else {
                    RegistrationAction::Rollback { reason: AuthError::Internal }
                },
            ),
            _ => next == (
                RegistrationState::Finished,
                RegistrationAction::Rollback { reason: AuthError::Internal },
            ),
        },
{
    match reply {
        StoreReply::Failed { reason } => (
            RegistrationState::Finished,
            RegistrationAction::Rollback { reason },
        ),
        StoreReply::AccountInserted { account_id } => match state {
            RegistrationState::AwaitingAccount => (
                RegistrationState::AwaitingProfile { account_id },
                RegistrationAction::InsertProfile {
                    nickname: Account::placeholder_nickname(account_id),
                    account_id,
                },
            ),
            _ => (
                RegistrationState::Finished,
                RegistrationAction::Rollback { reason: AuthError::Internal },
            ),
        },
        StoreReply::ProfileInserted { profile } => match state {
            RegistrationState::AwaitingProfile { account_id } => {
                if profile.account_id == account_id {
                    (RegistrationState::Finished, RegistrationAction::Commit { profile })
                } else {
                    (
                        RegistrationState::Finished,
                        RegistrationAction::Rollback { reason: AuthError::Internal },
                    )
                }
            },
            _ => (
                RegistrationState::Finished,
                RegistrationAction::Rollback { reason: AuthError::Internal },
            ),
        },
    }
}

} // verus!
