//! The user store: the accounts and profiles tables with the rules of their
//! schema, registration, and login.
use crate::error::AuthError;
use crate::flow::{registration_step, RegistrationAction, RegistrationState, StoreReply};
use crate::hasher::{
    argon2_encoded, argon2_verdict, burn_verification, hash_with_salt, password_matches,
    random_salt,
};
use crate::models::{initial_profile, Account, AccountView, Profile, ProfileView};
use vstd::prelude::*;

verus! {

/// The widest email, in characters, that the accounts table takes.
pub const EMAIL_MAX: usize = 255;

/// The widest encoded hash, in characters, that the accounts table takes.
pub const HASH_MAX: usize = 255;

/// The widest nickname, in characters, that the profiles table takes.
pub const NICKNAME_MAX: usize = 50;

/// The widest avatar, in characters, that the profiles table takes.
pub const AVATAR_MAX: usize = 255;

/// The two tables. Rows are kept in the order of their ids, which are
/// assigned serially from 1; every account owns the profile at its position.
pub struct Database {
    accounts: Vec<Account>,
    profiles: Vec<Profile>,
}

/// The tables as sequences of row views, in id order.
pub struct DatabaseView {
    pub accounts: Seq<AccountView>,
    pub profiles: Seq<ProfileView>,
}

impl DatabaseView {
    /// The rules every reachable state of the store obeys: serial ids, a
    /// stored hash on every account, unique emails, and one profile per
    /// account, linked by `account_id`.
    pub open spec fn wf(self) -> bool {
        &&& self.profiles.len() == self.accounts.len()
        &&& self.accounts.len() <= i32::MAX
        &&& forall|i: int|
            0 <= i < self.accounts.len() ==> {
                &&& (#[trigger] self.accounts[i]).account_id == i + 1
                &&& self.accounts[i].password_hash is Some
            }
        &&& forall|i: int|
            0 <= i < self.profiles.len() ==> {
                &&& (#[trigger] self.profiles[i]).profile_id == i + 1
                &&& self.profiles[i].account_id == i + 1
            }
        &&& forall|i: int, j: int|
            0 <= i < j < self.accounts.len() ==> (#[trigger] self.accounts[i]).email != (
            #[trigger] self.accounts[j]).email
    }

    /// The id that the next account, and its profile, will get.
    pub open spec fn next_id(self) -> int {
        self.accounts.len() as int + 1
    }

    /// Some account carries this email.
    pub open spec fn has_email(self, email: Seq<char>) -> bool {
        exists|i: int| 0 <= i < self.accounts.len() && (#[trigger] self.accounts[i]).email == email
    }

    /// The position of the account that carries this email.
    pub open spec fn row_of_email(self, email: Seq<char>) -> int {
        choose|i: int| 0 <= i < self.accounts.len() && (#[trigger] self.accounts[i]).email == email
    }

    /// Some profile carries this nickname.
    pub open spec fn has_nickname(self, nickname: Seq<char>) -> bool {
        exists|i: int|
            0 <= i < self.profiles.len() && (#[trigger] self.profiles[i]).nickname == Some(
                nickname,
            )
    }

    /// The profile with this id, if there is one.
    pub open spec fn profile_by_id(self, profile_id: int) -> Option<ProfileView> {
        if 1 <= profile_id <= self.profiles.len() {
            Some(self.profiles[profile_id - 1])
        } else {
            None
        }
    }

    /// The profile owned by this account, if there is one.
    pub open spec fn profile_by_account(self, account_id: int) -> Option<ProfileView> {
        if 1 <= account_id <= self.profiles.len() {
            Some(self.profiles[account_id - 1])
        } else {
            None
        }
    }

    /// Whether a registration goes through, given what hashing produced:
    /// a failed hash is `Internal`, an email or a hash too wide for its
    /// column is `Internal`, a taken email is `Conflict`, and a store that
    /// has run out of ids is `Internal`.
    pub open spec fn registration_outcome(
        self,
        email: Seq<char>,
        encoded: Option<Seq<char>>,
    ) -> Result<(), AuthError> {
        if encoded is None {
            Err(AuthError::Internal)
        } else if email.len() > EMAIL_MAX || encoded->0.len() > HASH_MAX {
            Err(AuthError::Internal)
        } else if self.has_email(email) {
            Err(AuthError::Conflict)
        } else if self.accounts.len() >= i32::MAX {
            Err(AuthError::Internal)
        } else {
            Ok(())
        }
    }

    /// The store after a registration: one more account, active, stamped
    /// `now`, and its initial profile.
    pub open spec fn with_registration(
        self,
        email: Seq<char>,
        encoded: Seq<char>,
        now: int,
    ) -> DatabaseView {
        let id = self.next_id();
        DatabaseView {
            accounts: self.accounts.push(
                AccountView {
                    account_id: id,
                    email,
                    phone: None,
                    password_hash: Some(encoded),
                    last_login: now,
                    created: now,
                    is_active: true,
                },
            ),
            profiles: self.profiles.push(initial_profile(id, id)),
        }
    }

    /// Whom a login opens: the position of the account, or why not. An
    /// unknown email and a wrong password are both `Unauthorized`; a stored
    /// hash that cannot be verified at all is `Internal`.
    pub open spec fn login_outcome(self, email: Seq<char>, password: Seq<char>) -> Result<
        int,
        AuthError,
    > {
        if !self.has_email(email) {
            Err(AuthError::Unauthorized)
        } else {
            let row = self.row_of_email(email);
            let stored = self.accounts[row].password_hash->0;
            if password_matches(stored, password) {
                Ok(row)
            } else if argon2_verdict(stored, password) is None {
                Err(AuthError::Internal)
            } else {
                Err(AuthError::Unauthorized)
            }
        }
    }

    /// The store after the profile at `row` was given a new nickname.
    pub open spec fn with_nickname(self, row: int, nickname: Seq<char>) -> DatabaseView {
        DatabaseView {
            accounts: self.accounts,
            profiles: self.profiles.update(
                row,
                ProfileView { nickname: Some(nickname), ..self.profiles[row] },
            ),
        }
    }

    /// The store after the profile at `row` was given a new avatar.
    pub open spec fn with_avatar(self, row: int, avatar: Seq<char>) -> DatabaseView {
        DatabaseView {
            accounts: self.accounts,
            profiles: self.profiles.update(
                row,
                ProfileView { avatar: Some(avatar), ..self.profiles[row] },
            ),
        }
    }

    /// The store after the profile at `row` was given a new reputation.
    pub open spec fn with_reputation(self, row: int, reputation: int) -> DatabaseView {
        DatabaseView {
            accounts: self.accounts,
            profiles: self.profiles.update(row, ProfileView { reputation, ..self.profiles[row] }),
        }
    }

    /// The store after a successful login of the account at `row`.
    pub open spec fn with_login(self, row: int, now: int) -> DatabaseView {
        DatabaseView {
            accounts: self.accounts.update(
                row,
                AccountView { last_login: now, ..self.accounts[row] },
            ),
            profiles: self.profiles,
        }
    }
}

impl View for Database {
    type V = DatabaseView;

    closed spec fn view(&self) -> DatabaseView {
        DatabaseView {
            accounts: Seq::new(self.accounts@.len(), |i: int| self.accounts@[i]@),
            profiles: Seq::new(self.profiles@.len(), |i: int| self.profiles@[i]@),
        }
    }
}

/// Under the store's rules an email names at most one row.
pub proof fn lemma_email_row(v: DatabaseView, email: Seq<char>, row: int)
    requires
        v.wf(),
        0 <= row < v.accounts.len(),
        v.accounts[row].email == email,
    ensures
        v.has_email(email),
        v.row_of_email(email) == row,
{
    let chosen = v.row_of_email(email);
    assert(0 <= chosen < v.accounts.len() && v.accounts[chosen].email == email);
    if chosen < row {
        assert(v.accounts[chosen].email != v.accounts[row].email);
    } else if row < chosen {
        assert(v.accounts[row].email != v.accounts[chosen].email);
    }
}

/// Reads the wall clock with `chrono::Utc::now`, as microseconds since the
/// Unix epoch. Trusted, and nothing is claimed of the value.
#[verifier::external_body]
pub(crate) fn current_timestamp() -> (now: i64) {
    chrono::Utc::now().timestamp_micros()
}

impl Database {
    /// An empty store.
    pub fn new() -> (db: Database)
        ensures
            db@.wf(),
            db@.accounts.len() == 0,
            db@.profiles.len() == 0,
    {
        Database { accounts: Vec::new(), profiles: Vec::new() }
    }

    /// The number of accounts.
    pub fn account_count(&self) -> (n: usize)
        ensures
            n == self@.accounts.len(),
    {
        self.accounts.len()
    }

    /// When the account with this id last logged in; `None` exactly when
    /// there is no such account.
    pub fn last_login_of(&self, account_id: i32) -> (r: Option<i64>)
        ensures
            match r {
                Some(t) => 1 <= account_id <= self@.accounts.len() && t
                    == self@.accounts[account_id - 1].last_login,
                None => !(1 <= account_id <= self@.accounts.len()),
            },
    {
        if account_id >= 1 && (account_id as usize) <= self.accounts.len() {
            Some(self.accounts[(account_id - 1) as usize].last_login)
        } else {
            None
        }
    }

    fn find_email(&self, email: &String) -> (r: Option<usize>)
        ensures
            match r {
                Some(i) => i < self@.accounts.len() && self@.accounts[i as int].email == email@,
                None => !self@.has_email(email@),
            },
    {
        let mut i: usize = 0;
        while i < self.accounts.len()
            invariant
                i <= self.accounts.len(),
                forall|j: int| 0 <= j < i ==> (#[trigger] self@.accounts[j]).email != email@,
            decreases self.accounts.len() - i,
        {
            if self.accounts[i].email == *email {
                return Some(i);
            }
            i += 1;
        }
        None
    }

    fn insert_account(&mut self, email: &String, encoded: String, now: i64) -> (r: Result<
        i32,
        AuthError,
    >)
        requires
            old(self)@.wf(),
        ensures
            match old(self)@.registration_outcome(email@, Some(encoded@)) {
                Ok(_) => {
                    &&& r == Ok::<i32, AuthError>(old(self)@.next_id() as i32)
                    &&& final(self)@.accounts == old(self)@.with_registration(
                        email@,
                        encoded@,
                        now as int,
                    ).accounts
                    &&& final(self)@.profiles == old(self)@.profiles
                },
                Err(e) => r == Err::<i32, AuthError>(e) && final(self)@ == old(self)@,
            },
    {
        if email.as_str().unicode_len() > EMAIL_MAX || encoded.as_str().unicode_len() > HASH_MAX {
            return Err(AuthError::Internal);
        }
        if self.find_email(email).is_some() {
            return Err(AuthError::Conflict);
        }
        let n = self.accounts.len();
        if n >= i32::MAX as usize {
            return Err(AuthError::Internal);
        }
        let id: i32 = (n + 1) as i32;
        self.accounts.push(
            Account {
                account_id: id,
                email: email.clone(),
                phone: None,
                password_hash: Some(encoded),
                last_login: now,
                created: now,
                is_active: true,
            },
        );
        assert(final(self)@.accounts =~= old(self)@.with_registration(
            email@,
            encoded@,
            now as int,
        ).accounts);
        assert(final(self)@.profiles =~= old(self)@.profiles);
        Ok(id)
    }

    fn insert_profile(&mut self, nickname: String, account_id: i32) -> (r: Result<
        Profile,
        AuthError,
    >)
        requires
            old(self)@.accounts.len() == old(self)@.profiles.len() + 1,
            old(self)@.accounts.len() <= i32::MAX,
        ensures
            final(self)@.accounts == old(self)@.accounts,
            if account_id == old(self)@.accounts.len() {
                &&& r matches Ok(p)
                &&& p@ == (ProfileView {
                    profile_id: account_id as int,
                    nickname: Some(nickname@),
                    avatar: None,
                    bibo: None,
                    reputation: 0,
                    account_id: account_id as int,
                })
                &&& final(self)@.profiles == old(self)@.profiles.push(p@)
            } else {
                &&& final(self)@.profiles == old(self)@.profiles
                &&& r == Err::<Profile, AuthError>(
                    if 1 <= account_id <= old(self)@.profiles.len() {
                        AuthError::Conflict
                    } else {
                        AuthError::Internal
                    },
                )
            },
    {
        if account_id < 1 || account_id as usize > self.accounts.len() {
            return Err(AuthError::Internal);
        }
        if account_id as usize <= self.profiles.len() {
            return Err(AuthError::Conflict);
        }
        let profile = Profile {
            profile_id: account_id,
            nickname: Some(nickname),
            avatar: None,
            bibo: None,
            reputation: 0,
            account_id,
        };
        let out = profile.duplicate();
        self.profiles.push(profile);
        assert(final(self)@.profiles =~= old(self)@.profiles.push(out@));
        assert(final(self)@.accounts =~= old(self)@.accounts);
        Ok(out)
    }

    fn rollback(&mut self, accounts: usize, profiles: usize)
        requires
            accounts <= old(self)@.accounts.len(),
            profiles <= old(self)@.profiles.len(),
        ensures
            final(self)@.accounts == old(self)@.accounts.subrange(0, accounts as int),
            final(self)@.profiles == old(self)@.profiles.subrange(0, profiles as int),
    {
        self.accounts.truncate(accounts);
        self.profiles.truncate(profiles);
        assert(final(self)@.accounts =~= old(self)@.accounts.subrange(0, accounts as int));
        assert(final(self)@.profiles =~= old(self)@.profiles.subrange(0, profiles as int));
    }

    fn touch_login(&mut self, row: usize, now: i64)
        requires
            row < old(self)@.accounts.len(),
        ensures
            final(self)@ == old(self)@.with_login(row as int, now as int),
    {
        self.accounts[row].last_login = now;
        assert(final(self)@.accounts =~= old(self)@.with_login(row as int, now as int).accounts);
        assert(final(self)@.profiles =~= old(self)@.profiles);
    }
}

impl Account {
    /// Whether some account carries this email.
    pub fn email_exist(db: &Database, email: &String) -> (r: bool)
        ensures
            r == db@.has_email(email@),
    {
        db.find_email(email).is_some()
    }

    /// The columns a login needs, for the account with this email: its id
    /// and its stored hash. `None` exactly when no account carries the email.
    pub fn fetch_credentials(db: &Database, email: &String) -> (r: Option<(i32, String)>)
        requires
            db@.wf(),
        ensures
            match r {
                Some((account_id, hash)) => {
                    &&& db@.has_email(email@)
                    &&& account_id == db@.row_of_email(email@) + 1
                    &&& account_id == db@.accounts[db@.row_of_email(email@)].account_id
                    &&& Some(hash@) == db@.accounts[db@.row_of_email(email@)].password_hash
                },
                None => !db@.has_email(email@),
            },
    {
        match db.find_email(email) {
            Some(i) => {
                proof {
                    lemma_email_row(db@, email@, i as int);
                }
                let account = &db.accounts[i];
                assert(account@ == db@.accounts[i as int]);
                match &account.password_hash {
                    Some(hash) => Some((account.account_id, hash.clone())),
                    None => {
                        assert(false);
                        None
                    },
                }
            },
            None => None,
        }
    }

    /// Judges a login from the credentials that were found. With no row the
    /// password is still run through one verification, so that an unknown
    /// email costs what a wrong password costs, and the answer is
    /// `Unauthorized`. With a row, the account id is returned exactly when
    /// the password opens the stored hash; a rejected password is
    /// `Unauthorized`, a stored hash that cannot be verified is `Internal`.
    pub fn judge(row: Option<(i32, String)>, password: &String) -> (r: Result<i32, AuthError>)
        ensures
            match row {
                None => r == Err::<i32, AuthError>(AuthError::Unauthorized),
                Some((account_id, hash)) => r == (if password_matches(hash@, password@) {
                    Ok::<i32, AuthError>(account_id)
                } else if argon2_verdict(hash@, password@) is None {
                    Err::<i32, AuthError>(AuthError::Internal)
                } else {
                    Err::<i32, AuthError>(AuthError::Unauthorized)
                }),
            },
    {
        match row {
            None => {
                burn_verification(password);
                Err(AuthError::Unauthorized)
            },
            Some((account_id, hash)) => match Account::check_password(password, &hash) {
                Ok(true) => Ok(account_id),
                Ok(false) => Err(AuthError::Unauthorized),
                Err(e) => Err(e),
            },
        }
    }

    /// Ends a login whose password was accepted: the profile that was found
    /// is the answer, and an account without a profile is an `Internal`
    /// failure, since every account owns one.
    pub fn conclude(found: Option<Profile>) -> (r: Result<Profile, AuthError>)
        ensures
            match found {
                Some(p) => r == Ok::<Profile, AuthError>(p),
                None => r == Err::<Profile, AuthError>(AuthError::Internal),
            },
    {
        match found {
            Some(p) => Ok(p),
            None => Err(AuthError::Internal),
        }
    }

    /// Registers an account under a given salt and creation time: hashes the
    /// password, then adds the account and its initial profile together, or
    /// nothing at all. Fails, leaving the store as it was, exactly as
    /// `registration_outcome` says.
    pub fn register_with(
        db: &mut Database,
        email: &String,
        password: &String,
        salt: &[u8],
        now: i64,
    ) -> (r: Result<Profile, AuthError>)
        requires
            old(db)@.wf(),
        ensures
            final(db)@.wf(),
            match old(db)@.registration_outcome(email@, argon2_encoded(password@, salt@)) {
                Ok(_) => {
                    &&& r matches Ok(p)
                    &&& p@ == initial_profile(old(db)@.next_id(), old(db)@.next_id())
                    &&& final(db)@ == old(db)@.with_registration(
                        email@,
                        argon2_encoded(password@, salt@)->0,
                        now as int,
                    )
                },
                Err(e) => r == Err::<Profile, AuthError>(e) && final(db)@ == old(db)@,
            },
    {
        let encoded = match hash_with_salt(password, salt) {
            Ok(h) => h,
            Err(e) => {
                return Err(e);
            },
        };
        let accounts_before = db.accounts.len();
        let profiles_before = db.profiles.len();
        let reply = match db.insert_account(email, encoded, now) {
            Ok(account_id) => StoreReply::AccountInserted { account_id },
            Err(reason) => StoreReply::Failed { reason },
        };
        let (state, action) = registration_step(RegistrationState::AwaitingAccount, reply);
        let outcome = match action {
            RegistrationAction::InsertProfile { nickname, account_id } => {
                let reply = match db.insert_profile(nickname, account_id) {
                    Ok(profile) => StoreReply::ProfileInserted { profile },
                    Err(reason) => StoreReply::Failed { reason },
                };
                let (_, action) = registration_step(state, reply);
                match action {
                    RegistrationAction::Commit { profile } => Ok(profile),
                    RegistrationAction::Rollback { reason } => Err(reason),
                    RegistrationAction::InsertProfile { .. } => Err(AuthError::Internal),
                }
            },
            RegistrationAction::Rollback { reason } => Err(reason),
            RegistrationAction::Commit { .. } => Err(AuthError::Internal),
        };
        match outcome {
            Ok(profile) => {
                proof {
                    let after = old(db)@.with_registration(
                        email@,
                        argon2_encoded(password@, salt@)->0,
                        now as int,
                    );
                    assert(db@.accounts =~= after.accounts);
                    assert(db@.profiles =~= after.profiles);
                    lemma_registration_keeps_rules(
                        old(db)@,
                        email@,
                        argon2_encoded(password@, salt@)->0,
                        now as int,
                    );
                }
                Ok(profile)
            },
            Err(reason) => {
                db.rollback(accounts_before, profiles_before);
                assert(db@.accounts =~= old(db)@.accounts);
                assert(db@.profiles =~= old(db)@.profiles);
                Err(reason)
            },
        }
    }

    /// Registers an account: hashes the password under a fresh random salt,
    /// then adds the account, stamped with the current time, and its initial
    /// profile together, or nothing at all. A taken email is refused.
    pub fn register(db: &mut Database, email: &String, password: &String) -> (r: Result<
        Profile,
        AuthError,
    >)
        requires
            old(db)@.wf(),
        ensures
            final(db)@.wf(),
            old(db)@.has_email(email@) ==> r is Err,
            match r {
                Ok(p) => {
                    &&& !old(db)@.has_email(email@)
                    &&& p@ == initial_profile(old(db)@.next_id(), old(db)@.next_id())
                    &&& exists|encoded: Seq<char>, now: int|
                        password_matches(encoded, password@) && final(db)@
                            == #[trigger] old(db)@.with_registration(email@, encoded, now)
                },
                Err(e) => {
                    &&& final(db)@ == old(db)@
                    &&& e == AuthError::Conflict || e == AuthError::Internal
                    &&& e == AuthError::Conflict ==> old(db)@.has_email(email@)
                },
            },
    {
        let salt = random_salt();
        let now = current_timestamp();
        Account::register_with(db, email, password, salt.as_slice(), now)
    }

    /// Answers a login at a given time. The owning profile is returned, and
    /// the account's `last_login` set to `now`, exactly when the email is
    /// known and the password opens its stored hash; otherwise the store is
    /// left as it was and the failure is the one `login_outcome` names.
    pub fn authenticate_at(db: &mut Database, email: &String, password: &String, now: i64) -> (r:
        Result<Profile, AuthError>)
        requires
            old(db)@.wf(),
        ensures
            final(db)@.wf(),
            match old(db)@.login_outcome(email@, password@) {
                Ok(row) => {
                    &&& r matches Ok(p)
                    &&& p@ == old(db)@.profiles[row]
                    &&& p@.account_id == old(db)@.accounts[row].account_id
                    &&& final(db)@ == old(db)@.with_login(row, now as int)
                },
                Err(e) => r == Err::<Profile, AuthError>(e) && final(db)@ == old(db)@,
            },
    {
        let row = Account::fetch_credentials(db, email);
        match Account::judge(row, password) {
            Err(e) => Err(e),
            Ok(account_id) => {
                let found = Profile::get_by_account(db, account_id);
                match Account::conclude(found) {
                    Err(e) => Err(e),
                    Ok(p) => {
                        db.touch_login((account_id - 1) as usize, now);
                        Ok(p)
                    },
                }
            },
        }
    }

    /// Answers a login now: as `authenticate_at`, with the current time.
    pub fn authenticate(db: &mut Database, email: &String, password: &String) -> (r: Result<
        Profile,
        AuthError,
    >)
        requires
            old(db)@.wf(),
        ensures
            final(db)@.wf(),
            match old(db)@.login_outcome(email@, password@) {
                Ok(row) => {
                    &&& r matches Ok(p)
                    &&& p@ == old(db)@.profiles[row]
                    &&& p@.account_id == old(db)@.accounts[row].account_id
                    &&& exists|now: int| final(db)@ == #[trigger] old(db)@.with_login(row, now)
                },
                Err(e) => r == Err::<Profile, AuthError>(e) && final(db)@ == old(db)@,
            },
    {
        let now = current_timestamp();
        Account::authenticate_at(db, email, password, now)
    }
}

/// A registration that goes through leaves a store that obeys the rules.
pub proof fn lemma_registration_keeps_rules(
    v: DatabaseView,
    email: Seq<char>,
    encoded: Seq<char>,
    now: int,
)
    requires
        v.wf(),
        !v.has_email(email),
        v.accounts.len() < i32::MAX,
    ensures
        v.with_registration(email, encoded, now).wf(),
{
    let after = v.with_registration(email, encoded, now);
    assert forall|i: int, j: int| 0 <= i < j < after.accounts.len() implies (
    #[trigger] after.accounts[i]).email != (#[trigger] after.accounts[j]).email by {
        if j < v.accounts.len() {
            assert(v.accounts[i].email != v.accounts[j].email);
        } else {
            assert(v.accounts[i].email != email);
        }
    }
}

impl Profile {
    /// Every profile, in ascending order of `profile_id`.
    pub fn all(db: &Database) -> (r: Vec<Profile>)
        ensures
            r@.len() == db@.profiles.len(),
            forall|i: int| 0 <= i < r@.len() ==> (#[trigger] r@[i])@ == db@.profiles[i],
    {
        let mut out: Vec<Profile> = Vec::new();
        let mut i: usize = 0;
        while i < db.profiles.len()
            invariant
                i <= db.profiles.len(),
                out@.len() == i,
                forall|j: int| 0 <= j < i ==> (#[trigger] out@[j])@ == db@.profiles[j],
            decreases db.profiles.len() - i,
        {
            out.push(db.profiles[i].duplicate());
            i += 1;
        }
        out
    }

    /// The profile with this id; `None` exactly when no profile has it.
    pub fn get(db: &Database, profile_id: i32) -> (r: Option<Profile>)
        requires
            db@.wf(),
        ensures
            r matches Some(p) ==> p@.profile_id == profile_id,
            r is None ==> forall|i: int|
                0 <= i < db@.profiles.len() ==> (#[trigger] db@.profiles[i]).profile_id
                    != profile_id,
            match db@.profile_by_id(profile_id as int) {
                Some(v) => r matches Some(p) && p@ == v,
                None => r is None,
            },
    {
        if profile_id >= 1 && (profile_id as usize) <= db.profiles.len() {
            Some(db.profiles[(profile_id - 1) as usize].duplicate())
        } else {
            None
        }
    }

    /// The profile owned by this account; `None` exactly when the account
    /// owns none.
    pub fn get_by_account(db: &Database, account_id: i32) -> (r: Option<Profile>)
        requires
            db@.wf(),
        ensures
            r matches Some(p) ==> p@.account_id == account_id,
            r is None ==> forall|i: int|
                0 <= i < db@.profiles.len() ==> (#[trigger] db@.profiles[i]).account_id
                    != account_id,
            match db@.profile_by_account(account_id as int) {
                Some(v) => r matches Some(p) && p@ == v,
                None => r is None,
            },
    {
        if account_id >= 1 && (account_id as usize) <= db.profiles.len() {
            Some(db.profiles[(account_id - 1) as usize].duplicate())
        } else {
            None
        }
    }

    fn find_nickname(db: &Database, nickname: &String) -> (r: Option<usize>)
        ensures
            match r {
                Some(i) => {
                    &&& i < db@.profiles.len()
                    &&& db@.profiles[i as int].nickname == Some(nickname@)
                    &&& forall|j: int|
                        0 <= j < i ==> (#[trigger] db@.profiles[j]).nickname != Some(nickname@)
                },
                None => !db@.has_nickname(nickname@),
            },
    {
        let mut i: usize = 0;
        while i < db.profiles.len()
            invariant
                i <= db.profiles.len(),
                forall|j: int|
                    0 <= j < i ==> (#[trigger] db@.profiles[j]).nickname != Some(nickname@),
            decreases db.profiles.len() - i,
        {
            let hit = match &db.profiles[i].nickname {
                Some(n) => *n == *nickname,
                None => false,
            };
            if hit {
                return Some(i);
            }
            i += 1;
        }
        None
    }

    /// Whether some profile carries this nickname.
    pub fn nickname_exist(db: &Database, nickname: &String) -> (r: bool)
        ensures
            r == db@.has_nickname(nickname@),
    {
        Profile::find_nickname(db, nickname).is_some()
    }

    /// The first profile, in id order, that carries this nickname; `None`
    /// exactly when no profile carries it.
    pub fn filter_by_nickname(db: &Database, nickname: &String) -> (r: Option<Profile>)
        ensures
            r is Some == db@.has_nickname(nickname@),
            r matches Some(p) ==> exists|i: int|
                {
                    &&& 0 <= i < db@.profiles.len()
                    &&& p@ == #[trigger] db@.profiles[i]
                    &&& p@.nickname == Some(nickname@)
                    &&& forall|j: int|
                        0 <= j < i ==> (#[trigger] db@.profiles[j]).nickname != Some(nickname@)
                },
    {
        match Profile::find_nickname(db, nickname) {
            Some(i) => Some(db.profiles[i].duplicate()),
            None => None,
        }
    }

    /// Sets the nickname of the stored profile that has this record's id.
    /// With the store untouched: `Absent` when no such profile is stored,
    /// `Internal` when the nickname is wider than `NICKNAME_MAX`.
    pub fn update_nickname(&self, db: &mut Database, newname: String) -> (r: Result<(), AuthError>)
        requires
            old(db)@.wf(),
        ensures
            final(db)@.wf(),
            match old(db)@.profile_by_id(self.profile_id as int) {
                Some(_) => if newname@.len() > NICKNAME_MAX {
                    r == Err::<(), AuthError>(AuthError::Internal) && final(db)@ == old(db)@
                } else {
                    r is Ok && final(db)@ == old(db)@.with_nickname(self.profile_id - 1, newname@)
                },
                None => r == Err::<(), AuthError>(AuthError::Absent) && final(db)@ == old(db)@,
            },
    {
        if self.profile_id >= 1 && (self.profile_id as usize) <= db.profiles.len() {
            if newname.as_str().unicode_len() > NICKNAME_MAX {
                return Err(AuthError::Internal);
            }
            let row = (self.profile_id - 1) as usize;
            db.profiles[row].nickname = Some(newname);
            assert(final(db)@.profiles =~= old(db)@.with_nickname(row as int, newname@).profiles);
            assert(final(db)@.accounts =~= old(db)@.accounts);
            Ok(())
        } else {
            Err(AuthError::Absent)
        }
    }

    /// Sets the avatar of the stored profile that has this record's id.
    /// With the store untouched: `Absent` when no such profile is stored,
    /// `Internal` when the avatar is wider than `AVATAR_MAX`.
    pub fn update_avatar(&self, db: &mut Database, newavatar: String) -> (r: Result<(), AuthError>)
        requires
            old(db)@.wf(),
        ensures
            final(db)@.wf(),
            match old(db)@.profile_by_id(self.profile_id as int) {
                Some(_) => if newavatar@.len() > AVATAR_MAX {
                    r == Err::<(), AuthError>(AuthError::Internal) && final(db)@ == old(db)@
                } else {
                    r is Ok && final(db)@ == old(db)@.with_avatar(self.profile_id - 1, newavatar@)
                },
                None => r == Err::<(), AuthError>(AuthError::Absent) && final(db)@ == old(db)@,
            },
    {
        if self.profile_id >= 1 && (self.profile_id as usize) <= db.profiles.len() {
            if newavatar.as_str().unicode_len() > AVATAR_MAX {
                return Err(AuthError::Internal);
            }
            let row = (self.profile_id - 1) as usize;
            db.profiles[row].avatar = Some(newavatar);
            assert(final(db)@.profiles =~= old(db)@.with_avatar(row as int, newavatar@).profiles);
            assert(final(db)@.accounts =~= old(db)@.accounts);
            Ok(())
        } else {
            Err(AuthError::Absent)
        }
    }

    /// Sets the reputation of the stored profile that has this record's id.
    /// `Absent`, with the store untouched, when no such profile is stored.
    pub fn update_reputation(&self, db: &mut Database, reputation: i32) -> (r: Result<
        (),
        AuthError,
    >)
        requires
            old(db)@.wf(),
        ensures
            final(db)@.wf(),
            match old(db)@.profile_by_id(self.profile_id as int) {
                Some(_) => r is Ok && final(db)@ == old(db)@.with_reputation(
                    self.profile_id - 1,
                    reputation as int,
                ),
                None => r == Err::<(), AuthError>(AuthError::Absent) && final(db)@ == old(db)@,
            },
    {
        if self.profile_id >= 1 && (self.profile_id as usize) <= db.profiles.len() {
            let row = (self.profile_id - 1) as usize;
            db.profiles[row].reputation = reputation;
            assert(final(db)@.profiles =~= old(db)@.with_reputation(
                row as int,
                reputation as int,
            ).profiles);
            assert(final(db)@.accounts =~= old(db)@.accounts);
            Ok(())
        } else {
            Err(AuthError::Absent)
        }
    }
}

} // verus!
