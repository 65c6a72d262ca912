//! The two records of the user store and their mathematical views.
use vstd::prelude::*;

verus! {

/// The display record owned by one account.
#[derive(Clone, Debug, PartialEq, Eq)]
pub struct Profile {
    pub profile_id: i32,
    pub nickname: Option<String>,
    pub avatar: Option<String>,
    pub bibo: Option<String>,
    pub reputation: i32,
    pub account_id: i32,
}

/// The credential record. Timestamps are microseconds since the Unix epoch.
#[derive(Clone, Debug, PartialEq, Eq)]
pub struct Account {
    pub account_id: i32,
    pub email: String,
    pub phone: Option<String>,
    pub password_hash: Option<String>,
    pub last_login: i64,
    pub created: i64,
    pub is_active: bool,
}

/// A profile as plain mathematical values.
pub struct ProfileView {
    pub profile_id: int,
    pub nickname: Option<Seq<char>>,
    pub avatar: Option<Seq<char>>,
    pub bibo: Option<Seq<char>>,
    pub reputation: int,
    pub account_id: int,
}

/// An account as plain mathematical values.
pub struct AccountView {
    pub account_id: int,
    pub email: Seq<char>,
    pub phone: Option<Seq<char>>,
    pub password_hash: Option<Seq<char>>,
    pub last_login: int,
    pub created: int,
    pub is_active: bool,
}

/// The characters of an optional text column.
pub open spec fn text_of(column: Option<String>) -> Option<Seq<char>> {
    match column {
        Some(s) => Some(s@),
        None => None,
    }
}

impl View for Profile {
    type V = ProfileView;

    open spec fn view(&self) -> ProfileView {
        ProfileView {
            profile_id: self.profile_id as int,
            nickname: text_of(self.nickname),
            avatar: text_of(self.avatar),
            bibo: text_of(self.bibo),
            reputation: self.reputation as int,
            account_id: self.account_id as int,
        }
    }
}

impl View for Account {
    type V = AccountView;

    open spec fn view(&self) -> AccountView {
        AccountView {
            account_id: self.account_id as int,
            email: self.email@,
            phone: text_of(self.phone),
            password_hash: text_of(self.password_hash),
            last_login: self.last_login as int,
            created: self.created as int,
            is_active: self.is_active,
        }
    }
}

/// The decimal digit for a value below ten.
pub open spec fn digit_char(d: int) -> char {
    if d == 0 {
        '0'
    } else if d == 1 {
        '1'
    } else if d == 2 {
        '2'
    } else if d == 3 {
        '3'
    } else if d == 4 {
        '4'
    } else if d == 5 {
        '5'
    } else if d == 6 {
        '6'
    } else if d == 7 {
        '7'
    } else if d == 8 {
        '8'
    } else {
        '9'
    }
}

/// The decimal numeral of a natural number, without leading zeros.
pub open spec fn decimal(n: nat) -> Seq<char>
    decreases n,
{
    if n < 10 {
        seq![digit_char(n as int)]
    } else {
        decimal(n / 10).push(digit_char((n % 10) as int))
    }
}

/// The decimal numeral of an integer, with a minus sign when negative.
pub open spec fn signed_decimal(n: int) -> Seq<char> {
    if n < 0 {
        seq!['-'] + decimal((-n) as nat)
    } else {
        decimal(n as nat)
    }
}

/// The placeholder nickname of a new account: the prefix "学霸 " followed by
/// the account id plus 10000, in decimal.
pub open spec fn initial_nickname(account_id: int) -> Seq<char> {
    "学霸 "@ + signed_decimal(account_id + 10000)
}

/// The profile that registration creates for an account: placeholder
/// nickname, no avatar, no bio, reputation zero.
pub open spec fn initial_profile(profile_id: int, account_id: int) -> ProfileView {
    ProfileView {
        profile_id,
        nickname: Some(initial_nickname(account_id)),
        avatar: None,
        bibo: None,
        reputation: 0,
        account_id,
    }
}

fn digit_text(d: u64) -> (r: &'static str)
    requires
        d < 10,
    ensures
        r@ == seq![digit_char(d as int)],
{
    proof {
        reveal_strlit("0");
        reveal_strlit("1");
        reveal_strlit("2");
        reveal_strlit("3");
        reveal_strlit("4");
        reveal_strlit("5");
        reveal_strlit("6");
        reveal_strlit("7");
        reveal_strlit("8");
        reveal_strlit("9");
    }
    let r = if d == 0 {
        "0"
    } else if d == 1 {
        "1"
    } else if d == 2 {
        "2"
    } else if d == 3 {
        "3"
    } else if d == 4 {
        "4"
    } else if d == 5 {
        "5"
    } else if d == 6 {
        "6"
    } else if d == 7 {
        "7"
    } else if d == 8 {
        "8"
    } else {
        "9"
    };
    assert(r@ =~= seq![digit_char(d as int)]);
    r
}

fn append_decimal(out: &mut String, n: u64)
    ensures
        final(out)@ == old(out)@ + decimal(n as nat),
    decreases n,
{
    if n >= 10 {
        append_decimal(out, n / 10);
    }
    out.append(digit_text(n % 10));
    assert(final(out)@ =~= old(out)@ + decimal(n as nat));
}

fn copy_text(column: &Option<String>) -> (r: Option<String>)
    ensures
        r == *column,
{
    match column {
        Some(s) => Some(s.clone()),
        None => None,
    }
}

impl Profile {
    /// An independent copy of the record.
    pub fn duplicate(&self) -> (r: Profile)
        ensures
            r == *self,
    {
        Profile {
            profile_id: self.profile_id,
            nickname: copy_text(&self.nickname),
            avatar: copy_text(&self.avatar),
            bibo: copy_text(&self.bibo),
            reputation: self.reputation,
            account_id: self.account_id,
        }
    }
}

impl Account {
    /// The nickname given to the profile of a newly created account.
    pub fn placeholder_nickname(account_id: i32) -> (r: String)
        ensures
            r@ == initial_nickname(account_id as int),
    {
        let shifted: i64 = account_id as i64 + 10000;
        let mut out = String::from_str("学霸 ");
        if shifted < 0 {
            out.append("-");
            proof {
                reveal_strlit("-");
            }
            assert(out@ =~= "学霸 "@ + seq!['-']);
            append_decimal(&mut out, (-shifted) as u64);
        } else {
            append_decimal(&mut out, shifted as u64);
        }
        assert(out@ =~= initial_nickname(account_id as int));
        out
    }
}

} // verus!
