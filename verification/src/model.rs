//! The documents of the credential store and their mathematical views.

use vstd::prelude::*;

verus! {

/// An account document, as the `users`, `tmp_users` and `admins` collections hold it.
#[derive(Debug, Clone)]
pub struct Account {
    pub username: String,
    pub email: String,
    /// Password hash in PHC string form.
    pub password: String,
    pub created_at: String,
}

pub struct AccountView {
    pub username: Seq<char>,
    pub email: Seq<char>,
    pub password: Seq<char>,
    pub created_at: Seq<char>,
}

impl View for Account {
    type V = AccountView;

    open spec fn view(&self) -> AccountView {
        AccountView {
            username: self.username@,
            email: self.email@,
            password: self.password@,
            created_at: self.created_at@,
        }
    }
}

impl Account {
    /// A copy with the same view.
    pub fn duplicate(&self) -> (r: Account)
        ensures
            r@ == self@,
    {
        Account {
            username: self.username.clone(),
            email: self.email.clone(),
            password: self.password.clone(),
            created_at: self.created_at.clone(),
        }
    }
}

/// A one-time activation code and the time it stops being valid.
#[derive(Debug, Clone)]
pub struct ActivationCode {
    pub username: String,
    pub code: String,
    pub created_at: String,
    pub expires_at: String,
}

pub struct ActivationCodeView {
    pub username: Seq<char>,
    pub code: Seq<char>,
    pub created_at: Seq<char>,
    pub expires_at: Seq<char>,
}

impl View for ActivationCode {
    type V = ActivationCodeView;

    open spec fn view(&self) -> ActivationCodeView {
        ActivationCodeView {
            username: self.username@,
            code: self.code@,
            created_at: self.created_at@,
            expires_at: self.expires_at@,
        }
    }
}

impl ActivationCode {
    /// A copy with the same view.
    pub fn duplicate(&self) -> (r: ActivationCode)
        ensures
            r@ == self@,
    {
        ActivationCode {
            username: self.username.clone(),
            code: self.code.clone(),
            created_at: self.created_at.clone(),
            expires_at: self.expires_at.clone(),
        }
    }
}

/// Interaction counters of one user: conversations held, and one counter per tag.
#[derive(Debug, Clone)]
pub struct StatsRecord {
    pub username: String,
    pub conversation: i32,
    pub tags: Vec<(String, i32)>,
}

pub struct StatsView {
    pub username: Seq<char>,
    pub conversation: i32,
    pub tags: Seq<(Seq<char>, i32)>,
}

impl StatsView {
    /// Counters are not negative, no tag has two counters, and every tag
    /// counter has counted at least once.
    pub open spec fn well_formed(self) -> bool {
        self.conversation >= 0 && crate::tags::well_formed(self.tags)
    }
}

impl View for StatsRecord {
    type V = StatsView;

    open spec fn view(&self) -> StatsView {
        StatsView {
            username: self.username@,
            conversation: self.conversation,
            tags: crate::seqs::views(self.tags@),
        }
    }
}

/// The characters of a string that may be absent.
pub open spec fn optional_text(t: Option<String>) -> Option<Seq<char>> {
    match t {
        Some(s) => Some(s@),
        None => None,
    }
}

/// A question-bank document. A tag that is not a string is held as `None`;
/// `image` is `None` when the document carries no binary image.
#[derive(Debug, Clone)]
pub struct Problem {
    pub id: String,
    pub tags: Vec<Option<String>>,
    pub image: Option<Vec<u8>>,
}

pub struct ProblemView {
    pub id: Seq<char>,
    pub tags: Seq<Option<Seq<char>>>,
    pub image: Option<Seq<u8>>,
}

impl View for Problem {
    type V = ProblemView;

    open spec fn view(&self) -> ProblemView {
        ProblemView {
            id: self.id@,
            tags: self.tags@.map_values(|t: Option<String>| optional_text(t)),
            image: match self.image {
                Some(bytes) => Some(bytes@),
                None => None,
            },
        }
    }
}

/// Filter: the account with this username.
pub open spec fn by_username(username: Seq<char>) -> spec_fn(AccountView) -> bool {
    |a: AccountView| a.username == username
}

/// Filter: the account with this email address.
pub open spec fn by_email(email: Seq<char>) -> spec_fn(AccountView) -> bool {
    |a: AccountView| a.email == email
}

/// Filter: the statistics of this user.
pub open spec fn stats_of(username: Seq<char>) -> spec_fn(StatsView) -> bool {
    |s: StatsView| s.username == username
}

/// Filter: the activation code with this username and this code.
pub open spec fn code_of(username: Seq<char>, code: Seq<char>) -> spec_fn(ActivationCodeView) -> bool {
    |c: ActivationCodeView| c.username == username && c.code == code
}

/// Filter: the problem with this id.
pub open spec fn by_id(id: Seq<char>) -> spec_fn(ProblemView) -> bool {
    |p: ProblemView| p.id == id
}

/// Filter: the counter of this tag.
pub open spec fn tag_named(name: Seq<char>) -> spec_fn((Seq<char>, i32)) -> bool {
    |t: (Seq<char>, i32)| t.0 == name
}

} // verus!
