//! An in-memory model of the credential store: collections of documents,
//! searched and changed the way a document database answers key filters.
//! A filter selects the first document that matches it, in insertion order.
//! Every change is one `Write`; the store records the writes it applied, so
//! that they can be replayed on a database.

use vstd::prelude::*;
use crate::model::{
    Account, AccountView, ActivationCode, ActivationCodeView, Problem, ProblemView, StatsRecord,
    StatsView, by_email, by_id, by_username, code_of, stats_of,
};
use crate::seqs::{
    any, delete_one, find_one, first_index, lemma_first_index, lemma_first_index_at, update_one,
    views,
};
use crate::error::ApiResult;
use crate::password::{hash_password, hasher_error, password_check};
use crate::tags::{bump_all, bump_all_fits, bump_tags, tags_fit};

verus! {

/// One change of the store.
#[derive(Debug, Clone)]
pub enum Write {
    /// Add an active user.
    InsertUser(Account),
    /// Add a user that awaits activation.
    InsertPending(Account),
    /// Add an administrator.
    InsertAdmin(Account),
    /// Add the statistics of a user, with no conversation and no tag.
    InsertStats { username: String },
    /// Add an activation code.
    InsertCode(ActivationCode),
    /// Remove the active user of this name.
    DeleteUser { username: String },
    /// Remove the pending user of this name.
    DeletePending { username: String },
    /// Remove the statistics of this user.
    DeleteStats { username: String },
    /// Remove the activation code with this username and code.
    DeleteCode { username: String, code: String },
    /// Give the active user `username` the name `new_username`.
    RenameUser { username: String, new_username: String },
    /// Replace the password hash of the active user `username`.
    SetPassword { username: String, password: String },
    /// Count one occurrence of each of `tags` for `username`.
    IncTags { username: String, tags: Vec<String> },
    /// Count one more conversation for `username`.
    IncConversation { username: String },
    /// Reset the statistics of every user.
    ClearStats,
}

pub enum WriteView {
    InsertUser(AccountView),
    InsertPending(AccountView),
    InsertAdmin(AccountView),
    InsertStats { username: Seq<char> },
    InsertCode(ActivationCodeView),
    DeleteUser { username: Seq<char> },
    DeletePending { username: Seq<char> },
    DeleteStats { username: Seq<char> },
    DeleteCode { username: Seq<char>, code: Seq<char> },
    RenameUser { username: Seq<char>, new_username: Seq<char> },
    SetPassword { username: Seq<char>, password: Seq<char> },
    IncTags { username: Seq<char>, tags: Seq<Seq<char>> },
    IncConversation { username: Seq<char> },
    ClearStats,
}

impl View for Write {
    type V = WriteView;

    open spec fn view(&self) -> WriteView {
        match *self {
            Write::InsertUser(a) => WriteView::InsertUser(a@),
            Write::InsertPending(a) => WriteView::InsertPending(a@),
            Write::InsertAdmin(a) => WriteView::InsertAdmin(a@),
            Write::InsertStats { username } => WriteView::InsertStats { username: username@ },
            Write::InsertCode(c) => WriteView::InsertCode(c@),
            Write::DeleteUser { username } => WriteView::DeleteUser { username: username@ },
            Write::DeletePending { username } => WriteView::DeletePending { username: username@ },
            Write::DeleteStats { username } => WriteView::DeleteStats { username: username@ },
            Write::DeleteCode { username, code } => WriteView::DeleteCode {
                username: username@,
                code: code@,
            },
            Write::RenameUser { username, new_username } => WriteView::RenameUser {
                username: username@,
                new_username: new_username@,
            },
            Write::SetPassword { username, password } => WriteView::SetPassword {
                username: username@,
                password: password@,
            },
            Write::IncTags { username, tags } => WriteView::IncTags {
                username: username@,
                tags: views(tags@),
            },
            Write::IncConversation { username } => WriteView::IncConversation {
                username: username@,
            },
            Write::ClearStats => WriteView::ClearStats,
        }
    }
}

/// The statistics a user starts with.
pub open spec fn fresh_stats(username: Seq<char>) -> StatsView {
    StatsView { username, conversation: 0, tags: Seq::empty() }
}

/// Update: the account under a new name.
pub open spec fn renamed(new_username: Seq<char>) -> spec_fn(AccountView) -> AccountView {
    |a: AccountView| AccountView { username: new_username, ..a }
}

/// Update: the account with a new password hash.
pub open spec fn with_password(password: Seq<char>) -> spec_fn(AccountView) -> AccountView {
    |a: AccountView| AccountView { password, ..a }
}

/// Update: the statistics after the occurrences `tags` were counted.
pub open spec fn with_tags(tags: Seq<Seq<char>>) -> spec_fn(StatsView) -> StatsView {
    |r: StatsView| StatsView { tags: bump_all(r.tags, tags), ..r }
}

/// Update: the statistics after one more conversation.
pub open spec fn one_more_conversation() -> spec_fn(StatsView) -> StatsView {
    |r: StatsView| StatsView { conversation: (r.conversation + 1) as i32, ..r }
}

/// Update: the statistics reset to no conversation and no tag.
pub open spec fn cleared() -> spec_fn(StatsView) -> StatsView {
    |r: StatsView| fresh_stats(r.username)
}

/// The credential store.
#[derive(Debug, Clone)]
pub struct Store {
    pub users: Vec<Account>,
    pub tmp_users: Vec<Account>,
    pub admins: Vec<Account>,
    pub stats: Vec<StatsRecord>,
    pub activation_codes: Vec<ActivationCode>,
    pub qbank: Vec<Problem>,
    /// The writes applied so far, oldest first.
    pub journal: Vec<Write>,
}

pub struct StoreView {
    pub users: Seq<AccountView>,
    pub tmp_users: Seq<AccountView>,
    pub admins: Seq<AccountView>,
    pub stats: Seq<StatsView>,
    pub activation_codes: Seq<ActivationCodeView>,
    pub qbank: Seq<ProblemView>,
    pub journal: Seq<WriteView>,
}

impl View for Store {
    type V = StoreView;

    open spec fn view(&self) -> StoreView {
        StoreView {
            users: views(self.users@),
            tmp_users: views(self.tmp_users@),
            admins: views(self.admins@),
            stats: views(self.stats@),
            activation_codes: views(self.activation_codes@),
            qbank: views(self.qbank@),
            journal: views(self.journal@),
        }
    }
}

impl StoreView {
    /// An active user has this name.
    pub open spec fn user_exists(self, username: Seq<char>) -> bool {
        any(self.users, by_username(username))
    }

    /// An administrator has this name.
    pub open spec fn admin_exists(self, username: Seq<char>) -> bool {
        any(self.admins, by_username(username))
    }

    /// An active user or an administrator has this email address.
    pub open spec fn email_exists(self, email: Seq<char>) -> bool {
        any(self.users, by_email(email)) || any(self.admins, by_email(email))
    }

    /// An active user or an administrator has this name.
    pub open spec fn username_taken(self, username: Seq<char>) -> bool {
        self.user_exists(username) || self.admin_exists(username)
    }

    /// The write can be applied without overflowing a counter.
    pub open spec fn accepts(self, w: WriteView) -> bool {
        match w {
            WriteView::IncTags { username, tags } => match find_one(self.stats, stats_of(username)) {
                Some(r) => bump_all_fits(r.tags, tags),
                None => true,
            },
            WriteView::IncConversation { username } => match find_one(
                self.stats,
                stats_of(username),
            ) {
                Some(r) => r.conversation < i32::MAX,
                None => true,
            },
            _ => true,
        }
    }

    /// The collections after the write, the journal left as it is.
    pub open spec fn changed(self, w: WriteView) -> StoreView {
        match w {
            WriteView::InsertUser(a) => StoreView { users: self.users.push(a), ..self },
            WriteView::InsertPending(a) => StoreView { tmp_users: self.tmp_users.push(a), ..self },
            WriteView::InsertAdmin(a) => StoreView { admins: self.admins.push(a), ..self },
            WriteView::InsertStats { username } => StoreView {
                stats: self.stats.push(fresh_stats(username)),
                ..self
            },
            WriteView::InsertCode(c) => StoreView {
                activation_codes: self.activation_codes.push(c),
                ..self
            },
            WriteView::DeleteUser { username } => StoreView {
                users: delete_one(self.users, by_username(username)),
                ..self
            },
            WriteView::DeletePending { username } => StoreView {
                tmp_users: delete_one(self.tmp_users, by_username(username)),
                ..self
            },
            WriteView::DeleteStats { username } => StoreView {
                stats: delete_one(self.stats, stats_of(username)),
                ..self
            },
            WriteView::DeleteCode { username, code } => StoreView {
                activation_codes: delete_one(self.activation_codes, code_of(username, code)),
                ..self
            },
            WriteView::RenameUser { username, new_username } => StoreView {
                users: update_one(self.users, by_username(username), renamed(new_username)),
                ..self
            },
            WriteView::SetPassword { username, password } => StoreView {
                users: update_one(self.users, by_username(username), with_password(password)),
                ..self
            },
            WriteView::IncTags { username, tags } => StoreView {
                stats: update_one(self.stats, stats_of(username), with_tags(tags)),
                ..self
            },
            WriteView::IncConversation { username } => StoreView {
                stats: update_one(self.stats, stats_of(username), one_more_conversation()),
                ..self
            },
            WriteView::ClearStats => StoreView { stats: self.stats.map_values(cleared()), ..self },
        }
    }

    /// The store after the write: the collections changed, the write recorded.
    pub open spec fn apply(self, w: WriteView) -> StoreView {
        StoreView { journal: self.journal.push(w), ..self.changed(w) }
    }
}

/// Position of the first account named `username`, or `v.len()`.
pub fn position_by_username(v: &Vec<Account>, username: &String) -> (i: usize)
    ensures
        i as int == first_index(views(v@), by_username(username@)),
{
    let mut i: usize = 0;
    while i < v.len()
        invariant
            i <= v.len(),
            forall|j: int| 0 <= j < i ==> !by_username(username@)(#[trigger] views(v@)[j]),
        decreases v.len() - i,
    {
        if v[i].username == *username {
            proof {
                lemma_first_index_at(views(v@), by_username(username@), i as int);
            }
            return i;
        }
        i += 1;
    }
    proof {
        lemma_first_index_at(views(v@), by_username(username@), i as int);
    }
    i
}

/// Position of the first account with address `email`, or `v.len()`.
pub fn position_by_email(v: &Vec<Account>, email: &String) -> (i: usize)
    ensures
        i as int == first_index(views(v@), by_email(email@)),
{
    let mut i: usize = 0;
    while i < v.len()
        invariant
            i <= v.len(),
            forall|j: int| 0 <= j < i ==> !by_email(email@)(#[trigger] views(v@)[j]),
        decreases v.len() - i,
    {
        if v[i].email == *email {
            proof {
                lemma_first_index_at(views(v@), by_email(email@), i as int);
            }
            return i;
        }
        i += 1;
    }
    proof {
        lemma_first_index_at(views(v@), by_email(email@), i as int);
    }
    i
}

/// Position of the first statistics record of `username`, or `v.len()`.
pub fn stats_position(v: &Vec<StatsRecord>, username: &String) -> (i: usize)
    ensures
        i as int == first_index(views(v@), stats_of(username@)),
{
    let mut i: usize = 0;
    while i < v.len()
        invariant
            i <= v.len(),
            forall|j: int| 0 <= j < i ==> !stats_of(username@)(#[trigger] views(v@)[j]),
        decreases v.len() - i,
    {
        if v[i].username == *username {
            proof {
                lemma_first_index_at(views(v@), stats_of(username@), i as int);
            }
            return i;
        }
        i += 1;
    }
    proof {
        lemma_first_index_at(views(v@), stats_of(username@), i as int);
    }
    i
}

/// Position of the first activation code for `username` and `code`, or `v.len()`.
pub fn code_position(v: &Vec<ActivationCode>, username: &String, code: &String) -> (i: usize)
    ensures
        i as int == first_index(views(v@), code_of(username@, code@)),
{
    let mut i: usize = 0;
    while i < v.len()
        invariant
            i <= v.len(),
            forall|j: int| 0 <= j < i ==> !code_of(username@, code@)(#[trigger] views(v@)[j]),
        decreases v.len() - i,
    {
        if v[i].username == *username && v[i].code == *code {
            proof {
                lemma_first_index_at(views(v@), code_of(username@, code@), i as int);
            }
            return i;
        }
        i += 1;
    }
    proof {
        lemma_first_index_at(views(v@), code_of(username@, code@), i as int);
    }
    i
}

/// Position of the first problem with this id, or `v.len()`.
pub fn problem_position(v: &Vec<Problem>, id: &String) -> (i: usize)
    ensures
        i as int == first_index(views(v@), by_id(id@)),
{
    let mut i: usize = 0;
    while i < v.len()
        invariant
            i <= v.len(),
            forall|j: int| 0 <= j < i ==> !by_id(id@)(#[trigger] views(v@)[j]),
        decreases v.len() - i,
    {
        if v[i].id == *id {
            proof {
                lemma_first_index_at(views(v@), by_id(id@), i as int);
            }
            return i;
        }
        i += 1;
    }
    proof {
        lemma_first_index_at(views(v@), by_id(id@), i as int);
    }
    i
}

/// A copy of a list of strings with the same view.
pub fn copy_strings(v: &Vec<String>) -> (r: Vec<String>)
    ensures
        views(r@) == views(v@),
{
    let mut r: Vec<String> = Vec::new();
    let mut i: usize = 0;
    while i < v.len()
        invariant
            i <= v.len(),
            views(r@) == views(v@).take(i as int),
        decreases v.len() - i,
    {
        let ghost before = r@;
        r.push(v[i].clone());
        assert(views(r@) =~= views(before).push(v@[i as int]@));
        assert(views(r@) =~= views(v@).take(i + 1));
        i += 1;
    }
    assert(views(v@).take(i as int) =~= views(v@));
    r
}

fn remove_account(v: &mut Vec<Account>, username: &String)
    ensures
        views(final(v)@) == delete_one(views(old(v)@), by_username(username@)),
{
    let i = position_by_username(v, username);
    if i < v.len() {
        v.remove(i);
        assert(views(v@) =~= views(old(v)@).remove(i as int));
    }
}

fn remove_stats(v: &mut Vec<StatsRecord>, username: &String)
    ensures
        views(final(v)@) == delete_one(views(old(v)@), stats_of(username@)),
{
    let i = stats_position(v, username);
    if i < v.len() {
        v.remove(i);
        assert(views(v@) =~= views(old(v)@).remove(i as int));
    }
}

fn remove_code(v: &mut Vec<ActivationCode>, username: &String, code: &String)
    ensures
        views(final(v)@) == delete_one(views(old(v)@), code_of(username@, code@)),
{
    let i = code_position(v, username, code);
    if i < v.len() {
        v.remove(i);
        assert(views(v@) =~= views(old(v)@).remove(i as int));
    }
}

fn rename_account(v: &mut Vec<Account>, username: &String, new_username: &String)
    ensures
        views(final(v)@) == update_one(
            views(old(v)@),
            by_username(username@),
            renamed(new_username@),
        ),
{
    let i = position_by_username(v, username);
    if i < v.len() {
        let mut a = v.remove(i);
        a.username = new_username.clone();
        v.insert(i, a);
        assert(views(v@) =~= views(old(v)@).update(
            i as int,
            renamed(new_username@)(views(old(v)@)[i as int]),
        ));
    }
}

fn set_account_password(v: &mut Vec<Account>, username: &String, password: &String)
    ensures
        views(final(v)@) == update_one(
            views(old(v)@),
            by_username(username@),
            with_password(password@),
        ),
{
    let i = position_by_username(v, username);
    if i < v.len() {
        let mut a = v.remove(i);
        a.password = password.clone();
        v.insert(i, a);
        assert(views(v@) =~= views(old(v)@).update(
            i as int,
            with_password(password@)(views(old(v)@)[i as int]),
        ));
    }
}

fn count_tags(v: &mut Vec<StatsRecord>, username: &String, tags: &Vec<String>)
    requires
        find_one(views(old(v)@), stats_of(username@)) matches Some(r) ==> bump_all_fits(
            r.tags,
            views(tags@),
        ),
    ensures
        views(final(v)@) == update_one(
            views(old(v)@),
            stats_of(username@),
            with_tags(views(tags@)),
        ),
{
    let i = stats_position(v, username);
    if i < v.len() {
        let mut r = v.remove(i);
        assert(r@ == views(old(v)@)[i as int]);
        bump_tags(&mut r.tags, tags);
        v.insert(i, r);
        assert(views(v@) =~= views(old(v)@).update(
            i as int,
            with_tags(views(tags@))(views(old(v)@)[i as int]),
        ));
    }
}

fn count_conversation(v: &mut Vec<StatsRecord>, username: &String)
    requires
        find_one(views(old(v)@), stats_of(username@)) matches Some(r) ==> r.conversation
            < i32::MAX,
    ensures
        views(final(v)@) == update_one(
            views(old(v)@),
            stats_of(username@),
            one_more_conversation(),
        ),
{
    let i = stats_position(v, username);
    if i < v.len() {
        let mut r = v.remove(i);
        assert(r@ == views(old(v)@)[i as int]);
        r.conversation = r.conversation + 1;
        v.insert(i, r);
        assert(views(v@) =~= views(old(v)@).update(
            i as int,
            one_more_conversation()(views(old(v)@)[i as int]),
        ));
    }
}

fn clear_all(v: &mut Vec<StatsRecord>)
    ensures
        views(final(v)@) == views(old(v)@).map_values(cleared()),
{
    let mut i: usize = 0;
    while i < v.len()
        invariant
            i <= v.len(),
            v.len() == old(v).len(),
            forall|j: int| 0 <= j < i ==> #[trigger] v[j]@ == cleared()(old(v)[j]@),
            forall|j: int| i <= j < v.len() ==> #[trigger] v[j]@ == old(v)[j]@,
        decreases v.len() - i,
    {
        let ghost before = v@;
        assert(v[i as int]@ == old(v)[i as int]@);
        let mut r = v.remove(i);
        assert(r == before[i as int]);
        r.conversation = 0;
        r.tags = Vec::new();
        assert(r@.tags =~= Seq::empty());
        assert(r@ == cleared()(old(v)[i as int]@));
        v.insert(i, r);
        assert(v@ =~= before.update(i as int, r));
        i += 1;
    }
    assert(views(v@) =~= views(old(v)@).map_values(cleared()));
}

impl Store {
    /// A store with no document and no recorded write.
    pub fn new() -> (s: Store)
        ensures
            s@.users.len() == 0,
            s@.tmp_users.len() == 0,
            s@.admins.len() == 0,
            s@.stats.len() == 0,
            s@.activation_codes.len() == 0,
            s@.qbank.len() == 0,
            s@.journal.len() == 0,
    {
        Store {
            users: Vec::new(),
            tmp_users: Vec::new(),
            admins: Vec::new(),
            stats: Vec::new(),
            activation_codes: Vec::new(),
            qbank: Vec::new(),
            journal: Vec::new(),
        }
    }

    /// Whether the write can be applied without overflowing a counter.
    pub fn accepts(&self, w: &Write) -> (r: bool)
        ensures
            r == self@.accepts(w@),
    {
        match w {
            Write::IncTags { username, tags } => {
                let i = stats_position(&self.stats, username);
                i >= self.stats.len() || tags_fit(&self.stats[i].tags, tags)
            },
            Write::IncConversation { username } => {
                let i = stats_position(&self.stats, username);
                i >= self.stats.len() || self.stats[i].conversation < i32::MAX
            },
            _ => true,
        }
    }

    /// Applies one write and records it.
    pub fn apply(&mut self, w: Write)
        requires
            old(self)@.accepts(w@),
        ensures
            final(self)@ == old(self)@.apply(w@),
    {
        match &w {
            Write::InsertUser(a) => {
                self.users.push(a.duplicate());
                assert(views(self.users@) =~= views(old(self).users@).push(a@));
            },
            Write::InsertPending(a) => {
                self.tmp_users.push(a.duplicate());
                assert(views(self.tmp_users@) =~= views(old(self).tmp_users@).push(a@));
            },
            Write::InsertAdmin(a) => {
                self.admins.push(a.duplicate());
                assert(views(self.admins@) =~= views(old(self).admins@).push(a@));
            },
            Write::InsertStats { username } => {
                let r = StatsRecord { username: username.clone(), conversation: 0, tags: Vec::new() };
                assert(r@.tags =~= Seq::empty());
                self.stats.push(r);
                assert(views(self.stats@) =~= views(old(self).stats@).push(fresh_stats(username@)));
            },
            Write::InsertCode(c) => {
                self.activation_codes.push(c.duplicate());
                assert(views(self.activation_codes@) =~= views(old(self).activation_codes@).push(
                    c@,
                ));
            },
            Write::DeleteUser { username } => {
                remove_account(&mut self.users, username);
            },
            Write::DeletePending { username } => {
                remove_account(&mut self.tmp_users, username);
            },
            Write::DeleteStats { username } => {
                remove_stats(&mut self.stats, username);
            },
            Write::DeleteCode { username, code } => {
                remove_code(&mut self.activation_codes, username, code);
            },
            Write::RenameUser { username, new_username } => {
                rename_account(&mut self.users, username, new_username);
            },
            Write::SetPassword { username, password } => {
                set_account_password(&mut self.users, username, password);
            },
            Write::IncTags { username, tags } => {
                count_tags(&mut self.stats, username, tags);
            },
            Write::IncConversation { username } => {
                count_conversation(&mut self.stats, username);
            },
            Write::ClearStats => {
                clear_all(&mut self.stats);
            },
        }
        self.journal.push(w);
        assert(views(self.journal@) =~= views(old(self).journal@).push(w@));
    }
}

/// The view of a document that a search may have found.
pub open spec fn found<T: View>(o: Option<&T>) -> Option<T::V> {
    match o {
        Some(x) => Some(x@),
        None => None,
    }
}

impl Store {
    /// The first active user named `username`.
    pub fn find_user(&self, username: &str) -> (r: Option<&Account>)
        ensures
            found(r) == find_one(self@.users, by_username(username@)),
    {
        let i = position_by_username(&self.users, &username.to_string());
        if i < self.users.len() {
            Some(&self.users[i])
        } else {
            None
        }
    }

    /// The first administrator named `username`.
    pub fn find_admin(&self, username: &str) -> (r: Option<&Account>)
        ensures
            found(r) == find_one(self@.admins, by_username(username@)),
    {
        let i = position_by_username(&self.admins, &username.to_string());
        if i < self.admins.len() {
            Some(&self.admins[i])
        } else {
            None
        }
    }

    /// The first statistics record of `username`.
    pub fn find_stats(&self, username: &str) -> (r: Option<&StatsRecord>)
        ensures
            found(r) == find_one(self@.stats, stats_of(username@)),
    {
        let i = stats_position(&self.stats, &username.to_string());
        if i < self.stats.len() {
            Some(&self.stats[i])
        } else {
            None
        }
    }

    /// The first activation code stored for `username` and `code`.
    pub fn find_code(&self, username: &str, code: &str) -> (r: Option<&ActivationCode>)
        ensures
            found(r) == find_one(self@.activation_codes, code_of(username@, code@)),
    {
        let i = code_position(&self.activation_codes, &username.to_string(), &code.to_string());
        if i < self.activation_codes.len() {
            Some(&self.activation_codes[i])
        } else {
            None
        }
    }

    /// The first problem with the id `id`.
    pub fn find_problem(&self, id: &str) -> (r: Option<&Problem>)
        ensures
            found(r) == find_one(self@.qbank, by_id(id@)),
    {
        let i = problem_position(&self.qbank, &id.to_string());
        if i < self.qbank.len() {
            Some(&self.qbank[i])
        } else {
            None
        }
    }
}

/// Whether an active user has this name.
pub fn check_user_exists(db: &Store, username: &str) -> (r: bool)
    ensures
        r == db@.user_exists(username@),
{
    position_by_username(&db.users, &username.to_string()) < db.users.len()
}

/// Whether an administrator has this name.
pub fn check_admin_exists(db: &Store, username: &str) -> (r: bool)
    ensures
        r == db@.admin_exists(username@),
{
    position_by_username(&db.admins, &username.to_string()) < db.admins.len()
}

/// Whether an active user or an administrator has this email address.
pub fn check_email_exists(db: &Store, email: &str) -> (r: bool)
    ensures
        r == db@.email_exists(email@),
{
    let email = email.to_string();
    position_by_email(&db.users, &email) < db.users.len() || position_by_email(&db.admins, &email)
        < db.admins.len()
}

/// The role of administrators: their accounts are active at once.
pub struct AdminType;

/// The role of self-registered users: their accounts await activation.
pub struct UserType;

/// A role, which decides the collection a new account goes to.
pub trait UserTypeTrait {
    /// Name of the collection that holds new accounts of this role.
    const VALUE: &'static str;

    /// Accounts of this role are administrators.
    spec fn admin() -> bool;

    /// Name of the collection that holds new accounts of this role.
    fn value() -> (name: &'static str)
        ensures
            name@ == collection_name(Self::admin());

    fn is_admin() -> (r: bool)
        ensures
            r == Self::admin();
}

/// Name of the collection that holds new accounts: of administrators, or of
/// users that await activation.
pub open spec fn collection_name(admin: bool) -> Seq<char> {
    if admin {
        "admins"@
    } else {
        "tmp_users"@
    }
}

impl UserTypeTrait for AdminType {
    const VALUE: &'static str = "admins";

    open spec fn admin() -> bool {
        true
    }

    fn value() -> (name: &'static str) {
        "admins"
    }

    fn is_admin() -> (r: bool) {
        true
    }
}

impl UserTypeTrait for UserType {
    const VALUE: &'static str = "tmp_users";

    open spec fn admin() -> bool {
        false
    }

    fn value() -> (name: &'static str) {
        "tmp_users"
    }

    fn is_admin() -> (r: bool) {
        false
    }
}

/// The write that adds a new account of a role.
pub open spec fn creation(admin: bool, account: AccountView) -> WriteView {
    if admin {
        WriteView::InsertAdmin(account)
    } else {
        WriteView::InsertPending(account)
    }
}

/// Adds an account of role `T` whose password hash is `password_hash`.
pub fn create_user_with<T: UserTypeTrait>(
    db: &mut Store,
    username: &str,
    email: &str,
    password_hash: &str,
    created_at: &str,
)
    ensures
        final(db)@ == old(db)@.apply(
            creation(
                T::admin(),
                AccountView {
                    username: username@,
                    email: email@,
                    password: password_hash@,
                    created_at: created_at@,
                },
            ),
        ),
{
    let account = Account {
        username: username.to_string(),
        email: email.to_string(),
        password: password_hash.to_string(),
        created_at: created_at.to_string(),
    };
    if T::is_admin() {
        db.apply(Write::InsertAdmin(account));
    } else {
        db.apply(Write::InsertPending(account));
    }
}

/// Adds an account of role `T`, its password hashed under a fresh salt. The
/// stored hash is one that `password` verifies against; where the hasher
/// fails, nothing is stored.
pub fn create_user<T: UserTypeTrait>(
    db: &mut Store,
    username: &str,
    email: &str,
    password: &str,
    created_at: &str,
) -> (r: ApiResult<String>)
    ensures
        r matches Ok(hash) ==> password_check(password@, hash@) == Some(true) && final(db)@ == old(
            db,
        )@.apply(
            creation(
                T::admin(),
                AccountView {
                    username: username@,
                    email: email@,
                    password: hash@,
                    created_at: created_at@,
                },
            ),
        ),
        r matches Err(e) ==> hasher_error(e) && final(db)@ == old(db)@,
{
    match hash_password(password) {
        Ok(hash) => {
            create_user_with::<T>(db, username, email, hash.as_str(), created_at);
            Ok(hash)
        },
        Err(e) => Err(e),
    }
}

/// The store after the pending user `username` was promoted: copied to the
/// active users and removed from the pending ones. Without such a pending
/// user nothing changes.
pub open spec fn activated(s: StoreView, username: Seq<char>) -> StoreView {
    match find_one(s.tmp_users, by_username(username)) {
        Some(a) => s.apply(WriteView::InsertUser(AccountView { username, ..a })).apply(
            WriteView::DeletePending { username },
        ),
        None => s,
    }
}

/// Promotes the pending user `username` to an active user.
pub fn activate_user(db: &mut Store, username: &str)
    ensures
        final(db)@ == activated(old(db)@, username@),
{
    let name = username.to_string();
    let i = position_by_username(&db.tmp_users, &name);
    if i < db.tmp_users.len() {
        let pending = &db.tmp_users[i];
        let account = Account {
            username: username.to_string(),
            email: pending.email.clone(),
            password: pending.password.clone(),
            created_at: pending.created_at.clone(),
        };
        db.apply(Write::InsertUser(account));
        db.apply(Write::DeletePending { username: name });
    }
}

} // verus!
