//! The registry of chat users: who may use the bot, and who administers it.

use vstd::prelude::*;
use crate::time::{Timestamp, is_clock_reading, utc_now};

verus! {

/// One chat user of the bot.
#[derive(Debug, Clone)]
pub struct User {
    pub chat_id: i64,
    /// When the user first wrote `/start`.
    pub date: Timestamp,
    pub username: String,
    pub is_admin: bool,
    pub is_active: bool,
}

/// A user as first registered: neither administrator nor active yet.
pub open spec fn is_fresh_user(u: User, chat_id: i64, username: Seq<char>) -> bool {
    &&& u.chat_id == chat_id
    &&& u.username@ == username
    &&& !u.is_admin
    &&& !u.is_active
}

impl User {
    /// A user registered at `date`.
    pub fn with_date(chat_id: i64, username: String, date: Timestamp) -> (u: Self)
        ensures
            is_fresh_user(u, chat_id, username@),
            u.date == date,
            u.username == username,
    {
        User { chat_id, date, username, is_admin: false, is_active: false }
    }

    /// A user registered now.
    pub fn new(chat_id: i64, username: String) -> (u: Self)
        ensures
            is_fresh_user(u, chat_id, username@),
            u.username == username,
            is_clock_reading(u.date),
    {
        User::with_date(chat_id, username, utc_now())
    }
}

/// Some user of the list has this chat.
pub open spec fn has_user(s: Seq<User>, chat_id: i64) -> bool {
    exists|i: int| 0 <= i < s.len() && #[trigger] s[i].chat_id == chat_id
}

/// `i` is the first position of the chat in the list.
pub open spec fn is_first_match(s: Seq<User>, chat_id: i64, i: int) -> bool {
    &&& 0 <= i < s.len()
    &&& s[i].chat_id == chat_id
    &&& forall|j: int| 0 <= j < i ==> #[trigger] s[j].chat_id != chat_id
}

/// The first position of the chat in the list (meaningful when it occurs).
pub open spec fn first_match(s: Seq<User>, chat_id: i64) -> int {
    choose|i: int| is_first_match(s, chat_id, i)
}

/// What the bot allows a chat: (active, administrator), read from the first
/// entry of the chat; an unknown chat is neither.
pub open spec fn access_of(s: Seq<User>, chat_id: i64) -> (bool, bool) {
    if has_user(s, chat_id) {
        let u = s[first_match(s, chat_id)];
        (u.is_active, u.is_admin)
    } else {
        (false, false)
    }
}

/// The list with the first entry of the chat switched between active and
/// inactive; unchanged when the chat is unknown.
pub open spec fn toggled(s: Seq<User>, chat_id: i64) -> Seq<User> {
    if has_user(s, chat_id) {
        let i: int = first_match(s, chat_id);
        s.update(i, User { is_active: !s[i].is_active, ..s[i] })
    } else {
        s
    }
}

/// The list without any entry of the chat, the others kept in order.
pub open spec fn without(s: Seq<User>, chat_id: i64) -> Seq<User>
    decreases s.len(),
{
    if s.len() == 0 {
        s
    } else {
        let rest = without(s.drop_last(), chat_id);
        if s.last().chat_id != chat_id {
            rest.push(s.last())
        } else {
            rest
        }
    }
}

/// No chat has two entries.
pub open spec fn ids_unique(s: Seq<User>) -> bool {
    forall|i: int, j: int|
        0 <= i < s.len() && 0 <= j < s.len() && i != j ==> #[trigger] s[i].chat_id
            != #[trigger] s[j].chat_id
}

/// `after` is `before` with the chat registered under `username`: unchanged
/// when the chat is known, else with one fresh user appended, stamped with a
/// clock reading.
pub open spec fn registered(before: Seq<User>, after: Seq<User>, chat_id: i64, username: Seq<char>) -> bool {
    if has_user(before, chat_id) {
        after == before
    } else {
        &&& after.len() == before.len() + 1
        &&& after.drop_last() == before
        &&& is_fresh_user(after.last(), chat_id, username)
        &&& is_clock_reading(after.last().date)
    }
}

/// A position where the chat occurs gives a first position.
pub proof fn lemma_first_match_exists(s: Seq<User>, chat_id: i64, i: int)
    requires
        0 <= i < s.len(),
        s[i].chat_id == chat_id,
    ensures
        is_first_match(s, chat_id, first_match(s, chat_id)),
    decreases i,
{
    if exists|j: int| 0 <= j < i && #[trigger] s[j].chat_id == chat_id {
        let j: int = choose|j: int| 0 <= j < i && #[trigger] s[j].chat_id == chat_id;
        lemma_first_match_exists(s, chat_id, j);
    } else {
        assert(is_first_match(s, chat_id, i));
    }
}

/// The first position is unique.
pub proof fn lemma_first_match_is(s: Seq<User>, chat_id: i64, i: int)
    requires
        is_first_match(s, chat_id, i),
    ensures
        first_match(s, chat_id) == i,
        has_user(s, chat_id),
{
    lemma_first_match_exists(s, chat_id, i);
    let k: int = first_match(s, chat_id);
    if k < i {
        assert(s[k].chat_id != chat_id);
    }
    if i < k {
        assert(s[i].chat_id != chat_id);
    }
}

/// Appending an entry does not change the access of a chat already listed.
pub proof fn lemma_access_after_push(s: Seq<User>, x: User, chat_id: i64)
    ensures
        access_of(s.push(x), chat_id) == (if has_user(s, chat_id) {
            access_of(s, chat_id)
        } else if x.chat_id == chat_id {
            (x.is_active, x.is_admin)
        } else {
            (false, false)
        }),
        has_user(s.push(x), chat_id) == (has_user(s, chat_id) || x.chat_id == chat_id),
{
    let t = s.push(x);
    if has_user(s, chat_id) {
        let w: int = choose|i: int| 0 <= i < s.len() && #[trigger] s[i].chat_id == chat_id;
        lemma_first_match_exists(s, chat_id, w);
        let f: int = first_match(s, chat_id);
        assert(t[w].chat_id == chat_id);
        assert(is_first_match(t, chat_id, f));
        lemma_first_match_is(t, chat_id, f);
    } else if x.chat_id == chat_id {
        assert(is_first_match(t, chat_id, s.len() as int));
        lemma_first_match_is(t, chat_id, s.len() as int);
    } else {
        assert forall|i: int| 0 <= i < t.len() implies #[trigger] t[i].chat_id != chat_id by {
            if i < s.len() {
                assert(t[i] == s[i]);
            }
        }
    }
}

/// Registering a chat makes it known, keeps chats unique, and grants a new
/// chat nothing; registering a known chat changes nothing.
pub proof fn lemma_register(before: Seq<User>, after: Seq<User>, chat_id: i64, username: Seq<char>)
    requires
        registered(before, after, chat_id, username),
    ensures
        has_user(after, chat_id),
        ids_unique(before) ==> ids_unique(after),
        !has_user(before, chat_id) ==> access_of(after, chat_id) == (false, false),
        has_user(before, chat_id) ==> after == before,
        forall|d: i64| d != chat_id ==> access_of(after, d) == access_of(before, d),
{
    if !has_user(before, chat_id) {
        assert(after =~= before.push(after.last()));
        lemma_access_after_push(before, after.last(), chat_id);
        assert forall|d: i64| d != chat_id implies access_of(after, d) == access_of(before, d) by {
            lemma_access_after_push(before, after.last(), d);
        }
        if ids_unique(before) {
            assert forall|i: int, j: int|
                0 <= i < after.len() && 0 <= j < after.len() && i != j
                implies #[trigger] after[i].chat_id != #[trigger] after[j].chat_id by {
                if i < before.len() && j < before.len() {
                    assert(after[i] == before[i]);
                    assert(after[j] == before[j]);
                } else if i < before.len() {
                    assert(after[i] == before[i]);
                } else {
                    assert(after[j] == before[j]);
                }
            }
        }
    }
}

/// Registering the same chat twice is the same as registering it once.
pub proof fn lemma_register_idempotent(
    s0: Seq<User>,
    s1: Seq<User>,
    s2: Seq<User>,
    chat_id: i64,
    name1: Seq<char>,
    name2: Seq<char>,
)
    requires
        registered(s0, s1, chat_id, name1),
        registered(s1, s2, chat_id, name2),
    ensures
        s2 == s1,
{
    lemma_register(s0, s1, chat_id, name1);
}

/// Switching a chat twice restores the list.
pub proof fn lemma_toggle_twice(s: Seq<User>, chat_id: i64)
    ensures
        toggled(toggled(s, chat_id), chat_id) == s,
{
    if has_user(s, chat_id) {
        let w: int = choose|i: int| 0 <= i < s.len() && #[trigger] s[i].chat_id == chat_id;
        lemma_first_match_exists(s, chat_id, w);
        let f: int = first_match(s, chat_id);
        let t = toggled(s, chat_id);
        assert(is_first_match(t, chat_id, f));
        lemma_first_match_is(t, chat_id, f);
        assert(toggled(t, chat_id) =~= s);
    }
}

/// Switching a chat flips its activity, keeps its role, and leaves every
/// other chat's access as it was.
pub proof fn lemma_toggle_access(s: Seq<User>, chat_id: i64)
    ensures
        has_user(s, chat_id) ==> access_of(toggled(s, chat_id), chat_id) == (
            !access_of(s, chat_id).0,
            access_of(s, chat_id).1,
        ),
        forall|d: i64| d != chat_id ==> access_of(toggled(s, chat_id), d) == access_of(s, d),
{
    if has_user(s, chat_id) {
        let w: int = choose|i: int| 0 <= i < s.len() && #[trigger] s[i].chat_id == chat_id;
        lemma_first_match_exists(s, chat_id, w);
        let f: int = first_match(s, chat_id);
        let t = toggled(s, chat_id);
        assert(is_first_match(t, chat_id, f));
        lemma_first_match_is(t, chat_id, f);
        assert forall|d: i64| d != chat_id implies access_of(t, d) == access_of(s, d) by {
            if has_user(s, d) {
                let wd: int = choose|i: int| 0 <= i < s.len() && #[trigger] s[i].chat_id == d;
                lemma_first_match_exists(s, d, wd);
                let g: int = first_match(s, d);
                assert(is_first_match(t, d, g));
                lemma_first_match_is(t, d, g);
            } else {
                assert forall|i: int| 0 <= i < t.len() implies #[trigger] t[i].chat_id != d by {
                    assert(t[i].chat_id == s[i].chat_id);
                }
            }
        }
    }
}

/// After removal the chat is unknown and has no access; every other chat
/// keeps whether it is known and what it may do.
pub proof fn lemma_remove_access(s: Seq<User>, chat_id: i64)
    ensures
        !has_user(without(s, chat_id), chat_id),
        access_of(without(s, chat_id), chat_id) == (false, false),
        forall|d: i64| d != chat_id ==> #[trigger] has_user(without(s, chat_id), d) == has_user(s, d),
        forall|d: i64| d != chat_id ==> #[trigger] access_of(without(s, chat_id), d) == access_of(s, d),
    decreases s.len(),
{
    if s.len() > 0 {
        let t = s.drop_last();
        let x = s.last();
        lemma_remove_access(t, chat_id);
        assert(s =~= t.push(x));
        let r = without(t, chat_id);
        lemma_access_after_push(t, x, chat_id);
        if x.chat_id != chat_id {
            lemma_access_after_push(r, x, chat_id);
        }
        assert forall|d: i64| d != chat_id implies #[trigger] has_user(without(s, chat_id), d) == has_user(s, d)
            && access_of(without(s, chat_id), d) == access_of(s, d) by {
            lemma_access_after_push(t, x, d);
            if x.chat_id != chat_id {
                lemma_access_after_push(r, x, d);
            }
        }
    }
}

/// Removing a chat that is not listed changes nothing.
pub proof fn lemma_remove_absent(s: Seq<User>, chat_id: i64)
    requires
        !has_user(s, chat_id),
    ensures
        without(s, chat_id) == s,
    decreases s.len(),
{
    if s.len() > 0 {
        let t = s.drop_last();
        assert(!has_user(t, chat_id)) by {
            if has_user(t, chat_id) {
                let i: int = choose|i: int| 0 <= i < t.len() && #[trigger] t[i].chat_id == chat_id;
                assert(s[i] == t[i]);
            }
        }
        lemma_remove_absent(t, chat_id);
        assert(s.last() == s[s.len() - 1]);
        assert(s =~= t.push(s.last()));
    }
}

/// Registering a new chat and then removing it gives back the list as it was.
pub proof fn lemma_register_then_remove(before: Seq<User>, after: Seq<User>, chat_id: i64, username: Seq<char>)
    requires
        !has_user(before, chat_id),
        registered(before, after, chat_id, username),
    ensures
        without(after, chat_id) == before,
{
    lemma_remove_absent(before, chat_id);
    assert(after.drop_last() == before);
}

/// Removing a chat keeps every other chat listed once at most.
pub proof fn lemma_remove_keeps_unique(s: Seq<User>, chat_id: i64)
    requires
        ids_unique(s),
    ensures
        ids_unique(without(s, chat_id)),
    decreases s.len(),
{
    if s.len() > 0 {
        let t = s.drop_last();
        let x = s.last();
        assert(ids_unique(t)) by {
            assert forall|i: int, j: int|
                0 <= i < t.len() && 0 <= j < t.len() && i != j
                implies #[trigger] t[i].chat_id != #[trigger] t[j].chat_id by {
                assert(t[i] == s[i]);
                assert(t[j] == s[j]);
            }
        }
        lemma_remove_keeps_unique(t, chat_id);
        if x.chat_id != chat_id {
            let r = without(t, chat_id);
            lemma_remove_access(t, chat_id);
            assert(!has_user(t, x.chat_id)) by {
                if has_user(t, x.chat_id) {
                    let i: int = choose|i: int| 0 <= i < t.len() && #[trigger] t[i].chat_id == x.chat_id;
                    assert(s[i] == t[i]);
                    assert(s[s.len() - 1] == x);
                }
            }
            assert(has_user(r, x.chat_id) == has_user(t, x.chat_id));
            let w = r.push(x);
            assert forall|i: int, j: int|
                0 <= i < w.len() && 0 <= j < w.len() && i != j
                implies #[trigger] w[i].chat_id != #[trigger] w[j].chat_id by {
                if i < r.len() && j < r.len() {
                    assert(w[i] == r[i]);
                    assert(w[j] == r[j]);
                } else if i < r.len() {
                    assert(w[i] == r[i]);
                    assert(w[j] == x);
                } else {
                    assert(w[j] == r[j]);
                    assert(w[i] == x);
                }
            }
        }
    }
}

/// Switching a chat keeps every chat listed once at most.
pub proof fn lemma_toggle_keeps_unique(s: Seq<User>, chat_id: i64)
    requires
        ids_unique(s),
    ensures
        ids_unique(toggled(s, chat_id)),
{
    if has_user(s, chat_id) {
        let w: int = choose|i: int| 0 <= i < s.len() && #[trigger] s[i].chat_id == chat_id;
        lemma_first_match_exists(s, chat_id, w);
    }
    let t = toggled(s, chat_id);
    assert forall|i: int, j: int|
        0 <= i < t.len() && 0 <= j < t.len() && i != j
        implies #[trigger] t[i].chat_id != #[trigger] t[j].chat_id by {
        assert(t[i].chat_id == s[i].chat_id);
        assert(t[j].chat_id == s[j].chat_id);
    }
}

/// What was read from the users' file.
#[derive(Debug)]
pub enum UsersFile {
    /// The file is empty.
    Empty,
    /// The users the file holds.
    Parsed(Vec<User>),
    /// The file holds text that is not a list of users.
    Malformed,
}

/// The users of the bot, kept in the file at `path`.
#[derive(Debug, Clone)]
pub struct Users {
    pub users: Vec<User>,
    pub path: String,
}

impl Users {
    pub fn new(path: String) -> (r: Self)
        ensures
            r.users@.len() == 0,
            r.path == path,
    {
        Users { users: Vec::new(), path }
    }

    /// Appends a user registered now, whether or not the chat is known.
    pub fn push(&mut self, chat_id: i64, username: String)
        ensures
            final(self).path == old(self).path,
            final(self).users@.len() == old(self).users@.len() + 1,
            final(self).users@.drop_last() == old(self).users@,
            is_fresh_user(final(self).users@.last(), chat_id, username@),
            is_clock_reading(final(self).users@.last().date),
    {
        self.users.push(User::new(chat_id, username));
        assert(self.users@.drop_last() =~= old(self).users@);
    }

    fn first_index(&self, chat_id: i64) -> (r: Option<usize>)
        ensures
            r is None ==> !has_user(self.users@, chat_id),
            r matches Some(i) ==> i < self.users@.len() && first_match(self.users@, chat_id) == i
                && has_user(self.users@, chat_id),
    {
        let mut i: usize = 0;
        while i < self.users.len()
            invariant
                i <= self.users@.len(),
                forall|j: int| 0 <= j < i ==> #[trigger] self.users@[j].chat_id != chat_id,
            decreases self.users@.len() - i,
        {
            if self.users[i].chat_id == chat_id {
                proof { lemma_first_match_is(self.users@, chat_id, i as int); }
                return Some(i);
            }
            i = i + 1;
        }
        None
    }

    /// Switches the first entry of the chat between active and inactive.
    pub fn activate_deactivate(&mut self, chat_id: i64)
        ensures
            final(self).path == old(self).path,
            final(self).users@ == toggled(old(self).users@, chat_id),
    {
        if !self.is_empty() {
            match self.first_index(chat_id) {
                Some(i) => {
                    let mut u = self.users.remove(i);
                    u.is_active = !u.is_active;
                    self.users.insert(i, u);
                    assert(self.users@ =~= toggled(old(self).users@, chat_id));
                },
                None => {},
            }
        }
    }

    /// Drops every entry of the chat.
    pub fn remove(&mut self, chat_id: i64)
        ensures
            final(self).path == old(self).path,
            final(self).users@ == without(old(self).users@, chat_id),
    {
        if !self.is_empty() {
            let ghost orig = self.users@;
            let mut rest: Vec<User> = Vec::new();
            std::mem::swap(&mut rest, &mut self.users);
            let mut k: usize = 0;
            let n = rest.len();
            assert(orig.subrange(0, 0) =~= Seq::<User>::empty());
            while k < n
                invariant
                    n == orig.len(),
                    k <= n,
                    rest@ == orig.subrange(k as int, n as int),
                    self.users@ == without(orig.subrange(0, k as int), chat_id),
                    self.path == old(self).path,
                decreases n - k,
            {
                let u = rest.remove(0);
                assert(orig.subrange(0, k + 1).drop_last() =~= orig.subrange(0, k as int));
                if u.chat_id != chat_id {
                    self.users.push(u);
                }
                k = k + 1;
                assert(rest@ =~= orig.subrange(k as int, n as int));
            }
            assert(orig.subrange(0, n as int) =~= orig);
        } else {
            assert(without(self.users@, chat_id) =~= self.users@);
        }
    }

    fn is_empty(&self) -> (b: bool)
        ensures
            b == (self.users@.len() == 0),
    {
        self.users.len() == 0
    }

    pub fn all_users(&self) -> (r: &Vec<User>)
        ensures
            r@ == self.users@,
    {
        &self.users
    }

    /// (active, administrator) for the chat, from its first entry.
    pub fn is_access(&self, chat_id: i64) -> (r: (bool, bool))
        ensures
            r == access_of(self.users@, chat_id),
    {
        match self.first_index(chat_id) {
            Some(i) => (self.users[i].is_active, self.users[i].is_admin),
            None => (false, false),
        }
    }

    /// Registers the chat under `username` unless it is already known.
    pub fn add_id(&mut self, chat_id: i64, username: String)
        ensures
            final(self).path == old(self).path,
            registered(old(self).users@, final(self).users@, chat_id, username@),
    {
        if self.first_index(chat_id).is_none() {
            self.push(chat_id, username);
        }
    }

    /// Takes the users of a well-formed file in place of the current ones; an
    /// empty or malformed file leaves them as they are.
    pub fn restore(&mut self, file: UsersFile)
        ensures
            final(self).path == old(self).path,
            file matches UsersFile::Parsed(v) ==> final(self).users@ == v@,
            !(file is Parsed) ==> final(self).users@ == old(self).users@,
    {
        match file {
            UsersFile::Parsed(v) => self.load(v),
            _ => {},
        }
    }

    /// Takes the users read from the file in place of the current ones.
    pub fn load(&mut self, users: Vec<User>)
        ensures
            final(self).path == old(self).path,
            final(self).users@ == users@,
    {
        self.users = users;
    }
}

} // verus!
