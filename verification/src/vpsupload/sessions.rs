//! The sessions of all users, keyed by user id.
use vstd::prelude::*;
use crate::vpsupload::session::UserSession;

verus! {

/// The session stored for `user`: the first entry under that id.
pub open spec fn lookup(entries: Seq<(i64, UserSession)>, user: i64) -> Option<UserSession>
    decreases entries.len(),
{
    if entries.len() == 0 {
        None
    } else if entries[0].0 == user {
        Some(entries[0].1)
    } else {
        lookup(entries.drop_first(), user)
    }
}

/// Where `user`'s entry stands, or -1 when there is none.
pub open spec fn key_index(entries: Seq<(i64, UserSession)>, user: i64) -> int
    decreases entries.len(),
{
    if entries.len() == 0 {
        -1
    } else if entries[0].0 == user {
        0
    } else {
        let r = key_index(entries.drop_first(), user);
        if r < 0 { -1 } else { r + 1 }
    }
}

/// No user has two entries.
pub open spec fn unique_keys(entries: Seq<(i64, UserSession)>) -> bool {
    forall|i: int, j: int| 0 <= i < j < entries.len() ==> #[trigger] entries[i].0 != #[trigger] entries[j].0
}

/// The entries once `session` is saved for `user`: its entry replaced, or added at the end.
pub open spec fn with_saved(entries: Seq<(i64, UserSession)>, user: i64, session: UserSession) -> Seq<(i64, UserSession)> {
    let i = key_index(entries, user);
    if i >= 0 {
        entries.update(i, (user, session))
    } else {
        entries.push((user, session))
    }
}

proof fn lemma_key_index(entries: Seq<(i64, UserSession)>, user: i64)
    ensures
        -1 <= key_index(entries, user) < entries.len(),
        key_index(entries, user) >= 0 ==> entries[key_index(entries, user)].0 == user
            && lookup(entries, user) == Some(entries[key_index(entries, user)].1),
        key_index(entries, user) >= 0 ==> forall|k: int| 0 <= k < key_index(entries, user) ==> entries[k].0 != user,
        key_index(entries, user) < 0 ==> lookup(entries, user) is None,
        key_index(entries, user) < 0 ==> forall|k: int| 0 <= k < entries.len() ==> entries[k].0 != user,
    decreases entries.len(),
{
    if entries.len() > 0 && entries[0].0 != user {
        lemma_key_index(entries.drop_first(), user);
        assert forall|k: int| 1 <= k < entries.len() implies entries[k] == entries.drop_first()[k - 1] by {}
    }
}

proof fn lemma_lookup_absent_first(entries: Seq<(i64, UserSession)>, user: i64, k: int)
    requires
        0 <= k <= entries.len(),
        forall|m: int| 0 <= m < k ==> entries[m].0 != user,
    ensures
        lookup(entries, user) == lookup(entries.skip(k), user),
    decreases k,
{
    if k > 0 {
        assert(entries[0].0 != user);
        let rest = entries.drop_first();
        assert forall|m: int| 0 <= m < k - 1 implies rest[m].0 != user by {
            assert(rest[m] == entries[m + 1]);
        }
        lemma_lookup_absent_first(rest, user, k - 1);
        assert(rest.skip(k - 1) =~= entries.skip(k));
        assert(lookup(entries, user) == lookup(rest, user));
        assert(lookup(rest, user) == lookup(rest.skip(k - 1), user));
    } else {
        assert(entries.skip(0) =~= entries);
    }
}

/// Looking `other` up is unaffected by changing entries whose keys are not `other`.
proof fn lemma_lookup_other(a: Seq<(i64, UserSession)>, b: Seq<(i64, UserSession)>, other: i64)
    requires
        a.len() == b.len(),
        forall|k: int| 0 <= k < a.len() ==> ((#[trigger] a[k]).0 == other <==> b[k].0 == other),
        forall|k: int| 0 <= k < a.len() && (#[trigger] a[k]).0 == other ==> a[k] == b[k],
    ensures
        lookup(a, other) == lookup(b, other),
    decreases a.len(),
{
    if a.len() > 0 {
        let (a1, b1) = (a.drop_first(), b.drop_first());
        assert forall|k: int| 0 <= k < a1.len() implies ((#[trigger] a1[k]).0 == other <==> b1[k].0 == other)
            && (a1[k].0 == other ==> a1[k] == b1[k]) by {
            assert(a1[k] == a[k + 1] && b1[k] == b[k + 1]);
        }
        lemma_lookup_other(a1, b1, other);
        assert(a[0].0 == other <==> b[0].0 == other);
    }
}

proof fn lemma_lookup_push(a: Seq<(i64, UserSession)>, e: (i64, UserSession), other: i64)
    requires
        e.0 != other || lookup(a, other) is None,
    ensures
        lookup(a.push(e), other) == (if lookup(a, other) is Some { lookup(a, other) } else if e.0 == other { Some(e.1) } else { None }),
    decreases a.len(),
{
    let p = a.push(e);
    if a.len() > 0 {
        assert(p[0] == a[0]);
        assert(p.drop_first() =~= a.drop_first().push(e));
        if a[0].0 != other {
            assert(lookup(a, other) == lookup(a.drop_first(), other));
            lemma_lookup_push(a.drop_first(), e, other);
            assert(lookup(p, other) == lookup(p.drop_first(), other));
        } else {
            assert(lookup(p, other) == Some(a[0].1));
        }
    } else {
        assert(p[0] == e);
        assert(p.drop_first() =~= Seq::<(i64, UserSession)>::empty());
        if e.0 != other {
            assert(lookup(p, other) == lookup(p.drop_first(), other));
        }
    }
}

/// A saved session is what is read back for its user; every other user's session, and
/// the absence of one, stays as it was; no user gets a second entry.
pub proof fn lemma_saved_session_is_read(entries: Seq<(i64, UserSession)>, user: i64, session: UserSession, other: i64)
    requires
        unique_keys(entries),
    ensures
        lookup(with_saved(entries, user, session), user) == Some(session),
        other != user ==> lookup(with_saved(entries, user, session), other) == lookup(entries, other),
        unique_keys(with_saved(entries, user, session)),
{
    lemma_key_index(entries, user);
    let i = key_index(entries, user);
    let saved = with_saved(entries, user, session);
    if i >= 0 {
        lemma_lookup_absent_first(saved, user, i);
        assert(saved.skip(i)[0] == (user, session));
        if other != user {
            lemma_lookup_other(entries, saved, other);
        }
    } else {
        lemma_lookup_push(entries, (user, session), user);
        if other != user {
            lemma_lookup_push(entries, (user, session), other);
        }
    }
}

proof fn lemma_replaced_any(entries: Seq<(i64, UserSession)>, user: i64)
    requires
        unique_keys(entries),
        key_index(entries, user) >= 0,
    ensures
        forall|s: UserSession, u: i64| #[trigger] lookup(entries.update(key_index(entries, user), (user, s)), u)
            == if u == user { Some(s) } else { lookup(entries, u) },
        forall|s: UserSession| #[trigger] unique_keys(entries.update(key_index(entries, user), (user, s))),
{
    assert forall|s: UserSession, u: i64| #[trigger] lookup(entries.update(key_index(entries, user), (user, s)), u)
        == if u == user { Some(s) } else { lookup(entries, u) } by {
        lemma_saved_session_is_read(entries, user, s, u);
    }
    assert forall|s: UserSession| #[trigger] unique_keys(entries.update(key_index(entries, user), (user, s))) by {
        lemma_saved_session_is_read(entries, user, s, user);
    }
}

/// Every user's session.
pub struct SessionStore {
    entries: Vec<(i64, UserSession)>,
}

impl SessionStore {
    /// The stored entries, in the order users were first seen.
    pub closed spec fn entries(&self) -> Seq<(i64, UserSession)> {
        self.entries@
    }

    /// No user has two entries.
    pub closed spec fn wf(&self) -> bool {
        unique_keys(self.entries@)
    }

    /// The session stored for `user`.
    pub open spec fn spec_session(&self, user: i64) -> Option<UserSession> {
        lookup(self.entries(), user)
    }

    /// A store without sessions.
    pub fn new() -> (s: Self)
        ensures
            s.wf(),
            s.entries().len() == 0,
            forall|u: i64| #[trigger] s.spec_session(u) is None,
    {
        SessionStore { entries: Vec::new() }
    }

    fn find(&self, user: i64) -> (r: Option<usize>)
        ensures
            r matches Some(i) ==> i as int == key_index(self.entries@, user),
            r is None ==> key_index(self.entries@, user) < 0,
    {
        proof { lemma_key_index(self.entries@, user); }
        let mut i: usize = 0;
        while i < self.entries.len()
            invariant
                i <= self.entries@.len(),
                forall|k: int| 0 <= k < i ==> self.entries@[k].0 != user,
                -1 <= key_index(self.entries@, user) < self.entries@.len(),
                key_index(self.entries@, user) >= 0 ==> self.entries@[key_index(self.entries@, user)].0 == user
                    && forall|k: int| 0 <= k < key_index(self.entries@, user) ==> self.entries@[k].0 != user,
                key_index(self.entries@, user) < 0 ==> forall|k: int| 0 <= k < self.entries@.len() ==> self.entries@[k].0 != user,
            decreases self.entries@.len() - i,
        {
            if self.entries[i].0 == user {
                return Some(i);
            }
            i = i + 1;
        }
        None
    }

    /// Makes sure `user` has a session: a fresh one at `base_dir` when there is none.
    /// Existing sessions are left as they are.
    pub fn ensure_session(&mut self, user: i64, base_dir: &str)
        requires
            old(self).wf(),
        ensures
            final(self).wf(),
            old(self).spec_session(user) is Some ==> final(self).entries() == old(self).entries(),
            final(self).spec_session(user) matches Some(s) && (old(self).spec_session(user) is None ==> {
                &&& s.current_dir@ == base_dir@
                &&& s.current_files@.len() == 0
                &&& forall|k: nat| (#[trigger] s.slot(k))@ == Set::<usize>::empty()
                &&& s.pending_delete_files@.len() == 0
                &&& s.progress_bar_theme == 0
            }),
            forall|u: i64| u != user ==> #[trigger] final(self).spec_session(u) == old(self).spec_session(u),
    {
        proof { lemma_key_index(self.entries@, user); }
        match self.find(user) {
            Some(_) => {},
            None => {
                let fresh = UserSession::new(base_dir);
                let ghost before = self.entries@;
                self.entries.push((user, fresh));
                proof {
                    lemma_saved_session_is_read(before, user, fresh, user);
                    assert(self.entries@ == with_saved(before, user, fresh));
                    assert forall|u: i64| u != user implies #[trigger] lookup(self.entries@, u) == lookup(before, u) by {
                        lemma_saved_session_is_read(before, user, fresh, u);
                    }
                }
            },
        }
    }

    /// The session stored for `user`, if any.
    pub fn session(&self, user: i64) -> (r: Option<&UserSession>)
        ensures
            r matches Some(s) ==> self.spec_session(user) == Some(*s),
            r is None ==> self.spec_session(user) is None,
    {
        proof { lemma_key_index(self.entries@, user); }
        match self.find(user) {
            Some(i) => Some(&self.entries[i].1),
            None => None,
        }
    }

    /// `user`'s session, to read or change: the stored one, or a fresh one at `base_dir`
    /// stored first when there is none. Whatever it holds once the borrow ends is what the
    /// store holds for `user`.
    pub fn session_mut(&mut self, user: i64, base_dir: &str) -> (r: &mut UserSession)
        requires
            old(self).wf(),
        ensures
            old(self).spec_session(user) matches Some(s) ==> *r == s,
            old(self).spec_session(user) is None ==> {
                &&& r.current_dir@ == base_dir@
                &&& r.current_files@.len() == 0
                &&& forall|k: nat| (#[trigger] r.slot(k))@ == Set::<usize>::empty()
                &&& r.pending_delete_files@.len() == 0
                &&& r.progress_bar_theme == 0
            },
            final(self).wf(),
            final(self).spec_session(user) == Some(*final(r)),
            forall|u: i64| u != user ==> #[trigger] final(self).spec_session(u) == old(self).spec_session(u),
    {
        self.ensure_session(user, base_dir);
        let ghost mid = self.entries@;
        let ghost mid_store = *self;
        proof { lemma_key_index(mid, user); }
        let i = match self.find(user) {
            Some(i) => i,
            None => 0,
        };
        proof {
            lemma_replaced_any(mid, user);
            assert(mid[i as int].0 == user);
            assert forall|u: i64| u != user implies lookup(mid, u) == old(self).spec_session(u) by {
                assert(mid_store.spec_session(u) == old(self).spec_session(u));
            }
        }
        &mut self.entries[i].1
    }

    /// Stores `session` as `user`'s session, replacing the one stored before.
    pub fn save_session(&mut self, user: i64, session: UserSession)
        requires
            old(self).wf(),
        ensures
            final(self).wf(),
            final(self).entries() == with_saved(old(self).entries(), user, session),
            final(self).spec_session(user) == Some(session),
            forall|u: i64| u != user ==> #[trigger] final(self).spec_session(u) == old(self).spec_session(u),
    {
        let ghost before = self.entries@;
        proof {
            lemma_key_index(before, user);
            lemma_saved_session_is_read(before, user, session, user);
        }
        match self.find(user) {
            Some(i) => {
                self.entries.set(i, (user, session));
            },
            None => {
                self.entries.push((user, session));
            },
        }
        proof {
            assert(self.entries@ == with_saved(before, user, session));
            assert forall|u: i64| u != user implies #[trigger] lookup(self.entries@, u) == lookup(before, u) by {
                lemma_saved_session_is_read(before, user, session, u);
            }
        }
    }
}

} // verus!
