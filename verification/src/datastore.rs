//! The persisted state of the tool, modeled as verified in-memory tables:
//! account rows keyed by the stable identity (`puuid`), at most one session
//! per account, and an append-only list of webhook targets. The caller is
//! responsible for loading and saving this state; every rule about what a
//! write changes is enforced here.

use vstd::prelude::*;

use crate::account::{AddUser, AddUserSession, User, UserSession};
use crate::fragment::{parse_u64_decimal, spec_parse_u64};

verus! {

/// The schema version a stored marker denotes: the legacy marker `1.0.0`
/// counts as one; otherwise the marker's decimal value; anything
/// unreadable counts as zero, so migration applies.
pub open spec fn spec_schema_version(s: Seq<char>) -> u64 {
    if s == "1.0.0"@ {
        1
    } else {
        match spec_parse_u64(s) {
            Some(v) => v,
            None => 0,
        }
    }
}

/// Reads a schema-version marker.
pub fn parse_schema_version(version: &str) -> (r: u64)
    ensures
        r == spec_schema_version(version@),
{
    let legacy = "1.0.0".to_owned();
    if version.to_owned() == legacy {
        1
    } else {
        match parse_u64_decimal(version) {
            Some(v) => v,
            None => 0,
        }
    }
}

/// Whether some account row carries this stable identity.
pub open spec fn has_puuid(s: Seq<User>, p: Seq<char>) -> bool {
    exists|i: int| 0 <= i < s.len() && s[i].puuid@ == p
}

/// The index of the account row carrying this stable identity (meaningful
/// when `has_puuid` holds; unique under the store invariant).
pub open spec fn user_index(s: Seq<User>, p: Seq<char>) -> int {
    choose|i: int| 0 <= i < s.len() && s[i].puuid@ == p
}

/// Whether some account row carries this row identifier.
pub open spec fn has_user_id(s: Seq<User>, id: i64) -> bool {
    exists|i: int| 0 <= i < s.len() && s[i].id == id
}

/// The index of the account row carrying this row identifier (meaningful
/// when `has_user_id` holds; unique under the store invariant).
pub open spec fn user_id_index(s: Seq<User>, id: i64) -> int {
    choose|i: int| 0 <= i < s.len() && s[i].id == id
}

/// Uniqueness of the account table's keys: no two rows share a stable
/// identity or a row id.
pub open spec fn rows_unique(s: Seq<User>) -> bool {
    &&& (forall|i: int, j: int|
        0 <= i < s.len() && 0 <= j < s.len() && i != j ==> s[i].puuid@ != s[j].puuid@)
    &&& (forall|i: int, j: int|
        0 <= i < s.len() && 0 <= j < s.len() && i != j ==> s[i].id != s[j].id)
}

/// The row id at a given index resolves back to that index.
pub proof fn lemma_user_id_index_unique(s: Seq<User>, j: int)
    requires
        rows_unique(s),
        0 <= j < s.len(),
    ensures
        has_user_id(s, s[j].id),
        user_id_index(s, s[j].id) == j,
{
    assert(has_user_id(s, s[j].id));
    let k = user_id_index(s, s[j].id);
    assert(0 <= k < s.len() && s[k].id == s[j].id);
}

/// An update that keeps a row's id in place preserves which ids the table
/// holds.
pub proof fn lemma_ids_preserved(s: Seq<User>, t: Seq<User>, j: int, row: User)
    requires
        0 <= j < s.len(),
        t == s.update(j, row),
        row.id == s[j].id,
    ensures
        forall|id: i64| has_user_id(t, id) == has_user_id(s, id),
{
    assert forall|id: i64| has_user_id(t, id) == has_user_id(s, id) by {
        if has_user_id(t, id) {
            let k = user_id_index(t, id);
            assert(0 <= k < t.len() && t[k].id == id);
            assert(s[if k == j { j } else { k }].id == id);
        }
        if has_user_id(s, id) {
            let k = user_id_index(s, id);
            assert(0 <= k < s.len() && s[k].id == id);
            assert(t[if k == j { j } else { k }].id == id);
        }
    }
}

/// An account row after an upsert hit it: identity and row id kept, the
/// display and scheduling fields replaced, the session row untouched.
pub open spec fn spec_upserted_user(row: User, u: AddUser) -> User {
    User {
        id: row.id,
        puuid: row.puuid,
        game_name: u.game_name,
        tag_line: u.tag_line,
        region: u.region,
        user_info: u.user_info,
        entitlements_token: u.entitlements_token,
        next_store: u.next_store,
        next_nightmarket: u.next_nightmarket,
        session: row.session,
    }
}

/// A fresh account row created by an upsert miss: no session yet.
pub open spec fn spec_new_user(id: i64, u: AddUser) -> User {
    User {
        id,
        puuid: u.puuid,
        game_name: u.game_name,
        tag_line: u.tag_line,
        region: u.region,
        user_info: u.user_info,
        entitlements_token: u.entitlements_token,
        next_store: u.next_store,
        next_nightmarket: u.next_nightmarket,
        session: None,
    }
}

/// An account row after its session was written: the session is replaced
/// in place, keeping the old session row's id when one existed.
pub open spec fn spec_with_session(row: User, s: AddUserSession, fresh_id: i64) -> User {
    User {
        session: Some(
            UserSession {
                id: match row.session {
                    Some(old) => old.id,
                    None => fresh_id,
                },
                user_id: s.user_id,
                access_token: s.access_token,
                id_token: s.id_token,
                expires_at: s.expires_at,
                authorized_cookies: s.authorized_cookies,
            },
        ),
        ..row
    }
}

/// Why a write was refused: the named account row does not exist, or an
/// id counter is exhausted.
#[derive(Debug, PartialEq, Eq, Structural)]
pub enum StoreError {
    UnknownUser,
    CapacityExhausted,
}

/// The account, session and webhook tables.
pub struct Datastore {
    users: Vec<User>,
    webhooks: Vec<String>,
    next_user_id: i64,
    next_session_id: i64,
}

impl Datastore {
    /// The account rows, with their sessions.
    pub closed spec fn users_view(&self) -> Seq<User> {
        self.users@
    }

    /// The registered webhook targets, in registration order.
    pub closed spec fn webhooks_view(&self) -> Seq<String> {
        self.webhooks@
    }

    /// Table invariant: stable identities are unique, row ids are unique
    /// and below the id counters, and a session row points back at its
    /// account row.
    pub closed spec fn wf(&self) -> bool {
        &&& (forall|i: int, j: int|
            0 <= i < self.users@.len() && 0 <= j < self.users@.len() && i != j ==> self.users@[i].puuid@
                != self.users@[j].puuid@)
        &&& (forall|i: int, j: int|
            0 <= i < self.users@.len() && 0 <= j < self.users@.len() && i != j ==> self.users@[i].id
                != self.users@[j].id)
        &&& (forall|i: int|
            0 <= i < self.users@.len() ==> self.users@[i].id < self.next_user_id)
        &&& (forall|i: int|
            0 <= i < self.users@.len() ==> match #[trigger] self.users@[i].session {
                Some(s) => s.user_id == self.users@[i].id && s.id < self.next_session_id,
                None => true,
            })
    }

    /// The invariant exposes key uniqueness of the rows to callers.
    pub proof fn lemma_wf_rows_unique(&self)
        requires
            self.wf(),
        ensures
            rows_unique(self.users_view()),
    {
    }

    /// An empty store.
    pub fn new() -> (r: Self)
        ensures
            r.wf(),
            r.users_view() == Seq::<User>::empty(),
            r.webhooks_view() == Seq::<String>::empty(),
    {
        let r = Datastore { users: Vec::new(), webhooks: Vec::new(), next_user_id: 1, next_session_id: 1 };
        proof {
            assert(r.users@ =~= Seq::<User>::empty());
            assert(r.webhooks@ =~= Seq::<String>::empty());
        }
        r
    }

    fn find_by_puuid(&self, puuid: &String) -> (r: Option<usize>)
        requires
            self.wf(),
        ensures
            match r {
                Some(i) => i < self.users_view().len() && self.users_view()[i as int].puuid@
                    == puuid@ && has_puuid(self.users_view(), puuid@) && i as int == user_index(
                    self.users_view(),
                    puuid@,
                ),
                None => !has_puuid(self.users_view(), puuid@),
            },
    {
        let mut i: usize = 0;
        while i < self.users.len()
            invariant
                self.wf(),
                i <= self.users@.len(),
                forall|j: int| 0 <= j < i ==> self.users@[j].puuid@ != puuid@,
            decreases self.users@.len() - i,
        {
            if self.users[i].puuid == *puuid {
                proof {
                    assert(has_puuid(self.users@, puuid@));
                    let j = user_index(self.users@, puuid@);
                    assert(self.users@[j].puuid@ == puuid@);
                    assert(j == i as int);
                }
                return Some(i);
            }
            i = i + 1;
        }
        None
    }

    fn find_by_id(&self, id: i64) -> (r: Option<usize>)
        requires
            self.wf(),
        ensures
            match r {
                Some(i) => i < self.users_view().len() && self.users_view()[i as int].id == id
                    && has_user_id(self.users_view(), id) && i as int == user_id_index(
                    self.users_view(),
                    id,
                ),
                None => !has_user_id(self.users_view(), id),
            },
    {
        let mut i: usize = 0;
        while i < self.users.len()
            invariant
                self.wf(),
                i <= self.users@.len(),
                forall|j: int| 0 <= j < i ==> self.users@[j].id != id,
            decreases self.users@.len() - i,
        {
            if self.users[i].id == id {
                proof {
                    assert(has_user_id(self.users@, id));
                    let j = user_id_index(self.users@, id);
                    assert(self.users@[j].id == id);
                    assert(j == i as int);
                }
                return Some(i);
            }
            i = i + 1;
        }
        None
    }

    /// Upserts an account row by stable identity: an existing row with the
    /// same `puuid` is updated in place (same row id, session kept, row
    /// count unchanged); otherwise a fresh row is appended. Returns the
    /// row id either way; fails only when the id counter is exhausted.
    pub fn add_user(&mut self, user: &AddUser) -> (r: Result<i64, StoreError>)
        requires
            old(self).wf(),
        ensures
            final(self).wf(),
            final(self).webhooks_view() == old(self).webhooks_view(),
            final(self).session_counter() == old(self).session_counter(),
            match r {
                Ok(id) => if has_puuid(old(self).users_view(), user.puuid@) {
                    let j = user_index(old(self).users_view(), user.puuid@);
                    &&& final(self).users_view() == old(self).users_view().update(
                        j,
                        spec_upserted_user(old(self).users_view()[j], *user),
                    )
                    &&& id == old(self).users_view()[j].id
                } else {
                    &&& final(self).users_view() == old(self).users_view().push(
                        spec_new_user(id, *user),
                    )
                    &&& !has_user_id(old(self).users_view(), id)
                },
                Err(e) => e == StoreError::CapacityExhausted && !has_puuid(
                    old(self).users_view(),
                    user.puuid@,
                ) && final(self).users_view() == old(self).users_view(),
            },
    {
        match self.find_by_puuid(&user.puuid) {
            Some(i) => {
                let id = self.users[i].id;
                let row = User {
                    id,
                    puuid: self.users[i].puuid.clone(),
                    game_name: user.game_name.clone(),
                    tag_line: user.tag_line.clone(),
                    region: user.region.clone(),
                    user_info: user.user_info.clone(),
                    entitlements_token: user.entitlements_token.clone(),
                    next_store: user.next_store,
                    next_nightmarket: user.next_nightmarket,
                    session: match &self.users[i].session {
                        Some(s) => Some(s.clone()),
                        None => None,
                    },
                };
                self.users[i] = row;
                Ok(id)
            },
            None => {
                if self.next_user_id == i64::MAX {
                    return Err(StoreError::CapacityExhausted);
                }
                let id = self.next_user_id;
                let row = User {
                    id,
                    puuid: user.puuid.clone(),
                    game_name: user.game_name.clone(),
                    tag_line: user.tag_line.clone(),
                    region: user.region.clone(),
                    user_info: user.user_info.clone(),
                    entitlements_token: user.entitlements_token.clone(),
                    next_store: user.next_store,
                    next_nightmarket: user.next_nightmarket,
                    session: None,
                };
                self.users.push(row);
                self.next_user_id = self.next_user_id + 1;
                Ok(id)
            },
        }
    }

    /// The id the next fresh session row would get.
    pub closed spec fn session_counter(&self) -> i64 {
        self.next_session_id
    }

    /// Writes the session of an account row: replaces any session the row
    /// already has (keeping that session row's id), never appends a second
    /// one.
    pub fn set_session(&mut self, session: &AddUserSession) -> (r: Result<(), StoreError>)
        requires
            old(self).wf(),
        ensures
            final(self).wf(),
            final(self).webhooks_view() == old(self).webhooks_view(),
            match r {
                Ok(()) => {
                    &&& has_user_id(old(self).users_view(), session.user_id)
                    &&& final(self).users_view() == old(self).users_view().update(
                        user_id_index(old(self).users_view(), session.user_id),
                        spec_with_session(
                            old(self).users_view()[user_id_index(
                                old(self).users_view(),
                                session.user_id,
                            )],
                            *session,
                            old(self).session_counter(),
                        ),
                    )
                },
                Err(e) => {
                    &&& final(self).users_view() == old(self).users_view()
                    &&& (e == StoreError::UnknownUser <==> !has_user_id(
                        old(self).users_view(),
                        session.user_id,
                    ))
                },
            },
    {
        match self.find_by_id(session.user_id) {
            Some(i) => {
                let session_id = match &self.users[i].session {
                    Some(s) => s.id,
                    None => {
                        if self.next_session_id == i64::MAX {
                            return Err(StoreError::CapacityExhausted);
                        }
                        let fresh = self.next_session_id;
                        self.next_session_id = self.next_session_id + 1;
                        fresh
                    },
                };
                let row = User {
                    id: self.users[i].id,
                    puuid: self.users[i].puuid.clone(),
                    game_name: self.users[i].game_name.clone(),
                    tag_line: self.users[i].tag_line.clone(),
                    region: self.users[i].region.clone(),
                    user_info: self.users[i].user_info.clone(),
                    entitlements_token: self.users[i].entitlements_token.clone(),
                    next_store: self.users[i].next_store,
                    next_nightmarket: self.users[i].next_nightmarket,
                    session: Some(
                        UserSession {
                            id: session_id,
                            user_id: session.user_id,
                            access_token: session.access_token.clone(),
                            id_token: session.id_token.clone(),
                            expires_at: session.expires_at,
                            authorized_cookies: session.authorized_cookies.clone(),
                        },
                    ),
                };
                self.users[i] = row;
                Ok(())
            },
            None => Err(StoreError::UnknownUser),
        }
    }

    /// Updates the regular section's due-timestamp of one account row,
    /// leaving every other field and row unchanged. A missing row id is a
    /// no-op.
    pub fn set_user_next_store(&mut self, user_id: &i64, next_store: &i64)
        requires
            old(self).wf(),
        ensures
            final(self).wf(),
            final(self).webhooks_view() == old(self).webhooks_view(),
            if has_user_id(old(self).users_view(), *user_id) {
                let j = user_id_index(old(self).users_view(), *user_id);
                final(self).users_view() == old(self).users_view().update(
                    j,
                    User { next_store: *next_store, ..old(self).users_view()[j] },
                )
            } else {
                final(self).users_view() == old(self).users_view()
            },
    {
        match self.find_by_id(*user_id) {
            Some(i) => {
                let row = User {
                    id: self.users[i].id,
                    puuid: self.users[i].puuid.clone(),
                    game_name: self.users[i].game_name.clone(),
                    tag_line: self.users[i].tag_line.clone(),
                    region: self.users[i].region.clone(),
                    user_info: self.users[i].user_info.clone(),
                    entitlements_token: self.users[i].entitlements_token.clone(),
                    next_store: *next_store,
                    next_nightmarket: self.users[i].next_nightmarket,
                    session: match &self.users[i].session {
                        Some(s) => Some(s.clone()),
                        None => None,
                    },
                };
                self.users[i] = row;
            },
            None => {},
        }
    }

    /// Updates the bonus section's due-timestamp of one account row,
    /// leaving every other field and row unchanged. A missing row id is a
    /// no-op.
    pub fn set_user_next_nightmarket(&mut self, user_id: &i64, next_nightmarket: &i64)
        requires
            old(self).wf(),
        ensures
            final(self).wf(),
            final(self).webhooks_view() == old(self).webhooks_view(),
            if has_user_id(old(self).users_view(), *user_id) {
                let j = user_id_index(old(self).users_view(), *user_id);
                final(self).users_view() == old(self).users_view().update(
                    j,
                    User { next_nightmarket: *next_nightmarket, ..old(self).users_view()[j] },
                )
            } else {
                final(self).users_view() == old(self).users_view()
            },
    {
        match self.find_by_id(*user_id) {
            Some(i) => {
                let row = User {
                    id: self.users[i].id,
                    puuid: self.users[i].puuid.clone(),
                    game_name: self.users[i].game_name.clone(),
                    tag_line: self.users[i].tag_line.clone(),
                    region: self.users[i].region.clone(),
                    user_info: self.users[i].user_info.clone(),
                    entitlements_token: self.users[i].entitlements_token.clone(),
                    next_store: self.users[i].next_store,
                    next_nightmarket: *next_nightmarket,
                    session: match &self.users[i].session {
                        Some(s) => Some(s.clone()),
                        None => None,
                    },
                };
                self.users[i] = row;
            },
            None => {},
        }
    }

    /// Registers a webhook target; the list is append-only and duplicates
    /// are kept.
    pub fn add_webhook(&mut self, url: &str)
        requires
            old(self).wf(),
        ensures
            final(self).wf(),
            final(self).users_view() == old(self).users_view(),
            final(self).webhooks_view().len() == old(self).webhooks_view().len() + 1,
            final(self).webhooks_view().last()@ == url@,
            final(self).webhooks_view().drop_last() == old(self).webhooks_view(),
    {
        self.webhooks.push(url.to_owned());
        proof {
            assert(self.webhooks@.drop_last() =~= old(self).webhooks@);
        }
    }

    /// Returns the registered webhook targets, in registration order.
    pub fn get_webhooks(&self) -> (r: Vec<String>)
        ensures
            r@ == self.webhooks_view(),
    {
        let mut r: Vec<String> = Vec::new();
        let mut i: usize = 0;
        while i < self.webhooks.len()
            invariant
                i <= self.webhooks@.len(),
                r@ == self.webhooks@.take(i as int),
            decreases self.webhooks@.len() - i,
        {
            r.push(self.webhooks[i].clone());
            proof {
                assert(r@ =~= self.webhooks@.take(i + 1));
            }
            i = i + 1;
        }
        proof {
            assert(self.webhooks@.take(self.webhooks@.len() as int) =~= self.webhooks@);
        }
        r
    }

    /// Returns all account rows, with their sessions.
    pub fn get_users(&self) -> (r: Vec<User>)
        ensures
            r@ == self.users_view(),
    {
        let mut r: Vec<User> = Vec::new();
        let mut i: usize = 0;
        while i < self.users.len()
            invariant
                i <= self.users@.len(),
                r@ == self.users@.take(i as int),
            decreases self.users@.len() - i,
        {
            r.push(self.users[i].clone());
            proof {
                assert(r@ =~= self.users@.take(i + 1));
            }
            i = i + 1;
        }
        proof {
            assert(self.users@.take(self.users@.len() as int) =~= self.users@);
        }
        r
    }
}

} // verus!
