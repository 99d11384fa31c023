//! The user table and the session table, held in memory.
//!
//! Each table is a list of rows in which no key occurs twice; its view is the
//! map from key to row. The operations are stated over that map.

use vstd::prelude::*;
use crate::models::{
    Claims, GoogleTokenInfo, Session, SessionLookup, SessionLookupView, SessionView, NO_SESSION,
};

verus! {

/// The map that a list of keyed rows stands for. Where a key occurs twice the
/// later row counts.
pub open spec fn rows_map<K, V>(rows: Seq<(K, V)>) -> Map<K, V>
    decreases rows.len(),
{
    if rows.len() == 0 {
        Map::empty()
    } else {
        rows_map(rows.drop_last()).insert(rows.last().0, rows.last().1)
    }
}

/// No key occurs in two rows.
pub open spec fn distinct_keys<K, V>(rows: Seq<(K, V)>) -> bool {
    forall|i: int, j: int| 0 <= i < j < rows.len() ==> rows[i].0 != rows[j].0
}

/// A key is in the map exactly if some row has it.
pub proof fn lemma_rows_map_keys<K, V>(rows: Seq<(K, V)>, key: K)
    ensures
        rows_map(rows).contains_key(key) <==> exists|i: int|
            0 <= i < rows.len() && (#[trigger] rows[i]).0 == key,
    decreases rows.len(),
{
    if rows.len() > 0 {
        let front = rows.drop_last();
        lemma_rows_map_keys(front, key);
        if rows_map(rows).contains_key(key) {
            if rows.last().0 == key {
                assert(rows[rows.len() - 1].0 == key);
            } else {
                let i = choose|i: int| 0 <= i < front.len() && (#[trigger] front[i]).0 == key;
                assert(rows[i].0 == key);
            }
        }
        if exists|i: int| 0 <= i < rows.len() && (#[trigger] rows[i]).0 == key {
            let i = choose|i: int| 0 <= i < rows.len() && (#[trigger] rows[i]).0 == key;
            if i < rows.len() - 1 {
                assert(front[i].0 == key);
            }
        }
    }
}

/// What the map holds under a key is the value of some row with that key.
pub proof fn lemma_rows_map_source<K, V>(rows: Seq<(K, V)>, key: K)
    requires
        rows_map(rows).contains_key(key),
    ensures
        exists|i: int|
            0 <= i < rows.len() && #[trigger] rows[i] == (key, rows_map(rows)[key]),
    decreases rows.len(),
{
    if rows.len() > 0 {
        if rows.last().0 == key {
            assert(rows[rows.len() - 1] == (key, rows_map(rows)[key]));
        } else {
            let front = rows.drop_last();
            lemma_rows_map_source(front, key);
            let i = choose|i: int|
                0 <= i < front.len() && #[trigger] front[i] == (key, rows_map(front)[key]);
            assert(rows[i] == (key, rows_map(rows)[key]));
        }
    }
}

/// With distinct keys, the map sends each row's key to that row.
pub proof fn lemma_rows_map_at<K, V>(rows: Seq<(K, V)>, i: int)
    requires
        distinct_keys(rows),
        0 <= i < rows.len(),
    ensures
        rows_map(rows).contains_key(rows[i].0),
        rows_map(rows)[rows[i].0] == rows[i].1,
    decreases rows.len(),
{
    let front = rows.drop_last();
    if i < rows.len() - 1 {
        assert(front[i] == rows[i]);
        assert(distinct_keys(front)) by {
            assert forall|a: int, b: int| 0 <= a < b < front.len() implies front[a].0
                != front[b].0 by {
                assert(front[a] == rows[a] && front[b] == rows[b]);
            }
        }
        lemma_rows_map_at(front, i);
        assert(rows[i].0 != rows[rows.len() - 1].0);
    }
}

/// Appending a row is inserting it into the map.
pub proof fn lemma_rows_map_push<K, V>(rows: Seq<(K, V)>, key: K, value: V)
    ensures
        rows_map(rows.push((key, value))) == rows_map(rows).insert(key, value),
{
    assert(rows.push((key, value)).drop_last() =~= rows);
}

/// With distinct keys, replacing a row's value in place is inserting under its key.
pub proof fn lemma_rows_map_update<K, V>(rows: Seq<(K, V)>, i: int, value: V)
    requires
        distinct_keys(rows),
        0 <= i < rows.len(),
    ensures
        rows_map(rows.update(i, (rows[i].0, value))) == rows_map(rows).insert(rows[i].0, value),
        distinct_keys(rows.update(i, (rows[i].0, value))),
    decreases rows.len(),
{
    let key = rows[i].0;
    let changed = rows.update(i, (key, value));
    let front = rows.drop_last();
    assert(distinct_keys(changed)) by {
        assert forall|a: int, b: int| 0 <= a < b < changed.len() implies changed[a].0
            != changed[b].0 by {
            assert(changed[a].0 == rows[a].0 && changed[b].0 == rows[b].0);
        }
    }
    if i == rows.len() - 1 {
        assert(changed.drop_last() =~= front);
        assert(rows_map(changed) =~= rows_map(rows).insert(key, value));
    } else {
        assert(distinct_keys(front)) by {
            assert forall|a: int, b: int| 0 <= a < b < front.len() implies front[a].0
                != front[b].0 by {
                assert(front[a] == rows[a] && front[b] == rows[b]);
            }
        }
        assert(front[i] == rows[i]);
        lemma_rows_map_update(front, i, value);
        assert(changed.drop_last() =~= front.update(i, (key, value)));
        assert(changed.last() == rows.last());
        assert(rows[i].0 != rows[rows.len() - 1].0);
        assert(rows_map(changed) =~= rows_map(rows).insert(key, value));
    }
}

/// With distinct keys, the map has as many keys as there are rows.
pub proof fn lemma_rows_map_len<K, V>(rows: Seq<(K, V)>)
    requires
        distinct_keys(rows),
    ensures
        rows_map(rows).dom().finite(),
        rows_map(rows).dom().len() == rows.len(),
    decreases rows.len(),
{
    if rows.len() > 0 {
        let front = rows.drop_last();
        let key = rows.last().0;
        assert(distinct_keys(front)) by {
            assert forall|a: int, b: int| 0 <= a < b < front.len() implies front[a].0
                != front[b].0 by {
                assert(front[a] == rows[a] && front[b] == rows[b]);
            }
        }
        lemma_rows_map_len(front);
        lemma_rows_map_keys(front, key);
        assert(!rows_map(front).contains_key(key)) by {
            if rows_map(front).contains_key(key) {
                let i = choose|i: int| 0 <= i < front.len() && (#[trigger] front[i]).0 == key;
                assert(rows[i].0 == rows[rows.len() - 1].0);
            }
        }
        assert(rows_map(rows).dom() =~= rows_map(front).dom().insert(key));
    }
}

/// Each user is filed under its own subject identifier.
pub open spec fn users_keyed(users: Map<Seq<char>, Claims>) -> bool {
    forall|sub: Seq<char>| users.contains_key(sub) ==> (#[trigger] users[sub]).sub == sub
}

/// Each session is filed under its own identifier.
pub open spec fn sessions_keyed(sessions: Map<u128, SessionView>) -> bool {
    forall|id: u128| sessions.contains_key(id) ==> (#[trigger] sessions[id]).session_id == id
}

/// The users, keyed by the provider's subject identifier.
pub struct UserTable {
    rows: Vec<GoogleTokenInfo>,
}

impl View for UserTable {
    type V = Map<Seq<char>, Claims>;

    closed spec fn view(&self) -> Map<Seq<char>, Claims> {
        rows_map(self.pairs())
    }
}

impl UserTable {
    pub closed spec fn pairs(&self) -> Seq<(Seq<char>, Claims)> {
        self.rows@.map_values(|row: GoogleTokenInfo| (row.sub@, row@))
    }

    /// No subject identifier has two rows.
    pub closed spec fn wf(&self) -> bool {
        distinct_keys(self.pairs())
    }

    /// Every row of the table is filed under its own subject identifier.
    pub proof fn lemma_keyed(&self)
        ensures
            users_keyed(self@),
    {
        let pairs = self.pairs();
        assert forall|sub: Seq<char>| self@.contains_key(sub) implies (#[trigger] self@[sub]).sub
            == sub by {
            lemma_rows_map_source(pairs, sub);
            let i = choose|i: int|
                0 <= i < pairs.len() && #[trigger] pairs[i] == (sub, rows_map(pairs)[sub]);
            assert(pairs[i] == (self.rows@[i].sub@, self.rows@[i]@));
        }
    }

    pub fn new() -> (table: UserTable)
        ensures
            table.wf(),
            table@ == Map::<Seq<char>, Claims>::empty(),
    {
        let table = UserTable { rows: Vec::new() };
        assert(table.pairs() =~= Seq::empty());
        table
    }

    /// The number of rows: one for each key.
    pub fn len(&self) -> (n: usize)
        requires
            self.wf(),
        ensures
            self@.dom().finite(),
            n == self@.dom().len(),
    {
        proof {
            lemma_rows_map_len(self.pairs());
        }
        self.rows.len()
    }

    fn position(&self, sub: &String) -> (found: Option<usize>)
        ensures
            match found {
                Some(i) => i < self.rows@.len() && self.rows@[i as int].sub@ == sub@,
                None => forall|i: int| 0 <= i < self.rows@.len() ==> self.rows@[i].sub@ != sub@,
            },
    {
        let mut i: usize = 0;
        while i < self.rows.len()
            invariant
                i <= self.rows@.len(),
                forall|k: int| 0 <= k < i ==> self.rows@[k].sub@ != sub@,
            decreases self.rows@.len() - i,
        {
            if self.rows[i].sub == *sub {
                return Some(i);
            }
            i = i + 1;
        }
        None
    }

    /// Writes the claims under their subject identifier: a new row where the
    /// subject has none, else the subject's one row with the new claims.
    /// Returns the number of rows written, which is one.
    pub fn upsert(&mut self, claims: GoogleTokenInfo) -> (rows_affected: u64)
        requires
            old(self).wf(),
        ensures
            final(self).wf(),
            final(self)@ == old(self)@.insert(claims.sub@, claims@),
            rows_affected == 1,
    {
        let ghost before = self.pairs();
        proof {
            lemma_rows_map_keys(before, claims.sub@);
        }
        match self.position(&claims.sub) {
            Some(i) => {
                proof {
                    assert(before[i as int].0 == claims.sub@);
                    lemma_rows_map_update(before, i as int, claims@);
                }
                self.rows[i] = claims;
                assert(self.pairs() =~= before.update(i as int, (claims.sub@, claims@)));
            },
            None => {
                proof {
                    assert forall|i: int| 0 <= i < before.len() implies (#[trigger] before[i]).0
                        != claims.sub@ by {}
                    lemma_rows_map_push(before, claims.sub@, claims@);
                }
                self.rows.push(claims);
                assert(self.pairs() =~= before.push((claims.sub@, claims@)));
            },
        }
        1
    }

    /// The row of a subject, if it has one.
    pub fn get(&self, sub: &String) -> (row: Option<GoogleTokenInfo>)
        requires
            self.wf(),
        ensures
            match row {
                Some(claims) => self@.contains_key(sub@) && claims@ == self@[sub@],
                None => !self@.contains_key(sub@),
            },
    {
        proof {
            lemma_rows_map_keys(self.pairs(), sub@);
        }
        match self.position(sub) {
            Some(i) => {
                proof {
                    lemma_rows_map_at(self.pairs(), i as int);
                }
                Some(self.rows[i].duplicate())
            },
            None => {
                None
            },
        }
    }
}

/// What the session table holds after an attempt to add `session`: the table
/// with the row added, or `None` where the identifier is taken or is the one
/// that stands for no session.
pub open spec fn spec_insert_session(
    sessions: Map<u128, SessionView>,
    session: SessionView,
) -> Option<Map<u128, SessionView>> {
    if session.session_id == NO_SESSION || sessions.contains_key(session.session_id) {
        None
    } else {
        Some(sessions.insert(session.session_id, session))
    }
}

/// What a look for `session_id` owned by `sub` finds: the row with that
/// identifier, if its owner is `sub`.
pub open spec fn spec_find_session(
    sessions: Map<u128, SessionView>,
    session_id: u128,
    sub: Seq<char>,
) -> SessionLookupView {
    if sessions.contains_key(session_id) && sessions[session_id].user_id == sub {
        SessionLookupView::Found(sessions[session_id])
    } else {
        SessionLookupView::NotFound
    }
}

/// The sessions, keyed by session identifier.
pub struct SessionTable {
    rows: Vec<Session>,
}

impl View for SessionTable {
    type V = Map<u128, SessionView>;

    closed spec fn view(&self) -> Map<u128, SessionView> {
        rows_map(self.pairs())
    }
}

impl SessionTable {
    pub closed spec fn pairs(&self) -> Seq<(u128, SessionView)> {
        self.rows@.map_values(|row: Session| (row.session_id, row@))
    }

    /// No session identifier has two rows, and no row is filed under the
    /// identifier that stands for no session.
    pub closed spec fn wf(&self) -> bool {
        &&& distinct_keys(self.pairs())
        &&& forall|i: int|
            0 <= i < self.rows@.len() ==> (#[trigger] self.rows@[i]).session_id != NO_SESSION
    }

    /// The table holds nothing under the identifier that stands for no session.
    pub proof fn lemma_no_session_is_absent(&self)
        requires
            self.wf(),
        ensures
            !self@.contains_key(NO_SESSION),
    {
        let pairs = self.pairs();
        lemma_rows_map_keys(pairs, NO_SESSION);
        if self@.contains_key(NO_SESSION) {
            let i = choose|i: int| 0 <= i < pairs.len() && (#[trigger] pairs[i]).0 == NO_SESSION;
            assert(self.rows@[i].session_id == NO_SESSION);
        }
    }

    /// Every row of the table is filed under its own identifier.
    pub proof fn lemma_keyed(&self)
        ensures
            sessions_keyed(self@),
    {
        let pairs = self.pairs();
        assert forall|id: u128| self@.contains_key(id) implies (#[trigger] self@[id]).session_id
            == id by {
            lemma_rows_map_source(pairs, id);
            let i = choose|i: int|
                0 <= i < pairs.len() && #[trigger] pairs[i] == (id, rows_map(pairs)[id]);
            assert(pairs[i] == (self.rows@[i].session_id, self.rows@[i]@));
        }
    }

    pub fn new() -> (table: SessionTable)
        ensures
            table.wf(),
            table@ == Map::<u128, SessionView>::empty(),
    {
        let table = SessionTable { rows: Vec::new() };
        assert(table.pairs() =~= Seq::empty());
        table
    }

    /// The number of rows: one for each key.
    pub fn len(&self) -> (n: usize)
        requires
            self.wf(),
        ensures
            self@.dom().finite(),
            n == self@.dom().len(),
    {
        proof {
            lemma_rows_map_len(self.pairs());
        }
        self.rows.len()
    }

    fn position(&self, session_id: u128) -> (found: Option<usize>)
        ensures
            match found {
                Some(i) => i < self.rows@.len() && self.rows@[i as int].session_id == session_id,
                None => forall|i: int|
                    0 <= i < self.rows@.len() ==> self.rows@[i].session_id != session_id,
            },
    {
        let mut i: usize = 0;
        while i < self.rows.len()
            invariant
                i <= self.rows@.len(),
                forall|k: int| 0 <= k < i ==> self.rows@[k].session_id != session_id,
            decreases self.rows@.len() - i,
        {
            if self.rows[i].session_id == session_id {
                return Some(i);
            }
            i = i + 1;
        }
        None
    }

    /// Adds the row in one step, unless its identifier is taken or stands
    /// for no session: then the table stays as it is and the answer is `false`.
    pub fn insert(&mut self, session: Session) -> (stored: bool)
        requires
            old(self).wf(),
        ensures
            final(self).wf(),
            stored == spec_insert_session(old(self)@, session@).is_some(),
            final(self)@ == (match spec_insert_session(old(self)@, session@) {
                Some(after) => after,
                None => old(self)@,
            }),
    {
        if session.session_id == NO_SESSION {
            return false;
        }
        let ghost before = self.pairs();
        proof {
            lemma_rows_map_keys(before, session.session_id);
        }
        match self.position(session.session_id) {
            Some(i) => {
                assert(before[i as int].0 == session.session_id);
                false
            },
            None => {
                proof {
                    assert forall|i: int| 0 <= i < before.len() implies (#[trigger] before[i]).0
                        != session.session_id by {}
                    lemma_rows_map_push(before, session.session_id, session@);
                }
                self.rows.push(session);
                assert(self.pairs() =~= before.push((session.session_id, session@)));
                true
            },
        }
    }

    /// Looks for the row with this identifier and this owner. Reads only.
    pub fn find(&self, session_id: u128, sub: &String) -> (lookup: SessionLookup)
        requires
            self.wf(),
        ensures
            lookup@ == spec_find_session(self@, session_id, sub@),
            sessions_keyed(self@),
    {
        proof {
            lemma_rows_map_keys(self.pairs(), session_id);
            self.lemma_keyed();
        }
        match self.position(session_id) {
            Some(i) => {
                proof {
                    lemma_rows_map_at(self.pairs(), i as int);
                }
                if self.rows[i].user_id == *sub {
                    SessionLookup::Found(self.rows[i].duplicate())
                } else {
                    SessionLookup::NotFound
                }
            },
            None => SessionLookup::NotFound,
        }
    }
}

} // verus!
