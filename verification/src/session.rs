//! Session records and the collection that holds them.

use vstd::prelude::*;
use crate::error::{SessionError, SessionErrorView};
use crate::store::{lookup, MappingStore};
use crate::table::{lemma_update_value, row_at, Table};
use crate::text::{opt_text, texts};
use crate::time::{latest_of, Timestamp};

verus! {

/// A session as a mathematical value.
pub struct SessionView {
    pub id: Seq<char>,
    pub user_key: Seq<char>,
    pub created_at: Timestamp,
    pub last_accessed: Timestamp,
    pub data: Map<Seq<char>, Seq<char>>,
}

impl SessionView {
    /// The session that is made for `user_key` under `id` at `now`.
    pub open spec fn fresh(id: Seq<char>, user_key: Seq<char>, now: Timestamp) -> SessionView {
        SessionView {
            id,
            user_key,
            created_at: now,
            last_accessed: now,
            data: Map::empty(),
        }
    }

    /// The session after it was touched at `now`: the time of last access
    /// moves forward to `now`, never back.
    pub open spec fn touched(self, now: Timestamp) -> SessionView {
        SessionView { last_accessed: latest_of(self.last_accessed, now), ..self }
    }

    /// The session after `value` was attached under `key` at `now`.
    pub open spec fn with_data(self, key: Seq<char>, value: Seq<char>, now: Timestamp) -> SessionView {
        SessionView { data: self.data.insert(key, value), ..self.touched(now) }
    }

    /// The one-line summary of the session.
    pub open spec fn summary(self) -> Seq<char> {
        "ID: "@ + self.id + ", Key: "@ + self.user_key + ", Created: "@ + self.created_at.text()
    }
}

/// `after` is a later state of the session `before`: the same identifier,
/// owner key and time of creation, and a time of last access that is no
/// earlier.
pub open spec fn continues(before: SessionView, after: SessionView) -> bool {
    &&& after.id == before.id
    &&& after.user_key == before.user_key
    &&& after.created_at == before.created_at
    &&& after.last_accessed.instant() >= before.last_accessed.instant()
}

/// Every session that is held both before and after is continued.
pub open spec fn sessions_continue(
    before: Map<Seq<char>, SessionView>,
    after: Map<Seq<char>, SessionView>,
) -> bool {
    forall|id: Seq<char>|
        before.contains_key(id) && after.contains_key(id) ==> continues(before[id], #[trigger] after[id])
}

/// Touching a session and attaching data to it leave its identifier, its
/// owner key and its time of creation as they were, and move its time of
/// last access forward or not at all.
pub proof fn lemma_access_keeps_identity(
    session: SessionView,
    key: Seq<char>,
    value: Seq<char>,
    now: Timestamp,
)
    ensures
        session.touched(now).id == session.id,
        session.touched(now).user_key == session.user_key,
        session.touched(now).created_at == session.created_at,
        session.touched(now).data == session.data,
        session.touched(now).last_accessed.instant() >= session.last_accessed.instant(),
        session.touched(now).last_accessed.instant() >= now.instant(),
        session.with_data(key, value, now).id == session.id,
        session.with_data(key, value, now).user_key == session.user_key,
        session.with_data(key, value, now).created_at == session.created_at,
        session.with_data(key, value, now).last_accessed == session.touched(now).last_accessed,
{
}

/// One session: an identifier, the owner key it is anchored to, two times and
/// the data attached to it.
#[derive(Debug)]
pub struct Session {
    id: String,
    user_key: String,
    created_at: Timestamp,
    last_accessed: Timestamp,
    data: MappingStore,
}

impl View for Session {
    type V = SessionView;

    closed spec fn view(&self) -> SessionView {
        SessionView {
            id: self.id@,
            user_key: self.user_key@,
            created_at: self.created_at,
            last_accessed: self.last_accessed,
            data: self.data@,
        }
    }
}

impl Session {
    /// A session for `user_key` under `id`, made and last accessed at `now`,
    /// with no data.
    pub fn new(id: String, user_key: String, now: Timestamp) -> (session: Session)
        ensures
            session@ == SessionView::fresh(id@, user_key@, now),
    {
        Session { id, user_key, created_at: now, last_accessed: now, data: MappingStore::new() }
    }

    /// A session put together from its parts.
    pub fn from_parts(
        id: String,
        user_key: String,
        created_at: Timestamp,
        last_accessed: Timestamp,
        data: MappingStore,
    ) -> (session: Session)
        ensures
            session@ == (SessionView {
                id: id@,
                user_key: user_key@,
                created_at,
                last_accessed,
                data: data@,
            }),
    {
        Session { id, user_key, created_at, last_accessed, data }
    }

    pub fn id(&self) -> (id: &String)
        ensures
            id@ == self@.id,
    {
        &self.id
    }

    pub fn user_key(&self) -> (user_key: &String)
        ensures
            user_key@ == self@.user_key,
    {
        &self.user_key
    }

    pub fn created_at(&self) -> (at: Timestamp)
        ensures
            at == self@.created_at,
    {
        self.created_at
    }

    pub fn last_accessed(&self) -> (at: Timestamp)
        ensures
            at == self@.last_accessed,
    {
        self.last_accessed
    }

    pub fn data(&self) -> (data: &MappingStore)
        ensures
            data@ == self@.data,
    {
        &self.data
    }

    /// Records an access at `now`.
    pub fn touch(&mut self, now: Timestamp)
        ensures
            final(self)@ == old(self)@.touched(now),
    {
        self.last_accessed = self.last_accessed.latest(now);
    }

    /// Attaches `value` under `key`, and records the access.
    pub fn put(&mut self, key: String, value: String, now: Timestamp)
        ensures
            final(self)@ == old(self)@.with_data(key@, value@, now),
    {
        self.data.set(key, value);
        self.last_accessed = self.last_accessed.latest(now);
    }

    /// Reads what is attached under `key`, and records the access.
    pub fn read(&mut self, key: &String, now: Timestamp) -> (found: Option<String>)
        ensures
            final(self)@ == old(self)@.touched(now),
            opt_text(found) == lookup(old(self)@.data, key@),
    {
        self.last_accessed = self.last_accessed.latest(now);
        match self.data.get(key) {
            Some(value) => Some(value.clone()),
            None => None,
        }
    }

    /// The one-line summary of the session.
    pub fn summary(&self) -> (line: String)
        ensures
            line@ == self@.summary(),
    {
        let mut line = String::from_str("ID: ");
        line.append(self.id.as_str());
        line.append(", Key: ");
        line.append(self.user_key.as_str());
        line.append(", Created: ");
        let created = self.created_at.to_rfc3339();
        line.append(created.as_str());
        line
    }
}

/// The sessions held in `held`, as mathematical values under the same keys.
pub open spec fn session_views(held: Map<Seq<char>, Session>) -> Map<Seq<char>, SessionView> {
    Map::new(|id: Seq<char>| held.contains_key(id), |id: Seq<char>| held[id]@)
}

/// Every session of `sessions` is held under its own identifier.
pub open spec fn keyed_by_id(sessions: Map<Seq<char>, SessionView>) -> bool {
    forall|id: Seq<char>| sessions.contains_key(id) ==> (#[trigger] sessions[id]).id == id
}

/// `lines` are the summaries of the sessions under `ids`, in order, and
/// `ids` are the identifiers under which `sessions` are held, each of them
/// once.
pub open spec fn is_listing(
    sessions: Map<Seq<char>, SessionView>,
    ids: Seq<Seq<char>>,
    lines: Seq<Seq<char>>,
) -> bool {
    &&& ids.no_duplicates()
    &&& ids.to_set() == sessions.dom()
    &&& ids.len() == lines.len()
    &&& forall|i: int| 0 <= i < ids.len() ==> lines[i] == sessions[#[trigger] ids[i]].summary()
}

/// `lines` holds one summary line for each session of `sessions`: as many
/// lines as sessions, and each session's line once for that session.
pub open spec fn lists_each_once(sessions: Map<Seq<char>, SessionView>, lines: Seq<Seq<char>>) -> bool {
    exists|ids: Seq<Seq<char>>| is_listing(sessions, ids, lines)
}

/// Two listings of the same sessions hold the same lines as often as each
/// other: they differ in order at most.
pub proof fn lemma_listings_agree(
    sessions: Map<Seq<char>, SessionView>,
    first: Seq<Seq<char>>,
    second: Seq<Seq<char>>,
)
    requires
        lists_each_once(sessions, first),
        lists_each_once(sessions, second),
    ensures
        first.to_multiset() == second.to_multiset(),
{
    let first_ids = choose|ids: Seq<Seq<char>>| is_listing(sessions, ids, first);
    let second_ids = choose|ids: Seq<Seq<char>>| is_listing(sessions, ids, second);
    lemma_listings_agree_by(sessions, first_ids, first, second_ids, second);
}

proof fn lemma_listings_agree_by(
    sessions: Map<Seq<char>, SessionView>,
    first_ids: Seq<Seq<char>>,
    first: Seq<Seq<char>>,
    second_ids: Seq<Seq<char>>,
    second: Seq<Seq<char>>,
)
    requires
        is_listing(sessions, first_ids, first),
        is_listing(sessions, second_ids, second),
    ensures
        first.to_multiset() == second.to_multiset(),
    decreases first.len(),
{
    if first.len() == 0 {
        if second.len() > 0 {
            assert(first_ids.to_set().contains(second_ids[0]));
        }
        assert(first =~= second);
    } else {
        let end = first.len() - 1;
        let id = first_ids[end];
        assert(second_ids.to_set().contains(id));
        let at = choose|at: int| 0 <= at < second_ids.len() && second_ids[at] == id;
        let rest = sessions.remove(id);
        let first_rest_ids = first_ids.drop_last();
        let second_rest_ids = second_ids.remove(at);
        assert(is_listing(rest, first_rest_ids, first.drop_last())) by {
            assert forall|key: Seq<char>|
                first_rest_ids.to_set().contains(key) <==> rest.dom().contains(key) by {
                if rest.dom().contains(key) {
                    let j = choose|j: int| 0 <= j < first_ids.len() && first_ids[j] == key;
                    assert(first_rest_ids[j] == key);
                }
            }
            assert(first_rest_ids.to_set() =~= rest.dom());
        }
        assert(is_listing(rest, second_rest_ids, second.remove(at))) by {
            assert forall|key: Seq<char>|
                second_rest_ids.to_set().contains(key) <==> rest.dom().contains(key) by {
                if second_rest_ids.to_set().contains(key) {
                    let j = choose|j: int|
                        0 <= j < second_rest_ids.len() && second_rest_ids[j] == key;
                    assert(second_ids[if j < at { j } else { j + 1 }] == key);
                }
                if rest.dom().contains(key) {
                    let k = choose|k: int| 0 <= k < second_ids.len() && second_ids[k] == key;
                    let j = if k < at { k } else { k - 1 };
                    assert(second_rest_ids[j] == key);
                }
            }
            assert(second_rest_ids.to_set() =~= rest.dom());
            assert forall|j: int| 0 <= j < second_rest_ids.len() implies second.remove(at)[j]
                == rest[#[trigger] second_rest_ids[j]].summary() by {
                assert(second_rest_ids[j] == second_ids[if j < at { j } else { j + 1 }]);
            }
        }
        lemma_listings_agree_by(
            rest,
            first_rest_ids,
            first.drop_last(),
            second_rest_ids,
            second.remove(at),
        );
        assert(first =~= first.drop_last().push(first[end]));
        vstd::seq_lib::to_multiset_build(first.drop_last(), first[end]);
        vstd::seq_lib::to_multiset_remove(second, at);
        second.to_multiset_ensures();
    }
}

/// In a listing every line is the summary of a session that is held, and
/// the summary of every session that is held is among the lines.
pub proof fn lemma_listing_is_complete(
    sessions: Map<Seq<char>, SessionView>,
    lines: Seq<Seq<char>>,
    id: Seq<char>,
    i: int,
)
    requires
        lists_each_once(sessions, lines),
    ensures
        sessions.contains_key(id) ==> lines.contains(sessions[id].summary()),
        0 <= i < lines.len() ==> exists|held: Seq<char>|
            sessions.contains_key(held) && (#[trigger] sessions[held]).summary() == lines[i],
{
    let ids = choose|ids: Seq<Seq<char>>| is_listing(sessions, ids, lines);
    if 0 <= i < lines.len() {
        assert(sessions.contains_key(ids[i]) && sessions[ids[i]].summary() == lines[i]);
    }
}

/// The sessions after the one under `id` was touched at `now`.
pub open spec fn touch_session(
    sessions: Map<Seq<char>, SessionView>,
    id: Seq<char>,
    now: Timestamp,
) -> Map<Seq<char>, SessionView> {
    if sessions.contains_key(id) {
        sessions.insert(id, sessions[id].touched(now))
    } else {
        sessions
    }
}

/// The sessions after `value` was attached under `key` to the one under `id`.
pub open spec fn put_session_data(
    sessions: Map<Seq<char>, SessionView>,
    id: Seq<char>,
    key: Seq<char>,
    value: Seq<char>,
    now: Timestamp,
) -> Map<Seq<char>, SessionView> {
    if sessions.contains_key(id) {
        sessions.insert(id, sessions[id].with_data(key, value, now))
    } else {
        sessions
    }
}

/// The sessions after one was looked for under `id` on behalf of `user_key`:
/// the one that is there is touched, and where there is none, a fresh one is
/// made under `id`.
pub open spec fn attach_session(
    sessions: Map<Seq<char>, SessionView>,
    id: Seq<char>,
    user_key: Seq<char>,
    now: Timestamp,
) -> Map<Seq<char>, SessionView> {
    if sessions.contains_key(id) {
        sessions.insert(id, sessions[id].touched(now))
    } else {
        sessions.insert(id, SessionView::fresh(id, user_key, now))
    }
}

/// Reading and writing session data and looking a session up continue every
/// session, and take none away.
pub proof fn lemma_local_operations_continue(
    sessions: Map<Seq<char>, SessionView>,
    id: Seq<char>,
    user_key: Seq<char>,
    key: Seq<char>,
    value: Seq<char>,
    now: Timestamp,
)
    ensures
        sessions_continue(sessions, touch_session(sessions, id, now)),
        sessions_continue(sessions, put_session_data(sessions, id, key, value, now)),
        sessions_continue(sessions, attach_session(sessions, id, user_key, now)),
        touch_session(sessions, id, now).dom() == sessions.dom(),
        put_session_data(sessions, id, key, value, now).dom() == sessions.dom(),
        attach_session(sessions, id, user_key, now).dom() == sessions.dom().insert(id),
        keyed_by_id(sessions) ==> keyed_by_id(touch_session(sessions, id, now)) && keyed_by_id(
            put_session_data(sessions, id, key, value, now),
        ) && keyed_by_id(attach_session(sessions, id, user_key, now)),
{
}

/// The collection of sessions, each held under its identifier.
#[derive(Debug)]
pub struct SessionManager {
    sessions: Table<Session>,
}

impl SessionManager {
    #[verifier::type_invariant]
    spec fn ids_agree(self) -> bool {
        keyed_by_id(session_views(self.sessions@))
    }

    pub closed spec fn view(&self) -> Map<Seq<char>, SessionView> {
        session_views(self.sessions@)
    }

    /// An empty collection.
    pub fn new() -> (manager: Self)
        ensures
            manager@ == Map::<Seq<char>, SessionView>::empty(),
    {
        SessionManager { sessions: Table::new() }
    }

    /// Takes the sessions out and leaves the collection empty.
    fn take_sessions(&mut self) -> (sessions: Table<Session>)
        ensures
            session_views(sessions@) == old(self)@,
            keyed_by_id(old(self)@),
    {
        proof {
            use_type_invariant(&*self);
        }
        let mut sessions: Table<Session> = Table::new();
        core::mem::swap(&mut self.sessions, &mut sessions);
        sessions
    }

    /// Puts `sessions` in place of the sessions of the collection.
    fn put_sessions(&mut self, sessions: Table<Session>)
        requires
            keyed_by_id(session_views(sessions@)),
        ensures
            final(self)@ == session_views(sessions@),
    {
        let mut sessions = sessions;
        core::mem::swap(&mut self.sessions, &mut sessions);
    }

    /// How many sessions are held.
    pub fn len(&self) -> (n: usize)
        ensures
            self@.dom().finite(),
            n == self@.dom().len(),
            keyed_by_id(self@),
    {
        proof {
            use_type_invariant(self);
        }
        let n = self.sessions.len();
        assert(self@.dom() =~= self.sessions@.dom());
        n
    }

    /// The session under `id`, if there is one. Nothing is changed, not even
    /// the time of last access.
    pub fn get_session(&self, id: &String) -> (found: Option<&Session>)
        ensures
            match found {
                Some(session) => self@.contains_key(id@) && session@ == self@[id@] && session@.id == id@,
                None => !self@.contains_key(id@),
            },
    {
        proof {
            use_type_invariant(self);
        }
        self.sessions.get(id)
    }

    /// One summary line for each session held.
    pub fn list_sessions(&self) -> (lines: Vec<String>)
        ensures
            lines@.len() == self@.dom().len(),
            lists_each_once(self@, texts(lines@)),
    {
        let n = self.sessions.len();
        let mut lines: Vec<String> = Vec::new();
        let mut i: usize = 0;
        while i < n
            invariant
                i <= n,
                n == self.sessions.rows().len(),
                lines@.len() == i,
                forall|j: int|
                    0 <= j < i ==> (#[trigger] lines@[j])@ == self.sessions.rows()[j].value@.summary(),
            decreases n - i,
        {
            if let Some(row) = self.sessions.row(i) {
                lines.push(row.value.summary());
            }
            i += 1;
        }
        proof {
            let rows = self.sessions.rows();
            let ids = Seq::new(rows.len(), |j: int| rows[j].key@);
            let held = texts(lines@);
            assert(self@.dom() =~= self.sessions@.dom());
            assert forall|key: Seq<char>| ids.to_set().contains(key) <==> self@.dom().contains(key) by {
                if ids.to_set().contains(key) {
                    let j = choose|j: int| 0 <= j < ids.len() && ids[j] == key;
                    assert(row_at(rows, key, j));
                }
                if self@.dom().contains(key) {
                    let j = choose|j: int| row_at(rows, key, j);
                    assert(ids[j] == key);
                }
            }
            assert(ids.to_set() =~= self@.dom());
            assert forall|j: int| 0 <= j < ids.len() implies held[j] == self@[#[trigger] ids[j]].summary(
            ) by {
                lemma_update_value(rows, j, rows[j].value);
            }
            assert(is_listing(self@, ids, held));
        }
        lines
    }

    /// Attaches `value` under `key` to the session under `id`, and records
    /// the access. Fails where no session is held under `id`.
    pub fn add_session_data(&mut self, id: &String, key: String, value: String, now: Timestamp) -> (done:
        Result<(), SessionError>)
        ensures
            final(self)@ == put_session_data(old(self)@, id@, key@, value@, now),
            match done {
                Ok(_) => old(self)@.contains_key(id@),
                Err(error) => !old(self)@.contains_key(id@) && error@ == SessionErrorView::NotFound(id@),
            },
    {
        let mut sessions = self.take_sessions();
        let done = match sessions.remove(id) {
            Some(session) => {
                let mut session = session;
                session.put(key, value, now);
                let _ = sessions.insert(id.clone(), session);
                assert(session_views(sessions@) =~= put_session_data(old(self)@, id@, key@, value@, now));
                Ok(())
            },
            None => {
                assert(session_views(sessions@) =~= old(self)@);
                Err(SessionError::NotFound(id.clone()))
            },
        };
        self.put_sessions(sessions);
        done
    }

    /// Reads what is attached under `key` to the session under `id`, and
    /// records the access. Fails where no session is held under `id`.
    pub fn get_session_data(&mut self, id: &String, key: &String, now: Timestamp) -> (found: Result<
        Option<String>,
        SessionError,
    >)
        ensures
            final(self)@ == touch_session(old(self)@, id@, now),
            match found {
                Ok(value) => old(self)@.contains_key(id@) && opt_text(value) == lookup(
                    old(self)@[id@].data,
                    key@,
                ),
                Err(error) => !old(self)@.contains_key(id@) && error@ == SessionErrorView::NotFound(id@),
            },
    {
        let mut sessions = self.take_sessions();
        let found = match sessions.remove(id) {
            Some(session) => {
                let mut session = session;
                let value = session.read(key, now);
                let _ = sessions.insert(id.clone(), session);
                assert(session_views(sessions@) =~= touch_session(old(self)@, id@, now));
                Ok(value)
            },
            None => {
                assert(session_views(sessions@) =~= old(self)@);
                Err(SessionError::NotFound(id.clone()))
            },
        };
        self.put_sessions(sessions);
        found
    }

    /// Looks for the session under `id` on behalf of `user_key`: touches the
    /// one that is there, or makes a fresh one under `id`. Says whether one
    /// was there.
    pub fn attach(&mut self, id: String, user_key: String, now: Timestamp) -> (existed: bool)
        ensures
            existed == old(self)@.contains_key(id@),
            final(self)@ == attach_session(old(self)@, id@, user_key@, now),
    {
        let mut sessions = self.take_sessions();
        let existed = match sessions.remove(&id) {
            Some(session) => {
                let mut session = session;
                session.touch(now);
                let _ = sessions.insert(id, session);
                true
            },
            None => {
                let session = Session::new(id.clone(), user_key, now);
                let _ = sessions.insert(id, session);
                false
            },
        };
        assert(session_views(sessions@) =~= attach_session(old(self)@, id@, user_key@, now));
        self.put_sessions(sessions);
        existed
    }

    /// Puts `session` into the collection under its own identifier, in place
    /// of what was held there.
    pub fn insert(&mut self, session: Session)
        ensures
            final(self)@ == old(self)@.insert(session@.id, session@),
    {
        let mut sessions = self.take_sessions();
        let id = session.id().clone();
        let _ = sessions.insert(id, session);
        assert(session_views(sessions@) =~= old(self)@.insert(session@.id, session@));
        self.put_sessions(sessions);
    }

    /// Takes the session under `id` out of the collection and hands it over.
    pub fn detach(&mut self, id: &String) -> (taken: Option<Session>)
        ensures
            final(self)@ == old(self)@.remove(id@),
            match taken {
                Some(session) => old(self)@.contains_key(id@) && session@ == old(self)@[id@] && session@.id
                    == id@,
                None => !old(self)@.contains_key(id@),
            },
    {
        let mut sessions = self.take_sessions();
        let taken = sessions.remove(id);
        assert(session_views(sessions@) =~= old(self)@.remove(id@));
        self.put_sessions(sessions);
        taken
    }
}

} // verus!
