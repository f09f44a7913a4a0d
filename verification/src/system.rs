//! Both stores in one place: the session collection, the mapping store, and
//! the link between them.
//!
//! Here the calls that the session layer asks for are answered by the
//! mapping store itself: over the direct route by its raw entry points, as
//! far as they are bound, and over the indirect route by its commands. An
//! operation then runs to its end, and what it amounts to can be said in one
//! step.

use vstd::prelude::*;
use crate::commands::{custom_del, custom_get, custom_set, tag_reply};
use crate::ident::{fresh_session_id, is_hyphenated_uuid, is_random_uuid, lemma_uuid_has_no_nul};
use crate::link::{
    host_command, host_outcome, DirectReply, DirectReplyView, HostReply, HostReplyView, Route,
    StoreCall, StoreCallView, StoreCommand,
};
use crate::protocol::{
    begin_create, create_start, delete_start, direct_turn, host_turn, Completion, CompletionView,
    PendingView, Step, StepView, Turn,
};
use crate::raw::{
    crossing, custom_hashmap_del, custom_hashmap_get, custom_hashmap_set, direct_open,
    direct_ready, Binding, Stage,
};
use crate::session::{attach_session, keyed_by_id, sessions_continue, SessionManager, SessionView};
use crate::store::{lookup, MappingStore};
use crate::text::{has_nul, texts};
use crate::time::Timestamp;

verus! {

/// The mapping store after a call over the direct route, and the answer.
pub struct DirectService {
    pub store: Map<Seq<char>, Seq<char>>,
    pub reply: DirectReplyView,
}

/// The mapping store after a call over the indirect route, and the outcome.
pub struct HostService {
    pub store: Map<Seq<char>, Seq<char>>,
    pub outcome: Result<HostReplyView, Seq<char>>,
}

/// How the mapping store answers `call` over the direct route.
pub open spec fn direct_service(
    store: Map<Seq<char>, Seq<char>>,
    stage: Stage,
    call: StoreCallView,
) -> DirectService {
    if !direct_open(stage, call) {
        DirectService { store, reply: DirectReplyView::Unavailable }
    } else {
        match call {
            StoreCallView::Assign { key, value } => DirectService {
                store: store.insert(key, value),
                reply: DirectReplyView::Code(1),
            },
            StoreCallView::Lookup { key } => DirectService {
                store,
                reply: DirectReplyView::Text(crossing(lookup(store, key))),
            },
            StoreCallView::Remove { key } => DirectService {
                store: store.remove(key),
                reply: DirectReplyView::Code(if store.contains_key(key) { 1 } else { 0 }),
            },
        }
    }
}

/// How the mapping store answers `call` over the indirect route.
pub open spec fn host_service(store: Map<Seq<char>, Seq<char>>, call: StoreCallView) -> HostService {
    match call {
        StoreCallView::Assign { key, value } => HostService {
            store: store.insert(key, value),
            outcome: Ok(HostReplyView::Text("OK"@)),
        },
        StoreCallView::Lookup { key } => HostService {
            store,
            outcome: Ok(
                match lookup(store, key) {
                    Some(value) => HostReplyView::Text(value),
                    None => HostReplyView::Null,
                },
            ),
        },
        StoreCallView::Remove { key } => HostService {
            store: store.remove(key),
            outcome: Ok(HostReplyView::Other),
        },
    }
}

/// Answers `call` over the direct route: through the raw entry points where
/// the route is open, and not at all where it is not.
pub fn serve_direct(store: &mut MappingStore, binding: &Binding, call: StoreCall) -> (reply: DirectReply)
    ensures
        final(store)@ == direct_service(old(store)@, binding.stage(), call@).store,
        reply@ == direct_service(old(store)@, binding.stage(), call@).reply,
{
    if !direct_ready(binding, &call) {
        return DirectReply::Unavailable;
    }
    match call {
        StoreCall::Assign { key, value } => DirectReply::Code(
            custom_hashmap_set(store, Some(key), Some(value)),
        ),
        StoreCall::Lookup { key } => DirectReply::Text(custom_hashmap_get(store, Some(key))),
        StoreCall::Remove { key } => DirectReply::Code(custom_hashmap_del(store, Some(key))),
    }
}

/// Answers `call` over the indirect route: as the command that the host
/// would be given for it.
pub fn serve_host(store: &mut MappingStore, call: &StoreCall) -> (outcome: Result<HostReply, String>)
    ensures
        final(store)@ == host_service(old(store)@, call@).store,
        host_outcome(outcome) == host_service(old(store)@, call@).outcome,
{
    let command = host_command(call);
    let mut line: Vec<String> = Vec::new();
    line.push(command.name);
    let mut i: usize = 0;
    while i < command.args.len()
        invariant
            i <= command.args@.len(),
            line@.len() == i + 1,
            forall|j: int| 1 <= j <= i ==> (#[trigger] line@[j])@ == command.args@[j - 1]@,
        decreases command.args@.len() - i,
    {
        line.push(command.args[i].clone());
        i += 1;
    }
    proof {
        let operands = texts(command.args@);
        assert(line@.len() == operands.len() + 1);
        assert(forall|j: int| 1 <= j < line@.len() ==> (#[trigger] line@[j])@ == operands[j - 1]);
    }
    let answered = match call.command() {
        StoreCommand::Assign => custom_set(store, &line),
        StoreCommand::Lookup => custom_get(store, &line),
        StoreCommand::Remove => custom_del(store, &line),
    };
    match answered {
        Ok(reply) => Ok(tag_reply(reply)),
        Err(error) => Err(error.message()),
    }
}

/// Where an operation ended: both stores, and how it ended.
pub struct World {
    pub sessions: Map<Seq<char>, SessionView>,
    pub store: Map<Seq<char>, Seq<char>>,
    pub completion: CompletionView,
}

/// How many more calls a step can lead to.
pub open spec fn calls_left(step: StepView) -> nat {
    match step {
        StepView::Done(_) => 0,
        StepView::Ask(Route::Direct, PendingView::Lookup { .. }) => 4,
        StepView::Ask(Route::Indirect, PendingView::Lookup { .. }) => 3,
        StepView::Ask(Route::Direct, _) => 2,
        StepView::Ask(Route::Indirect, _) => 1,
    }
}

/// The stores and the step after the call that `step` asks for was answered
/// by the mapping store.
pub open spec fn answered(
    sessions: Map<Seq<char>, SessionView>,
    store: Map<Seq<char>, Seq<char>>,
    stage: Stage,
    route: Route,
    pending: PendingView,
    fresh_id: Seq<char>,
    now: Timestamp,
) -> (Turn, Map<Seq<char>, Seq<char>>) {
    match route {
        Route::Direct => {
            let service = direct_service(store, stage, pending.call());
            (direct_turn(sessions, pending, service.reply, fresh_id, now), service.store)
        },
        Route::Indirect => {
            let service = host_service(store, pending.call());
            (host_turn(sessions, pending, service.outcome, fresh_id, now), service.store)
        },
    }
}

/// Where the operation that stands at `step` ends, when every call is
/// answered by the mapping store.
pub open spec fn run(
    sessions: Map<Seq<char>, SessionView>,
    store: Map<Seq<char>, Seq<char>>,
    stage: Stage,
    step: StepView,
    fresh_id: Seq<char>,
    now: Timestamp,
) -> World
    decreases calls_left(step),
{
    match step {
        StepView::Done(completion) => World { sessions, store, completion },
        StepView::Ask(route, pending) => {
            let (turn, served) = answered(sessions, store, stage, route, pending, fresh_id, now);
            run(turn.sessions, served, stage, turn.step, fresh_id, now)
        },
    }
}

/// Every answer brings the operation nearer to its end.
pub proof fn lemma_calls_decrease(
    sessions: Map<Seq<char>, SessionView>,
    store: Map<Seq<char>, Seq<char>>,
    stage: Stage,
    route: Route,
    pending: PendingView,
    fresh_id: Seq<char>,
    now: Timestamp,
)
    ensures
        calls_left(answered(sessions, store, stage, route, pending, fresh_id, now).0.step) < calls_left(
            StepView::Ask(route, pending),
        ),
{
}

/// The identifier that a lookup of `owner_key` shows to the session layer.
///
/// Over the indirect route it is what the mapping store holds. Over the
/// direct route, which is taken where it is open, a value that holds a NUL
/// cannot be handed over and shows as absent.
pub open spec fn shown(store: Map<Seq<char>, Seq<char>>, stage: Stage, owner_key: Seq<char>) -> Option<
    Seq<char>,
> {
    if direct_open(stage, StoreCallView::Lookup { key: owner_key }) {
        crossing(lookup(store, owner_key))
    } else {
        lookup(store, owner_key)
    }
}

/// The lookup of `owner_key` shows what the mapping store holds.
pub open spec fn shown_truly(store: Map<Seq<char>, Seq<char>>, stage: Stage, owner_key: Seq<char>) -> bool {
    shown(store, stage, owner_key) == lookup(store, owner_key)
}

/// A lookup shows what the mapping store holds unless the direct route is
/// open to the key and the value under it holds a NUL. An owner key without
/// an identifier, and one whose identifier is the text of a UUID, are always
/// shown truly.
pub proof fn lemma_shown_truly(store: Map<Seq<char>, Seq<char>>, stage: Stage, owner_key: Seq<char>)
    ensures
        shown_truly(store, stage, owner_key) <==> !(direct_open(
            stage,
            StoreCallView::Lookup { key: owner_key },
        ) && store.contains_key(owner_key) && has_nul(store[owner_key])),
        !store.contains_key(owner_key) ==> shown_truly(store, stage, owner_key),
        store.contains_key(owner_key) && is_hyphenated_uuid(store[owner_key]) ==> shown_truly(
            store,
            stage,
            owner_key,
        ),
{
    if store.contains_key(owner_key) && is_hyphenated_uuid(store[owner_key]) {
        lemma_uuid_has_no_nul(store[owner_key]);
    }
}

/// Creating a session for `owner_key`, or finding the one it has, in one
/// step: the identifier that the lookup shows decides. Where it shows none,
/// `fresh_id` is stored and a session is made under it. Where it shows one,
/// its session is touched, or made again if it is missing.
pub open spec fn create_world(
    sessions: Map<Seq<char>, SessionView>,
    store: Map<Seq<char>, Seq<char>>,
    stage: Stage,
    owner_key: Seq<char>,
    fresh_id: Seq<char>,
    now: Timestamp,
) -> World {
    match shown(store, stage, owner_key) {
        Some(session_id) => World {
            sessions: attach_session(sessions, session_id, owner_key, now),
            store,
            completion: if sessions.contains_key(session_id) {
                CompletionView::Exists(session_id)
            } else {
                CompletionView::Recreated(session_id)
            },
        },
        None => World {
            sessions: sessions.insert(fresh_id, SessionView::fresh(fresh_id, owner_key, now)),
            store: store.insert(owner_key, fresh_id),
            completion: CompletionView::Created(fresh_id),
        },
    }
}

/// Deleting the session under `id`, in one step: the session leaves the
/// collection and its owner key leaves the mapping store.
pub open spec fn delete_world(
    sessions: Map<Seq<char>, SessionView>,
    store: Map<Seq<char>, Seq<char>>,
    id: Seq<char>,
) -> World {
    if sessions.contains_key(id) {
        World {
            sessions: sessions.remove(id),
            store: store.remove(sessions[id].user_key),
            completion: CompletionView::Deleted(true),
        }
    } else {
        World { sessions, store, completion: CompletionView::Deleted(false) }
    }
}

/// Whatever the state of the binding, and whether or not the texts can go
/// over the direct route, creating a session step by step ends where
/// `create_world` says.
pub proof fn lemma_create_runs(
    sessions: Map<Seq<char>, SessionView>,
    store: Map<Seq<char>, Seq<char>>,
    stage: Stage,
    owner_key: Seq<char>,
    fresh_id: Seq<char>,
    now: Timestamp,
)
    ensures
        run(sessions, store, stage, create_start(owner_key), fresh_id, now) == create_world(
            sessions,
            store,
            stage,
            owner_key,
            fresh_id,
            now,
        ),
{
    reveal_with_fuel(run, 5);
}

/// Whatever the state of the binding, deleting a session step by step ends
/// where `delete_world` says.
pub proof fn lemma_delete_runs(
    sessions: Map<Seq<char>, SessionView>,
    store: Map<Seq<char>, Seq<char>>,
    stage: Stage,
    id: Seq<char>,
    fresh_id: Seq<char>,
    now: Timestamp,
)
    ensures
        run(
            delete_start(sessions, id).sessions,
            store,
            stage,
            delete_start(sessions, id).step,
            fresh_id,
            now,
        ) == delete_world(sessions, store, id),
{
    reveal_with_fuel(run, 3);
    if sessions.contains_key(id) {
        let key = sessions[id].user_key;
        if !store.contains_key(key) {
            assert(store.remove(key) =~= store);
        }
    }
}

/// How an owner key stands between the two stores.
pub enum Anchoring {
    /// The mapping store has no identifier for the owner key.
    Unlinked,
    /// The mapping store has an identifier, and no session is held under it.
    LinkedNoSession(Seq<char>),
    /// The mapping store has an identifier, and its session is held.
    LinkedWithSession(Seq<char>),
}

/// How `owner_key` stands between the two stores.
pub open spec fn anchoring(
    sessions: Map<Seq<char>, SessionView>,
    store: Map<Seq<char>, Seq<char>>,
    owner_key: Seq<char>,
) -> Anchoring {
    match lookup(store, owner_key) {
        None => Anchoring::Unlinked,
        Some(session_id) => if sessions.contains_key(session_id) {
            Anchoring::LinkedWithSession(session_id)
        } else {
            Anchoring::LinkedNoSession(session_id)
        },
    }
}

/// Creating a session, by the standing of the owner key: an unlinked key
/// gets a session under the new identifier, a linked key without a session
/// gets its session back under the identifier it has, and a linked key with
/// a session keeps it. Afterwards the key is linked and its session is held.
/// This holds where the lookup shows what the mapping store holds.
pub proof fn lemma_create_links(
    sessions: Map<Seq<char>, SessionView>,
    store: Map<Seq<char>, Seq<char>>,
    stage: Stage,
    owner_key: Seq<char>,
    fresh_id: Seq<char>,
    now: Timestamp,
)
    requires
        shown_truly(store, stage, owner_key),
    ensures
        ({
            let after = create_world(sessions, store, stage, owner_key, fresh_id, now);
            &&& after.completion == match anchoring(sessions, store, owner_key) {
                Anchoring::Unlinked => CompletionView::Created(fresh_id),
                Anchoring::LinkedNoSession(session_id) => CompletionView::Recreated(session_id),
                Anchoring::LinkedWithSession(session_id) => CompletionView::Exists(session_id),
            }
            &&& completion_id(after.completion) matches Some(session_id) && anchoring(
                after.sessions,
                after.store,
                owner_key,
            ) == Anchoring::LinkedWithSession(session_id)
        }),
{
}

/// A deletion that is cut short after its first step leaves the owner key
/// linked without a session, never a session without its link: the next
/// creation for that owner key makes the session again under the same
/// identifier.
pub proof fn lemma_interrupted_delete_recovers(
    sessions: Map<Seq<char>, SessionView>,
    store: Map<Seq<char>, Seq<char>>,
    stage: Stage,
    id: Seq<char>,
    fresh_id: Seq<char>,
    now: Timestamp,
)
    requires
        sessions.contains_key(id),
        lookup(store, sessions[id].user_key) == Some(id),
        shown_truly(store, stage, sessions[id].user_key),
    ensures
        ({
            let owner_key = sessions[id].user_key;
            let cut = delete_start(sessions, id);
            let after = create_world(cut.sessions, store, stage, owner_key, fresh_id, now);
            &&& anchoring(cut.sessions, store, owner_key) == Anchoring::LinkedNoSession(id)
            &&& after.completion == CompletionView::Recreated(id)
            &&& after.store == store
        }),
{
}

/// Every session is anchored: the mapping store holds the session's
/// identifier under the session's owner key.
pub open spec fn anchored(sessions: Map<Seq<char>, SessionView>, store: Map<Seq<char>, Seq<char>>) -> bool {
    forall|id: Seq<char>|
        sessions.contains_key(id) ==> lookup(store, (#[trigger] sessions[id]).user_key) == Some(id)
}

/// Creating and deleting sessions keep every session anchored: no session
/// is ever left without its entry in the mapping store. For a creation this
/// holds where the lookup shows what the mapping store holds.
pub proof fn lemma_sessions_stay_anchored(
    sessions: Map<Seq<char>, SessionView>,
    store: Map<Seq<char>, Seq<char>>,
    stage: Stage,
    owner_key: Seq<char>,
    id: Seq<char>,
    fresh_id: Seq<char>,
    now: Timestamp,
)
    requires
        anchored(sessions, store),
    ensures
        ({
            let made = create_world(sessions, store, stage, owner_key, fresh_id, now);
            let gone = delete_world(sessions, store, id);
            let cut = delete_start(sessions, id);
            &&& shown_truly(store, stage, owner_key) ==> anchored(made.sessions, made.store)
            &&& anchored(gone.sessions, gone.store)
            &&& anchored(cut.sessions, store)
        }),
{
}

/// Creating a session continues every session that is held, as long as the
/// new identifier is not one that is already in use; deleting one continues
/// all the others.
pub proof fn lemma_worlds_continue(
    sessions: Map<Seq<char>, SessionView>,
    store: Map<Seq<char>, Seq<char>>,
    stage: Stage,
    owner_key: Seq<char>,
    id: Seq<char>,
    fresh_id: Seq<char>,
    now: Timestamp,
)
    ensures
        !sessions.contains_key(fresh_id) ==> sessions_continue(
            sessions,
            create_world(sessions, store, stage, owner_key, fresh_id, now).sessions,
        ),
        keyed_by_id(sessions) ==> keyed_by_id(
            create_world(sessions, store, stage, owner_key, fresh_id, now).sessions,
        ),
        sessions_continue(sessions, delete_world(sessions, store, id).sessions),
        keyed_by_id(sessions) ==> keyed_by_id(delete_world(sessions, store, id).sessions),
{
}

/// The identifier that an operation ended with, if it ended with one.
pub open spec fn completion_id(completion: CompletionView) -> Option<Seq<char>> {
    match completion {
        CompletionView::Created(id) => Some(id),
        CompletionView::Exists(id) => Some(id),
        CompletionView::Recreated(id) => Some(id),
        _ => None,
    }
}

/// Creating a session twice for one owner key: the second time the session
/// exists, under the identifier that the first time ended with, and the
/// mapping store is left as the first time left it. Where the owner key had
/// no identifier before, the first time makes the session under the new
/// identifier. The new identifier is one that holds no NUL, as every
/// identifier that is drawn does.
pub proof fn lemma_create_twice(
    sessions: Map<Seq<char>, SessionView>,
    store: Map<Seq<char>, Seq<char>>,
    stage: Stage,
    owner_key: Seq<char>,
    first_id: Seq<char>,
    first_time: Timestamp,
    second_id: Seq<char>,
    second_time: Timestamp,
)
    requires
        !has_nul(first_id),
    ensures
        ({
            let first = create_world(sessions, store, stage, owner_key, first_id, first_time);
            let second = create_world(
                first.sessions,
                first.store,
                stage,
                owner_key,
                second_id,
                second_time,
            );
            &&& !store.contains_key(owner_key) ==> first.completion == CompletionView::Created(first_id)
            &&& completion_id(first.completion) is Some
            &&& second.completion == CompletionView::Exists(completion_id(first.completion).unwrap())
            &&& second.store == first.store
            &&& second.sessions.dom() == first.sessions.dom()
        }),
{
}

/// Where the owner key has an identifier but the session under it is
/// missing, the session is made again under that identifier, not under a new
/// one, and the mapping store is left as it was. This holds where the lookup
/// shows what the mapping store holds.
pub proof fn lemma_create_recovers(
    sessions: Map<Seq<char>, SessionView>,
    store: Map<Seq<char>, Seq<char>>,
    stage: Stage,
    owner_key: Seq<char>,
    fresh_id: Seq<char>,
    now: Timestamp,
)
    requires
        store.contains_key(owner_key),
        !sessions.contains_key(store[owner_key]),
        shown_truly(store, stage, owner_key),
    ensures
        ({
            let after = create_world(sessions, store, stage, owner_key, fresh_id, now);
            &&& after.completion == CompletionView::Recreated(store[owner_key])
            &&& after.store == store
            &&& after.sessions == sessions.insert(
                store[owner_key],
                SessionView::fresh(store[owner_key], owner_key, now),
            )
        }),
{
}

/// Deleting a session that was just made for an owner key leaves no trace:
/// the session is gone, and so is the owner key.
pub proof fn lemma_delete_after_create(
    sessions: Map<Seq<char>, SessionView>,
    store: Map<Seq<char>, Seq<char>>,
    stage: Stage,
    owner_key: Seq<char>,
    fresh_id: Seq<char>,
    now: Timestamp,
)
    requires
        !store.contains_key(owner_key),
    ensures
        ({
            let made = create_world(sessions, store, stage, owner_key, fresh_id, now);
            let gone = delete_world(made.sessions, made.store, fresh_id);
            &&& gone.completion == CompletionView::Deleted(true)
            &&& !gone.sessions.contains_key(fresh_id)
            &&& gone.store == store
        }),
{
}

/// The session collection, the mapping store and the binding between them,
/// held together.
#[derive(Debug)]
pub struct System {
    pub sessions: SessionManager,
    pub store: MappingStore,
    pub binding: Binding,
}

impl System {
    /// Where the system stands, with `completion` as the end of an
    /// operation.
    pub open spec fn world(&self, completion: CompletionView) -> World {
        World { sessions: self.sessions@, store: self.store@, completion }
    }

    /// Two empty stores, with nothing bound.
    pub fn new() -> (system: System)
        ensures
            system.sessions@ == Map::<Seq<char>, SessionView>::empty(),
            system.store@ == Map::<Seq<char>, Seq<char>>::empty(),
            system.binding.stage() == Stage::Unbound,
    {
        System { sessions: SessionManager::new(), store: MappingStore::new(), binding: Binding::new() }
    }

    /// Carries the operation that stands at `step` to its end: each call that
    /// is asked for is answered by the mapping store.
    pub fn drive(&mut self, step: Step, fresh_id: &String, now: Timestamp) -> (completion: Completion)
        ensures
            final(self).world(completion@) == run(
                old(self).sessions@,
                old(self).store@,
                old(self).binding.stage(),
                step@,
                fresh_id@,
                now,
            ),
            final(self).binding.stage() == old(self).binding.stage(),
        decreases calls_left(step@),
    {
        match step {
            Step::Done(completion) => completion,
            Step::Ask(route, pending) => {
                proof {
                    lemma_calls_decrease(
                        self.sessions@,
                        self.store@,
                        self.binding.stage(),
                        route,
                        pending@,
                        fresh_id@,
                        now,
                    );
                }
                let call = pending.call();
                let next = match route {
                    Route::Direct => {
                        let reply = serve_direct(&mut self.store, &self.binding, call);
                        self.sessions.resume_direct_with(pending, reply, fresh_id.clone(), now)
                    },
                    Route::Indirect => {
                        let outcome = serve_host(&mut self.store, &call);
                        self.sessions.resume_host_with(pending, outcome, fresh_id.clone(), now)
                    },
                };
                self.drive(next, fresh_id, now)
            },
        }
    }

    /// Creates a session for `owner_key`, or finds the one it has. `fresh_id`
    /// is the identifier for a session that has to be made, and `now` the
    /// time of the operation.
    pub fn create_or_get_session_with(
        &mut self,
        owner_key: String,
        fresh_id: String,
        now: Timestamp,
    ) -> (completion: Completion)
        ensures
            final(self).world(completion@) == create_world(
                old(self).sessions@,
                old(self).store@,
                old(self).binding.stage(),
                owner_key@,
                fresh_id@,
                now,
            ),
            final(self).binding.stage() == old(self).binding.stage(),
    {
        proof {
            lemma_create_runs(
                self.sessions@,
                self.store@,
                self.binding.stage(),
                owner_key@,
                fresh_id@,
                now,
            );
        }
        let step = begin_create(owner_key);
        self.drive(step, &fresh_id, now)
    }

    /// Creates a session for `owner_key`, or finds the one it has. The
    /// identifier for a session that has to be made is drawn at random, and
    /// the time is read from the clock.
    pub fn create_or_get_session(&mut self, owner_key: String) -> (completion: Completion)
        ensures
            exists|fresh_id: Seq<char>, now: Timestamp|
                is_random_uuid(fresh_id) && final(self).world(completion@) == #[trigger] create_world(
                    old(self).sessions@,
                    old(self).store@,
                    old(self).binding.stage(),
                    owner_key@,
                    fresh_id,
                    now,
                ),
            final(self).binding.stage() == old(self).binding.stage(),
    {
        let fresh_id = fresh_session_id();
        let now = Timestamp::now();
        self.create_or_get_session_with(owner_key, fresh_id, now)
    }

    /// Deletes the session under `id`, and removes its owner key from the
    /// mapping store.
    pub fn delete_session(&mut self, id: &String) -> (completion: Completion)
        ensures
            final(self).world(completion@) == delete_world(old(self).sessions@, old(self).store@, id@),
            final(self).binding.stage() == old(self).binding.stage(),
    {
        let now = Timestamp::now();
        let unused = String::new();
        proof {
            lemma_delete_runs(self.sessions@, self.store@, self.binding.stage(), id@, unused@, now);
        }
        let step = self.sessions.begin_delete(id);
        self.drive(step, &unused, now)
    }
}

} // verus!
