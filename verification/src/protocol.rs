//! The two operations of the session layer that span both stores.
//!
//! Creating and deleting a session each change the session collection and
//! the mapping store, which share no transaction. Each is therefore a small
//! state machine. The session layer says which call to the mapping store it
//! waits for and over which route; the caller makes the call and hands the
//! answer back; the session layer then says what comes next. A call that the
//! direct route does not settle is asked once more over the indirect route,
//! and never again.

use vstd::prelude::*;
use crate::error::{SessionError, SessionErrorView};
use crate::ident::{fresh_session_id, is_random_uuid};
use crate::link::{
    host_outcome, read_reply, read_value, DirectReply, DirectReplyView, HostReply, HostReplyView,
    Route, StoreCall, StoreCallView, StoreCommand,
};
use crate::session::{
    attach_session, keyed_by_id, lemma_listing_is_complete, lemma_listings_agree, lists_each_once,
    Session, SessionManager, SessionView,
};
use crate::time::Timestamp;

verus! {

/// What the session layer waits for, as a mathematical value.
pub enum PendingView {
    Lookup { owner_key: Seq<char> },
    Link { owner_key: Seq<char>, session_id: Seq<char> },
    Unlink { session: SessionView },
}

impl PendingView {
    /// The call to the mapping store that is waited for.
    pub open spec fn call(self) -> StoreCallView {
        match self {
            PendingView::Lookup { owner_key } => StoreCallView::Lookup { key: owner_key },
            PendingView::Link { owner_key, session_id } => StoreCallView::Assign {
                key: owner_key,
                value: session_id,
            },
            PendingView::Unlink { session } => StoreCallView::Remove { key: session.user_key },
        }
    }
}

/// What the session layer waits for.
#[derive(Debug)]
pub enum Pending {
    /// The identifier stored under an owner key, while a session is created.
    Lookup { owner_key: String },
    /// The storing of a new identifier under an owner key.
    Link { owner_key: String, session_id: String },
    /// The removal of the owner key of a session that was taken out of the
    /// collection and is held here until the removal is settled.
    Unlink { session: Session },
}

impl View for Pending {
    type V = PendingView;

    open spec fn view(&self) -> PendingView {
        match self {
            Pending::Lookup { owner_key } => PendingView::Lookup { owner_key: owner_key@ },
            Pending::Link { owner_key, session_id } => PendingView::Link {
                owner_key: owner_key@,
                session_id: session_id@,
            },
            Pending::Unlink { session } => PendingView::Unlink { session: session@ },
        }
    }
}

impl Pending {
    /// The call to the mapping store that is waited for.
    pub fn call(&self) -> (call: StoreCall)
        ensures
            call@ == self@.call(),
    {
        match self {
            Pending::Lookup { owner_key } => StoreCall::Lookup { key: owner_key.clone() },
            Pending::Link { owner_key, session_id } => StoreCall::Assign {
                key: owner_key.clone(),
                value: session_id.clone(),
            },
            Pending::Unlink { session } => StoreCall::Remove { key: session.user_key().clone() },
        }
    }
}

/// How an operation ended, as a mathematical value.
pub enum CompletionView {
    Created(Seq<char>),
    Exists(Seq<char>),
    Recreated(Seq<char>),
    Deleted(bool),
    Failed(SessionErrorView),
}

/// How an operation ended.
#[derive(Debug, PartialEq, Eq)]
pub enum Completion {
    /// A session was made under a new identifier.
    Created(String),
    /// The owner key had an identifier, and its session was there.
    Exists(String),
    /// The owner key had an identifier, and its session was made again.
    Recreated(String),
    /// The deletion is settled; the flag says whether there was a session.
    Deleted(bool),
    /// Nothing was changed.
    Failed(SessionError),
}

impl View for Completion {
    type V = CompletionView;

    open spec fn view(&self) -> CompletionView {
        match self {
            Completion::Created(id) => CompletionView::Created(id@),
            Completion::Exists(id) => CompletionView::Exists(id@),
            Completion::Recreated(id) => CompletionView::Recreated(id@),
            Completion::Deleted(deleted) => CompletionView::Deleted(*deleted),
            Completion::Failed(error) => CompletionView::Failed(error@),
        }
    }
}

/// What comes next, as a mathematical value.
pub enum StepView {
    Ask(Route, PendingView),
    Done(CompletionView),
}

/// What comes next: a call to make over a route, or the end.
#[derive(Debug)]
pub enum Step {
    Ask(Route, Pending),
    Done(Completion),
}

impl View for Step {
    type V = StepView;

    open spec fn view(&self) -> StepView {
        match self {
            Step::Ask(route, pending) => StepView::Ask(*route, pending@),
            Step::Done(completion) => StepView::Done(completion@),
        }
    }
}

/// A pair of the sessions and the step that follows.
pub struct Turn {
    pub sessions: Map<Seq<char>, SessionView>,
    pub step: StepView,
}

/// The first step of creating a session for `owner_key`: look the key up
/// over the direct route.
pub open spec fn create_start(owner_key: Seq<char>) -> StepView {
    StepView::Ask(Route::Direct, PendingView::Lookup { owner_key })
}

/// The first step of deleting the session under `id`: the session leaves the
/// collection, and its owner key is to be removed over the direct route.
/// Where there is no such session, nothing is left to do.
pub open spec fn delete_start(sessions: Map<Seq<char>, SessionView>, id: Seq<char>) -> Turn {
    if sessions.contains_key(id) {
        Turn {
            sessions: sessions.remove(id),
            step: StepView::Ask(Route::Direct, PendingView::Unlink { session: sessions[id] }),
        }
    } else {
        Turn { sessions, step: StepView::Done(CompletionView::Deleted(false)) }
    }
}

/// The owner key has the identifier `session_id`: its session is touched, or
/// made again where it is missing.
pub open spec fn found_turn(
    sessions: Map<Seq<char>, SessionView>,
    session_id: Seq<char>,
    owner_key: Seq<char>,
    now: Timestamp,
) -> Turn {
    Turn {
        sessions: attach_session(sessions, session_id, owner_key, now),
        step: StepView::Done(
            if sessions.contains_key(session_id) {
                CompletionView::Exists(session_id)
            } else {
                CompletionView::Recreated(session_id)
            },
        ),
    }
}

/// The new identifier is stored under the owner key: the session is made.
pub open spec fn created_turn(
    sessions: Map<Seq<char>, SessionView>,
    session_id: Seq<char>,
    owner_key: Seq<char>,
    now: Timestamp,
) -> Turn {
    Turn {
        sessions: sessions.insert(session_id, SessionView::fresh(session_id, owner_key, now)),
        step: StepView::Done(CompletionView::Created(session_id)),
    }
}

/// What follows an answer over the direct route.
///
/// A lookup is settled by a text or its absence, a set and a delete by the
/// code 1. Every other answer sends the same call over the indirect route.
pub open spec fn direct_turn(
    sessions: Map<Seq<char>, SessionView>,
    pending: PendingView,
    reply: DirectReplyView,
    fresh_id: Seq<char>,
    now: Timestamp,
) -> Turn {
    match pending {
        PendingView::Lookup { owner_key } => match reply {
            DirectReplyView::Text(Some(session_id)) => found_turn(sessions, session_id, owner_key, now),
            DirectReplyView::Text(None) => Turn {
                sessions,
                step: StepView::Ask(Route::Direct, PendingView::Link { owner_key, session_id: fresh_id }),
            },
            _ => Turn { sessions, step: StepView::Ask(Route::Indirect, pending) },
        },
        PendingView::Link { owner_key, session_id } => if reply == DirectReplyView::Code(1) {
            created_turn(sessions, session_id, owner_key, now)
        } else {
            Turn { sessions, step: StepView::Ask(Route::Indirect, pending) }
        },
        PendingView::Unlink { session } => if reply == DirectReplyView::Code(1) {
            Turn { sessions, step: StepView::Done(CompletionView::Deleted(true)) }
        } else {
            Turn { sessions, step: StepView::Ask(Route::Indirect, pending) }
        },
    }
}

/// What follows the outcome of a call over the indirect route.
///
/// A lookup is settled by a text tag or an absent tag; any other tag is an
/// error. A set and a delete are settled by any answer. Where the host
/// reports an error, the operation fails: a session that was to be made is
/// not made, and a session that was taken out is put back.
pub open spec fn host_turn(
    sessions: Map<Seq<char>, SessionView>,
    pending: PendingView,
    outcome: Result<HostReplyView, Seq<char>>,
    fresh_id: Seq<char>,
    now: Timestamp,
) -> Turn {
    match pending {
        PendingView::Lookup { owner_key } => match outcome {
            Ok(reply) => match read_value(reply) {
                Some(Some(session_id)) => found_turn(sessions, session_id, owner_key, now),
                Some(None) => Turn {
                    sessions,
                    step: StepView::Ask(
                        Route::Direct,
                        PendingView::Link { owner_key, session_id: fresh_id },
                    ),
                },
                None => Turn {
                    sessions,
                    step: StepView::Done(CompletionView::Failed(SessionErrorView::UnexpectedReply)),
                },
            },
            Err(detail) => Turn {
                sessions,
                step: StepView::Done(
                    CompletionView::Failed(SessionErrorView::LinkFailed(StoreCommand::Lookup, detail)),
                ),
            },
        },
        PendingView::Link { owner_key, session_id } => match outcome {
            Ok(_) => created_turn(sessions, session_id, owner_key, now),
            Err(detail) => Turn {
                sessions,
                step: StepView::Done(
                    CompletionView::Failed(SessionErrorView::LinkFailed(StoreCommand::Assign, detail)),
                ),
            },
        },
        PendingView::Unlink { session } => match outcome {
            Ok(_) => Turn { sessions, step: StepView::Done(CompletionView::Deleted(true)) },
            Err(detail) => Turn {
                sessions: sessions.insert(session.id, session),
                step: StepView::Done(
                    CompletionView::Failed(SessionErrorView::LinkFailed(StoreCommand::Remove, detail)),
                ),
            },
        },
    }
}

/// Whether the answer makes the session layer pick a new identifier.
pub open spec fn direct_wants_id(pending: PendingView, reply: DirectReplyView) -> bool {
    pending is Lookup && reply == DirectReplyView::Text(None)
}

/// Whether the outcome makes the session layer pick a new identifier.
pub open spec fn host_wants_id(pending: PendingView, outcome: Result<HostReplyView, Seq<char>>) -> bool {
    pending is Lookup && outcome == Ok::<HostReplyView, Seq<char>>(HostReplyView::Null)
}

/// A deletion whose removal from the mapping store fails over both routes
/// leaves the sessions exactly as they were before it began: the session
/// that was taken out is back under its identifier.
pub proof fn lemma_delete_rolls_back(
    sessions: Map<Seq<char>, SessionView>,
    id: Seq<char>,
    reply: DirectReplyView,
    detail: Seq<char>,
    fresh_id: Seq<char>,
    first_time: Timestamp,
    second_time: Timestamp,
)
    requires
        keyed_by_id(sessions),
        sessions.contains_key(id),
        reply != DirectReplyView::Code(1),
    ensures
        ({
            let pending = PendingView::Unlink { session: sessions[id] };
            let begun = delete_start(sessions, id);
            let retried = direct_turn(begun.sessions, pending, reply, fresh_id, first_time);
            let ended = host_turn(retried.sessions, pending, Err(detail), fresh_id, second_time);
            &&& begun.step == StepView::Ask(Route::Direct, pending)
            &&& !begun.sessions.contains_key(id)
            &&& retried.step == StepView::Ask(Route::Indirect, pending)
            &&& ended.step == StepView::Done(
                CompletionView::Failed(SessionErrorView::LinkFailed(StoreCommand::Remove, detail)),
            )
            &&& ended.sessions == sessions
        }),
{
}

/// After a deletion that was rolled back, the list of sessions holds the
/// same lines as before, each as often as before: the session's line is
/// there, and the two lists differ in order at most.
pub proof fn lemma_rolled_back_list(
    sessions: Map<Seq<char>, SessionView>,
    id: Seq<char>,
    reply: DirectReplyView,
    detail: Seq<char>,
    fresh_id: Seq<char>,
    first_time: Timestamp,
    second_time: Timestamp,
    before: Seq<Seq<char>>,
    after: Seq<Seq<char>>,
)
    requires
        keyed_by_id(sessions),
        sessions.contains_key(id),
        reply != DirectReplyView::Code(1),
        lists_each_once(sessions, before),
        ({
            let pending = PendingView::Unlink { session: sessions[id] };
            let begun = delete_start(sessions, id);
            let retried = direct_turn(begun.sessions, pending, reply, fresh_id, first_time);
            let ended = host_turn(retried.sessions, pending, Err(detail), fresh_id, second_time);
            lists_each_once(ended.sessions, after)
        }),
    ensures
        after.to_multiset() == before.to_multiset(),
        after.len() == before.len(),
        after.contains(sessions[id].summary()),
{
    lemma_delete_rolls_back(sessions, id, reply, detail, fresh_id, first_time, second_time);
    lemma_listings_agree(sessions, after, before);
    lemma_listing_is_complete(sessions, after, id, 0);
    after.to_multiset_ensures();
    before.to_multiset_ensures();
}

/// A creation whose storing of the new identifier fails over both routes
/// makes no session.
pub proof fn lemma_create_aborts(
    sessions: Map<Seq<char>, SessionView>,
    owner_key: Seq<char>,
    session_id: Seq<char>,
    reply: DirectReplyView,
    detail: Seq<char>,
    fresh_id: Seq<char>,
    first_time: Timestamp,
    second_time: Timestamp,
)
    requires
        reply != DirectReplyView::Code(1),
    ensures
        ({
            let pending = PendingView::Link { owner_key, session_id };
            let retried = direct_turn(sessions, pending, reply, fresh_id, first_time);
            let ended = host_turn(retried.sessions, pending, Err(detail), fresh_id, second_time);
            &&& retried.step == StepView::Ask(Route::Indirect, pending)
            &&& ended.step == StepView::Done(
                CompletionView::Failed(SessionErrorView::LinkFailed(StoreCommand::Assign, detail)),
            )
            &&& ended.sessions == sessions
        }),
{
}

/// No call is asked more than twice: what follows an answer over the
/// indirect route is the end, or the next call over the direct route.
pub proof fn lemma_one_fallback(
    sessions: Map<Seq<char>, SessionView>,
    pending: PendingView,
    outcome: Result<HostReplyView, Seq<char>>,
    fresh_id: Seq<char>,
    now: Timestamp,
)
    ensures
        match host_turn(sessions, pending, outcome, fresh_id, now).step {
            StepView::Done(_) => true,
            StepView::Ask(route, next) => route == Route::Direct && pending is Lookup && next is Link,
        },
{
}

/// The first step of creating a session for `owner_key`.
pub fn begin_create(owner_key: String) -> (step: Step)
    ensures
        step@ == create_start(owner_key@),
{
    Step::Ask(Route::Direct, Pending::Lookup { owner_key })
}

impl SessionManager {
    /// The first step of deleting the session under `id`.
    pub fn begin_delete(&mut self, id: &String) -> (step: Step)
        ensures
            final(self)@ == delete_start(old(self)@, id@).sessions,
            step@ == delete_start(old(self)@, id@).step,
    {
        match self.detach(id) {
            Some(session) => Step::Ask(Route::Direct, Pending::Unlink { session }),
            None => Step::Done(Completion::Deleted(false)),
        }
    }

    fn found(&mut self, session_id: String, owner_key: String, now: Timestamp) -> (step: Step)
        ensures
            final(self)@ == found_turn(old(self)@, session_id@, owner_key@, now).sessions,
            step@ == found_turn(old(self)@, session_id@, owner_key@, now).step,
    {
        let id = session_id.clone();
        if self.attach(session_id, owner_key, now) {
            Step::Done(Completion::Exists(id))
        } else {
            Step::Done(Completion::Recreated(id))
        }
    }

    fn created(&mut self, session_id: String, owner_key: String, now: Timestamp) -> (step: Step)
        ensures
            final(self)@ == created_turn(old(self)@, session_id@, owner_key@, now).sessions,
            step@ == created_turn(old(self)@, session_id@, owner_key@, now).step,
    {
        let id = session_id.clone();
        self.insert(Session::new(session_id, owner_key, now));
        Step::Done(Completion::Created(id))
    }

    /// Takes the answer of the direct route to the call that `pending` waits
    /// for. `fresh_id` is the identifier to give to a session that has to be
    /// made, and `now` the time of the step.
    pub fn resume_direct_with(
        &mut self,
        pending: Pending,
        reply: DirectReply,
        fresh_id: String,
        now: Timestamp,
    ) -> (step: Step)
        ensures
            final(self)@ == direct_turn(old(self)@, pending@, reply@, fresh_id@, now).sessions,
            step@ == direct_turn(old(self)@, pending@, reply@, fresh_id@, now).step,
    {
        match pending {
            Pending::Lookup { owner_key } => match reply {
                DirectReply::Text(Some(session_id)) => self.found(session_id, owner_key, now),
                DirectReply::Text(None) => Step::Ask(
                    Route::Direct,
                    Pending::Link { owner_key, session_id: fresh_id },
                ),
                _ => Step::Ask(Route::Indirect, Pending::Lookup { owner_key }),
            },
            Pending::Link { owner_key, session_id } => {
                if settled_by_code(&reply) {
                    self.created(session_id, owner_key, now)
                } else {
                    Step::Ask(Route::Indirect, Pending::Link { owner_key, session_id })
                }
            },
            Pending::Unlink { session } => {
                if settled_by_code(&reply) {
                    Step::Done(Completion::Deleted(true))
                } else {
                    Step::Ask(Route::Indirect, Pending::Unlink { session })
                }
            },
        }
    }

    /// Takes the outcome of the indirect route for the call that `pending`
    /// waits for. `fresh_id` is the identifier to give to a session that has
    /// to be made, and `now` the time of the step.
    pub fn resume_host_with(
        &mut self,
        pending: Pending,
        outcome: Result<HostReply, String>,
        fresh_id: String,
        now: Timestamp,
    ) -> (step: Step)
        ensures
            final(self)@ == host_turn(old(self)@, pending@, host_outcome(outcome), fresh_id@, now).sessions,
            step@ == host_turn(old(self)@, pending@, host_outcome(outcome), fresh_id@, now).step,
    {
        match pending {
            Pending::Lookup { owner_key } => match outcome {
                Ok(reply) => match read_reply(reply) {
                    Some(Some(session_id)) => self.found(session_id, owner_key, now),
                    Some(None) => Step::Ask(
                        Route::Direct,
                        Pending::Link { owner_key, session_id: fresh_id },
                    ),
                    None => Step::Done(Completion::Failed(SessionError::UnexpectedReply)),
                },
                Err(detail) => Step::Done(
                    Completion::Failed(SessionError::LinkFailed(StoreCommand::Lookup, detail)),
                ),
            },
            Pending::Link { owner_key, session_id } => match outcome {
                Ok(_) => self.created(session_id, owner_key, now),
                Err(detail) => Step::Done(
                    Completion::Failed(SessionError::LinkFailed(StoreCommand::Assign, detail)),
                ),
            },
            Pending::Unlink { session } => match outcome {
                Ok(_) => Step::Done(Completion::Deleted(true)),
                Err(detail) => {
                    self.insert(session);
                    Step::Done(Completion::Failed(SessionError::LinkFailed(StoreCommand::Remove, detail)))
                },
            },
        }
    }
}

impl SessionManager {
    /// Takes the answer of the direct route to the call that `pending` waits
    /// for. Where a session has to be made, its identifier is drawn at
    /// random, and the time is read from the clock.
    pub fn resume_direct(&mut self, pending: Pending, reply: DirectReply) -> (step: Step)
        ensures
            exists|fresh_id: Seq<char>, now: Timestamp|
                {
                    let turn = #[trigger] direct_turn(old(self)@, pending@, reply@, fresh_id, now);
                    &&& direct_wants_id(pending@, reply@) ==> is_random_uuid(fresh_id)
                    &&& final(self)@ == turn.sessions
                    &&& step@ == turn.step
                },
    {
        let fresh_id = if direct_asks_id(&pending, &reply) {
            fresh_session_id()
        } else {
            String::new()
        };
        let now = Timestamp::now();
        self.resume_direct_with(pending, reply, fresh_id, now)
    }

    /// Takes the outcome of the indirect route for the call that `pending`
    /// waits for. Where a session has to be made, its identifier is drawn at
    /// random, and the time is read from the clock.
    pub fn resume_host(&mut self, pending: Pending, outcome: Result<HostReply, String>) -> (step: Step)
        ensures
            exists|fresh_id: Seq<char>, now: Timestamp|
                {
                    let turn = #[trigger] host_turn(
                        old(self)@,
                        pending@,
                        host_outcome(outcome),
                        fresh_id,
                        now,
                    );
                    &&& host_wants_id(pending@, host_outcome(outcome)) ==> is_random_uuid(fresh_id)
                    &&& final(self)@ == turn.sessions
                    &&& step@ == turn.step
                },
    {
        let fresh_id = if host_asks_id(&pending, &outcome) {
            fresh_session_id()
        } else {
            String::new()
        };
        let now = Timestamp::now();
        self.resume_host_with(pending, outcome, fresh_id, now)
    }
}

/// Whether the answer makes the session layer pick a new identifier.
pub fn direct_asks_id(pending: &Pending, reply: &DirectReply) -> (wanted: bool)
    ensures
        wanted == direct_wants_id(pending@, reply@),
{
    match pending {
        Pending::Lookup { .. } => match reply {
            DirectReply::Text(None) => true,
            _ => false,
        },
        _ => false,
    }
}

/// Whether the outcome makes the session layer pick a new identifier.
pub fn host_asks_id(pending: &Pending, outcome: &Result<HostReply, String>) -> (wanted: bool)
    ensures
        wanted == host_wants_id(pending@, host_outcome(*outcome)),
{
    match pending {
        Pending::Lookup { .. } => match outcome {
            Ok(HostReply::Null) => true,
            _ => false,
        },
        _ => false,
    }
}

/// Whether the direct route answered with the code for success.
pub fn settled_by_code(reply: &DirectReply) -> (settled: bool)
    ensures
        settled == (reply@ == DirectReplyView::Code(1)),
{
    match reply {
        DirectReply::Code(code) => *code == 1,
        _ => false,
    }
}

} // verus!
