//! The commands, as the host hands them over: the words of the command line,
//! the command's own name first, and the answer that goes back.

use vstd::prelude::*;
use crate::error::{SessionError, SessionErrorView};
use crate::link::{HostReply, HostReplyView};
use crate::protocol::{begin_create, create_start, delete_start, Completion, CompletionView, Step};
use crate::session::{
    lists_each_once, put_session_data, touch_session, Session, SessionManager, SessionView,
};
use crate::store::{lookup, MappingStore};
use crate::text::{opt_text, texts};
use crate::time::Timestamp;

verus! {

/// An answer to a command, as a mathematical value.
pub enum ReplyView {
    Status(Seq<char>),
    Bulk(Seq<char>),
    Integer(int),
    Null,
    Array(Seq<Seq<char>>),
}

/// An answer to a command: a status line, a value, an integer, nothing, or
/// an array of values.
#[derive(Debug, PartialEq, Eq)]
pub enum Reply {
    Status(String),
    Bulk(String),
    Integer(i64),
    Null,
    Array(Vec<String>),
}

impl View for Reply {
    type V = ReplyView;

    open spec fn view(&self) -> ReplyView {
        match self {
            Reply::Status(text) => ReplyView::Status(text@),
            Reply::Bulk(text) => ReplyView::Bulk(text@),
            Reply::Integer(n) => ReplyView::Integer(*n as int),
            Reply::Null => ReplyView::Null,
            Reply::Array(items) => ReplyView::Array(texts(items@)),
        }
    }
}

/// Why a command was refused, as a mathematical value.
pub enum CommandErrorView {
    WrongArity,
    Message(Seq<char>),
}

/// Why a command was refused: it came with the wrong number of words, or for
/// the reason given.
#[derive(Debug, PartialEq, Eq)]
pub enum CommandError {
    WrongArity,
    Message(String),
}

impl View for CommandError {
    type V = CommandErrorView;

    open spec fn view(&self) -> CommandErrorView {
        match self {
            CommandError::WrongArity => CommandErrorView::WrongArity,
            CommandError::Message(text) => CommandErrorView::Message(text@),
        }
    }
}

impl CommandErrorView {
    /// The text by which the refusal is reported.
    pub open spec fn message(self) -> Seq<char> {
        match self {
            CommandErrorView::WrongArity => "Wrong Arity"@,
            CommandErrorView::Message(text) => text,
        }
    }
}

impl CommandError {
    /// The text by which the refusal is reported.
    pub fn message(self) -> (text: String)
        ensures
            text@ == self@.message(),
    {
        match self {
            CommandError::WrongArity => String::from_str("Wrong Arity"),
            CommandError::Message(text) => text,
        }
    }
}

/// How a command ended, as a mathematical value.
pub open spec fn answer(outcome: Result<Reply, CommandError>) -> Result<ReplyView, CommandErrorView> {
    match outcome {
        Ok(reply) => Ok(reply@),
        Err(error) => Err(error@),
    }
}

/// The status line of a command that has nothing else to say.
pub open spec fn ok_reply() -> ReplyView {
    ReplyView::Status("OK"@)
}

/// The answer to a read: the value, or nothing.
pub open spec fn value_reply(value: Option<Seq<char>>) -> ReplyView {
    match value {
        Some(text) => ReplyView::Bulk(text),
        None => ReplyView::Null,
    }
}

/// The answer to a removal: 1 where something was removed, else 0.
pub open spec fn count_reply(removed: bool) -> ReplyView {
    ReplyView::Integer(if removed { 1 } else { 0 })
}

/// The refusal that reports a store whose lock cannot be taken.
pub fn lock_error(exclusive: bool) -> (error: CommandError)
    ensures
        error@ == CommandErrorView::Message(
            if exclusive {
                "Failed to acquire write lock"@
            } else {
                "Failed to acquire read lock"@
            },
        ),
{
    if exclusive {
        CommandError::Message(String::from_str("Failed to acquire write lock"))
    } else {
        CommandError::Message(String::from_str("Failed to acquire read lock"))
    }
}

/// Whether a command line has the command's name and `operands` more words.
pub fn has_arity(args: &Vec<String>, operands: usize) -> (fits: bool)
    ensures
        fits == (args@.len() == operands + 1),
{
    args.len() >= 1 && args.len() - 1 == operands
}

/// The refusal of a command line with the wrong number of words.
pub open spec fn wrong_arity() -> Result<ReplyView, CommandErrorView> {
    Err(CommandErrorView::WrongArity)
}

/// The mapping store after `custom.set`.
pub open spec fn set_store(store: Map<Seq<char>, Seq<char>>, args: Seq<Seq<char>>) -> Map<
    Seq<char>,
    Seq<char>,
> {
    if args.len() == 3 {
        store.insert(args[1], args[2])
    } else {
        store
    }
}

/// The answer to `custom.set`.
pub open spec fn set_answer(args: Seq<Seq<char>>) -> Result<ReplyView, CommandErrorView> {
    if args.len() == 3 {
        Ok(ok_reply())
    } else {
        wrong_arity()
    }
}

/// The answer to `custom.get`.
pub open spec fn get_answer(store: Map<Seq<char>, Seq<char>>, args: Seq<Seq<char>>) -> Result<
    ReplyView,
    CommandErrorView,
> {
    if args.len() == 2 {
        Ok(value_reply(lookup(store, args[1])))
    } else {
        wrong_arity()
    }
}

/// The mapping store after `custom.del`.
pub open spec fn del_store(store: Map<Seq<char>, Seq<char>>, args: Seq<Seq<char>>) -> Map<
    Seq<char>,
    Seq<char>,
> {
    if args.len() == 2 {
        store.remove(args[1])
    } else {
        store
    }
}

/// The answer to `custom.del`.
pub open spec fn del_answer(store: Map<Seq<char>, Seq<char>>, args: Seq<Seq<char>>) -> Result<
    ReplyView,
    CommandErrorView,
> {
    if args.len() == 2 {
        Ok(count_reply(store.contains_key(args[1])))
    } else {
        wrong_arity()
    }
}

/// `custom.set key value`: stores the value under the key.
pub fn custom_set(store: &mut MappingStore, args: &Vec<String>) -> (outcome: Result<Reply, CommandError>)
    ensures
        final(store)@ == set_store(old(store)@, texts(args@)),
        answer(outcome) == set_answer(texts(args@)),
{
    if !has_arity(args, 2) {
        return Err(CommandError::WrongArity);
    }
    store.set(args[1].clone(), args[2].clone());
    Ok(Reply::Status(String::from_str("OK")))
}

/// `custom.get key`: the value under the key, or nothing.
pub fn custom_get(store: &MappingStore, args: &Vec<String>) -> (outcome: Result<Reply, CommandError>)
    ensures
        answer(outcome) == get_answer(store@, texts(args@)),
{
    if !has_arity(args, 1) {
        return Err(CommandError::WrongArity);
    }
    match store.get(&args[1]) {
        Some(value) => Ok(Reply::Bulk(value.clone())),
        None => Ok(Reply::Null),
    }
}

/// `custom.keys`: the keys held, each of them once.
pub fn custom_keys(store: &MappingStore, args: &Vec<String>) -> (outcome: Result<Reply, CommandError>)
    ensures
        args@.len() == 1 ==> (answer(outcome) matches Ok(ReplyView::Array(keys)) && keys.to_set()
            == store@.dom() && keys.no_duplicates() && keys.len() == store@.dom().len()),
        args@.len() != 1 ==> answer(outcome) == wrong_arity(),
{
    if !has_arity(args, 0) {
        return Err(CommandError::WrongArity);
    }
    Ok(Reply::Array(store.keys()))
}

/// `custom.del key`: removes the key, and answers 1 if it was held, else 0.
pub fn custom_del(store: &mut MappingStore, args: &Vec<String>) -> (outcome: Result<Reply, CommandError>)
    ensures
        final(store)@ == del_store(old(store)@, texts(args@)),
        answer(outcome) == del_answer(old(store)@, texts(args@)),
{
    if !has_arity(args, 1) {
        return Err(CommandError::WrongArity);
    }
    if store.del(&args[1]) {
        Ok(Reply::Integer(1))
    } else {
        Ok(Reply::Integer(0))
    }
}

/// The answers of the store's commands agree with one another: a value is
/// read back as it was set; after a delete the key reads as nothing; and a
/// delete of a key that is not held answers 0 and changes nothing.
pub proof fn lemma_store_answers_agree(store: Map<Seq<char>, Seq<char>>, key: Seq<char>, value: Seq<char>)
    ensures
        ({
            let set = seq!["custom.set"@, key, value];
            let get = seq!["custom.get"@, key];
            let del = seq!["custom.del"@, key];
            &&& set_answer(set) == Ok::<ReplyView, CommandErrorView>(ok_reply())
            &&& get_answer(set_store(store, set), get) == Ok::<ReplyView, CommandErrorView>(
                ReplyView::Bulk(value),
            )
            &&& get_answer(del_store(store, del), get) == Ok::<ReplyView, CommandErrorView>(
                ReplyView::Null,
            )
            &&& del_answer(store, del) == Ok::<ReplyView, CommandErrorView>(
                ReplyView::Integer(if store.contains_key(key) { 1 } else { 0 }),
            )
            &&& del_answer(del_store(store, del), del) == Ok::<ReplyView, CommandErrorView>(
                ReplyView::Integer(0),
            )
            &&& !store.contains_key(key) ==> del_store(store, del) == store
        }),
{
}

/// The answer that reports how an operation on sessions ended.
pub open spec fn completion_answer(completion: CompletionView) -> Result<ReplyView, CommandErrorView> {
    match completion {
        CompletionView::Created(id) => Ok(ReplyView::Status("Session created: "@ + id)),
        CompletionView::Exists(id) => Ok(ReplyView::Status("Session exists: "@ + id)),
        CompletionView::Recreated(id) => Ok(ReplyView::Status("Session recreated: "@ + id)),
        CompletionView::Deleted(deleted) => Ok(count_reply(deleted)),
        CompletionView::Failed(error) => Err(CommandErrorView::Message(error.message())),
    }
}

/// The answer that reports how an operation on sessions ended.
pub fn completion_reply(completion: Completion) -> (outcome: Result<Reply, CommandError>)
    ensures
        answer(outcome) == completion_answer(completion@),
{
    match completion {
        Completion::Created(id) => {
            let mut line = String::from_str("Session created: ");
            line.append(id.as_str());
            Ok(Reply::Status(line))
        },
        Completion::Exists(id) => {
            let mut line = String::from_str("Session exists: ");
            line.append(id.as_str());
            Ok(Reply::Status(line))
        },
        Completion::Recreated(id) => {
            let mut line = String::from_str("Session recreated: ");
            line.append(id.as_str());
            Ok(Reply::Status(line))
        },
        Completion::Deleted(deleted) => {
            if deleted {
                Ok(Reply::Integer(1))
            } else {
                Ok(Reply::Integer(0))
            }
        },
        Completion::Failed(error) => Err(CommandError::Message(error.message())),
    }
}

/// The refusal that reports a failure of the session layer.
pub fn refusal(error: SessionError) -> (refused: CommandError)
    ensures
        refused@ == CommandErrorView::Message(error@.message()),
{
    CommandError::Message(error.message())
}

/// `session.create owner-key`: the first step of creating a session, or of
/// finding the one that the owner key has.
pub fn create_session(args: &Vec<String>) -> (outcome: Result<Step, CommandError>)
    ensures
        match outcome {
            Ok(step) => args@.len() == 2 && step@ == create_start(args@[1]@),
            Err(error) => args@.len() != 2 && error@ == CommandErrorView::WrongArity,
        },
{
    if !has_arity(args, 1) {
        return Err(CommandError::WrongArity);
    }
    Ok(begin_create(args[1].clone()))
}

/// `session.delete id`: the first step of deleting the session.
pub fn delete_session(manager: &mut SessionManager, args: &Vec<String>) -> (outcome: Result<
    Step,
    CommandError,
>)
    ensures
        match outcome {
            Ok(step) => args@.len() == 2 && step@ == delete_start(old(manager)@, args@[1]@).step
                && final(manager)@ == delete_start(old(manager)@, args@[1]@).sessions,
            Err(error) => args@.len() != 2 && error@ == CommandErrorView::WrongArity && final(manager)@
                == old(manager)@,
        },
{
    if !has_arity(args, 1) {
        return Err(CommandError::WrongArity);
    }
    Ok(manager.begin_delete(&args[1]))
}

/// `session.get id`: the session, if it is held. It is left to the caller
/// to write it out.
pub fn get_session<'a>(manager: &'a SessionManager, args: &Vec<String>) -> (outcome: Result<
    Option<&'a Session>,
    CommandError,
>)
    ensures
        match outcome {
            Ok(Some(session)) => args@.len() == 2 && manager@.contains_key(args@[1]@) && session@
                == manager@[args@[1]@],
            Ok(None) => args@.len() == 2 && !manager@.contains_key(args@[1]@),
            Err(error) => args@.len() != 2 && error@ == CommandErrorView::WrongArity,
        },
{
    if !has_arity(args, 1) {
        return Err(CommandError::WrongArity);
    }
    Ok(manager.get_session(&args[1]))
}

/// The answer to `session.get`, from the session as it was written out.
pub fn session_reply(written: Option<String>) -> (reply: Reply)
    ensures
        reply@ == value_reply(opt_text(written)),
{
    match written {
        Some(text) => Reply::Bulk(text),
        None => Reply::Null,
    }
}

/// `session.list`: one summary line for each session held.
pub fn list_sessions(manager: &SessionManager, args: &Vec<String>) -> (outcome: Result<
    Reply,
    CommandError,
>)
    ensures
        args@.len() == 1 ==> (answer(outcome) matches Ok(ReplyView::Array(lines)) && lines.len()
            == manager@.dom().len() && lists_each_once(manager@, lines)),
        args@.len() != 1 ==> answer(outcome) == wrong_arity(),
{
    if !has_arity(args, 0) {
        return Err(CommandError::WrongArity);
    }
    Ok(Reply::Array(manager.list_sessions()))
}

/// The sessions after `session.add_data`.
pub open spec fn add_data_sessions(
    sessions: Map<Seq<char>, SessionView>,
    args: Seq<Seq<char>>,
    now: Timestamp,
) -> Map<Seq<char>, SessionView> {
    if args.len() == 4 {
        put_session_data(sessions, args[1], args[2], args[3], now)
    } else {
        sessions
    }
}

/// The answer to `session.add_data`.
pub open spec fn add_data_answer(sessions: Map<Seq<char>, SessionView>, args: Seq<Seq<char>>) -> Result<
    ReplyView,
    CommandErrorView,
> {
    if args.len() != 4 {
        wrong_arity()
    } else if sessions.contains_key(args[1]) {
        Ok(ok_reply())
    } else {
        Err(CommandErrorView::Message(SessionErrorView::NotFound(args[1]).message()))
    }
}

/// `session.add_data id key value`, at the time `now`.
pub fn add_session_data_at(manager: &mut SessionManager, args: &Vec<String>, now: Timestamp) -> (outcome:
    Result<Reply, CommandError>)
    ensures
        final(manager)@ == add_data_sessions(old(manager)@, texts(args@), now),
        answer(outcome) == add_data_answer(old(manager)@, texts(args@)),
{
    if !has_arity(args, 3) {
        return Err(CommandError::WrongArity);
    }
    match manager.add_session_data(&args[1], args[2].clone(), args[3].clone(), now) {
        Ok(_) => Ok(Reply::Status(String::from_str("OK"))),
        Err(error) => Err(refusal(error)),
    }
}

/// `session.add_data id key value`, at the time that the clock shows.
pub fn add_session_data(manager: &mut SessionManager, args: &Vec<String>) -> (outcome: Result<
    Reply,
    CommandError,
>)
    ensures
        exists|now: Timestamp|
            final(manager)@ == #[trigger] add_data_sessions(old(manager)@, texts(args@), now),
        answer(outcome) == add_data_answer(old(manager)@, texts(args@)),
{
    add_session_data_at(manager, args, Timestamp::now())
}

/// The sessions after `session.get_data`.
pub open spec fn get_data_sessions(
    sessions: Map<Seq<char>, SessionView>,
    args: Seq<Seq<char>>,
    now: Timestamp,
) -> Map<Seq<char>, SessionView> {
    if args.len() == 3 {
        touch_session(sessions, args[1], now)
    } else {
        sessions
    }
}

/// The answer to `session.get_data`.
pub open spec fn get_data_answer(sessions: Map<Seq<char>, SessionView>, args: Seq<Seq<char>>) -> Result<
    ReplyView,
    CommandErrorView,
> {
    if args.len() != 3 {
        wrong_arity()
    } else if sessions.contains_key(args[1]) {
        Ok(value_reply(lookup(sessions[args[1]].data, args[2])))
    } else {
        Err(CommandErrorView::Message(SessionErrorView::NotFound(args[1]).message()))
    }
}

/// `session.get_data id key`, at the time `now`.
pub fn get_session_data_at(manager: &mut SessionManager, args: &Vec<String>, now: Timestamp) -> (outcome:
    Result<Reply, CommandError>)
    ensures
        final(manager)@ == get_data_sessions(old(manager)@, texts(args@), now),
        answer(outcome) == get_data_answer(old(manager)@, texts(args@)),
{
    if !has_arity(args, 2) {
        return Err(CommandError::WrongArity);
    }
    match manager.get_session_data(&args[1], &args[2], now) {
        Ok(Some(value)) => Ok(Reply::Bulk(value)),
        Ok(None) => Ok(Reply::Null),
        Err(error) => Err(refusal(error)),
    }
}

/// `session.get_data id key`, at the time that the clock shows.
pub fn get_session_data(manager: &mut SessionManager, args: &Vec<String>) -> (outcome: Result<
    Reply,
    CommandError,
>)
    ensures
        exists|now: Timestamp|
            final(manager)@ == #[trigger] get_data_sessions(old(manager)@, texts(args@), now),
        answer(outcome) == get_data_answer(old(manager)@, texts(args@)),
{
    get_session_data_at(manager, args, Timestamp::now())
}

/// The tag under which a caller of the host sees `reply`: a status line and
/// a value are texts, nothing is absent, and the rest is something else.
pub open spec fn reply_tag(reply: ReplyView) -> HostReplyView {
    match reply {
        ReplyView::Status(text) => HostReplyView::Text(text),
        ReplyView::Bulk(text) => HostReplyView::Text(text),
        ReplyView::Null => HostReplyView::Null,
        _ => HostReplyView::Other,
    }
}

/// The tag under which a caller of the host sees `reply`.
pub fn tag_reply(reply: Reply) -> (tagged: HostReply)
    ensures
        tagged@ == reply_tag(reply@),
{
    match reply {
        Reply::Status(text) => HostReply::Text(text),
        Reply::Bulk(text) => HostReply::Text(text),
        Reply::Null => HostReply::Null,
        _ => HostReply::Other,
    }
}

} // verus!
