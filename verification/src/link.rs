//! What the session layer asks of the mapping store, and what it can be told.
//!
//! The store is reached over two routes. The direct route calls the store's
//! three raw entry points; the indirect route hands a command to the host and
//! reads the host's tagged answer.

use vstd::prelude::*;
use crate::text::{opt_text, texts};

verus! {

/// The three operations that can be asked of the mapping store.
#[derive(Clone, Copy, Debug, PartialEq, Eq, Structural)]
pub enum StoreCommand {
    Assign,
    Lookup,
    Remove,
}

impl StoreCommand {
    /// The name under which the host knows the command.
    pub open spec fn name_text(self) -> Seq<char> {
        match self {
            StoreCommand::Assign => "custom.set"@,
            StoreCommand::Lookup => "custom.get"@,
            StoreCommand::Remove => "custom.del"@,
        }
    }

    /// The name of the raw entry point that carries the command out.
    pub open spec fn symbol_text(self) -> Seq<char> {
        match self {
            StoreCommand::Assign => "custom_hashmap_set"@,
            StoreCommand::Lookup => "custom_hashmap_get"@,
            StoreCommand::Remove => "custom_hashmap_del"@,
        }
    }

    pub fn name(self) -> (name: &'static str)
        ensures
            name@ == self.name_text(),
    {
        match self {
            StoreCommand::Assign => "custom.set",
            StoreCommand::Lookup => "custom.get",
            StoreCommand::Remove => "custom.del",
        }
    }

    pub fn symbol(self) -> (symbol: &'static str)
        ensures
            symbol@ == self.symbol_text(),
    {
        match self {
            StoreCommand::Assign => "custom_hashmap_set",
            StoreCommand::Lookup => "custom_hashmap_get",
            StoreCommand::Remove => "custom_hashmap_del",
        }
    }
}

/// The two routes to the mapping store.
#[derive(Clone, Copy, Debug, PartialEq, Eq, Structural)]
pub enum Route {
    Direct,
    Indirect,
}

/// One operation on the mapping store, with its arguments as text.
pub enum StoreCallView {
    Assign { key: Seq<char>, value: Seq<char> },
    Lookup { key: Seq<char> },
    Remove { key: Seq<char> },
}

impl StoreCallView {
    pub open spec fn command(self) -> StoreCommand {
        match self {
            StoreCallView::Assign { .. } => StoreCommand::Assign,
            StoreCallView::Lookup { .. } => StoreCommand::Lookup,
            StoreCallView::Remove { .. } => StoreCommand::Remove,
        }
    }

    pub open spec fn key(self) -> Seq<char> {
        match self {
            StoreCallView::Assign { key, .. } => key,
            StoreCallView::Lookup { key } => key,
            StoreCallView::Remove { key } => key,
        }
    }

    /// The arguments of the call, in the order in which the host takes them.
    pub open spec fn args(self) -> Seq<Seq<char>> {
        match self {
            StoreCallView::Assign { key, value } => seq![key, value],
            StoreCallView::Lookup { key } => seq![key],
            StoreCallView::Remove { key } => seq![key],
        }
    }
}

/// One operation on the mapping store.
#[derive(Debug, PartialEq, Eq)]
pub enum StoreCall {
    Assign { key: String, value: String },
    Lookup { key: String },
    Remove { key: String },
}

impl View for StoreCall {
    type V = StoreCallView;

    open spec fn view(&self) -> StoreCallView {
        match self {
            StoreCall::Assign { key, value } => StoreCallView::Assign { key: key@, value: value@ },
            StoreCall::Lookup { key } => StoreCallView::Lookup { key: key@ },
            StoreCall::Remove { key } => StoreCallView::Remove { key: key@ },
        }
    }
}

impl StoreCall {
    pub fn command(&self) -> (command: StoreCommand)
        ensures
            command == self@.command(),
    {
        match self {
            StoreCall::Assign { .. } => StoreCommand::Assign,
            StoreCall::Lookup { .. } => StoreCommand::Lookup,
            StoreCall::Remove { .. } => StoreCommand::Remove,
        }
    }

    pub fn key(&self) -> (key: &String)
        ensures
            key@ == self@.key(),
    {
        match self {
            StoreCall::Assign { key, .. } => key,
            StoreCall::Lookup { key } => key,
            StoreCall::Remove { key } => key,
        }
    }
}

/// What came back over the direct route.
pub enum DirectReplyView {
    Unavailable,
    Code(i32),
    Text(Option<Seq<char>>),
}

/// What came back over the direct route: nothing, because the binding is
/// missing or the arguments cannot be handed over; the integer that the entry
/// points for set and delete return; or the text, if any, that the entry
/// point for get returns.
#[derive(Debug, PartialEq, Eq)]
pub enum DirectReply {
    Unavailable,
    Code(i32),
    Text(Option<String>),
}

impl View for DirectReply {
    type V = DirectReplyView;

    open spec fn view(&self) -> DirectReplyView {
        match self {
            DirectReply::Unavailable => DirectReplyView::Unavailable,
            DirectReply::Code(code) => DirectReplyView::Code(*code),
            DirectReply::Text(text) => DirectReplyView::Text(opt_text(*text)),
        }
    }
}

/// The host's answer to a command, by its tag.
pub enum HostReplyView {
    Null,
    Text(Seq<char>),
    Other,
}

/// The host's answer to a command, by its tag: absent, a text, or anything
/// else.
#[derive(Debug, PartialEq, Eq)]
pub enum HostReply {
    Null,
    Text(String),
    Other,
}

impl View for HostReply {
    type V = HostReplyView;

    open spec fn view(&self) -> HostReplyView {
        match self {
            HostReply::Null => HostReplyView::Null,
            HostReply::Text(text) => HostReplyView::Text(text@),
            HostReply::Other => HostReplyView::Other,
        }
    }
}

/// How a call to the host ended, as text: the answer, or the host's error.
pub open spec fn host_outcome(outcome: Result<HostReply, String>) -> Result<HostReplyView, Seq<char>> {
    match outcome {
        Ok(reply) => Ok(reply@),
        Err(error) => Err(error@),
    }
}

/// A command for the host: its name and its arguments.
#[derive(Debug, PartialEq, Eq)]
pub struct HostCommand {
    pub name: String,
    pub args: Vec<String>,
}

/// The command by which the host carries out `call`.
pub fn host_command(call: &StoreCall) -> (command: HostCommand)
    ensures
        command.name@ == call@.command().name_text(),
        texts(command.args@) == call@.args(),
{
    let name = String::from_str(call.command().name());
    let mut args: Vec<String> = Vec::new();
    match call {
        StoreCall::Assign { key, value } => {
            args.push(key.clone());
            args.push(value.clone());
        },
        StoreCall::Lookup { key } => {
            args.push(key.clone());
        },
        StoreCall::Remove { key } => {
            args.push(key.clone());
        },
    }
    HostCommand { name, args }
}

/// What the host's answer to a read says: a text tag carries the value, an
/// absent tag says that there is none, and any other tag is no answer to a
/// read.
pub open spec fn read_value(reply: HostReplyView) -> Option<Option<Seq<char>>> {
    match reply {
        HostReplyView::Null => Some(None),
        HostReplyView::Text(text) => Some(Some(text)),
        HostReplyView::Other => None,
    }
}

/// Reads the host's answer to a read: the value or its absence, or nothing
/// where the tag is neither.
pub fn read_reply(reply: HostReply) -> (value: Option<Option<String>>)
    ensures
        match value {
            Some(found) => read_value(reply@) == Some(opt_text(found)),
            None => read_value(reply@) is None,
        },
{
    match reply {
        HostReply::Null => Some(None),
        HostReply::Text(text) => Some(Some(text)),
        HostReply::Other => None,
    }
}

} // verus!
