//! The raw linkage: the mapping store's three entry points, and the binding
//! through which another module reaches them.
//!
//! Across that boundary a text is null-terminated and may be missing
//! altogether. Here a text that may be missing is an `Option`, and the
//! integers are the ones that cross the boundary: 1 for success, 0 for
//! failure.

use vstd::prelude::*;
use crate::link::{StoreCall, StoreCallView, StoreCommand};
use crate::store::{lookup, MappingStore};
use crate::text::{contains_nul, has_nul, opt_text};

verus! {

/// Stores `value` under `key` and returns 1. Where either is missing,
/// nothing is stored and 0 is returned.
pub fn custom_hashmap_set(store: &mut MappingStore, key: Option<String>, value: Option<String>) -> (code:
    i32)
    ensures
        match (key, value) {
            (Some(k), Some(v)) => code == 1 && final(store)@ == old(store)@.insert(k@, v@),
            _ => code == 0 && final(store)@ == old(store)@,
        },
{
    match key {
        Some(k) => match value {
            Some(v) => {
                store.set(k, v);
                1
            },
            None => 0,
        },
        None => 0,
    }
}

/// What of a value can be handed over as null-terminated text: the value
/// itself, unless it holds a NUL; then nothing.
pub open spec fn crossing(value: Option<Seq<char>>) -> Option<Seq<char>> {
    match value {
        Some(text) => if has_nul(text) {
            None
        } else {
            Some(text)
        },
        None => None,
    }
}

/// The value under `key`. Where the key is missing or not held, nothing is
/// returned; and nothing is returned for a value that holds a NUL, which
/// cannot be handed over as null-terminated text.
pub fn custom_hashmap_get(store: &MappingStore, key: Option<String>) -> (text: Option<String>)
    ensures
        opt_text(text) == match key {
            Some(k) => crossing(lookup(store@, k@)),
            None => None,
        },
{
    match key {
        Some(k) => match store.get(&k) {
            Some(value) => {
                if contains_nul(value.as_str()) {
                    None
                } else {
                    Some(value.clone())
                }
            },
            None => None,
        },
        None => None,
    }
}

/// Removes `key` and returns 1 if it was held. Where the key is missing or
/// not held, nothing is removed and 0 is returned.
pub fn custom_hashmap_del(store: &mut MappingStore, key: Option<String>) -> (code: i32)
    ensures
        match key {
            Some(k) => code == (if old(store)@.contains_key(k@) { 1i32 } else { 0i32 })
                && final(store)@ == old(store)@.remove(k@),
            None => code == 0 && final(store)@ == old(store)@,
        },
{
    match key {
        Some(k) => {
            if store.del(&k) {
                1
            } else {
                0
            }
        },
        None => 0,
    }
}

/// How far the binding to the entry points has come.
pub enum Stage {
    /// Nothing is loaded, and nothing was tried.
    Unbound,
    /// The library is being loaded.
    Loading,
    /// The library is loaded, and the entry point of the command is being
    /// resolved; those before it are resolved.
    Resolving(StoreCommand),
    /// The library is loaded and all three entry points are resolved.
    Bound,
    /// The attempt failed, for this reason. It is not made again.
    Unavailable(Seq<char>),
}

/// What the holder of the binding has to do next, as a mathematical value.
pub enum LinkActionView {
    Ready,
    Load(Seq<char>),
    Resolve(StoreCommand),
    Unavailable(Seq<char>),
}

/// What the holder of the binding has to do next.
#[derive(Debug, PartialEq, Eq)]
pub enum LinkAction {
    /// Nothing: the entry points can be called.
    Ready,
    /// Load the library of this name.
    Load(String),
    /// Resolve the entry point of this command, by its symbol, in the loaded
    /// library.
    Resolve(StoreCommand),
    /// Drop what was loaded: the binding is not to be had, for this reason.
    Unavailable(String),
}

impl View for LinkAction {
    type V = LinkActionView;

    open spec fn view(&self) -> LinkActionView {
        match self {
            LinkAction::Ready => LinkActionView::Ready,
            LinkAction::Load(name) => LinkActionView::Load(name@),
            LinkAction::Resolve(command) => LinkActionView::Resolve(*command),
            LinkAction::Unavailable(reason) => LinkActionView::Unavailable(reason@),
        }
    }
}

/// A stage and the action that goes with it.
pub struct LinkTurn {
    pub stage: Stage,
    pub action: LinkActionView,
}

/// The name of the library that holds the entry points.
pub open spec fn library_name() -> Seq<char> {
    "libredis_custom_hashmap.dylib"@
}

/// The end of an attempt that failed for `reason`: the reason is kept.
pub open spec fn link_failed(reason: Seq<char>) -> LinkTurn {
    LinkTurn { stage: Stage::Unavailable(reason), action: LinkActionView::Unavailable(reason) }
}

/// What is done when the binding is asked for: nothing where it is there;
/// nothing but the reason again where it has failed; and a load of the
/// library from the start where nothing is settled yet.
pub open spec fn link_start(stage: Stage) -> LinkTurn {
    match stage {
        Stage::Bound => LinkTurn { stage, action: LinkActionView::Ready },
        Stage::Unavailable(reason) => link_failed(reason),
        _ => LinkTurn { stage: Stage::Loading, action: LinkActionView::Load(library_name()) },
    }
}

/// What follows the outcome of the action that was asked for last.
///
/// The entry points are resolved in the order set, get, delete. The first
/// failure ends the attempt for good and leaves nothing bound.
pub open spec fn link_next(stage: Stage, outcome: Result<(), Seq<char>>) -> LinkTurn {
    match stage {
        Stage::Loading => match outcome {
            Ok(_) => LinkTurn {
                stage: Stage::Resolving(StoreCommand::Assign),
                action: LinkActionView::Resolve(StoreCommand::Assign),
            },
            Err(detail) => link_failed("Failed to load custom hashmap library: "@ + detail),
        },
        Stage::Resolving(command) => match outcome {
            Ok(_) => match command {
                StoreCommand::Assign => LinkTurn {
                    stage: Stage::Resolving(StoreCommand::Lookup),
                    action: LinkActionView::Resolve(StoreCommand::Lookup),
                },
                StoreCommand::Lookup => LinkTurn {
                    stage: Stage::Resolving(StoreCommand::Remove),
                    action: LinkActionView::Resolve(StoreCommand::Remove),
                },
                StoreCommand::Remove => LinkTurn { stage: Stage::Bound, action: LinkActionView::Ready },
            },
            Err(detail) => link_failed("Failed to load "@ + command.symbol_text() + ": "@ + detail),
        },
        _ => link_start(stage),
    }
}

/// The binding is settled at most once and never by halves. When it is
/// there, asking for it does nothing. A failure at any point leaves nothing
/// bound and is kept: from then on every call gets the same reason, asks
/// for no load, and can never lead to a binding. And the binding is there
/// after the load and the three resolutions have succeeded, and not before.
pub proof fn lemma_binding_is_settled_once(stage: Stage, outcome: Result<(), Seq<char>>, detail: Seq<char>)
    ensures
        link_start(Stage::Bound) == (LinkTurn { stage: Stage::Bound, action: LinkActionView::Ready }),
        link_next(Stage::Bound, outcome) == link_start(Stage::Bound),
        link_start(Stage::Unavailable(detail)) == link_failed(detail),
        link_next(Stage::Unavailable(detail), outcome) == link_failed(detail),
        (stage is Loading || stage is Resolving) ==> link_next(stage, Err(detail)).stage is Unavailable
            && link_next(stage, Err(detail)).action is Unavailable,
        !(stage is Bound) ==> !(link_next(stage, Err(detail)).stage is Bound),
        link_next(stage, outcome).stage is Bound ==> stage is Bound || (stage == Stage::Resolving(
            StoreCommand::Remove,
        ) && outcome is Ok),
        link_start(stage).action is Load ==> !(stage is Bound) && !(stage is Unavailable),
        ({
            let loaded = link_next(Stage::Loading, Ok(()));
            let first = link_next(loaded.stage, Ok(()));
            let second = link_next(first.stage, Ok(()));
            let third = link_next(second.stage, Ok(()));
            &&& loaded.action == LinkActionView::Resolve(StoreCommand::Assign)
            &&& first.action == LinkActionView::Resolve(StoreCommand::Lookup)
            &&& second.action == LinkActionView::Resolve(StoreCommand::Remove)
            &&& third == (LinkTurn { stage: Stage::Bound, action: LinkActionView::Ready })
        }),
{
}

/// The error text of an outcome.
pub open spec fn outcome_text(outcome: Result<(), String>) -> Result<(), Seq<char>> {
    match outcome {
        Ok(_) => Ok(()),
        Err(detail) => Err(detail@),
    }
}

/// How far a binding has come, with the reason of a failure as it is kept.
#[derive(Debug)]
enum Progress {
    Unbound,
    Loading,
    Resolving(StoreCommand),
    Bound,
    Unavailable(String),
}

/// The binding to the three entry points. It is settled once: when it is
/// there, asking for it again does nothing, and when the attempt has failed,
/// asking for it again gives the reason and tries nothing.
#[derive(Debug)]
pub struct Binding {
    progress: Progress,
}

impl Binding {
    /// How far the binding has come.
    pub closed spec fn stage(&self) -> Stage {
        match self.progress {
            Progress::Unbound => Stage::Unbound,
            Progress::Loading => Stage::Loading,
            Progress::Resolving(command) => Stage::Resolving(command),
            Progress::Bound => Stage::Bound,
            Progress::Unavailable(reason) => Stage::Unavailable(reason@),
        }
    }

    /// A binding with nothing loaded.
    pub fn new() -> (binding: Binding)
        ensures
            binding.stage() == Stage::Unbound,
    {
        Binding { progress: Progress::Unbound }
    }

    /// Whether the entry points can be called.
    pub fn is_bound(&self) -> (bound: bool)
        ensures
            bound == (self.stage() is Bound),
    {
        match self.progress {
            Progress::Bound => true,
            _ => false,
        }
    }

    /// Whether the attempt has failed, so that the entry points will never
    /// be there.
    pub fn has_failed(&self) -> (failed: bool)
        ensures
            failed == (self.stage() is Unavailable),
    {
        match self.progress {
            Progress::Unavailable(_) => true,
            _ => false,
        }
    }

    /// Asks for the binding.
    pub fn begin(&mut self) -> (action: LinkAction)
        ensures
            final(self).stage() == link_start(old(self).stage()).stage,
            action@ == link_start(old(self).stage()).action,
    {
        let mut progress = Progress::Loading;
        core::mem::swap(&mut self.progress, &mut progress);
        match progress {
            Progress::Bound => {
                self.progress = Progress::Bound;
                LinkAction::Ready
            },
            Progress::Unavailable(reason) => self.fail(reason),
            _ => LinkAction::Load(String::from_str("libredis_custom_hashmap.dylib")),
        }
    }

    /// Takes the outcome of the action that was asked for last: done, or
    /// failed with the loader's words.
    pub fn advance(&mut self, outcome: Result<(), String>) -> (action: LinkAction)
        ensures
            final(self).stage() == link_next(old(self).stage(), outcome_text(outcome)).stage,
            action@ == link_next(old(self).stage(), outcome_text(outcome)).action,
    {
        let mut progress = Progress::Loading;
        core::mem::swap(&mut self.progress, &mut progress);
        match progress {
            Progress::Loading => match outcome {
                Ok(_) => self.resolve(StoreCommand::Assign),
                Err(detail) => {
                    let mut reason = String::from_str("Failed to load custom hashmap library: ");
                    reason.append(detail.as_str());
                    self.fail(reason)
                },
            },
            Progress::Resolving(command) => match outcome {
                Ok(_) => match command {
                    StoreCommand::Assign => self.resolve(StoreCommand::Lookup),
                    StoreCommand::Lookup => self.resolve(StoreCommand::Remove),
                    StoreCommand::Remove => {
                        self.progress = Progress::Bound;
                        LinkAction::Ready
                    },
                },
                Err(detail) => {
                    let mut reason = String::from_str("Failed to load ");
                    reason.append(command.symbol());
                    reason.append(": ");
                    reason.append(detail.as_str());
                    self.fail(reason)
                },
            },
            Progress::Bound => {
                self.progress = Progress::Bound;
                LinkAction::Ready
            },
            Progress::Unavailable(reason) => self.fail(reason),
            Progress::Unbound => LinkAction::Load(String::from_str("libredis_custom_hashmap.dylib")),
        }
    }

    fn resolve(&mut self, command: StoreCommand) -> (action: LinkAction)
        ensures
            final(self).stage() == Stage::Resolving(command),
            action@ == LinkActionView::Resolve(command),
    {
        self.progress = Progress::Resolving(command);
        LinkAction::Resolve(command)
    }

    fn fail(&mut self, reason: String) -> (action: LinkAction)
        ensures
            final(self).stage() == Stage::Unavailable(reason@),
            action@ == LinkActionView::Unavailable(reason@),
    {
        self.progress = Progress::Unavailable(reason.clone());
        LinkAction::Unavailable(reason)
    }
}

/// Whether the arguments of `call` can be handed over as null-terminated
/// text.
pub open spec fn can_cross(call: StoreCallView) -> bool {
    match call {
        StoreCallView::Assign { key, value } => !has_nul(key) && !has_nul(value),
        StoreCallView::Lookup { key } => !has_nul(key),
        StoreCallView::Remove { key } => !has_nul(key),
    }
}

/// Whether `call` can go over the direct route: the entry points are bound,
/// and its arguments can be handed over.
pub open spec fn direct_open(stage: Stage, call: StoreCallView) -> bool {
    stage is Bound && can_cross(call)
}

/// Whether `call` can go over the direct route.
pub fn direct_ready(binding: &Binding, call: &StoreCall) -> (open: bool)
    ensures
        open == direct_open(binding.stage(), call@),
{
    if !binding.is_bound() {
        return false;
    }
    match call {
        StoreCall::Assign { key, value } => !contains_nul(key.as_str()) && !contains_nul(value.as_str()),
        StoreCall::Lookup { key } => !contains_nul(key.as_str()),
        StoreCall::Remove { key } => !contains_nul(key.as_str()),
    }
}

} // verus!
