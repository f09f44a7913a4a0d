//! An in-memory mapping store and the session layer that is anchored on it.
//!
//! The mapping store ([`store`]) maps text keys to text values. The session
//! layer ([`session`]) keeps one session per identifier, and the mapping
//! store holds, for each owner key, the identifier of its session. The two
//! stores share no transaction: what spans both of them is a small state
//! machine ([`protocol`]) that asks for one call to the mapping store at a
//! time, over one of two routes ([`link`]): the store's raw entry points
//! ([`raw`]) or the host's command dispatch ([`commands`]). [`system`] puts
//! both stores side by side and says in one step what each operation
//! amounts to.
//!
//! Every function comes with a contract over the mathematical view of the
//! data: a mapping store is a `Map` from text to text, the session
//! collection a `Map` from identifiers to sessions.

use vstd::prelude::*;

pub mod text;
pub mod table;
pub mod store;
pub mod time;
pub mod ident;
pub mod link;
pub mod error;
pub mod raw;
pub mod session;
pub mod protocol;
pub mod commands;
pub mod system;

verus! {

/// The sum of `left` and `right`.
pub fn add(left: u64, right: u64) -> (sum: u64)
    requires
        left + right <= u64::MAX,
    ensures
        sum == left + right,
{
    left + right
}

} // verus!
