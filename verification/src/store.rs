//! The mapping store: text keys to text values, each key held at most once.

use vstd::prelude::*;
use crate::table::{row_at, Table};
use crate::text::texts;

verus! {

/// The text of every value of `held`, under the same keys.
pub open spec fn text_values(held: Map<Seq<char>, String>) -> Map<Seq<char>, Seq<char>> {
    Map::new(|key: Seq<char>| held.contains_key(key), |key: Seq<char>| held[key]@)
}

/// What a lookup of `key` in `mapping` answers.
pub open spec fn lookup(mapping: Map<Seq<char>, Seq<char>>, key: Seq<char>) -> Option<Seq<char>> {
    if mapping.contains_key(key) {
        Some(mapping[key])
    } else {
        None
    }
}

/// A mapping from text keys to text values.
///
/// Its view is the mathematical mapping; the order in which keys were first
/// stored is kept but carries no meaning.
#[derive(Debug)]
pub struct MappingStore {
    table: Table<String>,
}

impl MappingStore {
    pub closed spec fn view(&self) -> Map<Seq<char>, Seq<char>> {
        text_values(self.table@)
    }

    /// An empty store.
    pub fn new() -> (store: Self)
        ensures
            store@ == Map::<Seq<char>, Seq<char>>::empty(),
    {
        MappingStore { table: Table::new() }
    }

    /// Stores `value` under `key`, replacing what was there.
    pub fn set(&mut self, key: String, value: String)
        ensures
            final(self)@ == old(self)@.insert(key@, value@),
    {
        let _ = self.table.insert(key, value);
    }

    /// The value under `key`, if there is one. The store is not changed.
    pub fn get(&self, key: &String) -> (found: Option<&String>)
        ensures
            match found {
                Some(value) => lookup(self@, key@) == Some(value@),
                None => lookup(self@, key@) is None,
            },
    {
        self.table.get(key)
    }

    /// Whether `key` is held.
    pub fn contains_key(&self, key: &String) -> (held: bool)
        ensures
            held == self@.contains_key(key@),
    {
        self.table.contains_key(key)
    }

    /// Removes `key`, and says whether there was anything to remove.
    pub fn del(&mut self, key: &String) -> (removed: bool)
        ensures
            removed == old(self)@.contains_key(key@),
            final(self)@ == old(self)@.remove(key@),
    {
        self.table.remove(key).is_some()
    }

    /// How many keys are held.
    pub fn len(&self) -> (n: usize)
        ensures
            self@.dom().finite(),
            n == self@.dom().len(),
    {
        let n = self.table.len();
        assert(self@.dom() =~= self.table@.dom());
        n
    }

    /// A snapshot of the keys held: each of them once, and nothing else.
    pub fn keys(&self) -> (keys: Vec<String>)
        ensures
            texts(keys@).to_set() == self@.dom(),
            texts(keys@).no_duplicates(),
            keys@.len() == self@.dom().len(),
    {
        let n = self.table.len();
        let mut keys: Vec<String> = Vec::new();
        let mut i: usize = 0;
        while i < n
            invariant
                i <= n,
                n == self.table.rows().len(),
                keys@.len() == i,
                forall|j: int| 0 <= j < i ==> keys@[j]@ == self.table.rows()[j].key@,
            decreases n - i,
        {
            if let Some(row) = self.table.row(i) {
                keys.push(row.key.clone());
            }
            i += 1;
        }
        proof {
            let rows = self.table.rows();
            let held = texts(keys@);
            assert(self@.dom() =~= self.table@.dom());
            assert forall|key: Seq<char>| held.to_set().contains(key) <==> self@.dom().contains(key) by {
                if held.to_set().contains(key) {
                    let j = choose|j: int| 0 <= j < held.len() && held[j] == key;
                    assert(row_at(rows, key, j));
                }
                if self@.dom().contains(key) {
                    let j = choose|j: int| row_at(rows, key, j);
                    assert(held[j] == key);
                }
            }
        }
        keys
    }
}

/// A change to a mapping store.
pub enum Change {
    /// `set(key, value)`.
    Stored { key: Seq<char>, value: Seq<char> },
    /// `del(key)`.
    Deleted { key: Seq<char> },
}

/// The mapping after one change.
pub open spec fn apply(mapping: Map<Seq<char>, Seq<char>>, change: Change) -> Map<Seq<char>, Seq<char>> {
    match change {
        Change::Stored { key, value } => mapping.insert(key, value),
        Change::Deleted { key } => mapping.remove(key),
    }
}

/// The mapping that an empty store holds after the changes of `history`, in
/// order.
pub open spec fn replay(history: Seq<Change>) -> Map<Seq<char>, Seq<char>>
    decreases history.len(),
{
    if history.len() == 0 {
        Map::empty()
    } else {
        apply(replay(history.drop_last()), history.last())
    }
}

/// `change` is about `key`: it stores under it or deletes it.
pub open spec fn concerns(change: Change, key: Seq<char>) -> bool {
    match change {
        Change::Stored { key: stored, .. } => stored == key,
        Change::Deleted { key: deleted } => deleted == key,
    }
}

/// `history[at]` stores `value` under `key`, and nothing after it deletes
/// `key` or stores under it again.
pub open spec fn last_stored(history: Seq<Change>, key: Seq<char>, value: Seq<char>, at: int) -> bool {
    &&& 0 <= at < history.len()
    &&& history[at] == Change::Stored { key, value }
    &&& forall|later: int| at < later < history.len() ==> !concerns(#[trigger] history[later], key)
}

/// A value read right after it was stored is the value that was stored.
pub proof fn lemma_get_after_set(mapping: Map<Seq<char>, Seq<char>>, key: Seq<char>, value: Seq<char>)
    ensures
        lookup(mapping.insert(key, value), key) == Some(value),
{
}

/// A key read right after it was deleted is not there; and deleting a key
/// that is not held removes nothing and changes nothing.
pub proof fn lemma_get_after_del(mapping: Map<Seq<char>, Seq<char>>, key: Seq<char>)
    ensures
        lookup(mapping.remove(key), key) is None,
        !mapping.remove(key).contains_key(key),
        !mapping.contains_key(key) ==> mapping.remove(key) == mapping,
{
}

/// What was stored last in a history, by its last change: the last change
/// itself, or what was stored last before it, unless the last change is
/// about the same key.
proof fn lemma_last_stored_by_last_change(history: Seq<Change>, key: Seq<char>, value: Seq<char>, at: int)
    requires
        history.len() > 0,
    ensures
        last_stored(history, key, value, at) <==> if at == history.len() - 1 {
            history.last() == (Change::Stored { key, value })
        } else {
            last_stored(history.drop_last(), key, value, at) && !concerns(history.last(), key)
        },
{
    let front = history.drop_last();
    let end = history.len() - 1;
    if at < end && last_stored(front, key, value, at) && !concerns(history.last(), key) {
        assert forall|later: int| at < later < history.len() implies !concerns(
            #[trigger] history[later],
            key,
        ) by {
            if later < end {
                assert(front[later] == history[later]);
            }
        }
    }
}

/// After any history, the keys held are exactly those that were stored and
/// not deleted since they were last stored, each with the value that was
/// stored last.
pub proof fn lemma_keys_after_history(history: Seq<Change>, key: Seq<char>)
    ensures
        replay(history).contains_key(key) <==> exists|value: Seq<char>, at: int|
            last_stored(history, key, value, at),
        forall|value: Seq<char>, at: int| #[trigger]
            last_stored(history, key, value, at) ==> replay(history)[key] == value,
    decreases history.len(),
{
    if history.len() > 0 {
        let front = history.drop_last();
        let end = history.len() - 1;
        lemma_keys_after_history(front, key);
        assert forall|value: Seq<char>, at: int| #[trigger]
            last_stored(history, key, value, at) implies replay(history).contains_key(key)
            && replay(history)[key] == value by {
            lemma_last_stored_by_last_change(history, key, value, at);
        }
        if replay(history).contains_key(key) {
            match history.last() {
                Change::Stored { key: stored, value } if stored == key => {
                    lemma_last_stored_by_last_change(history, key, value, end);
                },
                _ => {
                    let (value, at) = choose|value: Seq<char>, at: int|
                        last_stored(front, key, value, at);
                    lemma_last_stored_by_last_change(history, key, value, at);
                },
            }
        }
    }
}

} // verus!
