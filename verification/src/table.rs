//! A table of values keyed by text, with every key held at most once.

use vstd::prelude::*;

verus! {

/// One row of a table.
#[derive(Debug)]
pub struct Row<V> {
    pub key: String,
    pub value: V,
}

/// No two rows of `rows` carry the same key.
pub open spec fn keys_distinct<V>(rows: Seq<Row<V>>) -> bool {
    forall|i: int, j: int| 0 <= i < j < rows.len() ==> rows[i].key@ != rows[j].key@
}

/// `rows[i]` is a row with key `key`.
pub open spec fn row_at<V>(rows: Seq<Row<V>>, key: Seq<char>, i: int) -> bool {
    0 <= i < rows.len() && rows[i].key@ == key
}

/// The mapping that `rows` stands for.
pub open spec fn rows_map<V>(rows: Seq<Row<V>>) -> Map<Seq<char>, V> {
    Map::new(
        |key: Seq<char>| exists|i: int| row_at(rows, key, i),
        |key: Seq<char>| rows[choose|i: int| row_at(rows, key, i)].value,
    )
}

/// A table of values keyed by text.
///
/// Its view is the mapping from each key held to its value. The rows are
/// kept in the order in which their keys were first stored.
#[derive(Debug)]
pub struct Table<V> {
    rows: Vec<Row<V>>,
}

impl<V> Table<V> {
    #[verifier::type_invariant]
    spec fn well_formed(self) -> bool {
        keys_distinct(self.rows@)
    }

    /// The rows of the table, in order.
    pub closed spec fn rows(self) -> Seq<Row<V>> {
        self.rows@
    }

    pub open spec fn view(self) -> Map<Seq<char>, V> {
        rows_map(self.rows())
    }

    /// An empty table.
    pub fn new() -> (table: Self)
        ensures
            table@ == Map::<Seq<char>, V>::empty(),
            table.rows().len() == 0,
    {
        Table { rows: Vec::new() }
    }

    /// Takes the rows out and leaves the table empty.
    fn take_rows(&mut self) -> (rows: Vec<Row<V>>)
        ensures
            rows@ == old(self).rows(),
            keys_distinct(rows@),
            final(self).rows().len() == 0,
    {
        proof {
            use_type_invariant(&*self);
        }
        let mut rows: Vec<Row<V>> = Vec::new();
        core::mem::swap(&mut self.rows, &mut rows);
        rows
    }

    /// Puts `rows` in place of the rows of the table.
    fn put_rows(&mut self, rows: Vec<Row<V>>)
        requires
            keys_distinct(rows@),
        ensures
            final(self).rows() == rows@,
    {
        let mut rows = rows;
        core::mem::swap(&mut self.rows, &mut rows);
    }

    /// The position of the row with key `key`, if there is one.
    pub fn position(&self, key: &String) -> (found: Option<usize>)
        ensures
            match found {
                Some(i) => row_at(self.rows(), key@, i as int),
                None => !self@.contains_key(key@),
            },
    {
        let mut i: usize = 0;
        while i < self.rows.len()
            invariant
                i <= self.rows.len(),
                forall|j: int| 0 <= j < i ==> self.rows@[j].key@ != key@,
            decreases self.rows.len() - i,
        {
            if self.rows[i].key == *key {
                return Some(i);
            }
            i += 1;
        }
        None
    }

    /// Stores `value` under `key`, and hands back the value that was there.
    pub fn insert(&mut self, key: String, value: V) -> (previous: Option<V>)
        ensures
            final(self)@ == old(self)@.insert(key@, value),
            previous == if old(self)@.contains_key(key@) {
                Some(old(self)@[key@])
            } else {
                None::<V>
            },
    {
        let found = self.position(&key);
        let mut rows = self.take_rows();
        let ghost before = rows@;
        let previous = match found {
            Some(i) => {
                let mut value = value;
                core::mem::swap(&mut rows[i].value, &mut value);
                proof {
                    lemma_update_value(before, i as int, rows@[i as int].value);
                    assert(rows@ =~= before.update(
                        i as int,
                        Row { key: before[i as int].key, value: rows@[i as int].value },
                    ));
                }
                Some(value)
            },
            None => {
                rows.push(Row { key, value });
                proof {
                    lemma_push_row(before, Row { key, value });
                }
                None
            },
        };
        self.put_rows(rows);
        previous
    }

    /// The number of keys held.
    pub fn len(&self) -> (n: usize)
        ensures
            n == self.rows().len(),
            n == self@.dom().len(),
            self@.dom().finite(),
            keys_distinct(self.rows()),
    {
        proof {
            use_type_invariant(self);
            lemma_domain_len(self.rows@);
        }
        self.rows.len()
    }

    /// The row at position `i`, if the table has that many rows.
    pub fn row(&self, i: usize) -> (row: Option<&Row<V>>)
        ensures
            match row {
                Some(row) => i < self.rows().len() && *row == self.rows()[i as int] && self@.contains_key(
                    row.key@,
                ) && self@[row.key@] == row.value,
                None => i >= self.rows().len(),
            },
    {
        if i < self.rows.len() {
            proof {
                use_type_invariant(self);
                lemma_update_value(self.rows@, i as int, self.rows@[i as int].value);
            }
            Some(&self.rows[i])
        } else {
            None
        }
    }

    /// The value under `key`, if there is one.
    pub fn get(&self, key: &String) -> (found: Option<&V>)
        ensures
            match found {
                Some(value) => self@.contains_key(key@) && *value == self@[key@],
                None => !self@.contains_key(key@),
            },
    {
        match self.position(key) {
            Some(i) => {
                proof {
                    use_type_invariant(self);
                    lemma_update_value(self.rows@, i as int, self.rows@[i as int].value);
                }
                Some(&self.rows[i].value)
            },
            None => None,
        }
    }

    /// Whether `key` is held.
    pub fn contains_key(&self, key: &String) -> (held: bool)
        ensures
            held == self@.contains_key(key@),
    {
        self.position(key).is_some()
    }

    /// Takes `key` out of the table, and hands over the value that was
    /// under it.
    pub fn remove(&mut self, key: &String) -> (removed: Option<V>)
        ensures
            final(self)@ == old(self)@.remove(key@),
            removed == if old(self)@.contains_key(key@) {
                Some(old(self)@[key@])
            } else {
                None::<V>
            },
    {
        match self.position(key) {
            Some(i) => {
                let mut rows = self.take_rows();
                let ghost before = rows@;
                let row = rows.remove(i);
                proof {
                    lemma_remove_row(before, i as int);
                }
                self.put_rows(rows);
                Some(row.value)
            },
            None => None,
        }
    }
}

/// Changing the value of one row changes the mapping at that row's key and
/// nowhere else.
pub proof fn lemma_update_value<V>(rows: Seq<Row<V>>, i: int, value: V)
    requires
        keys_distinct(rows),
        0 <= i < rows.len(),
    ensures
        keys_distinct(rows.update(i, Row { key: rows[i].key, value })),
        rows_map(rows.update(i, Row { key: rows[i].key, value })) == rows_map(rows).insert(
            rows[i].key@,
            value,
        ),
        rows_map(rows).contains_key(rows[i].key@),
        rows_map(rows)[rows[i].key@] == rows[i].value,
{
    let after = rows.update(i, Row { key: rows[i].key, value });
    let before_map = rows_map(rows);
    let after_map = rows_map(after);
    let target = before_map.insert(rows[i].key@, value);
    assert(row_at(rows, rows[i].key@, i));
    assert forall|key: Seq<char>| after_map.contains_key(key) <==> target.contains_key(key) by {
        if after_map.contains_key(key) {
            let j = choose|j: int| row_at(after, key, j);
            assert(row_at(rows, key, j));
        }
        if before_map.contains_key(key) {
            let j = choose|j: int| row_at(rows, key, j);
            assert(row_at(after, key, j));
        }
    }
}

/// Appending a row with a key that is not yet held adds that key to the
/// mapping.
pub proof fn lemma_push_row<V>(rows: Seq<Row<V>>, row: Row<V>)
    requires
        keys_distinct(rows),
        !rows_map(rows).contains_key(row.key@),
    ensures
        keys_distinct(rows.push(row)),
        rows_map(rows.push(row)) == rows_map(rows).insert(row.key@, row.value),
{
    let after = rows.push(row);
    let before_map = rows_map(rows);
    let after_map = rows_map(after);
    let target = before_map.insert(row.key@, row.value);
    assert forall|i: int, j: int| 0 <= i < j < after.len() implies after[i].key@ != after[j].key@ by {
        if j == rows.len() {
            assert(!row_at(rows, row.key@, i));
        }
    }
    assert forall|key: Seq<char>| after_map.contains_key(key) <==> target.contains_key(key) by {
        if after_map.contains_key(key) {
            let j = choose|j: int| row_at(after, key, j);
            if j < rows.len() {
                assert(row_at(rows, key, j));
            }
        }
        if before_map.contains_key(key) {
            let j = choose|j: int| row_at(rows, key, j);
            assert(row_at(after, key, j));
        }
        if key == row.key@ {
            assert(row_at(after, key, rows.len() as int));
        }
    }
    assert forall|key: Seq<char>| after_map.contains_key(key) implies after_map[key] == target[key] by {
        let j = choose|j: int| row_at(after, key, j);
        if j < rows.len() {
            assert(row_at(rows, key, j));
        }
    }
}

/// Taking one row out removes that row's key from the mapping and nothing
/// else.
pub proof fn lemma_remove_row<V>(rows: Seq<Row<V>>, i: int)
    requires
        keys_distinct(rows),
        0 <= i < rows.len(),
    ensures
        keys_distinct(rows.remove(i)),
        rows_map(rows.remove(i)) == rows_map(rows).remove(rows[i].key@),
        rows_map(rows).contains_key(rows[i].key@),
        rows_map(rows)[rows[i].key@] == rows[i].value,
{
    let after = rows.remove(i);
    let gone = rows[i].key@;
    let before_map = rows_map(rows);
    let after_map = rows_map(after);
    let target = before_map.remove(gone);
    lemma_update_value(rows, i, rows[i].value);
    assert forall|key: Seq<char>| after_map.contains_key(key) <==> target.contains_key(key) by {
        if after_map.contains_key(key) {
            let j = choose|j: int| row_at(after, key, j);
            if j < i {
                assert(row_at(rows, key, j));
            } else {
                assert(row_at(rows, key, j + 1));
            }
        }
        if before_map.contains_key(key) && key != gone {
            let j = choose|j: int| row_at(rows, key, j);
            if j < i {
                assert(row_at(after, key, j));
            } else {
                assert(row_at(after, key, j - 1));
            }
        }
    }
}

/// A table with distinct keys holds as many keys as it has rows.
pub proof fn lemma_domain_len<V>(rows: Seq<Row<V>>)
    requires
        keys_distinct(rows),
    ensures
        rows_map(rows).dom().finite(),
        rows_map(rows).dom().len() == rows.len(),
    decreases rows.len(),
{
    if rows.len() == 0 {
        assert(rows_map(rows).dom() =~= Set::<Seq<char>>::empty());
    } else {
        let front = rows.drop_last();
        let last = rows.last();
        assert(rows =~= front.push(last));
        lemma_domain_len(front);
        lemma_push_row(front, last);
    }
}

} // verus!
