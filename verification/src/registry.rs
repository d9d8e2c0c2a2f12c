//! The pack registry: a per-owner table of the packs this system has created,
//! keyed by `(owner, generated_id)`. Registration is refused on a duplicate
//! key, listing returns identifiers in insertion order, and removal is
//! idempotent.

use vstd::prelude::*;

verus! {

/// Registration refuses a key that is already present.
#[derive(Debug, PartialEq, Eq, Clone, Copy)]
pub enum RegistryError {
    Conflict,
}

/// Mathematical model of one registry row.
pub ghost struct Row {
    pub owner: int,
    pub display_name: Seq<char>,
    pub generated_id: Seq<char>,
}

/// One durable record: the pack `generated_id` that `owner` created under the
/// user-chosen `display_name`.
pub struct PackRecord {
    pub owner: i64,
    pub display_name: String,
    pub generated_id: String,
}

impl View for PackRecord {
    type V = Row;

    open spec fn view(&self) -> Row {
        Row {
            owner: self.owner as int,
            display_name: self.display_name@,
            generated_id: self.generated_id@,
        }
    }
}

/// Whether some row with key `(owner, id)` occurs in `rows`.
pub open spec fn has_key(rows: Seq<Row>, owner: int, id: Seq<char>) -> bool {
    exists|i: int|
        0 <= i < rows.len() && rows[i].owner == owner && rows[i].generated_id == id
}

/// No two rows share the key `(owner, generated_id)`.
pub open spec fn keys_unique(rows: Seq<Row>) -> bool {
    forall|i: int, j: int|
        0 <= i < j < rows.len() ==> !(rows[i].owner == rows[j].owner
            && rows[i].generated_id == rows[j].generated_id)
}

/// The generated ids that `owner` holds in `rows`, in insertion order.
pub open spec fn ids_for(rows: Seq<Row>, owner: int) -> Seq<Seq<char>>
    decreases rows.len(),
{
    if rows.len() == 0 {
        Seq::empty()
    } else {
        let rest = ids_for(rows.drop_last(), owner);
        if rows.last().owner == owner {
            rest.push(rows.last().generated_id)
        } else {
            rest
        }
    }
}

/// `rows` with every row keyed `(owner, id)` removed, order otherwise kept.
pub open spec fn without_key(rows: Seq<Row>, owner: int, id: Seq<char>) -> Seq<Row>
    decreases rows.len(),
{
    if rows.len() == 0 {
        Seq::empty()
    } else {
        let rest = without_key(rows.drop_last(), owner, id);
        if rows.last().owner == owner && rows.last().generated_id == id {
            rest
        } else {
            rest.push(rows.last())
        }
    }
}

/// The in-memory pack table. The durable backing store holds the same rows;
/// callers replay them through `restore` at startup and mirror every change.
pub struct PackRegistry {
    records: Vec<PackRecord>,
}

impl View for PackRegistry {
    type V = Seq<Row>;

    closed spec fn view(&self) -> Seq<Row> {
        self.records@.map_values(|r: PackRecord| r@)
    }
}

impl PackRegistry {
    /// The registry invariant: `(owner, generated_id)` is a unique key.
    pub open spec fn wf(&self) -> bool {
        keys_unique(self@)
    }

    /// An empty registry.
    pub fn new() -> (r: PackRegistry)
        ensures
            r@ == Seq::<Row>::empty(),
            r.wf(),
    {
        let r = PackRegistry { records: Vec::new() };
        proof {
            assert(r@ =~= Seq::<Row>::empty());
        }
        r
    }

    /// Whether a pack with this key is registered.
    pub fn contains(&self, owner: i64, generated_id: &String) -> (r: bool)
        ensures
            r == has_key(self@, owner as int, generated_id@),
    {
        let n = self.records.len();
        let mut i: usize = 0;
        while i < n
            invariant
                n == self.records.len(),
                i <= n,
                forall|k: int|
                    0 <= k < i ==> !(self@[k].owner == owner as int
                        && self@[k].generated_id == generated_id@),
            decreases n - i,
        {
            let rec = &self.records[i];
            if rec.owner == owner && rec.generated_id == *generated_id {
                assert(self@[i as int].owner == owner as int
                    && self@[i as int].generated_id == generated_id@);
                return true;
            }
            i += 1;
        }
        false
    }

    /// Inserts the record `(owner, display_name, generated_id)` unless the key
    /// `(owner, generated_id)` is already present, in which case it fails with
    /// `Conflict` and leaves the table unchanged. On success it returns the
    /// registered id together with `created == true`.
    pub fn register_if_absent(
        &mut self,
        owner: i64,
        display_name: &String,
        generated_id: &String,
    ) -> (r: Result<(String, bool), RegistryError>)
        requires
            old(self).wf(),
        ensures
            final(self).wf(),
            match r {
                Ok((id, created)) => {
                    &&& !has_key(old(self)@, owner as int, generated_id@)
                    &&& id@ == generated_id@
                    &&& created == true
                    &&& final(self)@ == old(self)@.push(
                        Row {
                            owner: owner as int,
                            display_name: display_name@,
                            generated_id: generated_id@,
                        },
                    )
                },
                Err(e) => {
                    &&& e == RegistryError::Conflict
                    &&& has_key(old(self)@, owner as int, generated_id@)
                    &&& final(self)@ == old(self)@
                },
            },
    {
        if self.contains(owner, generated_id) {
            return Err(RegistryError::Conflict);
        }
        let row = PackRecord {
            owner,
            display_name: display_name.clone(),
            generated_id: generated_id.clone(),
        };
        self.records.push(row);
        proof {
            assert(self@ =~= old(self)@.push(
                Row {
                    owner: owner as int,
                    display_name: display_name@,
                    generated_id: generated_id@,
                },
            ));
            lemma_push_keeps_unique(
                old(self)@,
                Row {
                    owner: owner as int,
                    display_name: display_name@,
                    generated_id: generated_id@,
                },
            );
        }
        Ok((generated_id.clone(), true))
    }

    /// The generated ids that `owner` holds, in insertion order.
    pub fn list_packs(&self, owner: i64) -> (r: Vec<String>)
        ensures
            r.deep_view() == ids_for(self@, owner as int),
    {
        let n = self.records.len();
        let mut r: Vec<String> = Vec::new();
        let mut i: usize = 0;
        while i < n
            invariant
                n == self.records.len(),
                i <= n,
                r.deep_view() == ids_for(self@.take(i as int), owner as int),
            decreases n - i,
        {
            proof {
                assert(self@.take(i + 1 as int).drop_last() =~= self@.take(i as int));
                assert(self@.take(i + 1 as int).last() == self@[i as int]);
            }
            let rec = &self.records[i];
            if rec.owner == owner {
                r.push(rec.generated_id.clone());
                proof {
                    assert(r.deep_view() =~= ids_for(self@.take(i + 1 as int), owner as int));
                }
            } else {
                proof {
                    assert(r.deep_view() =~= ids_for(self@.take(i + 1 as int), owner as int));
                }
            }
            i += 1;
        }
        proof {
            assert(self@.take(n as int) =~= self@);
        }
        r
    }

    /// Whether `owner` holds at least one pack.
    pub fn has_packs(&self, owner: i64) -> (r: bool)
        ensures
            r == (ids_for(self@, owner as int).len() > 0),
    {
        let packs = self.list_packs(owner);
        proof {
            assert(packs.deep_view().len() == packs@.len());
        }
        packs.len() > 0
    }

    /// Removes every record keyed `(owner, generated_id)`; doing nothing when
    /// none is present, so the operation is idempotent.
    pub fn forget(&mut self, owner: i64, generated_id: &String)
        ensures
            final(self)@ == without_key(old(self)@, owner as int, generated_id@),
            old(self).wf() ==> final(self).wf(),
            !has_key(final(self)@, owner as int, generated_id@),
    {
        let n = self.records.len();
        let mut kept: Vec<PackRecord> = Vec::new();
        let mut i: usize = 0;
        while i < n
            invariant
                n == self.records.len(),
                i <= n,
                kept@.map_values(|r: PackRecord| r@) =~= without_key(
                    self@.take(i as int),
                    owner as int,
                    generated_id@,
                ),
            decreases n - i,
        {
            proof {
                assert(self@.take(i + 1 as int).drop_last() =~= self@.take(i as int));
                assert(self@.take(i + 1 as int).last() == self@[i as int]);
            }
            let rec = &self.records[i];
            if !(rec.owner == owner && rec.generated_id == *generated_id) {
                let copy = PackRecord {
                    owner: rec.owner,
                    display_name: rec.display_name.clone(),
                    generated_id: rec.generated_id.clone(),
                };
                kept.push(copy);
            }
            proof {
                assert(kept@.map_values(|r: PackRecord| r@) =~= without_key(
                    self@.take(i + 1 as int),
                    owner as int,
                    generated_id@,
                ));
            }
            i += 1;
        }
        proof {
            assert(self@.take(n as int) =~= self@);
        }
        self.records = kept;
        proof {
            lemma_without_key_props(old(self)@, owner as int, generated_id@);
        }
    }

    /// Replays one row of the durable backing store into the in-memory table,
    /// skipping it when its key is already present. Returns whether the row
    /// was inserted.
    pub fn restore(&mut self, owner: i64, display_name: String, generated_id: String) -> (r: bool)
        requires
            old(self).wf(),
        ensures
            final(self).wf(),
            r == !has_key(old(self)@, owner as int, generated_id@),
            r ==> final(self)@ == old(self)@.push(
                Row {
                    owner: owner as int,
                    display_name: display_name@,
                    generated_id: generated_id@,
                },
            ),
            !r ==> final(self)@ == old(self)@,
    {
        match self.register_if_absent(owner, &display_name, &generated_id) {
            Ok(_) => true,
            Err(_) => false,
        }
    }
}

/// Law: registering the same owner and identifier twice yields a conflict
/// the second time. A successful registration pushes its row, after which
/// the key is present — and a present key is exactly the condition under
/// which `register_if_absent` fails with `Conflict` and leaves the table
/// unchanged, so the table never holds duplicate keys.
pub proof fn lemma_register_twice_conflicts(rows: Seq<Row>, row: Row)
    ensures
        has_key(rows.push(row), row.owner, row.generated_id),
{
    assert(rows.push(row)[rows.len() as int] == row);
}

/// Pushing a row whose key is absent keeps the keys unique.
proof fn lemma_push_keeps_unique(rows: Seq<Row>, row: Row)
    requires
        keys_unique(rows),
        !has_key(rows, row.owner, row.generated_id),
    ensures
        keys_unique(rows.push(row)),
{
    let pushed = rows.push(row);
    assert forall|i: int, j: int| 0 <= i < j < pushed.len() implies !(pushed[i].owner
        == pushed[j].owner && pushed[i].generated_id == pushed[j].generated_id) by {
        if j < rows.len() {
            assert(pushed[i] == rows[i] && pushed[j] == rows[j]);
        } else {
            assert(pushed[j] == row);
            assert(pushed[i] == rows[i]);
            if pushed[i].owner == row.owner && pushed[i].generated_id == row.generated_id {
                assert(has_key(rows, row.owner, row.generated_id));
            }
        }
    }
}

/// What removal leaves behind: the removed key is gone, every other key keeps
/// its presence, and uniqueness of keys is preserved.
pub proof fn lemma_without_key_props(rows: Seq<Row>, owner: int, id: Seq<char>)
    ensures
        !has_key(without_key(rows, owner, id), owner, id),
        forall|o2: int, id2: Seq<char>|
            !(o2 == owner && id2 == id) ==> #[trigger] has_key(without_key(rows, owner, id), o2, id2)
                == has_key(rows, o2, id2),
        keys_unique(rows) ==> keys_unique(without_key(rows, owner, id)),
    decreases rows.len(),
{
    if rows.len() == 0 {
    } else {
        let prefix = rows.drop_last();
        let last = rows.last();
        lemma_without_key_props(prefix, owner, id);
        assert(keys_unique(rows) ==> keys_unique(prefix)) by {
            if keys_unique(rows) {
                assert forall|i: int, j: int| 0 <= i < j < prefix.len() implies !(prefix[i].owner
                    == prefix[j].owner && prefix[i].generated_id == prefix[j].generated_id) by {
                    assert(prefix[i] == rows[i] && prefix[j] == rows[j]);
                }
            }
        }
        let r_prefix = without_key(prefix, owner, id);
        if last.owner == owner && last.generated_id == id {
            assert(without_key(rows, owner, id) == r_prefix);
            assert forall|o2: int, id2: Seq<char>|
                !(o2 == owner && id2 == id) implies #[trigger] has_key(
                without_key(rows, owner, id),
                o2,
                id2,
            ) == has_key(rows, o2, id2) by {
                lemma_has_key_drop_last(rows, o2, id2);
            }
        } else {
            let result = r_prefix.push(last);
            assert(without_key(rows, owner, id) == result);
            lemma_has_key_push(r_prefix, last);
            assert(!has_key(result, owner, id)) by {
                if has_key(result, owner, id) {
                    assert(has_key(r_prefix, owner, id) || (last.owner == owner
                        && last.generated_id == id));
                }
            }
            assert forall|o2: int, id2: Seq<char>|
                !(o2 == owner && id2 == id) implies #[trigger] has_key(result, o2, id2) == has_key(
                rows,
                o2,
                id2,
            ) by {
                lemma_has_key_push(r_prefix, last);
                lemma_has_key_drop_last(rows, o2, id2);
                assert(has_key(result, o2, id2) == (has_key(r_prefix, o2, id2) || (last.owner == o2
                    && last.generated_id == id2)));
            }
            if keys_unique(rows) {
                assert(keys_unique(r_prefix));
                assert(!has_key(prefix, last.owner, last.generated_id)) by {
                    if has_key(prefix, last.owner, last.generated_id) {
                        let i = choose|i: int|
                            0 <= i < prefix.len() && prefix[i].owner == last.owner
                                && prefix[i].generated_id == last.generated_id;
                        assert(rows[i] == prefix[i]);
                        assert(rows[rows.len() - 1] == last);
                    }
                }
                assert(!has_key(r_prefix, last.owner, last.generated_id)) by {
                    if last.owner == owner && last.generated_id == id {
                    } else {
                        assert(has_key(r_prefix, last.owner, last.generated_id) == has_key(
                            prefix,
                            last.owner,
                            last.generated_id,
                        ));
                    }
                }
                lemma_push_keeps_unique(r_prefix, last);
            }
        }
    }
}

/// `has_key` over a sequence splits into the prefix and the last row.
proof fn lemma_has_key_drop_last(rows: Seq<Row>, owner: int, id: Seq<char>)
    requires
        rows.len() > 0,
    ensures
        has_key(rows, owner, id) == (has_key(rows.drop_last(), owner, id) || (rows.last().owner
            == owner && rows.last().generated_id == id)),
{
    let prefix = rows.drop_last();
    if has_key(prefix, owner, id) {
        let i = choose|i: int|
            0 <= i < prefix.len() && prefix[i].owner == owner && prefix[i].generated_id == id;
        assert(rows[i] == prefix[i]);
    }
    if rows.last().owner == owner && rows.last().generated_id == id {
        assert(rows[rows.len() - 1].owner == owner && rows[rows.len() - 1].generated_id == id);
    }
    if has_key(rows, owner, id) {
        let i = choose|i: int|
            0 <= i < rows.len() && rows[i].owner == owner && rows[i].generated_id == id;
        if i < prefix.len() {
            assert(prefix[i] == rows[i]);
        }
    }
}

/// `has_key` over a pushed row splits into the base and the new row.
proof fn lemma_has_key_push(rows: Seq<Row>, row: Row)
    ensures
        forall|o2: int, id2: Seq<char>|
            #[trigger] has_key(rows.push(row), o2, id2) == (has_key(rows, o2, id2) || (row.owner
                == o2 && row.generated_id == id2)),
{
    assert forall|o2: int, id2: Seq<char>| #[trigger] has_key(rows.push(row), o2, id2) == (has_key(
        rows,
        o2,
        id2,
    ) || (row.owner == o2 && row.generated_id == id2)) by {
        let pushed = rows.push(row);
        assert(pushed.drop_last() =~= rows);
        assert(pushed.last() == row);
        lemma_has_key_drop_last(pushed, o2, id2);
    }
}

} // verus!
