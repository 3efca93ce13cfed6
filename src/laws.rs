use vstd::prelude::*;
use crate::rows::{
    Row, has_title, titles_unique, index_of, create_outcome, after_create, lookup_outcome,
    after_update, after_delete,
};
use crate::todo::TodoError;

verus! {

/// A mutation of the store, in the abstract.
pub enum Mutation {
    Create(Row),
    Delete(Seq<char>),
}

/// The rows after one mutation.
pub open spec fn apply(rows: Seq<Row>, m: Mutation) -> Seq<Row> {
    match m {
        Mutation::Create(row) => after_create(rows, row),
        Mutation::Delete(t) => after_delete(rows, t),
    }
}

/// The mutation succeeds on `rows`.
pub open spec fn succeeds(rows: Seq<Row>, m: Mutation) -> bool {
    match m {
        Mutation::Create(row) => create_outcome(rows, row) is Ok,
        Mutation::Delete(t) => lookup_outcome(rows, t) is Ok,
    }
}

/// The rows after the mutations `ms`, applied in order.
pub open spec fn apply_all(rows: Seq<Row>, ms: Seq<Mutation>) -> Seq<Row>
    decreases ms.len(),
{
    if ms.len() == 0 {
        rows
    } else {
        apply(apply_all(rows, ms.drop_last()), ms.last())
    }
}

/// Each of the mutations `ms`, applied in order, succeeds.
pub open spec fn all_succeed(rows: Seq<Row>, ms: Seq<Mutation>) -> bool
    decreases ms.len(),
{
    if ms.len() == 0 {
        true
    } else {
        all_succeed(rows, ms.drop_last()) && succeeds(apply_all(rows, ms.drop_last()), ms.last())
    }
}

/// How many of `ms` are creates.
pub open spec fn count_creates(ms: Seq<Mutation>) -> nat
    decreases ms.len(),
{
    if ms.len() == 0 {
        0
    } else {
        count_creates(ms.drop_last()) + if ms.last() is Create { 1nat } else { 0nat }
    }
}

/// How many of `ms` are deletes.
pub open spec fn count_deletes(ms: Seq<Mutation>) -> nat
    decreases ms.len(),
{
    if ms.len() == 0 {
        0
    } else {
        count_deletes(ms.drop_last()) + if ms.last() is Delete { 1nat } else { 0nat }
    }
}

/// The rows after the creates of `batch`, applied one after another.
pub open spec fn run_creates(rows: Seq<Row>, batch: Seq<Row>) -> Seq<Row>
    decreases batch.len(),
{
    if batch.len() == 0 {
        rows
    } else {
        after_create(run_creates(rows, batch.drop_last()), batch.last())
    }
}

/// What the `i`th create of `batch` returns when the creates are applied one
/// after another.
pub open spec fn batch_outcome(rows: Seq<Row>, batch: Seq<Row>, i: int) -> Result<(), TodoError> {
    create_outcome(run_creates(rows, batch.take(i)), batch[i])
}

/// Creating an item whose title is not stored succeeds, and the item is
/// then among the rows that a listing returns; titles stay unique.
pub proof fn create_fresh_is_visible(rows: Seq<Row>, row: Row)
    requires
        titles_unique(rows),
        !has_title(rows, row.0),
    ensures
        create_outcome(rows, row) == Ok::<(), TodoError>(()),
        after_create(rows, row).contains(row),
        titles_unique(after_create(rows, row)),
{
    let after = after_create(rows, row);
    assert(after[rows.len() as int] == row);
    assert forall|i: int, j: int|
        0 <= i < after.len() && 0 <= j < after.len() && (#[trigger] after[i]).0 == (
        #[trigger] after[j]).0 implies i == j by {
        if i < rows.len() && j == rows.len() {
            assert(rows[i].0 == row.0);
        } else if j < rows.len() && i == rows.len() {
            assert(rows[j].0 == row.0);
        }
    }
}

/// Creating an item whose title is stored fails with a duplicate-title
/// error and leaves every row as it was.
pub proof fn create_taken_is_refused(rows: Seq<Row>, row: Row)
    requires
        has_title(rows, row.0),
    ensures
        create_outcome(rows, row) == Err::<(), TodoError>(TodoError::DuplicateTitle),
        after_create(rows, row) == rows,
{
}

/// Updating a stored title replaces the message of its row and nothing
/// else; updating an absent title fails with not-found and changes nothing.
pub proof fn update_changes_only_message(rows: Seq<Row>, row: Row)
    requires
        titles_unique(rows),
    ensures
        has_title(rows, row.0) ==> {
            let i = index_of(rows, row.0);
            &&& lookup_outcome(rows, row.0) == Ok::<(), TodoError>(())
            &&& 0 <= i < rows.len()
            &&& rows[i].0 == row.0
            &&& after_update(rows, row) == rows.update(i, (rows[i].0, row.1))
            &&& titles_unique(after_update(rows, row))
        },
        !has_title(rows, row.0) ==> lookup_outcome(rows, row.0) == Err::<(), TodoError>(
            TodoError::NotFound,
        ) && after_update(rows, row) == rows,
{
    if has_title(rows, row.0) {
        let i = index_of(rows, row.0);
        let after = after_update(rows, row);
        assert(0 <= i < rows.len() && rows[i].0 == row.0);
        assert(row == (rows[i].0, row.1));
        assert forall|a: int, b: int|
            0 <= a < after.len() && 0 <= b < after.len() && (#[trigger] after[a]).0 == (
            #[trigger] after[b]).0 implies a == b by {
            assert(after[a].0 == rows[a].0);
            assert(after[b].0 == rows[b].0);
        }
    }
}

/// Deleting a stored title removes exactly its row and keeps every other
/// row, in order; deleting an absent title fails with not-found.
pub proof fn delete_removes_exactly_one(rows: Seq<Row>, t: Seq<char>)
    requires
        titles_unique(rows),
    ensures
        has_title(rows, t) ==> {
            let after = after_delete(rows, t);
            &&& lookup_outcome(rows, t) == Ok::<(), TodoError>(())
            &&& after.len() == rows.len() - 1
            &&& !has_title(after, t)
            &&& forall|r: Row| rows.contains(r) && r.0 != t ==> #[trigger] after.contains(r)
            &&& forall|r: Row| #[trigger] after.contains(r) ==> rows.contains(r)
            &&& titles_unique(after)
        },
        !has_title(rows, t) ==> lookup_outcome(rows, t) == Err::<(), TodoError>(TodoError::NotFound)
            && after_delete(rows, t) == rows,
{
    if has_title(rows, t) {
        let k = index_of(rows, t);
        let after = after_delete(rows, t);
        assert(0 <= k < rows.len() && rows[k].0 == t);
        rows.remove_ensures(k);
        assert forall|a: int| 0 <= a < after.len() implies (#[trigger] after[a]) == rows[if a < k {
            a
        } else {
            a + 1
        }] by {}
        assert(!has_title(after, t)) by {
            if has_title(after, t) {
                let a = choose|a: int| 0 <= a < after.len() && (#[trigger] after[a]).0 == t;
                let b = if a < k { a } else { a + 1 };
                assert(rows[b].0 == rows[k].0);
            }
        }
        assert forall|r: Row| rows.contains(r) && r.0 != t implies #[trigger] after.contains(r) by {
            let b = choose|b: int| 0 <= b < rows.len() && rows[b] == r;
            if b < k {
                assert(after[b] == r);
            } else {
                assert(b != k);
                assert(after[b - 1] == r);
            }
        }
        assert forall|r: Row| #[trigger] after.contains(r) implies rows.contains(r) by {
            let a = choose|a: int| 0 <= a < after.len() && after[a] == r;
            let b = if a < k { a } else { a + 1 };
            assert(rows[b] == r);
        }
        assert forall|a: int, b: int|
            0 <= a < after.len() && 0 <= b < after.len() && (#[trigger] after[a]).0 == (
            #[trigger] after[b]).0 implies a == b by {
            let a2 = if a < k { a } else { a + 1 };
            let b2 = if b < k { b } else { b + 1 };
            assert(rows[a2].0 == rows[b2].0);
        }
    }
}

/// After mutations that each succeed, the store holds as many rows as it
/// held before, plus one for each create, minus one for each delete; titles
/// stay unique throughout.
pub proof fn row_count_after_mutations(rows: Seq<Row>, ms: Seq<Mutation>)
    requires
        titles_unique(rows),
        all_succeed(rows, ms),
    ensures
        apply_all(rows, ms).len() + count_deletes(ms) == rows.len() + count_creates(ms),
        titles_unique(apply_all(rows, ms)),
    decreases ms.len(),
{
    if ms.len() > 0 {
        row_count_after_mutations(rows, ms.drop_last());
        let prev = apply_all(rows, ms.drop_last());
        match ms.last() {
            Mutation::Create(row) => create_fresh_is_visible(prev, row),
            Mutation::Delete(t) => delete_removes_exactly_one(prev, t),
        }
    }
}

proof fn run_creates_fresh(rows: Seq<Row>, batch: Seq<Row>)
    requires
        titles_unique(batch),
        forall|k: int| 0 <= k < batch.len() ==> !has_title(rows, (#[trigger] batch[k]).0),
    ensures
        run_creates(rows, batch) == rows + batch,
    decreases batch.len(),
{
    if batch.len() == 0 {
        assert(rows + batch =~= rows);
    } else {
        let b0 = batch.drop_last();
        let last = batch.last();
        assert forall|k: int| 0 <= k < b0.len() implies !has_title(rows, (#[trigger] b0[k]).0) by {
            assert(b0[k] == batch[k]);
        }
        run_creates_fresh(rows, b0);
        assert(!has_title(rows + b0, last.0)) by {
            if has_title(rows + b0, last.0) {
                let a = choose|a: int| 0 <= a < (rows + b0).len() && (#[trigger] (rows + b0)[a]).0
                    == last.0;
                if a < rows.len() {
                    assert(rows[a].0 == last.0);
                    assert(batch[batch.len() - 1] == last);
                } else {
                    assert(batch[a - rows.len()] == b0[a - rows.len()]);
                    assert(batch[a - rows.len()].0 == batch[batch.len() - 1].0);
                }
            }
        }
        assert((rows + b0).push(last) =~= rows + batch);
    }
}

/// Creates with distinct titles, none of them stored, all succeed, in
/// whatever order the store applies them, and all their items are stored.
pub proof fn distinct_creates_all_succeed(rows: Seq<Row>, batch: Seq<Row>)
    requires
        titles_unique(batch),
        forall|k: int| 0 <= k < batch.len() ==> !has_title(rows, (#[trigger] batch[k]).0),
    ensures
        forall|i: int| 0 <= i < batch.len() ==> #[trigger] batch_outcome(rows, batch, i) == Ok::<
            (),
            TodoError,
        >(()),
        run_creates(rows, batch) == rows + batch,
{
    run_creates_fresh(rows, batch);
    assert forall|i: int| 0 <= i < batch.len() implies #[trigger] batch_outcome(rows, batch, i)
        == Ok::<(), TodoError>(()) by {
        let p = batch.take(i);
        assert forall|a: int, b: int|
            0 <= a < p.len() && 0 <= b < p.len() && (#[trigger] p[a]).0 == (#[trigger] p[b]).0 implies a
            == b by {
            assert(p[a] == batch[a] && p[b] == batch[b]);
        }
        assert forall|k: int| 0 <= k < p.len() implies !has_title(rows, (#[trigger] p[k]).0) by {
            assert(p[k] == batch[k]);
        }
        run_creates_fresh(rows, p);
        assert(!has_title(rows + p, batch[i].0)) by {
            if has_title(rows + p, batch[i].0) {
                let a = choose|a: int| 0 <= a < (rows + p).len() && (#[trigger] (rows + p)[a]).0
                    == batch[i].0;
                if a >= rows.len() {
                    assert(batch[a - rows.len()] == p[a - rows.len()]);
                }
            }
        }
    }
}

proof fn run_creates_same(rows: Seq<Row>, batch: Seq<Row>, i: int)
    requires
        1 <= i <= batch.len(),
        forall|k: int| 0 <= k < batch.len() ==> (#[trigger] batch[k]).0 == batch[0].0,
        !has_title(rows, batch[0].0),
    ensures
        run_creates(rows, batch.take(i)) == rows.push(batch[0]),
    decreases i,
{
    let p = batch.take(i);
    if i == 1 {
        assert(p.drop_last() =~= Seq::<Row>::empty());
        assert(run_creates(rows, p.drop_last()) == rows);
    } else {
        run_creates_same(rows, batch, i - 1);
        assert(p.drop_last() =~= batch.take(i - 1));
        let pushed = rows.push(batch[0]);
        assert(pushed[rows.len() as int].0 == batch[i - 1].0);
        assert(has_title(pushed, p.last().0));
    }
}

/// Creates that all name one title not yet stored: whatever order the store
/// applies them in, the first succeeds and every later one fails with a
/// duplicate-title error, so exactly one item is stored.
pub proof fn same_title_creates_one_succeeds(rows: Seq<Row>, batch: Seq<Row>)
    requires
        batch.len() > 0,
        forall|k: int| 0 <= k < batch.len() ==> (#[trigger] batch[k]).0 == batch[0].0,
        !has_title(rows, batch[0].0),
    ensures
        batch_outcome(rows, batch, 0) == Ok::<(), TodoError>(()),
        forall|i: int| 0 < i < batch.len() ==> #[trigger] batch_outcome(rows, batch, i) == Err::<
            (),
            TodoError,
        >(TodoError::DuplicateTitle),
        run_creates(rows, batch) == rows.push(batch[0]),
{
    assert(batch.take(0) =~= Seq::<Row>::empty());
    assert(run_creates(rows, batch.take(0)) == rows);
    assert forall|i: int| 0 < i < batch.len() implies #[trigger] batch_outcome(rows, batch, i)
        == Err::<(), TodoError>(TodoError::DuplicateTitle) by {
        run_creates_same(rows, batch, i);
        let pushed = rows.push(batch[0]);
        assert(pushed[rows.len() as int].0 == batch[i].0);
    }
    run_creates_same(rows, batch, batch.len() as int);
    assert(batch.take(batch.len() as int) =~= batch);
}

} // verus!
