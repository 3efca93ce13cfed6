use vstd::prelude::*;
use crate::todo::TodoError;

verus! {

/// A stored row in the abstract: its title and its message.
pub type Row = (Seq<char>, Seq<char>);

/// Some row of `rows` has the title `t`.
pub open spec fn has_title(rows: Seq<Row>, t: Seq<char>) -> bool {
    exists|i: int| 0 <= i < rows.len() && (#[trigger] rows[i]).0 == t
}

/// No two rows share a title.
pub open spec fn titles_unique(rows: Seq<Row>) -> bool {
    forall|i: int, j: int|
        0 <= i < rows.len() && 0 <= j < rows.len() && (#[trigger] rows[i]).0 == (#[trigger] rows[j]).0
            ==> i == j
}

/// The position of the row titled `t` (meaningful when there is one).
pub open spec fn index_of(rows: Seq<Row>, t: Seq<char>) -> int {
    choose|i: int| 0 <= i < rows.len() && (#[trigger] rows[i]).0 == t
}

/// What creating `row` returns: it fails exactly when its title is taken.
pub open spec fn create_outcome(rows: Seq<Row>, row: Row) -> Result<(), TodoError> {
    if has_title(rows, row.0) {
        Err(TodoError::DuplicateTitle)
    } else {
        Ok(())
    }
}

/// The rows after creating `row`: appended when its title is free, else unchanged.
pub open spec fn after_create(rows: Seq<Row>, row: Row) -> Seq<Row> {
    if has_title(rows, row.0) {
        rows
    } else {
        rows.push(row)
    }
}

/// What an update or delete of title `t` returns: it fails exactly when `t` is absent.
pub open spec fn lookup_outcome(rows: Seq<Row>, t: Seq<char>) -> Result<(), TodoError> {
    if has_title(rows, t) {
        Ok(())
    } else {
        Err(TodoError::NotFound)
    }
}

/// The rows after updating with `row`: the row with its title takes its message.
pub open spec fn after_update(rows: Seq<Row>, row: Row) -> Seq<Row> {
    if has_title(rows, row.0) {
        rows.update(index_of(rows, row.0), row)
    } else {
        rows
    }
}

/// The rows after deleting title `t`: the row with that title is gone.
pub open spec fn after_delete(rows: Seq<Row>, t: Seq<char>) -> Seq<Row> {
    if has_title(rows, t) {
        rows.remove(index_of(rows, t))
    } else {
        rows
    }
}

} // verus!
