use vstd::prelude::*;
use crate::todo::TodoError;

verus! {

/// What the backing store reported for one mutating statement.
#[derive(PartialEq, Eq, Structural, Clone, Copy, Debug)]
pub enum StoreOutcome {
    /// The statement ran and changed this many rows.
    Affected(u64),
    /// The statement was refused because it would repeat a unique title.
    UniqueViolation,
    /// The statement failed for any other reason.
    Failed,
}

/// The result of a create, from what the store reported for its insert.
/// Only an insert of exactly one row succeeds; a uniqueness refusal is a
/// duplicate title; anything else is a store error.
pub fn create_result(o: StoreOutcome) -> (r: Result<(), TodoError>)
    ensures
        r == Ok::<(), TodoError>(()) <==> o == StoreOutcome::Affected(1),
        r == Err::<(), TodoError>(TodoError::DuplicateTitle) <==> o == StoreOutcome::UniqueViolation,
        r == Err::<(), TodoError>(TodoError::StoreError) <==> (o is Failed || (o is Affected
            && o->Affected_0 != 1)),
        r != Err::<(), TodoError>(TodoError::NotFound),
{
    match o {
        StoreOutcome::Affected(n) => {
            if n == 1 {
                Ok(())
            } else {
                Err(TodoError::StoreError)
            }
        },
        StoreOutcome::UniqueViolation => Err(TodoError::DuplicateTitle),
        StoreOutcome::Failed => Err(TodoError::StoreError),
    }
}

/// The result of an update or a delete by title, from what the store
/// reported. Exactly one changed row succeeds; none means the title is
/// absent; more than one, or a failure, is a store error.
pub fn mutation_result(o: StoreOutcome) -> (r: Result<(), TodoError>)
    ensures
        r == Ok::<(), TodoError>(()) <==> o == StoreOutcome::Affected(1),
        r == Err::<(), TodoError>(TodoError::NotFound) <==> o == StoreOutcome::Affected(0),
        r == Err::<(), TodoError>(TodoError::StoreError) <==> (o is Failed || o is UniqueViolation
            || (o is Affected && o->Affected_0 > 1)),
        r != Err::<(), TodoError>(TodoError::DuplicateTitle),
{
    match o {
        StoreOutcome::Affected(n) => {
            if n == 1 {
                Ok(())
            } else if n == 0 {
                Err(TodoError::NotFound)
            } else {
                Err(TodoError::StoreError)
            }
        },
        _ => Err(TodoError::StoreError),
    }
}

/// The HTTP status of an error: 409 for a duplicate title, 404 for an
/// absent one, 500 for a store failure.
pub fn error_status(e: TodoError) -> (code: u16)
    ensures
        e == TodoError::DuplicateTitle ==> code == 409,
        e == TodoError::NotFound ==> code == 404,
        e == TodoError::StoreError ==> code == 500,
{
    match e {
        TodoError::DuplicateTitle => 409,
        TodoError::NotFound => 404,
        TodoError::StoreError => 500,
    }
}

/// The HTTP status of a mutation's result: 200 on success, else that of its error.
pub fn status_code(r: Result<(), TodoError>) -> (code: u16)
    ensures
        r is Ok ==> code == 200,
        r == Err::<(), TodoError>(TodoError::DuplicateTitle) ==> code == 409,
        r == Err::<(), TodoError>(TodoError::NotFound) ==> code == 404,
        r == Err::<(), TodoError>(TodoError::StoreError) ==> code == 500,
{
    match r {
        Ok(()) => 200,
        Err(e) => error_status(e),
    }
}

/// The status of the liveness check, which succeeds unconditionally.
pub fn health() -> (code: u16)
    ensures
        code == 200,
{
    200
}

} // verus!
