use vstd::prelude::*;
use crate::outcome::{create_result, mutation_result, StoreOutcome};
use crate::rows::{
    Row, has_title, titles_unique, index_of, create_outcome, after_create, lookup_outcome,
    after_update, after_delete,
};
use crate::todo::{Todo, TodoError};

verus! {

/// A table of todos held in memory, with the semantics of the persistent
/// store: titles are unique, rows keep the order in which they were created,
/// and every mutation is judged by the number of rows it changed.
pub struct TodoTable {
    rows: Vec<Todo>,
}

impl View for TodoTable {
    type V = Seq<Row>;

    closed spec fn view(&self) -> Seq<Row> {
        self.rows@.map_values(|t: Todo| t@)
    }
}

impl TodoTable {
    /// The table's invariant: no two rows share a title.
    pub open spec fn wf(&self) -> bool {
        titles_unique(self@)
    }

    /// An empty table.
    pub fn new() -> (r: TodoTable)
        ensures
            r.wf(),
            r@ == Seq::<Row>::empty(),
    {
        let r = TodoTable { rows: Vec::new() };
        assert(r@ =~= Seq::<Row>::empty());
        r
    }

    /// The number of rows.
    pub fn len(&self) -> (n: usize)
        ensures
            n == self@.len(),
    {
        self.rows.len()
    }

    /// The position of the row titled `title`, if there is one.
    fn position(&self, title: &String) -> (r: Option<usize>)
        requires
            self.wf(),
        ensures
            r is None <==> !has_title(self@, title@),
            r is Some ==> r->0 < self@.len() && self@[r->0 as int].0 == title@ && r->0 == index_of(
                self@,
                title@,
            ),
    {
        let mut i: usize = 0;
        while i < self.rows.len()
            invariant
                i <= self.rows@.len(),
                self@.len() == self.rows@.len(),
                self.wf(),
                forall|j: int| 0 <= j < i ==> (#[trigger] self@[j]).0 != title@,
            decreases self.rows@.len() - i,
        {
            if self.rows[i].title == *title {
                assert(self@[i as int].0 == title@);
                let ghost k = index_of(self@, title@);
                assert(0 <= k < self@.len() && self@[k].0 == title@);
                assert(self@[k].0 == self@[i as int].0);
                return Some(i);
            }
            i = i + 1;
        }
        None
    }

    /// All rows, in the order in which they were created.
    pub fn list(&self) -> (r: Vec<Todo>)
        ensures
            r@.map_values(|t: Todo| t@) == self@,
    {
        let mut out: Vec<Todo> = Vec::new();
        let mut i: usize = 0;
        while i < self.rows.len()
            invariant
                i <= self.rows@.len(),
                self@.len() == self.rows@.len(),
                out@.len() == i,
                forall|j: int| 0 <= j < i ==> (#[trigger] out@[j])@ == self@[j],
            decreases self.rows@.len() - i,
        {
            out.push(self.rows[i].duplicate());
            i = i + 1;
        }
        assert(out@.map_values(|t: Todo| t@) =~= self@);
        out
    }

    /// Stores `todo` unless its title is already stored.
    pub fn create(&mut self, todo: Todo) -> (r: Result<(), TodoError>)
        requires
            old(self).wf(),
        ensures
            final(self).wf(),
            r == create_outcome(old(self)@, todo@),
            final(self)@ == after_create(old(self)@, todo@),
    {
        let ghost before = self@;
        let outcome = match self.position(&todo.title) {
            Some(_) => StoreOutcome::UniqueViolation,
            None => {
                self.rows.push(todo);
                assert(self@ =~= before.push(todo@));
                StoreOutcome::Affected(1)
            },
        };
        create_result(outcome)
    }

    /// Replaces the message of the row titled `todo.title`.
    pub fn update(&mut self, todo: Todo) -> (r: Result<(), TodoError>)
        requires
            old(self).wf(),
        ensures
            final(self).wf(),
            r == lookup_outcome(old(self)@, todo.title@),
            final(self)@ == after_update(old(self)@, todo@),
    {
        let ghost before = self@;
        let outcome = match self.position(&todo.title) {
            Some(i) => {
                self.rows[i] = todo;
                assert(self@ =~= before.update(i as int, todo@));
                StoreOutcome::Affected(1)
            },
            None => StoreOutcome::Affected(0),
        };
        mutation_result(outcome)
    }

    /// Removes the row titled `title`.
    pub fn delete(&mut self, title: &String) -> (r: Result<(), TodoError>)
        requires
            old(self).wf(),
        ensures
            final(self).wf(),
            r == lookup_outcome(old(self)@, title@),
            final(self)@ == after_delete(old(self)@, title@),
    {
        let ghost before = self@;
        let outcome = match self.position(title) {
            Some(i) => {
                self.rows.remove(i);
                assert(self@ =~= before.remove(i as int));
                StoreOutcome::Affected(1)
            },
            None => StoreOutcome::Affected(0),
        };
        mutation_result(outcome)
    }
}

} // verus!
