use vstd::prelude::*;

verus! {

/// A todo item. The title identifies it within a store; the message is its body.
pub struct Todo {
    pub title: String,
    pub message: String,
}

impl View for Todo {
    type V = (Seq<char>, Seq<char>);

    open spec fn view(&self) -> (Seq<char>, Seq<char>) {
        (self.title@, self.message@)
    }
}

impl Todo {
    pub fn new(title: String, message: String) -> (r: Todo)
        ensures
            r.title == title,
            r.message == message,
    {
        Todo { title, message }
    }

    /// A copy of this item, field for field.
    pub fn duplicate(&self) -> (r: Todo)
        ensures
            r@ == self@,
    {
        Todo { title: self.title.clone(), message: self.message.clone() }
    }
}

/// Why a store operation did not take effect.
#[derive(PartialEq, Eq, Structural, Clone, Copy, Debug)]
pub enum TodoError {
    /// A create named a title that is already stored.
    DuplicateTitle,
    /// An update or delete named a title that is not stored.
    NotFound,
    /// The backing store failed, or changed an unexpected number of rows.
    StoreError,
}

} // verus!
