use vstd::prelude::*;

verus! {

/// What the view can be asked to do.
#[derive(Clone, Debug, PartialEq, Eq)]
pub enum ViewMessage {
    /// Empty the box in which a new item is typed.
    ClearNewTodo(),
}

} // verus!
