//! A todo list organised as model, view and controller, whose parts talk to
//! each other only through messages that a scheduler hands out one at a time.
use vstd::prelude::*;

/// The controller's messages and its state.
pub mod controller;
/// What holds of a drain as a whole.
pub mod drain;
/// Hands the messages out, most recent first.
pub mod scheduler;
/// The items and the list that is kept of them.
pub mod store;
/// The presentation layer's messages.
pub mod view;

pub use crate::controller::{Controller, ControllerMessage};
pub use crate::scheduler::{Scheduler, SchedulerState};
pub use crate::store::{Item, ItemList, ItemListSlice, ItemListTrait, ItemQuery, Store};
pub use crate::view::ViewMessage;

verus! {

/// A message on its way through the scheduler, tagged with the collaborator
/// that it is meant for.
#[derive(Clone, Debug, PartialEq, Eq)]
pub enum Message {
    /// A message for the controller.
    Controller(ControllerMessage),
    /// A message for the view.
    View(ViewMessage),
}

} // verus!
