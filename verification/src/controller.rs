use vstd::prelude::*;

use crate::store::{Item, ItemListTrait, Store};
use crate::view::ViewMessage;
use crate::Message;

verus! {

/// Turns what the page asks for into changes of the stored list.
///
/// The controller does not reach the scheduler by itself. What it wants sent
/// on it leaves in `outbox`, oldest first, and whoever delivered the message
/// passes these to the scheduler, in that order, once `call` has returned.
pub struct Controller {
    /// The items, as they are kept between sessions.
    pub store: Store,
    /// The messages that `call` wants sent on, oldest first.
    pub outbox: Vec<Message>,
    /// The fragment of the page's address.
    pub active_route: String,
    /// The fragment before the last change, by which to tell whether the list
    /// on the page has to be drawn again.
    pub last_active_route: String,
}

impl Controller {
    /// A controller over `store`, with nothing to send, an empty active route
    /// and `none` as the route before it.
    pub fn new(store: Store) -> (controller: Controller)
        ensures
            controller.store == store,
            controller.outbox@ == Seq::<Message>::empty(),
            controller.active_route@ == ""@,
            controller.last_active_route@ == "none"@,
    {
        Controller {
            store,
            outbox: Vec::new(),
            active_route: "".to_owned(),
            last_active_route: "none".to_owned(),
        }
    }

    /// What `call` makes of a controller. Only `AddItem` changes anything: the
    /// store gains an item that is not completed, with the given title and
    /// with `stamp` as its id, and the view is told to empty the box for new
    /// items.
    pub open spec fn handled(
        self,
        method_name: ControllerMessage,
        stamp: String,
        after: Controller,
    ) -> bool {
        match method_name {
            ControllerMessage::AddItem(title) => self.item_added(title, stamp, after),
            _ => after == self,
        }
    }

    /// What `add_item` makes of a controller.
    pub open spec fn item_added(self, title: String, id: String, after: Controller) -> bool {
        &&& after.store.data.items() == self.store.data.items().push(
            Item { title, completed: false, id },
        )
        &&& after.store.name == self.store.name
        &&& after.store.dirty
        &&& after.outbox@ == self.outbox@.push(Message::View(ViewMessage::ClearNewTodo()))
        &&& after.active_route == self.active_route
        &&& after.last_active_route == self.last_active_route
    }

    /// Does what `method_name` asks for, by the method that belongs to it.
    ///
    /// `stamp` is the time of the call as the caller read it, written out; a
    /// new item gets it as its id.
    pub fn call(&mut self, method_name: ControllerMessage, stamp: String)
        ensures
            old(self).handled(method_name, stamp, *final(self)),
    {
        match method_name {
            ControllerMessage::AddItem(title) => self.add_item(title, stamp),
            ControllerMessage::SetPage(hash) => self.set_page(hash),
            ControllerMessage::EditItemSave(id, value) => self.edit_item_save(id, value),
            ControllerMessage::EditItemCancel(id) => self.edit_item_cancel(id),
            ControllerMessage::RemoveCompleted() => self.remove_completed_items(),
            ControllerMessage::RemoveItem(id) => self.remove_item(&id),
            ControllerMessage::ToggleAll(completed) => self.toggle_all(completed),
            ControllerMessage::ToggleItem(id, completed) => self.toggle_item(id, completed),
        }
    }

    /// Adds an item with the title `title` and the id `id` to the store, not
    /// completed, and tells the view to empty the box for new items.
    pub fn add_item(&mut self, title: String, id: String)
        ensures
            old(self).item_added(title, id, *final(self)),
    {
        self.store.insert(Item { id, title, completed: false });
        self.add_message(ViewMessage::ClearNewTodo());
        self._filter(true);
    }

    /// Leaves the controller as it is.
    pub fn set_page(&mut self, hash: String)
        ensures
            *final(self) == *old(self),
    {
    }

    /// Leaves the controller as it is.
    pub fn edit_item_save(&mut self, id: String, title: String)
        ensures
            *final(self) == *old(self),
    {
    }

    /// Leaves the controller as it is.
    pub fn edit_item_cancel(&mut self, id: String)
        ensures
            *final(self) == *old(self),
    {
    }

    /// Leaves the controller as it is.
    pub fn remove_completed_items(&mut self)
        ensures
            *final(self) == *old(self),
    {
    }

    /// Leaves the controller as it is.
    pub fn remove_item(&mut self, id: &String)
        ensures
            *final(self) == *old(self),
    {
    }

    /// Leaves the controller as it is.
    pub fn toggle_all(&mut self, completed: bool)
        ensures
            *final(self) == *old(self),
    {
    }

    /// Leaves the controller as it is.
    pub fn toggle_item(&mut self, id: String, completed: bool)
        ensures
            *final(self) == *old(self),
    {
    }

    /// Puts `view_message` into the outbox, as a message for the view.
    pub fn add_message(&mut self, view_message: ViewMessage)
        ensures
            final(self).outbox@ == old(self).outbox@.push(Message::View(view_message)),
            final(self).store == old(self).store,
            final(self).active_route == old(self).active_route,
            final(self).last_active_route == old(self).last_active_route,
    {
        self.outbox.push(Message::View(view_message));
    }

    /// Leaves the controller as it is.
    pub fn _filter(&mut self, force: bool)
        ensures
            *final(self) == *old(self),
    {
    }
}

/// What the controller can be asked to do.
///
/// Each variant names a change to the stored list, not to what the user sees:
/// whenever the page has to follow, the controller sends a message to the view.
#[derive(Clone, Debug, PartialEq, Eq)]
pub enum ControllerMessage {
    /// Add a new item with the given title.
    AddItem(String),
    /// Make the given string the active route.
    SetPage(String),
    /// Give the item with the given id the given title.
    EditItemSave(String, String),
    /// Leave the item with the given id as it was.
    EditItemCancel(String),
    /// Remove every completed item.
    RemoveCompleted(),
    /// Remove the item with the given id.
    RemoveItem(String),
    /// Mark every item as completed, or as not completed.
    ToggleAll(bool),
    /// Mark the item with the given id as completed, or as not completed.
    ToggleItem(String, bool),
}

} // verus!
