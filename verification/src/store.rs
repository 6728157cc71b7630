//! The todo items and the list of them that is kept between sessions.
//!
//! The list is written out as an array with one entry for each item, and each
//! entry is itself an array that holds the item's title, whether it is
//! completed, and its id, in that order.
use vstd::prelude::*;

verus! {

/// A list of items of type `T`.
pub trait ItemListTrait<T>: Sized {
    /// The items, first to last.
    spec fn items(&self) -> Seq<T>;

    /// An empty list.
    fn new() -> (list: Self)
        ensures
            list.items() == Seq::<T>::empty(),
    ;

    /// Appends `item` to the back of the list.
    fn push(&mut self, item: T)
        ensures
            final(self).items() == old(self).items().push(item),
    ;

    /// An iterator over the items, first to last.
    fn iter(&self) -> (iter: std::slice::Iter<'_, T>)
        ensures
            vstd::std_specs::slice::into_iter_elts(iter) == self.items(),
    ;
}

/// A todo item.
#[derive(Clone, Debug, PartialEq, Eq)]
pub struct Item {
    /// What is to be done.
    pub title: String,
    /// `true` once it is done.
    pub completed: bool,
    /// What tells this item from the others.
    pub id: String,
}

/// A growable list of items.
pub struct ItemList {
    list: Vec<Item>,
}

impl ItemListTrait<Item> for ItemList {
    closed spec fn items(&self) -> Seq<Item> {
        self.list@
    }

    fn new() -> (list: ItemList) {
        ItemList { list: Vec::new() }
    }

    fn push(&mut self, item: Item) {
        self.list.push(item);
    }

    fn iter(&self) -> (iter: std::slice::Iter<'_, Item>) {
        self.list.iter()
    }
}

/// What to look for in the store.
pub enum ItemQuery {
    /// The items with this id.
    Id { id: String },
    /// The items that are completed, or those that are not.
    Completed { completed: bool },
    /// Every item.
    EmptyItemQuery,
}

impl ItemQuery {
    /// Whether `item` is one of those that the query asks for. Ids are
    /// compared by their characters.
    pub open spec fn selects(&self, item: Item) -> bool {
        match *self {
            ItemQuery::EmptyItemQuery => true,
            ItemQuery::Id { id } => item.id@ == id@,
            ItemQuery::Completed { completed } => item.completed == completed,
        }
    }

    /// `selects`, as a predicate on items.
    pub open spec fn selecting(&self) -> spec_fn(Item) -> bool {
        |item: Item| self.selects(item)
    }

    /// Returns `true` if `item` is one of those that the query asks for.
    pub fn matches(&self, item: &Item) -> (found: bool)
        ensures
            found == self.selects(*item),
    {
        match self {
            ItemQuery::EmptyItemQuery => true,
            ItemQuery::Id { id } => item.id == *id,
            ItemQuery::Completed { completed } => item.completed == *completed,
        }
    }
}

/// Some of the items of a list, borrowed from it: while the slice lives, the
/// list cannot change.
pub struct ItemListSlice<'a> {
    list: Vec<&'a Item>,
}

impl<'a> ItemListTrait<&'a Item> for ItemListSlice<'a> {
    closed spec fn items(&self) -> Seq<&'a Item> {
        self.list@
    }

    fn new() -> (list: ItemListSlice<'a>) {
        ItemListSlice { list: Vec::new() }
    }

    fn push(&mut self, item: &'a Item) {
        self.list.push(item);
    }

    fn iter(&self) -> (iter: std::slice::Iter<'_, &'a Item>) {
        self.list.iter()
    }
}

/// The items as they are kept between sessions, under a name.
///
/// The store holds the list; whoever owns the store reads the kept copy and
/// writes it back. `dirty` says that the list has changed since it was last
/// read or written.
pub struct Store {
    /// Every item, in the order in which they were added.
    pub data: ItemList,
    /// The name under which the list is kept.
    pub name: String,
    /// `true` while `data` holds changes that were not written back.
    pub dirty: bool,
}

impl Store {
    /// A store named `name` that holds no item yet.
    pub fn new(name: &str) -> (store: Store)
        ensures
            store.data.items() == Seq::<Item>::empty(),
            store.name@ == name@,
            !store.dirty,
    {
        Store { data: ItemList::new(), name: name.to_owned(), dirty: false }
    }

    /// Whether every entry of `entries` could be read as an item.
    pub open spec fn all_read(entries: Seq<Option<Item>>) -> bool {
        forall|i: int| 0 <= i < entries.len() ==> (#[trigger] entries[i]) is Some
    }

    /// The items of `entries`, where each of them could be read.
    pub open spec fn read_items(entries: Seq<Option<Item>>) -> Seq<Item> {
        Seq::new(entries.len(), |i: int| entries[i]->0)
    }

    /// Takes over the list that was read back under the store's name.
    ///
    /// `stored` is `None` where nothing is kept under the name, and else the
    /// entries of the kept list, each `None` where it could not be read as an
    /// item. With nothing kept the list becomes empty. With every entry read,
    /// the list becomes those items. With an entry that could not be read the
    /// call gives up with `None` and leaves the store as it was.
    pub fn fetch_local_storage(&mut self, stored: Option<Vec<Option<Item>>>) -> (done: Option<()>)
        ensures
            final(self).name == old(self).name,
            match stored {
                None => {
                    &&& done is Some
                    &&& final(self).data.items() == Seq::<Item>::empty()
                    &&& !final(self).dirty
                },
                Some(entries) => if Self::all_read(entries@) {
                    &&& done is Some
                    &&& final(self).data.items() == Self::read_items(entries@)
                    &&& !final(self).dirty
                } else {
                    &&& done is None
                    &&& *final(self) == *old(self)
                },
            },
    {
        let mut item_list = ItemList::new();
        if let Some(entries) = stored {
            let ghost all = entries@;
            let mut entries = entries;
            let mut i: usize = 0;
            while i < entries.len()
                invariant
                    stored matches Some(read) && read@ == all,
                    entries@.len() == all.len(),
                    i <= all.len(),
                    forall|j: int| i <= j < all.len() ==> entries@[j] == all[j],
                    item_list.items().len() == i,
                    forall|j: int| 0 <= j < i ==> all[j] == Some(item_list.items()[j]),
                    *self == *old(self),
                decreases all.len() - i,
            {
                match entries[i].take() {
                    Some(item) => {
                        item_list.push(item);
                    },
                    None => {
                        assert(all[i as int] is None);
                        return None;
                    },
                }
                i = i + 1;
            }
        }
        self.data = item_list;
        self.dirty = false;
        Some(())
    }

    /// Adds `item` at the end of the list, which then has to be written back.
    pub fn insert(&mut self, item: Item)
        ensures
            final(self).data.items() == old(self).data.items().push(item),
            final(self).name == old(self).name,
            final(self).dirty,
    {
        self.data.push(item);
        self.dirty = true;
    }

    /// Finds the items that `query` asks for, in the order in which the store
    /// holds them. The store stays as it is.
    pub fn find(&mut self, query: ItemQuery) -> (found: Option<ItemListSlice<'_>>)
        ensures
            found is Some,
            found->0.items().unref() == old(self).data.items().filter(query.selecting()),
            *final(self) == *old(self),
    {
        let mut found = ItemListSlice::new();
        let n = self.data.list.len();
        let mut i: usize = 0;
        while i < n
            invariant
                n == self.data.list@.len(),
                i <= n,
                found.items().unref() == self.data.list@.take(i as int).filter(query.selecting()),
            decreases n - i,
        {
            let item = &self.data.list[i];
            proof {
                assert(self.data.list@.take(i + 1) =~= self.data.list@.take(i as int).push(*item));
                self.data.list@.take(i as int).lemma_filter_push(*item, query.selecting());
            }
            if query.matches(item) {
                found.push(item);
                assert(found.items().unref() =~= self.data.list@.take(i as int).filter(
                    query.selecting(),
                ).push(*item));
            }
            i = i + 1;
        }
        assert(self.data.list@.take(n as int) =~= self.data.list@);
        Some(found)
    }
}

} // verus!
