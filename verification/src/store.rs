//! The todo store: the items, keyed by id, and the counter that hands out ids.

use crate::error::StoreError;
use std::collections::HashMap;
use vstd::prelude::*;

verus! {

/// One todo.
#[derive(Debug, PartialEq, Eq)]
pub struct TodoItem {
    pub id: usize,
    pub completed: bool,
    pub text: String,
}

/// What a todo is, mathematically.
pub struct ItemModel {
    pub id: nat,
    pub text: Seq<char>,
    pub completed: bool,
}

impl ItemModel {
    /// The same item with `completed` flipped.
    pub open spec fn toggled(self) -> ItemModel {
        ItemModel { id: self.id, text: self.text, completed: !self.completed }
    }
}

impl View for TodoItem {
    type V = ItemModel;

    open spec fn view(&self) -> ItemModel {
        ItemModel { id: self.id as nat, text: self.text@, completed: self.completed }
    }
}

impl Clone for TodoItem {
    fn clone(&self) -> (copy: Self)
        ensures
            copy == *self,
    {
        TodoItem { id: self.id, completed: self.completed, text: self.text.clone() }
    }
}

impl TodoItem {
    /// Flips `completed`; id and text stay.
    pub fn toggle_completed(&mut self)
        ensures
            final(self)@ == old(self)@.toggled(),
            final(self).id == old(self).id,
            final(self).text == old(self).text,
    {
        self.completed = !self.completed;
    }
}

/// The views of a sequence of items, in the same order.
pub open spec fn views(items: Seq<TodoItem>) -> Seq<ItemModel> {
    items.map_values(|item: TodoItem| item@)
}

/// What a store is, mathematically: its items by id, and the id that the
/// next created item will get.
pub struct StoreModel {
    pub items: Map<nat, ItemModel>,
    pub next_id: nat,
}

impl StoreModel {
    /// The store as it is made: no item, and 1 as the first id.
    pub open spec fn empty() -> StoreModel {
        StoreModel { items: Map::empty(), next_id: 1 }
    }

    /// Every item is filed under its own id, and every id in use is at least
    /// 1 and was handed out by the counter, which is therefore beyond it.
    pub open spec fn wf(self) -> bool {
        &&& self.next_id >= 1
        &&& forall|id: nat| #[trigger]
            self.items.contains_key(id) ==> 1 <= id < self.next_id && self.items[id].id == id
    }

    /// Whether an id is left for another item.
    pub open spec fn can_create(self) -> bool {
        self.next_id < usize::MAX
    }

    /// The item that `create` makes of `text`.
    pub open spec fn created(self, text: Seq<char>) -> ItemModel {
        ItemModel { id: self.next_id, text, completed: false }
    }

    /// The store after `create` has added an item with `text`.
    pub open spec fn create(self, text: Seq<char>) -> StoreModel {
        StoreModel {
            items: self.items.insert(self.next_id, self.created(text)),
            next_id: self.next_id + 1,
        }
    }

    /// The store after the item `id` was toggled.
    pub open spec fn toggle(self, id: nat) -> StoreModel
        recommends
            self.items.contains_key(id),
    {
        StoreModel { items: self.items.insert(id, self.items[id].toggled()), next_id: self.next_id }
    }

    /// The items whose id is below `bound`, by ascending id.
    pub open spec fn listing_below(self, bound: nat) -> Seq<ItemModel>
        decreases bound,
    {
        if bound == 0 {
            Seq::empty()
        } else {
            let id = (bound - 1) as nat;
            let before = self.listing_below(id);
            if self.items.contains_key(id) {
                before.push(self.items[id])
            } else {
                before
            }
        }
    }

    /// All items, by ascending id.
    pub open spec fn listing(self) -> Seq<ItemModel> {
        self.listing_below(self.next_id)
    }
}

/// The store of todos. It is shared by all requests; whoever holds it
/// mutably has it alone, so each operation happens as a whole.
pub struct TodoStore {
    counter: usize,
    todos: HashMap<usize, TodoItem>,
}

impl View for TodoStore {
    type V = StoreModel;

    closed spec fn view(&self) -> StoreModel {
        TodoStore::view_of(self.counter, self.todos@)
    }
}

impl TodoStore {
    #[verifier::type_invariant]
    spec fn inv(self) -> bool {
        self@.wf()
    }

    /// The view of a store with the given counter and items.
    closed spec fn view_of(counter: usize, todos: Map<usize, TodoItem>) -> StoreModel {
        StoreModel {
            items: Map::new(
                |id: nat| id <= usize::MAX && todos.contains_key(id as usize),
                |id: nat| todos[id as usize]@,
            ),
            next_id: counter as nat,
        }
    }

    /// Filing an item under its own id, below the counter, keeps a store
    /// well formed.
    proof fn lemma_insert_keeps_wf(
        counter: usize,
        todos: Map<usize, TodoItem>,
        next: usize,
        item: TodoItem,
    )
        requires
            Self::view_of(counter, todos).wf(),
            counter <= next,
            1 <= item.id < next,
        ensures
            Self::view_of(next, todos.insert(item.id, item)).wf(),
            Self::view_of(next, todos.insert(item.id, item)).items == Self::view_of(
                counter,
                todos,
            ).items.insert(item.id as nat, item@),
    {
        let before = Self::view_of(counter, todos);
        let after = Self::view_of(next, todos.insert(item.id, item));
        assert forall|id: nat| #[trigger] after.items.contains_key(id) implies 1 <= id
            < after.next_id && after.items[id].id == id by {
            if id != item.id {
                assert(before.items.contains_key(id));
            }
        }
        assert(after.items =~= before.items.insert(item.id as nat, item@));
    }

    /// A store without items, whose first item will get the id 1.
    pub fn new() -> (store: Self)
        ensures
            store@ == StoreModel::empty(),
            store@.wf(),
    {
        broadcast use vstd::std_specs::hash::group_hash_axioms;

        let store = TodoStore { counter: 1, todos: HashMap::new() };
        assert(store@.items =~= Map::empty());
        store
    }

    /// The id that the next created item will get.
    pub fn next_id(&self) -> (id: usize)
        ensures
            id == self@.next_id,
            self@.wf(),
    {
        proof {
            use_type_invariant(self);
        }
        self.counter
    }

    /// All items, by ascending id.
    pub fn list_all(&self) -> (items: Vec<TodoItem>)
        ensures
            views(items@) == self@.listing(),
            self@.wf(),
    {
        broadcast use vstd::std_specs::hash::group_hash_axioms;

        proof {
            use_type_invariant(self);
        }
        let mut items: Vec<TodoItem> = Vec::new();
        let mut id: usize = 0;
        assert(views(items@) =~= self@.listing_below(0));
        while id < self.counter
            invariant
                id <= self.counter,
                views(items@) == self@.listing_below(id as nat),
            decreases self.counter - id,
        {
            let ghost before = items@;
            match self.todos.get(&id) {
                Some(item) => {
                    items.push(item.clone());
                    assert(self@.items.contains_key(id as nat));
                    assert(views(items@) =~= views(before).push(self@.items[id as nat]));
                },
                None => {
                    assert(!self@.items.contains_key(id as nat));
                },
            }
            id += 1;
        }
        items
    }

    /// Adds an item with the next id and `text`, not completed, and returns a
    /// copy of it. Fails, and changes nothing, only when no id is left.
    pub fn create(&mut self, text: String) -> (made: Result<TodoItem, StoreError>)
        ensures
            match made {
                Ok(item) => {
                    &&& old(self)@.can_create()
                    &&& item@ == old(self)@.created(text@)
                    &&& final(self)@ == old(self)@.create(text@)
                },
                Err(err) => {
                    &&& !old(self)@.can_create()
                    &&& err == StoreError::IdSpaceExhausted
                    &&& final(self)@ == old(self)@
                },
            },
            old(self)@.wf(),
            final(self)@.wf(),
    {
        broadcast use vstd::std_specs::hash::group_hash_axioms;

        proof {
            use_type_invariant(&*self);
        }
        if self.counter == usize::MAX {
            return Err(StoreError::IdSpaceExhausted);
        }
        let id = self.counter;
        let item = TodoItem { id, completed: false, text };
        // The map is taken out while it changes: counter and map are put
        // back together, so the store is well formed at every step.
        let mut todos = HashMap::new();
        std::mem::swap(&mut todos, &mut self.todos);
        todos.insert(id, item.clone());
        proof {
            Self::lemma_insert_keeps_wf(id, old(self).todos@, (id + 1) as usize, item);
        }
        self.counter = id + 1;
        self.todos = todos;
        Ok(item)
    }

    /// Flips `completed` of the item `id` and returns a copy of the item as
    /// it then is. Fails, and changes nothing, when the store has no such item.
    pub fn toggle(&mut self, id: usize) -> (toggled: Result<TodoItem, StoreError>)
        ensures
            match toggled {
                Ok(item) => {
                    &&& old(self)@.items.contains_key(id as nat)
                    &&& item@ == old(self)@.items[id as nat].toggled()
                    &&& final(self)@ == old(self)@.toggle(id as nat)
                },
                Err(err) => {
                    &&& !old(self)@.items.contains_key(id as nat)
                    &&& err == StoreError::NotFound(id)
                    &&& final(self)@ == old(self)@
                },
            },
            old(self)@.wf(),
            final(self)@.wf(),
    {
        broadcast use vstd::std_specs::hash::group_hash_axioms;

        proof {
            use_type_invariant(&*self);
        }
        let mut item = match self.todos.get(&id) {
            Some(found) => found.clone(),
            None => {
                return Err(StoreError::NotFound(id));
            },
        };
        item.toggle_completed();
        let mut todos = HashMap::new();
        std::mem::swap(&mut todos, &mut self.todos);
        todos.insert(id, item.clone());
        proof {
            assert(old(self)@.items.contains_key(id as nat));
            Self::lemma_insert_keeps_wf(self.counter, old(self).todos@, self.counter, item);
        }
        self.todos = todos;
        Ok(item)
    }
}

} // verus!
