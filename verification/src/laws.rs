//! What holds of the store over whole runs of operations, in any order in
//! which they reach it.

use crate::render::{items_markup, page_head, page_markup, page_tail};
use crate::store::{ItemModel, StoreModel};
use vstd::prelude::*;

verus! {

/// One operation on the store.
pub enum Op {
    /// Create an item with this text.
    Create(Seq<char>),
    /// Toggle the item with this id.
    Toggle(nat),
}

impl StoreModel {
    /// The store after one operation. An operation that fails changes nothing.
    pub open spec fn apply(self, op: Op) -> StoreModel {
        match op {
            Op::Create(text) => if self.can_create() {
                self.create(text)
            } else {
                self
            },
            Op::Toggle(id) => if self.items.contains_key(id) {
                self.toggle(id)
            } else {
                self
            },
        }
    }

    /// The store after the operations `ops`, applied one after the other.
    pub open spec fn run(self, ops: Seq<Op>) -> StoreModel
        decreases ops.len(),
    {
        if ops.len() == 0 {
            self
        } else {
            self.run(ops.drop_last()).apply(ops.last())
        }
    }

    /// The ids that the creations among `ops` were given, in the order in
    /// which they were applied.
    pub open spec fn issued(self, ops: Seq<Op>) -> Seq<nat>
        decreases ops.len(),
    {
        if ops.len() == 0 {
            Seq::empty()
        } else {
            let before = self.run(ops.drop_last());
            let ids = self.issued(ops.drop_last());
            if ops.last() is Create && before.can_create() {
                ids.push(before.next_id)
            } else {
                ids
            }
        }
    }
}

/// How many of `ops` are creations.
pub open spec fn creations(ops: Seq<Op>) -> nat
    decreases ops.len(),
{
    if ops.len() == 0 {
        0
    } else if ops.last() is Create {
        creations(ops.drop_last()) + 1
    } else {
        creations(ops.drop_last())
    }
}

/// A run keeps the store well formed; the counter never goes back, and it
/// has advanced by exactly the number of ids handed out; the `i`-th id
/// handed out is the `i`-th after the counter's start.
pub proof fn lemma_run(store: StoreModel, ops: Seq<Op>)
    requires
        store.wf(),
    ensures
        store.run(ops).wf(),
        store.run(ops).next_id == store.next_id + store.issued(ops).len(),
        store.issued(ops).len() <= creations(ops),
        forall|i: int|
            0 <= i < store.issued(ops).len() ==> #[trigger] store.issued(ops)[i] == store.next_id
                + i,
        forall|id: nat| #[trigger]
            store.items.contains_key(id) ==> store.run(ops).items.contains_key(id),
        forall|i: int|
            0 <= i < store.issued(ops).len() ==> store.run(ops).items.contains_key(
                #[trigger] store.issued(ops)[i],
            ),
    decreases ops.len(),
{
    if ops.len() > 0 {
        lemma_run(store, ops.drop_last());
    }
}

/// Where the counter has room for every creation of a run, each of them is
/// given an id.
pub proof fn lemma_every_creation_gets_an_id(store: StoreModel, ops: Seq<Op>)
    requires
        store.wf(),
        store.next_id + creations(ops) <= usize::MAX,
    ensures
        store.issued(ops).len() == creations(ops),
    decreases ops.len(),
{
    if ops.len() > 0 {
        lemma_every_creation_gets_an_id(store, ops.drop_last());
        lemma_run(store, ops.drop_last());
    }
}

/// Uniqueness: the ids given to the creations of a run, in whatever order
/// the operations were applied, are all different and all at least 1; so
/// `n` creations that all succeed yield exactly `n` distinct ids.
pub proof fn lemma_ids_unique(store: StoreModel, ops: Seq<Op>)
    requires
        store.wf(),
    ensures
        store.issued(ops).no_duplicates(),
        forall|i: int| 0 <= i < store.issued(ops).len() ==> #[trigger] store.issued(ops)[i] >= 1,
        store.issued(ops).to_set().len() == store.issued(ops).len(),
        store.next_id + creations(ops) <= usize::MAX ==> store.issued(ops).to_set().len()
            == creations(ops),
{
    lemma_run(store, ops);
    let ids = store.issued(ops);
    assert forall|i: int, j: int| 0 <= i < ids.len() && 0 <= j < ids.len() && i != j implies ids[i]
        != ids[j] by {
        assert(ids[i] == store.next_id + i);
        assert(ids[j] == store.next_id + j);
    }
    ids.unique_seq_to_set();
    if store.next_id + creations(ops) <= usize::MAX {
        lemma_every_creation_gets_an_id(store, ops);
    }
}

/// Monotonicity: along a run, with toggles between the creations or not,
/// each id given out is greater than all given out before it, and none was
/// in use when the run began. An id is therefore never given out twice.
pub proof fn lemma_ids_never_reused(store: StoreModel, ops: Seq<Op>)
    requires
        store.wf(),
    ensures
        forall|i: int, j: int|
            0 <= i < j < store.issued(ops).len() ==> #[trigger] store.issued(ops)[i]
                < #[trigger] store.issued(ops)[j],
        forall|i: int|
            0 <= i < store.issued(ops).len() ==> !store.items.contains_key(
                #[trigger] store.issued(ops)[i],
            ),
{
    lemma_run(store, ops);
    let ids = store.issued(ops);
    assert forall|i: int, j: int| 0 <= i < j < ids.len() implies #[trigger] ids[i]
        < #[trigger] ids[j] by {
        assert(ids[i] == store.next_id + i);
        assert(ids[j] == store.next_id + j);
    }
    assert forall|i: int| 0 <= i < ids.len() implies !store.items.contains_key(
        #[trigger] ids[i],
    ) by {
        assert(ids[i] == store.next_id + i);
    }
}

/// The id of a creation is fresh at the moment it is given: the store holds
/// no item under it before, and holds the new item under it after.
pub proof fn lemma_create_is_fresh(store: StoreModel, text: Seq<char>)
    requires
        store.wf(),
    ensures
        !store.items.contains_key(store.next_id),
        store.create(text).wf(),
        store.create(text).items[store.next_id] == store.created(text),
        store.create(text).items.remove(store.next_id) == store.items,
{
    assert(store.create(text).items.remove(store.next_id) =~= store.items);
}

/// Toggling an item twice gives back the store as it was: the item has its
/// first `completed` again, and nothing else has changed in between.
pub proof fn lemma_toggle_twice(store: StoreModel, id: nat)
    requires
        store.items.contains_key(id),
    ensures
        store.toggle(id).items.contains_key(id),
        store.toggle(id).items[id].completed == !store.items[id].completed,
        store.toggle(id).toggle(id) == store,
{
    assert(store.toggle(id).toggle(id).items =~= store.items);
}

/// An id that the counter has not reached, and the id 0, name no item: a
/// toggle of such an id fails and leaves the store, and so its listing, as
/// they were.
pub proof fn lemma_unissued_id_is_absent(store: StoreModel, id: nat)
    requires
        store.wf(),
        id == 0 || id >= store.next_id,
    ensures
        !store.items.contains_key(id),
        store.apply(Op::Toggle(id)) == store,
        store.apply(Op::Toggle(id)).listing() == store.listing(),
{
}

/// The listing below a bound holds the store's items with an id below it,
/// each once, by ascending id.
pub proof fn lemma_listing_below(store: StoreModel, bound: nat)
    requires
        store.wf(),
    ensures
        forall|i: int|
            0 <= i < store.listing_below(bound).len() ==> {
                let item = #[trigger] store.listing_below(bound)[i];
                item.id < bound && store.items.contains_key(item.id) && store.items[item.id]
                    == item
            },
        forall|i: int, j: int|
            0 <= i < j < store.listing_below(bound).len() ==> (#[trigger] store.listing_below(
                bound,
            )[i]).id < (#[trigger] store.listing_below(bound)[j]).id,
        forall|id: nat|
            id < bound && #[trigger] store.items.contains_key(id) ==> store.listing_below(
                bound,
            ).contains(store.items[id]),
    decreases bound,
{
    if bound > 0 {
        let id = (bound - 1) as nat;
        let before = store.listing_below(id);
        let all = store.listing_below(bound);
        lemma_listing_below(store, id);
        assert forall|other: nat| other < bound && #[trigger] store.items.contains_key(
            other,
        ) implies all.contains(store.items[other]) by {
            if other == id {
                assert(all[all.len() - 1] == store.items[other]);
            } else {
                let i = choose|i: int| 0 <= i < before.len() && before[i] == store.items[other];
                assert(all[i] == store.items[other]);
            }
        }
    }
}

/// The listing is sorted and complete: it holds every item of the store and
/// nothing else, each once, by strictly ascending id.
pub proof fn lemma_listing_sorted_and_complete(store: StoreModel)
    requires
        store.wf(),
    ensures
        forall|i: int, j: int|
            0 <= i < j < store.listing().len() ==> (#[trigger] store.listing()[i]).id
                < (#[trigger] store.listing()[j]).id,
        forall|i: int|
            0 <= i < store.listing().len() ==> {
                let item = #[trigger] store.listing()[i];
                store.items.contains_key(item.id) && store.items[item.id] == item
            },
        forall|id: nat| #[trigger]
            store.items.contains_key(id) ==> store.listing().contains(store.items[id]),
{
    lemma_listing_below(store, store.next_id);
}

/// Items at or above a bound have no part in the listing below it.
pub proof fn lemma_listing_below_frame(store: StoreModel, other: StoreModel, bound: nat)
    requires
        forall|id: nat|
            id < bound ==> (#[trigger] store.items.contains_key(id) <==> other.items.contains_key(
                id,
            )),
        forall|id: nat|
            id < bound && #[trigger] store.items.contains_key(id) ==> store.items[id]
                == other.items[id],
    ensures
        store.listing_below(bound) == other.listing_below(bound),
    decreases bound,
{
    if bound > 0 {
        lemma_listing_below_frame(store, other, (bound - 1) as nat);
    }
}

/// A created item comes last in the listing, after the items that were
/// there, which stay as they were.
pub proof fn lemma_create_appends(store: StoreModel, text: Seq<char>)
    requires
        store.wf(),
    ensures
        store.create(text).listing() == store.listing().push(store.created(text)),
{
    lemma_listing_below_frame(store.create(text), store, store.next_id);
}

/// A toggle changes one entry of the listing, that of the toggled item, and
/// moves none.
pub proof fn lemma_toggle_keeps_order(store: StoreModel, id: nat)
    requires
        store.wf(),
        store.items.contains_key(id),
    ensures
        store.toggle(id).listing() == store.listing().map_values(
            |item: ItemModel|
                if item.id == id {
                    item.toggled()
                } else {
                    item
                },
        ),
{
    lemma_toggle_below(store, id, store.next_id);
}

/// The same, for the listing below any bound.
pub proof fn lemma_toggle_below(store: StoreModel, id: nat, bound: nat)
    requires
        store.wf(),
        store.items.contains_key(id),
    ensures
        store.toggle(id).listing_below(bound) == store.listing_below(bound).map_values(
            |item: ItemModel|
                if item.id == id {
                    item.toggled()
                } else {
                    item
                },
        ),
    decreases bound,
{
    let flip = |item: ItemModel|
        if item.id == id {
            item.toggled()
        } else {
            item
        };
    if bound > 0 {
        lemma_toggle_below(store, id, (bound - 1) as nat);
    }
    assert(store.toggle(id).listing_below(bound) =~= store.listing_below(bound).map_values(flip));
}

/// The page of an empty list still holds the control that creates an item
/// and the list itself, with nothing in it.
pub proof fn lemma_empty_page()
    ensures
        page_markup(Seq::<ItemModel>::empty()) == page_head() + page_tail(),
{
    assert(items_markup(Seq::<ItemModel>::empty()) =~= Seq::<char>::empty());
    assert(page_markup(Seq::<ItemModel>::empty()) =~= page_head() + page_tail());
}

} // verus!
