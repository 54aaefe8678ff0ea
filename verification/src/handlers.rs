//! What each request does: one operation of the store, and the markup of
//! what it returned.
//!
//! A handler borrows the store for the whole call. Where the store is
//! shared behind a lock, the lock is thus held while the markup is built;
//! a caller that wants to build the page outside the lock calls
//! `TodoStore::list_all` under it and `render_list` after.

use crate::error::{MyError, StoreError};
use crate::render::{markup_of, page_markup, render_item, render_list};
use crate::store::TodoStore;
use vstd::prelude::*;

verus! {

/// The text that every created item starts with.
pub open spec fn default_text() -> Seq<char> {
    "New todo"@
}

/// The page with all items, by ascending id. The store is left as it is.
pub fn index(store: &TodoStore) -> (html: String)
    ensures
        html@ == page_markup(store@.listing()),
{
    let items = store.list_all();
    render_list(&items)
}

/// Creates an item with the default text and returns its fragment. Fails,
/// and changes nothing, only when no id is left.
pub fn create_todo(store: &mut TodoStore) -> (body: Result<String, MyError>)
    ensures
        match body {
            Ok(html) => {
                &&& old(store)@.can_create()
                &&& html@ == markup_of(old(store)@.created(default_text()))
                &&& final(store)@ == old(store)@.create(default_text())
            },
            Err(err) => {
                &&& !old(store)@.can_create()
                &&& err == (MyError { err: StoreError::IdSpaceExhausted })
                &&& final(store)@ == old(store)@
            },
        },
        old(store)@.wf(),
        final(store)@.wf(),
{
    match store.create("New todo".to_owned()) {
        Ok(item) => Ok(render_item(&item)),
        Err(err) => Err(MyError::from(err)),
    }
}

/// Toggles the item `id` and returns its fragment as it then is. Fails, and
/// changes nothing, when the store has no such item.
pub fn toggle_todo(store: &mut TodoStore, id: usize) -> (body: Result<String, MyError>)
    ensures
        match body {
            Ok(html) => {
                &&& old(store)@.items.contains_key(id as nat)
                &&& html@ == markup_of(old(store)@.items[id as nat].toggled())
                &&& final(store)@ == old(store)@.toggle(id as nat)
            },
            Err(err) => {
                &&& !old(store)@.items.contains_key(id as nat)
                &&& err == (MyError { err: StoreError::NotFound(id) })
                &&& final(store)@ == old(store)@
            },
        },
        old(store)@.wf(),
        final(store)@.wf(),
{
    match store.toggle(id) {
        Ok(item) => Ok(render_item(&item)),
        Err(err) => Err(MyError::from(err)),
    }
}

} // verus!
