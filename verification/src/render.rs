//! The renderer: from items to the markup that is sent to the browser.

use crate::components::todo_item::{item_markup, TodoItem};
use crate::store::{views, ItemModel, TodoItem};
use vstd::prelude::*;

verus! {

/// The markup of one item.
pub open spec fn markup_of(item: ItemModel) -> Seq<char> {
    item_markup(item.id, item.text, item.completed)
}

/// The markup of the items one after the other, in the order given.
pub open spec fn items_markup(items: Seq<ItemModel>) -> Seq<char>
    decreases items.len(),
{
    if items.len() == 0 {
        Seq::empty()
    } else {
        items_markup(items.drop_last()) + markup_of(items.last())
    }
}

/// What the page holds before its items: the script that performs the
/// swaps, the button that creates an item, and the opening of the list.
pub open spec fn page_head() -> Seq<char> {
    "<head><script src=\"https://unpkg.com/htmx.org@1.9.2\" integrity=\"sha384-L6OqL9pRWyyFU3+/bjdSri+iIphTN/bvYyM37tICVyOJkWZLpP2vGn6VUEXgzg6h\" crossorigin=\"anonymous\"></script></head><body><button hx-post=\"/todos\" hx-trigger=\"click\" hx-target=\"#todo-list\" hx-swap=\"beforeend\">Add todo</button><ul id=\"todo-list\">"@
}

/// What the page holds after its items.
pub open spec fn page_tail() -> Seq<char> {
    "</ul></body>"@
}

/// The whole page: head, items in the order given, tail.
pub open spec fn page_markup(items: Seq<ItemModel>) -> Seq<char> {
    page_head() + items_markup(items) + page_tail()
}

/// Renders one item as the fragment that replaces it on the page.
pub fn render_item(item: &TodoItem) -> (html: String)
    ensures
        html@ == markup_of(item@),
{
    TodoItem(item.id, item.text.clone(), item.completed)
}

/// Renders the page: the control that creates an item, and the list of the
/// items in the order given. The items are not sorted here.
pub fn render_list(items: &Vec<TodoItem>) -> (html: String)
    ensures
        html@ == page_markup(views(items@)),
{
    let mut html = String::new();
    html.append(
        "<head><script src=\"https://unpkg.com/htmx.org@1.9.2\" integrity=\"sha384-L6OqL9pRWyyFU3+/bjdSri+iIphTN/bvYyM37tICVyOJkWZLpP2vGn6VUEXgzg6h\" crossorigin=\"anonymous\"></script></head><body><button hx-post=\"/todos\" hx-trigger=\"click\" hx-target=\"#todo-list\" hx-swap=\"beforeend\">Add todo</button><ul id=\"todo-list\">",
    );
    let mut i: usize = 0;
    assert(html@ =~= page_head() + items_markup(views(items@).take(0)));
    while i < items.len()
        invariant
            i <= items.len(),
            html@ == page_head() + items_markup(views(items@).take(i as int)),
        decreases items.len() - i,
    {
        let fragment = render_item(&items[i]);
        html.append(fragment.as_str());
        proof {
            let upto = views(items@).take(i + 1);
            assert(upto.drop_last() =~= views(items@).take(i as int));
            assert(upto.last() == items@[i as int]@);
            assert(html@ =~= page_head() + items_markup(upto));
        }
        i += 1;
    }
    assert(views(items@).take(i as int) =~= views(items@));
    html.append("</ul></body>");
    html
}

} // verus!
