//! The building blocks of the page's markup.

pub mod todo_item;
