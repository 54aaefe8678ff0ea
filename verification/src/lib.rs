//! A server-rendered todo list: the store that owns the items and hands out
//! their identifiers, and the renderer that turns items into the HTML
//! fragments a browser swaps into the page.

pub mod components;
pub mod error;
pub mod handlers;
pub mod laws;
pub mod render;
pub mod store;
pub mod text;
