//! Model of a tabbed StackExchange browser shell.
//!
//! The shell owns a strip of content tabs (each showing one fetched question),
//! a search control, and a small set of window actions.  This crate holds the
//! verified core of that shell: the tab-strip state with its invariants, the
//! dispatch of user input to state changes, and the little string logic the
//! shell needs (building a query URI, splitting an authors list).  The
//! windowing toolkit and the HTTP client stay outside; they drive this model
//! and carry out the effects it returns.

pub mod messages;
pub mod shell;
pub mod tabs;
pub mod text;
