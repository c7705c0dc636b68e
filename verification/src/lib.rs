//! Event persistence for a to-do and reminder application.
//!
//! The library owns the mapping between an [`entry::EventEntry`] and the
//! document that a document database keeps for it, the due-today window,
//! and the protocol of every store operation. It performs no input or
//! output itself: a caller opens the session, sends what an
//! [`store::Exchange`] asks for and reports what came back.
//!
//! - [`entry`], [`todo`]: the records.
//! - [`instant`]: instants, their stored text, the window of a day.
//! - [`document`], [`codec`]: stored documents and the way between them
//!   and entries.
//! - [`store`], [`error`]: the operations and how they end.
//! - [`model`]: the store as the operations take it to be, and what is
//!   proved of create, update, delete and list on it.
//! - [`notify`]: the reminders for what is due today.
//! - [`ui`], [`text`]: the state behind the window and its search.

pub mod codec;
pub mod document;
pub mod entry;
pub mod error;
pub mod instant;
pub mod model;
pub mod notify;
pub mod store;
pub mod text;
pub mod todo;
pub mod ui;
