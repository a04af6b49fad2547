//! A simulated broker endpoint: an in-memory ledger of positions and
//! fills, and a dispatcher that routes named tool calls onto it. Every
//! accepted order is filled at once.
//!
//! - `ledger`: the ledger, its mathematical view and the one transition
//!   that changes it.
//! - `order`: the untyped input of a call, and how an order is read
//!   from it.
//! - `dispatcher`: the tools by name, the replies, and `handle`.
//! - `stamp`: fresh identifiers and timestamps, from `nanoid` and
//!   `chrono`.
//! - `laws`: what holds of every ledger and every call.
//! - `text`: string comparison.

pub mod dispatcher;
pub mod laws;
pub mod ledger;
pub mod order;
pub mod stamp;
pub mod text;
