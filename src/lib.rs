//! A small multi-tenant todo service: its identifiers, its items, the rules
//! of its request handlers, and an in-memory store that obeys the same
//! contract as the document store the service runs against.

pub mod object_id;
pub mod todo;
pub mod store;
pub mod handlers;
pub mod laws;
