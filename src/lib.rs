//! A todo service's request-to-storage layer: the data model, the response
//! envelopes, a model of the backing table, and the decisions each request
//! handler takes between its storage round trips.
//!
//! The handlers are written as step functions: the caller performs each
//! storage query and hands its outcome to the next step, which decides what
//! to run next or which reply to send.

pub mod model;
pub mod response;
pub mod page;
pub mod store;
pub mod handler;
pub mod laws;
