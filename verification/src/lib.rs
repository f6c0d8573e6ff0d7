//! A session store, tool catalog and request validation for a document
//! server: the parts of the server that decide, kept apart from the content
//! engine that parses and renders.
//!
//! The content engine is a parameter throughout. A document handle is a
//! value of a type `H` that this library stores and lends but never looks
//! into, and whatever only the engine can do is handed in as a function.
//! Each tool says in its contract when the engine is asked, with what, and
//! how the tool's outcome follows from the engine's answer.

pub mod arguments;
pub mod catalog;
pub mod decimal;
pub mod engine;
pub mod error;
pub mod json;
pub mod request;
pub mod schema;
pub mod server;
pub mod state;
pub mod tools;
pub mod trusted;

pub use error::MupdfServerError;
pub use server::MupdfServer;
pub use state::DocumentStore;
