//! A message log store: an append-only sequence of text entries kept in a
//! single keyed storage slot, with full read-back, a length query, and a
//! destructive reset.

pub mod laws;
pub mod store;

pub use store::MessageBoard;
