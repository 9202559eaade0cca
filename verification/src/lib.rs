//! A per-user note store on a ledger of derived addresses.

pub mod address;
pub mod error;
pub mod handlers;
pub mod laws;
pub mod ledger;
pub mod note;

pub use crate::address::Address;
pub use crate::error::ErrorCode;
pub use crate::handlers::{create_note, delete_note, update_note, CreateNote, DeleteNote, UpdateNote};
pub use crate::ledger::Ledger;
pub use crate::note::Note;
