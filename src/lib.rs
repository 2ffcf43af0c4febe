//! In-memory patient and medication records, with CSV export and the
//! parsing of interactive menu input.

pub mod export;
pub mod input;
pub mod laws;
pub mod record;
pub mod store;
