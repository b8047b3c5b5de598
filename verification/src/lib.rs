//! Inventory logging for boats: every use of an item becomes one line of the
//! ledger that belongs to the boat named in the settings.
//!
//! The library decides and composes; it never touches the file system. A
//! caller reports what it found where the settings are kept, and receives
//! either the settings to persist or the ledger file and the text to append
//! to it.

pub mod failure;
pub mod settings;
pub mod item;
pub mod decimal;
pub mod clock;
pub mod ledger;
