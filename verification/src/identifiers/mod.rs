//! Unique identifiers in three formats: ULID (the default), UUID version 7 and
//! NanoID.
//!
//! When several formats are available the crate root exports ULID, which has
//! the highest priority, then UUID, then NanoID.

pub mod digits;
pub mod nanoid;
pub mod ulid;
pub mod uuid;

pub use self::ulid::{generate, Id};
