//! A layered key-value lookup: one capability shared by many associative
//! backends, and a two-tier store that overlays a local tier on a fallback.

pub mod value;
pub mod backend;
pub mod assoc_list;
pub mod built_ins;
pub mod chain_map;
pub mod concurrent;
pub mod index_map;
pub mod laws;
pub mod outcome;
pub mod persistent;
pub mod trie;

pub use backend::MapBackend;
pub use chain_map::ChainedMap;
pub use outcome::InsertOutcome;
pub use value::OwnedOrBorrowed;
