//! A reusable value slot for a Merkle-Patricia-Trie hash builder: it holds
//! either the raw bytes of a leaf or the 32-byte hash of a child subtree, and
//! keeps its buffer, its kind and its cached hash in step.

pub mod encoding;
pub mod value;

pub use value::{HashBuilderValue, HashBuilderValueKind, HashBuilderValueRef};
