//! A static, in-memory catalog of named personality records.
//!
//! A catalog is loaded once from a JSON document — either a caller-supplied
//! string or the data set embedded in this crate — and afterwards only read:
//! records are indexed by their `name` field and exposed through lookup,
//! enumeration, tag filtering and counting queries.

pub mod catalog;
pub mod data;
pub mod json;
pub mod records;

pub use catalog::load_personalities;
pub use catalog::LoadError;
pub use catalog::PersonalityLoader;
pub use records::Personality;
