//! A verified term-matching and result-ranking engine for bilingual
//! dictionary lookups.
//!
//! A raw search phrase is turned into an ordered set of match patterns,
//! the patterns are composed into a single query against a read-only term
//! store, and the matching rows are normalized and streamed to a consumer
//! in a deterministic, linguistically sensible order.

pub mod error;
pub mod normalize;
pub mod pattern;
pub mod query;
pub mod store;
pub mod translate;

pub use error::Error;
pub use normalize::normalize;
pub use pattern::Pattern;
pub use pattern::generate_patterns;
pub use query::Config;
pub use query::Direction;
pub use query::compose_query;
pub use store::Cell;
pub use translate::Consumer;
pub use translate::decode_row;
pub use translate::translate;
pub use translate::translate_with_config;
