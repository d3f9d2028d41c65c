//! Query translation and response mapping for a user directory kept in an
//! Elasticsearch-compatible document store.
//!
//! The store is reached by the caller; this crate decides what to send and
//! what the answers mean.

pub mod client;
pub mod envelope;
pub mod json;
pub mod query;
pub mod search;
pub mod text;
pub mod user;

pub use client::{ElasticSearchClient, Lookup, Method, Reply, Request};
pub use envelope::{
    ESActionInfo, ESActionResult, ESError, ESSearchResult, ESSearchResultHit, ESSearchResultHits,
};
pub use json::JsonValue;
pub use query::{
    FilterClause, FilterClauseRangeOp, MatchClause, QueryDSLInput, QueryInput, RangeClause,
    SearchInput, TermClause,
};
pub use search::search_input;
pub use user::{RelationshipStatus, User, UserInput};
