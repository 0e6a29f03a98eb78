//! Building and algebraically combining search-engine query URLs.
//!
//! A [`SolrQuery`] wraps a validated endpoint URL carrying exactly one `q`
//! query parameter; it can be joined with another query at the same
//! host, port and path, producing the conjunction of the two `q` values
//! together with the paired negation. A [`QueryChain`] folds an ordered
//! list of queries into cumulative left-associative joins, one step at a
//! time.

pub mod errors;
pub mod query_chain;
pub mod solr_query;
pub mod url_parts;

pub use errors::SolrSubqueryError;
pub use query_chain::QueryChain;
pub use solr_query::Operator;
pub use solr_query::SolrQuery;
pub use url_parts::QueryParam;
pub use url_parts::UrlParts;

