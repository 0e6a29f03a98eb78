use vstd::prelude::*;

verus! {

/// All possible errors that can occur
#[derive(Debug, Clone, PartialEq)]
pub enum SolrSubqueryError {
    /// The URL is not valid
    InvalidUrl(String),
    /// Request has no `q` parameter
    MissingQQueryParameter,
    /// Request has multiple `q` parameters
    MultipleQQueryParameters,
    /// Requests have different hosts
    DifferentsHosts(Option<String>, Option<String>),
    /// Requests have different ports
    DifferentsPorts(Option<u16>, Option<u16>),
    /// Requests have different paths
    DifferentsPaths,
}

} // verus!
