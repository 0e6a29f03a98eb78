//! A validated query request and the join algebra over it.
//!
//! A [`SolrQuery`] wraps a URL that carries exactly one `q` query
//! parameter, together with a companion URL representing the negated
//! query. Two queries at the same host, port and path can be joined: the
//! result's `q` value is the conjunction of the two, and its negation's
//! `q` value is the first query AND NOT the second.

use vstd::prelude::*;
use vstd::string::StringExecFns;

use crate::errors::SolrSubqueryError;
use crate::url_parts::{
    UrlParts, UrlView, host_view, lemma_values_for_set_value, parse_of, parse_url, set_value,
    values_for,
};

verus! {

/// A boolean operator combining two `q` values
#[derive(Debug, Clone, PartialEq)]
pub enum Operator {
    And,
    Or,
    Not,
}

/// The text an operator is rendered as.
pub open spec fn op_text(op: Operator) -> Seq<char> {
    match op {
        Operator::And => "AND"@,
        Operator::Or => "OR"@,
        Operator::Not => "NOT"@,
    }
}

impl Operator {
    /// The uppercase text of this operator.
    pub fn to_text(&self) -> (r: String)
        ensures
            r@ == op_text(*self),
    {
        match self {
            Operator::And => "AND".to_owned(),
            Operator::Or => "OR".to_owned(),
            Operator::Not => "NOT".to_owned(),
        }
    }
}

/// Mathematical model of a query: the request URL and its negation URL.
#[verifier::ext_equal]
pub ghost struct QueryView {
    pub url: UrlView,
    pub negation: UrlView,
}

/// A query request wrapping a validated URL. `url` always carries exactly
/// one `q` parameter when the query was built by this module; `negation`
/// carries the negated `q` value for the same endpoint.
#[derive(Debug, PartialEq)]
pub struct SolrQuery {
    pub url: UrlParts,
    negation: UrlParts,
}

impl View for SolrQuery {
    type V = QueryView;

    closed spec fn view(&self) -> QueryView {
        QueryView { url: self.url@, negation: self.negation@ }
    }
}

/// The name of the single query parameter the algebra combines.
pub open spec fn q_key() -> Seq<char> {
    "q"@
}

/// How many `q` parameters a URL carries.
pub open spec fn q_count(u: UrlView) -> nat {
    values_for(u.params, q_key()).len()
}

/// The value of the first `q` parameter of a URL.
pub open spec fn q_of(u: UrlView) -> Seq<char> {
    values_for(u.params, q_key())[0]
}

/// A URL is valid for the query algebra when it carries exactly one `q`
/// parameter.
pub open spec fn valid_url(u: UrlView) -> bool {
    q_count(u) == 1
}

/// The negated `q` value: `NOT (<q>)`.
pub open spec fn not_q(q: Seq<char>) -> Seq<char> {
    "NOT ("@ + q + ")"@
}

/// The combined `q` value: `(<a>) <OPERATOR> (<b>)`.
pub open spec fn merged_q(a: Seq<char>, op: Operator, b: Seq<char>) -> Seq<char> {
    "("@ + a + ") "@ + op_text(op) + " ("@ + b + ")"@
}

/// The URL a construction derives as negation: the same URL with the `q`
/// value replaced by its negation.
pub open spec fn negation_view(u: UrlView) -> UrlView {
    UrlView { params: set_value(u.params, q_key(), not_q(q_of(u))), ..u }
}

/// The query that construction returns for a URL with exactly one `q`
/// parameter.
pub open spec fn constructed_view(u: UrlView) -> QueryView {
    QueryView { url: u, negation: negation_view(u) }
}

/// Whether constructing a query from this source string succeeds: the
/// string parses as a URL and that URL carries exactly one `q` parameter.
pub open spec fn construct_succeeds(s: Seq<char>) -> bool {
    &&& parse_of(s) is Ok
    &&& q_count(parse_of(s)->Ok_0) == 1
}

/// The view of the query that construction returns for a source string.
pub open spec fn constructed_query(s: Seq<char>) -> QueryView
    recommends
        construct_succeeds(s),
{
    constructed_view(parse_of(s)->Ok_0)
}

/// Exactly which error construction returns for a source string: the
/// parse error's text when the string is not a URL, otherwise the missing
/// or multiple `q` parameter error by the count of `q` parameters.
pub open spec fn construct_error_spec(s: Seq<char>, e: SolrSubqueryError) -> bool {
    match parse_of(s) {
        Result::Ok(u) => {
            ||| (q_count(u) == 0 && e == SolrSubqueryError::MissingQQueryParameter)
            ||| (q_count(u) >= 2 && e == SolrSubqueryError::MultipleQQueryParameters)
        },
        Result::Err(m) => e matches SolrSubqueryError::InvalidUrl(t) && t@ == m,
    }
}

/// The negated `q` string for a given `q` value.
fn build_not_q(q: &String) -> (r: String)
    ensures
        r@ == not_q(q@),
{
    let mut r: String = "NOT (".to_owned();
    r.append(q.as_str());
    r.append(")");
    assert(r@ =~= not_q(q@));
    r
}

impl SolrQuery {
    /// Builds a query from already-parsed URL components, validating that
    /// exactly one `q` parameter is present; the negation URL replaces the
    /// `q` value with `NOT (<q>)`.
    pub fn from_parts(url: UrlParts) -> (r: Result<SolrQuery, SolrSubqueryError>)
        ensures
            q_count(url@) == 0 ==> (r matches Err(e) && e
                == SolrSubqueryError::MissingQQueryParameter),
            q_count(url@) >= 2 ==> (r matches Err(e) && e
                == SolrSubqueryError::MultipleQQueryParameters),
            valid_url(url@) ==> (r matches Ok(q) && q@ == constructed_view(url@)),
    {
        let qs = url.params("q");
        if qs.len() == 0 {
            return Result::Err(SolrSubqueryError::MissingQQueryParameter);
        }
        if qs.len() > 1 {
            return Result::Err(SolrSubqueryError::MultipleQQueryParameters);
        }
        let nq = build_not_q(&qs[0]);
        let mut negation = url.clone();
        negation.set_param(("q", nq.as_str()));
        assert(qs@.map_values(|s: String| s@)[0] == q_of(url@));
        assert(negation@ == negation_view(url@));
        Result::Ok(SolrQuery { url, negation })
    }

    /// Creates a new query from a string, which must parse as a URL with
    /// exactly one `q` query parameter.
    pub fn new(url: &str) -> (r: Result<SolrQuery, SolrSubqueryError>)
        ensures
            (r is Ok) == construct_succeeds(url@),
            r matches Ok(q) ==> q@ == constructed_query(url@),
            r matches Err(e) ==> construct_error_spec(url@, e),
    {
        match parse_url(url) {
            Result::Ok(parts) => Self::from_parts(parts),
            Result::Err(m) => Result::Err(SolrSubqueryError::InvalidUrl(m)),
        }
    }

    /// The query built from this query's negation URL; its own negation is
    /// the original URL, so that inverting twice returns to the start.
    ///
    /// A negation is present from construction on — for a query that never
    /// took part in a join it negates the sole `q` value — so the inverse
    /// is always a usable query, never an absence.
    pub fn inverse(&self) -> (r: SolrQuery)
        ensures
            r@ == (QueryView { url: self@.negation, negation: self@.url }),
    {
        SolrQuery { url: self.negation.clone(), negation: self.url.clone() }
    }

    /// The single `q` value of this query's URL, re-validating that
    /// exactly one `q` parameter is present.
    fn q_param(&self) -> (r: Result<String, SolrSubqueryError>)
        ensures
            q_count(self@.url) == 0 ==> (r matches Err(e) && e
                == SolrSubqueryError::MissingQQueryParameter),
            q_count(self@.url) >= 2 ==> (r matches Err(e) && e
                == SolrSubqueryError::MultipleQQueryParameters),
            valid_url(self@.url) ==> (r matches Ok(s) && s@ == q_of(self@.url)),
    {
        let mut qs = self.url.params("q");
        if qs.len() == 0 {
            return Result::Err(SolrSubqueryError::MissingQQueryParameter);
        }
        if qs.len() > 1 {
            return Result::Err(SolrSubqueryError::MultipleQQueryParameters);
        }
        let q = qs.remove(0);
        assert(q@ == q_of(self@.url));
        Result::Ok(q)
    }
}

impl Clone for SolrQuery {
    /// A copy with the same view.
    fn clone(&self) -> (r: Self)
        ensures
            r@ == self@,
    {
        SolrQuery { url: self.url.clone(), negation: self.negation.clone() }
    }
}

/// Whether two URLs point at the same collection endpoint: same host,
/// same port and same path.
pub open spec fn same_endpoint(a: UrlView, b: UrlView) -> bool {
    &&& a.host == b.host
    &&& a.port == b.port
    &&& a.path == b.path
}

/// The first reason a merge of two URLs fails, checked in the order
/// host, port, path, then the `q` parameters of the first and the second.
pub ghost enum MergeFailure {
    Hosts,
    Ports,
    Paths,
    MissingQ,
    MultipleQ,
}

/// Which failure, if any, merging two URLs reports.
pub open spec fn merge_failure(a: UrlView, b: UrlView) -> Option<MergeFailure> {
    if a.host != b.host {
        Option::Some(MergeFailure::Hosts)
    } else if a.port != b.port {
        Option::Some(MergeFailure::Ports)
    } else if a.path != b.path {
        Option::Some(MergeFailure::Paths)
    } else if q_count(a) == 0 {
        Option::Some(MergeFailure::MissingQ)
    } else if q_count(a) >= 2 {
        Option::Some(MergeFailure::MultipleQ)
    } else if q_count(b) == 0 {
        Option::Some(MergeFailure::MissingQ)
    } else if q_count(b) >= 2 {
        Option::Some(MergeFailure::MultipleQ)
    } else {
        Option::None
    }
}

/// The error value a merge of two URLs returns for a given failure.
pub open spec fn error_matches(
    e: SolrSubqueryError,
    f: MergeFailure,
    a: UrlView,
    b: UrlView,
) -> bool {
    match f {
        MergeFailure::Hosts => e matches SolrSubqueryError::DifferentsHosts(x, y)
            && host_view(&x) == a.host && host_view(&y) == b.host,
        MergeFailure::Ports => e == SolrSubqueryError::DifferentsPorts(a.port, b.port),
        MergeFailure::Paths => e == SolrSubqueryError::DifferentsPaths,
        MergeFailure::MissingQ => e == SolrSubqueryError::MissingQQueryParameter,
        MergeFailure::MultipleQ => e == SolrSubqueryError::MultipleQQueryParameters,
    }
}

/// The merged URL: the second operand's URL with the `q` value replaced
/// by the combination of the two `q` values under the operator.
pub open spec fn merged_url(a: UrlView, b: UrlView, op: Operator) -> UrlView {
    UrlView { params: set_value(b.params, q_key(), merged_q(q_of(a), op, q_of(b))), ..b }
}

/// The query a join returns: the AND-merge as the request, the NOT-merge
/// as its negation.
pub open spec fn join_view(a: QueryView, b: QueryView) -> QueryView {
    QueryView {
        url: merged_url(a.url, b.url, Operator::And),
        negation: merged_url(a.url, b.url, Operator::Not),
    }
}

/// A merged URL carries exactly one `q` parameter whenever the second
/// operand did, and its `q` value is the combined one.
pub proof fn lemma_merged_url_q(a: UrlView, b: UrlView, op: Operator)
    requires
        valid_url(b),
    ensures
        valid_url(merged_url(a, b, op)),
        q_of(merged_url(a, b, op)) == merged_q(q_of(a), op, q_of(b)),
{
    lemma_values_for_set_value(b.params, q_key(), merged_q(q_of(a), op, q_of(b)));
}

/// Whether two optional host strings are equal.
fn host_eq(a: &Option<String>, b: &Option<String>) -> (r: bool)
    ensures
        r == (host_view(a) == host_view(b)),
{
    match (a, b) {
        (Option::None, Option::None) => true,
        (Option::Some(x), Option::Some(y)) => *x == *y,
        _ => false,
    }
}

/// Whether two optional port numbers are equal.
fn port_eq(a: Option<u16>, b: Option<u16>) -> (r: bool)
    ensures
        r == (a == b),
{
    match (a, b) {
        (Option::None, Option::None) => true,
        (Option::Some(x), Option::Some(y)) => x == y,
        _ => false,
    }
}

/// The combined `q` string for two `q` values and an operator.
fn build_merged_q(a: &String, op: &Operator, b: &String) -> (r: String)
    ensures
        r@ == merged_q(a@, *op, b@),
{
    let mut r: String = "(".to_owned();
    r.append(a.as_str());
    r.append(") ");
    let t = op.to_text();
    r.append(t.as_str());
    r.append(" (");
    r.append(b.as_str());
    r.append(")");
    assert(r@ =~= merged_q(a@, *op, b@));
    r
}

impl SolrQuery {
    /// Fails with `DifferentsHosts`, carrying both host values, unless the
    /// two queries' hosts are equal.
    pub fn check_has_same_host(&self, other: &SolrQuery) -> (r: Result<(), SolrSubqueryError>)
        ensures
            self@.url.host == other@.url.host ==> r is Ok,
            self@.url.host != other@.url.host ==> (r matches Err(e) && e matches
                SolrSubqueryError::DifferentsHosts(x, y) && host_view(&x) == self@.url.host
                && host_view(&y) == other@.url.host),
    {
        if host_eq(&self.url.host, &other.url.host) {
            Result::Ok(())
        } else {
            Result::Err(SolrSubqueryError::DifferentsHosts(
                clone_opt_host(&self.url.host),
                clone_opt_host(&other.url.host),
            ))
        }
    }

    /// Fails with `DifferentsPorts`, carrying both port values, unless the
    /// two queries' ports are equal.
    pub fn check_has_same_port(&self, other: &SolrQuery) -> (r: Result<(), SolrSubqueryError>)
        ensures
            self@.url.port == other@.url.port ==> r is Ok,
            self@.url.port != other@.url.port ==> (r matches Err(e) && e
                == SolrSubqueryError::DifferentsPorts(self@.url.port, other@.url.port)),
    {
        if port_eq(self.url.port, other.url.port) {
            Result::Ok(())
        } else {
            Result::Err(SolrSubqueryError::DifferentsPorts(self.url.port, other.url.port))
        }
    }

    /// Fails with `DifferentsPaths` unless the two queries' paths are
    /// equal.
    pub fn check_has_same_path(&self, other: &SolrQuery) -> (r: Result<(), SolrSubqueryError>)
        ensures
            self@.url.path == other@.url.path ==> r is Ok,
            self@.url.path != other@.url.path ==> (r matches Err(e) && e
                == SolrSubqueryError::DifferentsPaths),
    {
        if self.url.path == other.url.path {
            Result::Ok(())
        } else {
            Result::Err(SolrSubqueryError::DifferentsPaths)
        }
    }

    /// Merges two queries under an operator: checks host, port and path in
    /// that order, extracts each side's single `q` value, and returns a
    /// fresh query whose URL is the second operand's with the combined `q`
    /// value, every other parameter kept verbatim and in order.
    pub fn merge_queries(&self, other: &SolrQuery, operator: Operator) -> (r: Result<
        SolrQuery,
        SolrSubqueryError,
    >)
        ensures
            match merge_failure(self@.url, other@.url) {
                Option::Some(f) => r matches Err(e) && error_matches(e, f, self@.url, other@.url),
                Option::None => r matches Ok(q) && q@ == constructed_view(
                    merged_url(self@.url, other@.url, operator),
                ),
            },
    {
        match self.check_has_same_host(other) {
            Result::Ok(_) => (),
            Result::Err(e) => {
                return Result::Err(e);
            },
        }
        match self.check_has_same_port(other) {
            Result::Ok(_) => (),
            Result::Err(e) => {
                return Result::Err(e);
            },
        }
        match self.check_has_same_path(other) {
            Result::Ok(_) => (),
            Result::Err(e) => {
                return Result::Err(e);
            },
        }
        let self_q = match self.q_param() {
            Result::Ok(q) => q,
            Result::Err(e) => {
                return Result::Err(e);
            },
        };
        let other_q = match other.q_param() {
            Result::Ok(q) => q,
            Result::Err(e) => {
                return Result::Err(e);
            },
        };
        let new_q = build_merged_q(&self_q, &operator, &other_q);
        let mut new_url = other.url.clone();
        new_url.set_param(("q", new_q.as_str()));
        proof {
            lemma_merged_url_q(self@.url, other@.url, operator);
            assert(new_url@ == merged_url(self@.url, other@.url, operator));
        }
        Self::from_parts(new_url)
    }

    /// Joins two queries at the same endpoint: the result's URL carries
    /// the conjunction `(<self q>) AND (<other q>)` and its negation
    /// carries `(<self q>) NOT (<other q>)`; the second operand's other
    /// parameters survive verbatim. Fails with the first merge error,
    /// checked in the order host, port, path, `q` parameters.
    pub fn inner_join(&self, other: &SolrQuery) -> (r: Result<SolrQuery, SolrSubqueryError>)
        ensures
            match merge_failure(self@.url, other@.url) {
                Option::Some(f) => r matches Err(e) && error_matches(e, f, self@.url, other@.url),
                Option::None => r matches Ok(q) && q@ == join_view(self@, other@),
            },
    {
        let positive = match self.merge_queries(other, Operator::And) {
            Result::Ok(q) => q,
            Result::Err(e) => {
                return Result::Err(e);
            },
        };
        let negative = match self.merge_queries(other, Operator::Not) {
            Result::Ok(q) => q,
            Result::Err(e) => {
                return Result::Err(e);
            },
        };
        Result::Ok(SolrQuery { url: positive.url, negation: negative.url })
    }
}

/// Law: a join of two queries fails on the first difference between
/// their endpoints, checked in the order host, then port, then path; the
/// host and port errors carry both operands' values, as `error_matches`
/// states.
pub proof fn lemma_join_guard_order(a: QueryView, b: QueryView)
    ensures
        a.url.host != b.url.host ==> merge_failure(a.url, b.url) == Option::Some(
            MergeFailure::Hosts,
        ),
        (a.url.host == b.url.host && a.url.port != b.url.port) ==> merge_failure(a.url, b.url)
            == Option::Some(MergeFailure::Ports),
        (a.url.host == b.url.host && a.url.port == b.url.port && a.url.path != b.url.path)
            ==> merge_failure(a.url, b.url) == Option::Some(MergeFailure::Paths),
{
}

/// Law: joining three queries at the same endpoint left-associatively
/// yields the `q` value `((<qa>) AND (<qb>)) AND (<qc>)`, while the
/// result's negation carries `((<qa>) AND (<qb>)) NOT (<qc>)`: negation
/// applies to the last joined operand only, not to the whole
/// conjunction.
pub proof fn lemma_chained_join_content(a: QueryView, b: QueryView, c: QueryView)
    requires
        valid_url(a.url),
        valid_url(b.url),
        valid_url(c.url),
        same_endpoint(a.url, b.url),
        same_endpoint(a.url, c.url),
    ensures
        merge_failure(a.url, b.url) is None,
        merge_failure(join_view(a, b).url, c.url) is None,
        q_of(join_view(join_view(a, b), c).url) == merged_q(
            merged_q(q_of(a.url), Operator::And, q_of(b.url)),
            Operator::And,
            q_of(c.url),
        ),
        q_of(join_view(join_view(a, b), c).negation) == merged_q(
            merged_q(q_of(a.url), Operator::And, q_of(b.url)),
            Operator::Not,
            q_of(c.url),
        ),
{
    lemma_merged_url_q(a.url, b.url, Operator::And);
    lemma_merged_url_q(a.url, b.url, Operator::Not);
    lemma_merged_url_q(join_view(a, b).url, c.url, Operator::And);
    lemma_merged_url_q(join_view(a, b).url, c.url, Operator::Not);
}

/// Law: every query parameter of the second operand other than `q`
/// survives a join unchanged and at its original position, and even the
/// `q` parameters keep their names and places.
pub proof fn lemma_join_preserves_params(a: QueryView, b: QueryView)
    ensures
        join_view(a, b).url.params.len() == b.url.params.len(),
        forall|i: int|
            0 <= i < b.url.params.len() ==> (#[trigger] join_view(a, b).url.params[i]).0
                == b.url.params[i].0,
        forall|i: int|
            0 <= i < b.url.params.len() && (#[trigger] b.url.params[i]).0 != q_key()
                ==> join_view(a, b).url.params[i] == b.url.params[i],
{
}

/// A copy of an optional host string with the same view.
fn clone_opt_host(h: &Option<String>) -> (r: Option<String>)
    ensures
        host_view(&r) == host_view(h),
{
    match h {
        Option::Some(s) => Option::Some(s.clone()),
        Option::None => Option::None,
    }
}

} // verus!
