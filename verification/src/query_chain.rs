//! A chain of queries folded into cumulative joins, one step at a time.
//!
//! The chain owns an ordered sequence of queries and an internal cursor.
//! Each advance step after the first removes the two front-most queries,
//! joins them, re-inserts the result at the front and yields it, so the
//! chain yields the running left-associative conjunction of its inputs.

use std::collections::VecDeque;

use vstd::prelude::*;

use crate::errors::SolrSubqueryError;
use crate::solr_query::{
    Operator, QueryView, SolrQuery, construct_error_spec, construct_succeeds, constructed_query,
    join_view, lemma_merged_url_q, merge_failure, same_endpoint, valid_url,
};

verus! {

/// Mathematical model of a chain: whether iteration has started, and the
/// views of the queries it still holds, front first.
#[verifier::ext_equal]
pub ghost struct ChainView {
    pub started: bool,
    pub queries: Seq<QueryView>,
}

/// Chain multiple queries together
#[derive(Debug, Clone, PartialEq)]
pub struct QueryChain {
    queries: VecDeque<SolrQuery>,
    iteration: usize,
}

impl View for QueryChain {
    type V = ChainView;

    closed spec fn view(&self) -> ChainView {
        ChainView {
            started: self.iteration != 0,
            queries: self.queries@.map_values(|q: SolrQuery| q@),
        }
    }
}

/// One advance step of a chain: before iteration starts, yield the front
/// query unchanged; afterwards, join the two front-most queries, put the
/// result back in front and yield it, or yield nothing once fewer than
/// two queries remain (dropping a last unpaired query).
pub open spec fn step(c: ChainView) -> (ChainView, Option<QueryView>) {
    if !c.started {
        (
            ChainView { started: true, queries: c.queries },
            if c.queries.len() == 0 {
                Option::None
            } else {
                Option::Some(c.queries[0])
            },
        )
    } else if c.queries.len() >= 2 {
        let j = join_view(c.queries[0], c.queries[1]);
        (ChainView { started: true, queries: seq![j] + c.queries.skip(2) }, Option::Some(j))
    } else {
        (ChainView { started: true, queries: Seq::empty() }, Option::None)
    }
}

/// A chain is well formed when every query it holds carries exactly one
/// `q` parameter and all of them point at the same endpoint, so that
/// every fold step's join is guaranteed to succeed.
pub open spec fn chain_wf(c: ChainView) -> bool {
    &&& forall|i: int| 0 <= i < c.queries.len() ==> valid_url((#[trigger] c.queries[i]).url)
    &&& forall|i: int|
        0 <= i < c.queries.len() ==> same_endpoint(c.queries[0].url, (#[trigger] c.queries[i]).url)
}

impl QueryChain {
    /// Creates a chain over the given queries, in order, with iteration
    /// not yet started.
    pub fn new(queries: Vec<SolrQuery>) -> (r: QueryChain)
        ensures
            !r@.started,
            r@.queries == queries@.map_values(|q: SolrQuery| q@),
    {
        let mut deque: VecDeque<SolrQuery> = VecDeque::new();
        let n = queries.len();
        let mut i: usize = 0;
        while i < n
            invariant
                n == queries.len(),
                i <= n,
                deque@.map_values(|q: SolrQuery| q@) =~= queries@.map_values(
                    |q: SolrQuery| q@,
                ).take(i as int),
            decreases n - i,
        {
            let ghost prev = deque@;
            deque.push_back(queries[i].clone());
            proof {
                assert(deque@.map_values(|q: SolrQuery| q@) =~= prev.map_values(
                    |q: SolrQuery| q@,
                ).push(queries@[i as int]@));
                assert(deque@.map_values(|q: SolrQuery| q@) =~= queries@.map_values(
                    |q: SolrQuery| q@,
                ).take(i + 1));
            }
            i += 1;
        }
        proof {
            assert(queries@.map_values(|q: SolrQuery| q@).take(n as int) =~= queries@.map_values(
                |q: SolrQuery| q@,
            ));
        }
        QueryChain { queries: deque, iteration: 0 }
    }

    /// Parses `source` into a query, propagating any construction error
    /// unchanged, and appends it to the end of the chain. Does not fold.
    pub fn add_subquery(&mut self, source: &str) -> (r: Result<(), SolrSubqueryError>)
        ensures
            (r is Ok) == construct_succeeds(source@),
            r is Ok ==> final(self)@.started == old(self)@.started && final(self)@.queries == old(
                self,
            )@.queries.push(constructed_query(source@)),
            r matches Err(e) ==> construct_error_spec(source@, e) && final(self)@ == old(self)@,
    {
        let query = match SolrQuery::new(source) {
            Result::Ok(q) => q,
            Result::Err(e) => {
                return Result::Err(e);
            },
        };
        let ghost prev = self.queries@;
        self.queries.push_back(query);
        proof {
            assert(self.queries@.map_values(|q: SolrQuery| q@) =~= prev.map_values(
                |q: SolrQuery| q@,
            ).push(constructed_query(source@)));
        }
        Result::Ok(())
    }

    /// One fold step: yields the front query on the first call, then the
    /// join of the two front-most queries (re-inserted at the front) on
    /// each later call, and nothing once fewer than two queries remain.
    pub fn next(&mut self) -> (r: Option<SolrQuery>)
        requires
            chain_wf(old(self)@),
        ensures
            chain_wf(final(self)@),
            final(self)@ == step(old(self)@).0,
            match (r, step(old(self)@).1) {
                (Option::Some(q), Option::Some(v)) => q@ == v,
                (Option::None, Option::None) => true,
                _ => false,
            },
    {
        if self.iteration == 0 {
            self.iteration = 1;
            if self.queries.len() == 0 {
                return Option::None;
            }
            let front = self.queries[0].clone();
            return Option::Some(front);
        }
        let first = self.queries.pop_front();
        let second = self.queries.pop_front();
        match (first, second) {
            (Option::Some(q1), Option::Some(q2)) => {
                if self.iteration < usize::MAX {
                    self.iteration = self.iteration + 1;
                }
                proof {
                    assert(q1@ == old(self)@.queries[0]);
                    assert(q2@ == old(self)@.queries[1]);
                    lemma_merged_url_q(q1@.url, q2@.url, Operator::And);
                    lemma_merged_url_q(q1@.url, q2@.url, Operator::Not);
                    assert(merge_failure(q1@.url, q2@.url) is None);
                }
                let joined = q1.inner_join(&q2).unwrap();
                let front = joined.clone();
                self.queries.push_front(front);
                proof {
                    let stepped = step(old(self)@).0;
                    assert(self.queries@.map_values(|q: SolrQuery| q@) =~= stepped.queries);
                    assert(forall|i: int|
                        0 <= i < stepped.queries.len() ==> valid_url(
                            (#[trigger] stepped.queries[i]).url,
                        ));
                    assert(forall|i: int|
                        0 <= i < stepped.queries.len() ==> same_endpoint(
                            stepped.queries[0].url,
                            (#[trigger] stepped.queries[i]).url,
                        ));
                }
                Option::Some(joined)
            },
            _ => {
                proof {
                    assert(self.queries@.map_values(|q: SolrQuery| q@) =~= Seq::<
                        QueryView,
                    >::empty());
                }
                Option::None
            },
        }
    }
}

/// Law: a chain over three joinable queries yields the first query, then
/// the join of the first two, then that join joined with the third —
/// the running left-associative conjunction — and then nothing,
/// permanently.
pub proof fn lemma_chain_fold_sequence(a: QueryView, b: QueryView, c: QueryView)
    requires
        valid_url(a.url),
        valid_url(b.url),
        valid_url(c.url),
        same_endpoint(a.url, b.url),
        same_endpoint(a.url, c.url),
    ensures
        ({
            let c0 = ChainView { started: false, queries: seq![a, b, c] };
            let s1 = step(c0);
            let s2 = step(s1.0);
            let s3 = step(s2.0);
            let s4 = step(s3.0);
            let s5 = step(s4.0);
            &&& s1.1 == Option::Some(a)
            &&& s2.1 == Option::Some(join_view(a, b))
            &&& s3.1 == Option::Some(join_view(join_view(a, b), c))
            &&& s4.1 == Option::<QueryView>::None
            &&& s5.1 == Option::<QueryView>::None
        }),
{
    let c0 = ChainView { started: false, queries: seq![a, b, c] };
    let s1 = step(c0);
    assert(s1.0.queries =~= seq![a, b, c]);
    let s2 = step(s1.0);
    assert(s2.0.queries =~= seq![join_view(a, b), c]);
    let s3 = step(s2.0);
    assert(s3.0.queries =~= seq![join_view(join_view(a, b), c)]);
    let s4 = step(s3.0);
    assert(s4.0.queries =~= Seq::<QueryView>::empty());
}

/// Law: advancing a chain that holds no queries — one constructed empty,
/// or one whose fold has finished — always yields nothing, never an
/// error, and leaves the chain without queries, so every later advance
/// yields nothing as well.
pub proof fn lemma_empty_chain_stays_empty(c: ChainView)
    requires
        c.queries.len() == 0,
    ensures
        step(c).1 is None,
        step(c).0.queries.len() == 0,
        step(step(c).0).1 is None,
{
}

/// Law: one advance of a started chain holding fewer than two queries
/// exhausts it: it yields nothing and leaves the chain without queries.
pub proof fn lemma_final_step_exhausts(c: ChainView)
    requires
        c.started,
        c.queries.len() < 2,
    ensures
        step(c).1 is None,
        step(c).0.queries.len() == 0,
{
}

} // verus!
