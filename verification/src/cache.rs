//! The similarity cache: past (query, result) pairs, queryable by closeness.
//!
//! The cache sits in front of every outbound API call.  It is pluggable;
//! the passthrough implementation below stores nothing and never reports a
//! neighbour, so a system without a real cache behaves as if there were no
//! cache at all.
//!
//! Similarity scores are carried in thousandths of the unit interval: a
//! score of `970` stands for a similarity of `0.970`.  The embedding is an
//! ordered sequence of components in a fixed-point encoding chosen by the
//! cache implementation; the pipeline never interprets it.

use vstd::prelude::*;

use crate::errors::CacheError;
use crate::json::{Json, JsonValue};

verus! {

/// One past call: what was asked, and what came back.
///
/// `text` is the canonical serialization of the outbound messages,
/// `embedding` its vector representation, and `results` the payload once
/// stored.  A candidate built before a call carries empty `results`; a
/// stored entry carries the payload.  Entries are never mutated after
/// storage.
#[derive(Debug)]
pub struct CacheQuery {
    /// The operation kind, e.g. the name of the remote call.
    pub action: String,
    /// Canonical serialization of the outbound messages.
    pub text: String,
    /// Structured call parameters, when the implementation wants them.
    pub params: Option<JsonValue>,
    /// Vector representation of `text`, produced by the cache's embedder.
    pub embedding: Vec<i32>,
    /// The cached payload; `JsonValue::Null` until the call succeeded.
    pub results: JsonValue,
}

/// The mathematical model of a [`CacheQuery`].
#[verifier::ext_equal]
pub struct CacheQueryModel {
    pub action: Seq<char>,
    pub text: Seq<char>,
    pub params: Option<Json>,
    pub embedding: Seq<i32>,
    pub results: Json,
}

impl View for CacheQuery {
    type V = CacheQueryModel;

    open spec fn view(&self) -> CacheQueryModel {
        CacheQueryModel {
            action: self.action@,
            text: self.text@,
            params: match self.params {
                Some(p) => Some(p@),
                None => None,
            },
            embedding: self.embedding@,
            results: self.results@,
        }
    }
}

/// A past query together with its similarity to the one being asked about,
/// in thousandths of the unit interval.
#[derive(Debug)]
pub struct Similarity {
    pub query: CacheQuery,
    pub score: u32,
}

/// The mathematical model of a [`Similarity`].
#[verifier::ext_equal]
pub struct SimilarityModel {
    pub query: CacheQueryModel,
    pub score: u32,
}

impl View for Similarity {
    type V = SimilarityModel;

    open spec fn view(&self) -> SimilarityModel {
        SimilarityModel { query: self.query@, score: self.score }
    }
}

/// The models of a list of similarity results.
pub open spec fn similarities_model(s: Seq<Similarity>) -> Seq<SimilarityModel> {
    s.map_values(|x: Similarity| x@)
}

/// The models of a list of cache queries.
pub open spec fn cache_queries_model(s: Seq<CacheQuery>) -> Seq<CacheQueryModel> {
    s.map_values(|x: CacheQuery| x@)
}

/// Whether a similarity list is ranked by descending score.
pub open spec fn ranked_by_score(s: Seq<Similarity>) -> bool {
    forall|i: int, j: int| 0 <= i <= j < s.len() ==> #[trigger] s[i].score >= #[trigger] s[j].score
}

/// A store of past (query, result) pairs, queryable by embedding closeness.
///
/// Implementations hold whatever cross-call state they like, but callers
/// rely only on this interface: `similarities` ranks its answer by
/// descending score, and a failure of either method is non-fatal to the
/// pipeline.
pub trait SimilarityCache: Sized {
    /// Which similarity lists this implementation can answer for a
    /// query.  Every successful lookup satisfies it, so callers can
    /// reason about what a hit meant once they know the implementation.
    spec fn answers(&self, query: CacheQueryModel, sims: Seq<SimilarityModel>) -> bool;

    /// How one store call, successful or not, leaves this
    /// implementation's state relative to its state before the call.
    spec fn after_store(&self, pre: Self, query: CacheQueryModel) -> bool;

    /// The vector representation of a canonical message text.  The
    /// passthrough implementation returns a degenerate placeholder.
    fn embed(&self, text: &str) -> (r: Vec<i32>);

    /// Persists a query with its populated results.  The caller treats a
    /// failure as a degraded cache, never as a failed call.
    fn store(&mut self, query: CacheQuery) -> (r: Result<(), CacheError>)
        ensures
            final(self).after_store(*old(self), query@),
    ;

    /// Zero or more past entries, ranked by descending similarity against
    /// the supplied query's embedding.
    fn similarities(&self, query: &CacheQuery) -> (r: Result<Vec<Similarity>, CacheError>)
        ensures
            match r {
                Ok(v) => ranked_by_score(v@) && self.answers(query@, similarities_model(v@)),
                Err(_) => true,
            },
    ;
}

/// The cache that is no cache: it stores nothing and never reports a
/// neighbour, so every call goes to the remote API.
pub struct PassthroughSimilarityCache;

impl PassthroughSimilarityCache {
    pub fn new() -> (r: Self) {
        PassthroughSimilarityCache
    }
}

impl SimilarityCache for PassthroughSimilarityCache {
    /// The passthrough cache only ever answers the empty list.
    open spec fn answers(&self, query: CacheQueryModel, sims: Seq<SimilarityModel>) -> bool {
        sims.len() == 0
    }

    /// A store leaves the passthrough cache exactly as it was.
    open spec fn after_store(&self, pre: Self, query: CacheQueryModel) -> bool {
        *self == pre
    }

    /// A degenerate single-component zero vector.
    fn embed(&self, text: &str) -> (r: Vec<i32>)
        ensures
            r@ == seq![0i32],
    {
        let mut v: Vec<i32> = Vec::new();
        v.push(0);
        proof {
            assert(v@ =~= seq![0i32]);
        }
        v
    }

    /// Persists nothing, and never fails.
    fn store(&mut self, query: CacheQuery) -> (r: Result<(), CacheError>)
        ensures
            r is Ok,
    {
        Ok(())
    }

    /// The empty list, for every query, and never an error.
    fn similarities(&self, query: &CacheQuery) -> (r: Result<Vec<Similarity>, CacheError>)
        ensures
            r matches Ok(v) && v@.len() == 0,
    {
        Ok(Vec::new())
    }
}

/// A cache with a fixed answer: it reports a preset similarity list for
/// every query and records what it is asked to store.
///
/// It exercises the gateway's hit policy without a real embedding
/// producer: the preset list must already be ranked by descending score,
/// and `new` refuses one that is not.
pub struct FixedSimilarityCache {
    preset: Vec<Similarity>,
    stored: Vec<CacheQuery>,
}

impl FixedSimilarityCache {
    /// The preset list always holds a ranked answer.
    #[verifier::type_invariant]
    spec fn wf(&self) -> bool {
        ranked_by_score(self.preset@)
    }

    /// The preset similarity list this cache answers with.
    pub closed spec fn spec_preset(&self) -> Seq<Similarity> {
        self.preset@
    }

    /// The models of the queries this cache has been asked to store,
    /// oldest first.
    pub closed spec fn spec_stored(&self) -> Seq<CacheQueryModel> {
        cache_queries_model(self.stored@)
    }

    /// Wraps a ranked preset list; refuses an unranked one.
    pub fn new(preset: Vec<Similarity>) -> (r: Option<Self>)
        ensures
            match r {
                Some(c) => ranked_by_score(preset@) && c.spec_preset() == preset@
                    && c.spec_stored().len() == 0,
                None => !ranked_by_score(preset@),
            },
    {
        let n = preset.len();
        for i in 0..n
            invariant
                n == preset@.len(),
                forall|a: int, b: int|
                    0 <= a <= b < i ==> #[trigger] preset@[a].score >= #[trigger] preset@[b].score,
        {
            if i > 0 && preset[i - 1].score < preset[i].score {
                return None;
            }
        }
        Some(FixedSimilarityCache { preset, stored: Vec::new() })
    }

    /// The queries this cache has been asked to store, oldest first.
    pub fn stored_queries(&self) -> (r: &Vec<CacheQuery>)
        ensures
            cache_queries_model(r@) == self.spec_stored(),
    {
        &self.stored
    }
}

impl SimilarityCache for FixedSimilarityCache {
    /// This cache answers its preset list, whatever the query.
    open spec fn answers(&self, query: CacheQueryModel, sims: Seq<SimilarityModel>) -> bool {
        sims == similarities_model(self.spec_preset())
    }

    /// A store appends the query to the record and leaves the preset
    /// untouched.
    open spec fn after_store(&self, pre: Self, query: CacheQueryModel) -> bool {
        self.spec_preset() == pre.spec_preset() && self.spec_stored() == pre.spec_stored().push(
            query,
        )
    }

    /// A degenerate single-component zero vector.
    fn embed(&self, text: &str) -> (r: Vec<i32>)
        ensures
            r@ == seq![0i32],
    {
        let mut v: Vec<i32> = Vec::new();
        v.push(0);
        proof {
            assert(v@ =~= seq![0i32]);
        }
        v
    }

    /// Appends the query to the record of stored entries; never fails.
    fn store(&mut self, query: CacheQuery) -> (r: Result<(), CacheError>)
        ensures
            r is Ok,
    {
        proof {
            use_type_invariant(&*self);
        }
        let ghost gquery = query@;
        let mut stored: Vec<CacheQuery> = Vec::new();
        core::mem::swap(&mut stored, &mut self.stored);
        let ghost gold = stored@;
        stored.push(query);
        core::mem::swap(&mut stored, &mut self.stored);
        proof {
            assert(cache_queries_model(self.stored@) =~= cache_queries_model(gold).push(gquery));
        }
        Ok(())
    }

    /// A copy of the preset list, whatever the query, and never an
    /// error.
    fn similarities(&self, query: &CacheQuery) -> (r: Result<Vec<Similarity>, CacheError>)
        ensures
            r matches Ok(v) && similarities_model(v@) == similarities_model(self.spec_preset()),
    {
        proof {
            use_type_invariant(self);
        }
        let mut out: Vec<Similarity> = Vec::new();
        let n = self.preset.len();
        for i in 0..n
            invariant
                n == self.preset@.len(),
                out@.len() == i,
                forall|k: int| 0 <= k < i ==> #[trigger] out@[k]@ == self.preset@[k]@,
                forall|k: int| 0 <= k < i ==> #[trigger] out@[k].score == self.preset@[k].score,
        {
            let q = &self.preset[i];
            let copy = Similarity {
                query: CacheQuery {
                    action: q.query.action.clone(),
                    text: q.query.text.clone(),
                    params: match &q.query.params {
                        Some(p) => Some(p.clone()),
                        None => None,
                    },
                    embedding: clone_embedding(&q.query.embedding),
                    results: q.query.results.clone(),
                },
                score: q.score,
            };
            proof {
                assert(copy@ =~= self.preset@[i as int]@);
            }
            out.push(copy);
        }
        proof {
            assert(similarities_model(out@) =~= similarities_model(self.preset@));
        }
        Ok(out)
    }
}

/// A componentwise copy of an embedding vector.
fn clone_embedding(v: &Vec<i32>) -> (r: Vec<i32>)
    ensures
        r@ == v@,
{
    let mut out: Vec<i32> = Vec::new();
    let n = v.len();
    for i in 0..n
        invariant
            n == v@.len(),
            out@ == v@.subrange(0, i as int),
    {
        out.push(v[i]);
        proof {
            assert(out@ =~= v@.subrange(0, i + 1));
        }
    }
    proof {
        assert(v@.subrange(0, v@.len() as int) =~= v@);
    }
    out
}

} // verus!
