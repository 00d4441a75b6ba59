//! The API gateway: builds the outbound request, consults the similarity
//! cache before any remote call, and stores the result after one.
//!
//! The transport itself is an external collaborator.  The gateway splits a
//! call around it: [`ApiGateway::prepare`] does everything up to the wire
//! — and short-circuits on a cache hit — and [`ApiGateway::complete`]
//! takes the payload that came back and stores it, best-effort.

use vstd::prelude::*;
use vstd::string::*;

use crate::cache::{
    similarities_model, CacheQuery, CacheQueryModel, SimilarityCache, Similarity, SimilarityModel,
};
use crate::errors::ToolError;
use crate::json::{Json, JsonValue};
use crate::request::{
    canonical_messages, derive_recency, messages_model, spec_derived_recency, Message,
    OutboundRequest, OutboundRequestModel, ResearchOptions, DEEP_RESEARCH_MAX_TOKENS,
    DEEP_RESEARCH_SEARCH_ITERATIONS, DEEP_RESEARCH_TEMPERATURE_TENTHS,
};

verus! {

/// The similarity score, in thousandths, that a cached entry must exceed
/// before it is reused in place of a fresh remote call.  Conservative by
/// design: a stale answer to a different question is worse than a
/// redundant call.
pub const SIMILARITY_HIT_THRESHOLD: u32 = 950;

/// The `action` every gateway cache entry is filed under.
pub open spec fn spec_call_action() -> Seq<char> {
    "perplexity_api_call"@
}

/// The structured parameters filed with a cache entry: the model and the
/// recency filter, absent filters recorded as null.
pub open spec fn spec_call_params(model: Seq<char>, recency: Option<Seq<char>>) -> Json {
    Json::Obj(
        seq![
            ("model"@, Json::Str(model)),
            (
                "search_recency_filter"@,
                match recency {
                    Some(s) => Json::Str(s),
                    None => Json::Null,
                },
            ),
        ],
    )
}

/// The candidate cache entry for a call, before the call is made: results
/// still empty.  The embedding is whatever the cache's embedder produced.
pub open spec fn spec_candidate(
    model: Seq<char>,
    messages: Seq<crate::request::MessageModel>,
    recency: Option<Seq<char>>,
    embedding: Seq<i32>,
) -> CacheQueryModel {
    CacheQueryModel {
        action: spec_call_action(),
        text: canonical_messages(messages),
        params: Some(spec_call_params(model, recency)),
        embedding,
        results: Json::Null,
    }
}

/// The recency filter a call ends up with: the deep-research variant
/// derives it from its free-text time constraint, every other call uses
/// the filter it was given.
pub open spec fn spec_effective_recency(
    given: Option<Seq<char>>,
    research: Option<Seq<char>>,
) -> Option<Seq<char>> {
    match research {
        Some(tc) => spec_derived_recency(tc),
        None => given,
    }
}

/// The outbound request body for a call: the deep-research variant adds
/// the fixed sampling parameters and the multi-iteration search hint.
pub open spec fn spec_outbound(
    model: Seq<char>,
    messages: Seq<crate::request::MessageModel>,
    recency: Option<Seq<char>>,
    research: bool,
) -> OutboundRequestModel {
    OutboundRequestModel {
        model,
        messages,
        search_recency_filter: recency,
        temperature_tenths: if research {
            Some(DEEP_RESEARCH_TEMPERATURE_TENTHS)
        } else {
            None
        },
        max_tokens: if research {
            Some(DEEP_RESEARCH_MAX_TOKENS)
        } else {
            None
        },
        search_iterations: if research {
            Some(DEEP_RESEARCH_SEARCH_ITERATIONS)
        } else {
            None
        },
    }
}

/// Whether a returned payload is justified as a cache hit: the cache
/// could answer the call's candidate entry with a list whose top score
/// exceeds the threshold and whose top entry stores exactly this
/// payload.
pub open spec fn spec_hit_justified<C: SimilarityCache>(
    cache: C,
    model: Seq<char>,
    messages: Seq<crate::request::MessageModel>,
    recency: Option<Seq<char>>,
    hit_threshold: u32,
    payload: Json,
) -> bool {
    exists|emb: Seq<i32>, sims: Seq<SimilarityModel>|
        {
            &&& #[trigger] cache.answers(spec_candidate(model, messages, recency, emb), sims)
            &&& sims.len() > 0
            &&& sims[0].score > hit_threshold
            &&& payload == sims[0].query.results
        }
}

/// Everything the transport collaborator needs to perform one remote
/// call, together with the candidate cache entry to store afterwards.
#[derive(Debug)]
pub struct RemoteCall {
    /// The request body to send.
    pub request: OutboundRequest,
    /// The cache entry for this call, results still empty.
    pub candidate: CacheQuery,
    /// The bearer credential for the call.
    pub credential: String,
}

/// What `prepare` decided: either a stored payload good enough to reuse,
/// or a remote call that must now be performed.
#[derive(Debug)]
pub enum PreparedCall {
    /// A cached payload whose similarity exceeded the hit threshold; no
    /// remote call is to be made.
    CachedHit(JsonValue),
    /// No hit: the transport must perform this call.
    Remote(RemoteCall),
}

/// The gateway in front of the remote completion API.
///
/// The credential is explicit configuration, checked lazily: a missing
/// one fails each call, not the process.
pub struct ApiGateway<C: SimilarityCache> {
    /// The similarity cache consulted before, and fed after, every call.
    pub cache: C,
    /// The API credential, if one was configured.
    pub credential: Option<String>,
    /// The similarity score, in thousandths, a hit must exceed.
    pub hit_threshold: u32,
}

/// Picks the payload to reuse out of a ranked similarity list: the top
/// entry's stored results exactly when its score exceeds the threshold.
pub fn select_cache_hit(sims: Vec<Similarity>, hit_threshold: u32) -> (r: Option<JsonValue>)
    ensures
        match r {
            Some(p) => sims@.len() > 0 && sims@[0].score > hit_threshold && p@
                == sims@[0]@.query.results,
            None => sims@.len() == 0 || sims@[0].score <= hit_threshold,
        },
{
    let mut sims = sims;
    if sims.len() > 0 && sims[0].score > hit_threshold {
        let first = sims.remove(0);
        Some(first.query.results)
    } else {
        None
    }
}

impl<C: SimilarityCache> ApiGateway<C> {
    /// A gateway over the given cache, with the given credential and hit
    /// threshold.
    pub fn new(cache: C, credential: Option<String>, hit_threshold: u32) -> (r: Self)
        ensures
            r.cache == cache,
            r.credential == credential,
            r.hit_threshold == hit_threshold,
    {
        ApiGateway { cache, credential, hit_threshold }
    }

    /// Builds the candidate cache entry, asks the cache for neighbours,
    /// and decides: a stored payload whose similarity exceeds the
    /// threshold is returned at once and no remote call is prepared; a
    /// miss (or any cache failure, which degrades to a miss) prepares the
    /// remote call, which needs the configured credential.
    ///
    /// When `research` is given, the request carries the fixed
    /// deep-research sampling parameters and its recency filter is
    /// derived from the free-text time constraint.
    pub fn prepare(
        &self,
        model: &str,
        messages: Vec<Message>,
        search_recency_filter: Option<String>,
        research: Option<&ResearchOptions>,
    ) -> (r: Result<PreparedCall, ToolError>)
        ensures
            ({
                let effective = spec_effective_recency(
                    match search_recency_filter {
                        Some(s) => Some(s@),
                        None => None,
                    },
                    match research {
                        Some(o) => Some(o.time_constraint@),
                        None => None,
                    },
                );
                match r {
                    Ok(PreparedCall::Remote(rc)) => {
                        &&& match self.credential {
                            Some(c) => rc.credential@ == c@,
                            None => false,
                        }
                        &&& rc.request@ == spec_outbound(
                            model@,
                            messages_model(messages@),
                            effective,
                            research is Some,
                        )
                        &&& rc.candidate@ == spec_candidate(
                            model@,
                            messages_model(messages@),
                            effective,
                            rc.candidate@.embedding,
                        )
                    },
                    Ok(PreparedCall::CachedHit(p)) => spec_hit_justified(
                        self.cache,
                        model@,
                        messages_model(messages@),
                        effective,
                        self.hit_threshold,
                        p@,
                    ),
                    Err(e) => e is MissingCredential && self.credential is None,
                }
            }),
    {
        let ghost ggiven: Option<Seq<char>> = match &search_recency_filter {
            Some(s) => Some(s@),
            None => None,
        };
        let ghost gtc: Option<Seq<char>> = match research {
            Some(o) => Some(o.time_constraint@),
            None => None,
        };
        proof {
            assert(ggiven == (match search_recency_filter {
                Some(s) => Some(s@),
                None => None,
            }));
            assert(gtc == (match research {
                Some(o) => Some(o.time_constraint@),
                None => None,
            }));
        }
        let text = crate::request::serialize_messages(&messages);
        let embedding = self.cache.embed(text.as_str());
        let recency: Option<String> = match research {
            Some(opts) => derive_recency(opts.time_constraint.as_str()),
            None => search_recency_filter,
        };
        let ghost grecency: Option<Seq<char>> = match &recency {
            Some(s) => Some(s@),
            None => None,
        };
        let mut fields: Vec<(String, JsonValue)> = Vec::new();
        fields.push((String::from_str("model"), JsonValue::Str(model.to_owned())));
        fields.push(
            (
                String::from_str("search_recency_filter"),
                match &recency {
                    Some(s) => JsonValue::Str(s.clone()),
                    None => JsonValue::Null,
                },
            ),
        );
        proof {
            crate::json::lemma_jmodel_fields(fields@);
            assert(crate::json::jmodel_fields(fields@) =~= match spec_call_params(
                model@,
                grecency,
            ) {
                Json::Obj(f) => f,
                _ => Seq::empty(),
            });
        }
        let params = JsonValue::Obj(fields);
        let candidate = CacheQuery {
            action: String::from_str("perplexity_api_call"),
            text,
            params: Some(params),
            embedding,
            results: JsonValue::Null,
        };
        proof {
            assert(candidate@ =~= spec_candidate(
                model@,
                messages_model(messages@),
                grecency,
                embedding@,
            ));
        }
        match self.cache.similarities(&candidate) {
            Ok(sims) => {
                let ghost gsims = similarities_model(sims@);
                if let Some(payload) = select_cache_hit(sims, self.hit_threshold) {
                    proof {
                        let effective = spec_effective_recency(ggiven, gtc);
                        assert(grecency == effective);
                        assert(gsims[0] == sims@[0]@);
                        assert(spec_hit_justified(
                            self.cache,
                            model@,
                            messages_model(messages@),
                            grecency,
                            self.hit_threshold,
                            payload@,
                        )) by {
                            assert(self.cache.answers(
                                spec_candidate(
                                    model@,
                                    messages_model(messages@),
                                    grecency,
                                    embedding@,
                                ),
                                gsims,
                            ));
                            assert(gsims.len() > 0);
                            assert(gsims[0].score > self.hit_threshold);
                            assert(payload@ == gsims[0].query.results);
                        };
                    }
                    return Ok(PreparedCall::CachedHit(payload));
                }
            },
            Err(_) => {
                // A lookup failure is a degraded cache, never a failed call.
            },
        }
        let credential = match &self.credential {
            Some(c) => c.clone(),
            None => {
                return Err(ToolError::MissingCredential);
            },
        };
        let is_research = match research {
            Some(_) => true,
            None => false,
        };
        let request = OutboundRequest {
            model: model.to_owned(),
            messages,
            search_recency_filter: recency,
            temperature_tenths: if is_research {
                Some(DEEP_RESEARCH_TEMPERATURE_TENTHS)
            } else {
                None
            },
            max_tokens: if is_research {
                Some(DEEP_RESEARCH_MAX_TOKENS)
            } else {
                None
            },
            search_iterations: if is_research {
                Some(DEEP_RESEARCH_SEARCH_ITERATIONS)
            } else {
                None
            },
        };
        Ok(PreparedCall::Remote(RemoteCall { request, candidate, credential }))
    }

    /// Takes the payload of a completed remote call, stores it in the
    /// cache under the candidate entry — best-effort: a store failure is
    /// ignored — and hands the payload back.
    pub fn complete(&mut self, candidate: CacheQuery, response: JsonValue) -> (r: JsonValue)
        ensures
            r@ == response@,
            final(self).credential == old(self).credential,
            final(self).hit_threshold == old(self).hit_threshold,
            final(self).cache.after_store(
                old(self).cache,
                (CacheQueryModel {
                    action: candidate@.action,
                    text: candidate@.text,
                    params: candidate@.params,
                    embedding: candidate@.embedding,
                    results: response@,
                }),
            ),
    {
        let stored = CacheQuery {
            action: candidate.action,
            text: candidate.text,
            params: candidate.params,
            embedding: candidate.embedding,
            results: response.clone(),
        };
        proof {
            assert(stored@ =~= (CacheQueryModel {
                action: candidate@.action,
                text: candidate@.text,
                params: candidate@.params,
                embedding: candidate@.embedding,
                results: response@,
            }));
        }
        let store_outcome = self.cache.store(stored);
        match store_outcome {
            Ok(_) => {},
            Err(_) => {
                // A store failure is a cache miss next time, nothing more.
            },
        }
        response
    }
}


} // verus!
