//! The gateway's hit policy, the cache implementations, and usage
//! metering.

use perplexity_mcp_tools::cache::{
    CacheQuery, FixedSimilarityCache, PassthroughSimilarityCache, Similarity, SimilarityCache,
};
use perplexity_mcp_tools::errors::ToolError;
use perplexity_mcp_tools::gateway::{
    select_cache_hit, ApiGateway, PreparedCall, SIMILARITY_HIT_THRESHOLD,
};
use perplexity_mcp_tools::json::JsonValue;
use perplexity_mcp_tools::request::{derive_recency, serialize_messages, Message, ResearchOptions};
use perplexity_mcp_tools::usage::{extract_usage, RecordingUsageReporter, UsageReporter};

fn jstr(s: &str) -> JsonValue {
    JsonValue::Str(s.to_string())
}

fn obj(fields: Vec<(&str, JsonValue)>) -> JsonValue {
    JsonValue::Obj(fields.into_iter().map(|(k, v)| (k.to_string(), v)).collect())
}

fn cached_payload() -> JsonValue {
    obj(vec![(
        "choices",
        JsonValue::Arr(vec![obj(vec![(
            "message",
            obj(vec![("content", jstr("cached answer"))]),
        )])]),
    )])
}

fn entry(score: u32, results: JsonValue) -> Similarity {
    Similarity {
        query: CacheQuery {
            action: "perplexity_api_call".to_string(),
            text: "[]".to_string(),
            params: None,
            embedding: vec![0],
            results,
        },
        score,
    }
}

fn user_message(content: &str) -> Vec<Message> {
    vec![Message { role: "user".to_string(), content: content.to_string() }]
}

#[test]
fn high_similarity_returns_cached_payload_without_remote_call() {
    let cache = FixedSimilarityCache::new(vec![entry(970, cached_payload())]).unwrap();
    let gateway = ApiGateway::new(cache, Some("SECRET-REDACTED".to_string()), SIMILARITY_HIT_THRESHOLD);
    let prepared = gateway
        .prepare("sonar-reasoning-pro", user_message("hi"), None, None)
        .unwrap();
    match prepared {
        PreparedCall::CachedHit(payload) => {
            let content = payload
                .get("choices")
                .and_then(|c| c.as_arr())
                .and_then(|a| a.first())
                .and_then(|m| m.get("message"))
                .and_then(|m| m.get("content"))
                .and_then(|c| c.as_str());
            assert_eq!(content, Some("cached answer"));
        }
        PreparedCall::Remote(_) => panic!("a 0.97 similarity must not reach the transport"),
    }
    // The hit consulted the cache but stored nothing.
    assert_eq!(gateway.cache.stored_queries().len(), 0);
}

#[test]
fn low_similarity_goes_remote_and_stores_exactly_once() {
    let cache = FixedSimilarityCache::new(vec![entry(800, cached_payload())]).unwrap();
    let mut gateway = ApiGateway::new(cache, Some("SECRET-REDACTED".to_string()), SIMILARITY_HIT_THRESHOLD);
    let prepared = gateway
        .prepare("sonar-reasoning-pro", user_message("hi"), None, None)
        .unwrap();
    let call = match prepared {
        PreparedCall::Remote(call) => call,
        PreparedCall::CachedHit(_) => panic!("a 0.80 similarity is below the hit threshold"),
    };
    assert_eq!(call.credential, "SECRET-REDACTED");
    assert_eq!(call.request.model, "sonar-reasoning-pro");

    let response = cached_payload();
    let returned = gateway.complete(call.candidate, response);
    assert!(returned.get("choices").is_some());

    let stored = gateway.cache.stored_queries();
    assert_eq!(stored.len(), 1);
    assert_eq!(stored[0].action, "perplexity_api_call");
    assert!(stored[0].results.get("choices").is_some());
}

#[test]
fn threshold_is_strict() {
    let at = select_cache_hit(vec![entry(950, cached_payload())], SIMILARITY_HIT_THRESHOLD);
    assert!(at.is_none());
    let above = select_cache_hit(vec![entry(951, cached_payload())], SIMILARITY_HIT_THRESHOLD);
    assert!(above.is_some());
    let empty = select_cache_hit(vec![], SIMILARITY_HIT_THRESHOLD);
    assert!(empty.is_none());
}

#[test]
fn missing_credential_fails_the_call_lazily() {
    let gateway = ApiGateway::new(PassthroughSimilarityCache::new(), None, SIMILARITY_HIT_THRESHOLD);
    let err = gateway
        .prepare("sonar-reasoning-pro", user_message("hi"), None, None)
        .unwrap_err();
    assert!(matches!(err, ToolError::MissingCredential));
}

#[test]
fn passthrough_cache_reports_no_neighbours_and_stores_nothing() {
    let mut cache = PassthroughSimilarityCache::new();
    let query = CacheQuery {
        action: "perplexity_api_call".to_string(),
        text: "[]".to_string(),
        params: None,
        embedding: vec![0],
        results: JsonValue::Null,
    };
    assert!(cache.similarities(&query).unwrap().is_empty());
    assert!(cache.store(query).is_ok());
}

#[test]
fn fixed_cache_refuses_an_unranked_preset() {
    let unranked = vec![entry(800, JsonValue::Null), entry(900, JsonValue::Null)];
    assert!(FixedSimilarityCache::new(unranked).is_none());
    let ranked = vec![entry(900, JsonValue::Null), entry(800, JsonValue::Null)];
    assert!(FixedSimilarityCache::new(ranked).is_some());
}

#[test]
fn candidate_carries_canonical_text_and_params() {
    let cache = FixedSimilarityCache::new(vec![]).unwrap();
    let gateway = ApiGateway::new(cache, Some("SECRET-REDACTED".to_string()), SIMILARITY_HIT_THRESHOLD);
    let prepared = gateway
        .prepare(
            "sonar-reasoning-pro",
            user_message("say \"hi\""),
            Some("week".to_string()),
            None,
        )
        .unwrap();
    let call = match prepared {
        PreparedCall::Remote(call) => call,
        PreparedCall::CachedHit(_) => panic!("an empty cache cannot hit"),
    };
    assert_eq!(
        call.candidate.text,
        "[{\"role\":\"user\",\"content\":\"say \\\"hi\\\"\"}]"
    );
    assert!(matches!(call.candidate.results, JsonValue::Null));
    let params = call.candidate.params.as_ref().unwrap();
    assert_eq!(params.get("model").and_then(|m| m.as_str()), Some("sonar-reasoning-pro"));
    assert_eq!(
        params.get("search_recency_filter").and_then(|f| f.as_str()),
        Some("week")
    );
}

#[test]
fn research_calls_carry_sampling_parameters_and_derived_recency() {
    let cache = PassthroughSimilarityCache::new();
    let gateway = ApiGateway::new(cache, Some("SECRET-REDACTED".to_string()), SIMILARITY_HIT_THRESHOLD);
    let research = ResearchOptions { time_constraint: "the latest results".to_string() };
    let prepared = gateway
        .prepare("sonar-deep-research", user_message("topic"), None, Some(&research))
        .unwrap();
    let call = match prepared {
        PreparedCall::Remote(call) => call,
        PreparedCall::CachedHit(_) => panic!("the passthrough cache cannot hit"),
    };
    assert_eq!(call.request.temperature_tenths, Some(2));
    assert_eq!(call.request.max_tokens, Some(4000));
    assert_eq!(call.request.search_iterations, Some(10));
    assert_eq!(call.request.search_recency_filter.as_deref(), Some("week"));
}

#[test]
fn recency_heuristics_follow_the_time_constraint() {
    assert_eq!(derive_recency("recent developments").as_deref(), Some("week"));
    assert_eq!(derive_recency("the latest news").as_deref(), Some("week"));
    assert_eq!(derive_recency("last year").as_deref(), Some("month"));
    assert_eq!(derive_recency("historical"), None);
    assert_eq!(derive_recency(""), None);
}

#[test]
fn canonical_serialization_escapes_and_orders_messages() {
    let msgs = vec![
        Message { role: "system".to_string(), content: "line\nbreak".to_string() },
        Message { role: "user".to_string(), content: "back\\slash".to_string() },
    ];
    assert_eq!(
        serialize_messages(&msgs),
        "[{\"role\":\"system\",\"content\":\"line\\nbreak\"},{\"role\":\"user\",\"content\":\"back\\\\slash\"}]"
    );
    assert_eq!(serialize_messages(&vec![]), "[]");
}

#[test]
fn usage_is_extracted_only_when_complete() {
    let full = obj(vec![
        ("model", jstr("sonar-reasoning-pro")),
        (
            "usage",
            obj(vec![
                ("completion_tokens", JsonValue::Int(10)),
                ("prompt_tokens", JsonValue::Int(5)),
                ("total_tokens", JsonValue::Int(15)),
            ]),
        ),
    ]);
    let report = extract_usage(&full).unwrap();
    assert_eq!(report.model, "sonar-reasoning-pro");
    assert_eq!(report.usage.completion_tokens, 10);
    assert_eq!(report.usage.prompt_tokens, 5);
    assert_eq!(report.usage.total_tokens, 15);

    let no_model = obj(vec![(
        "usage",
        obj(vec![
            ("completion_tokens", JsonValue::Int(10)),
            ("prompt_tokens", JsonValue::Int(5)),
            ("total_tokens", JsonValue::Int(15)),
        ]),
    )]);
    assert!(extract_usage(&no_model).is_none());

    let partial = obj(vec![
        ("model", jstr("sonar-reasoning-pro")),
        ("usage", obj(vec![("completion_tokens", JsonValue::Int(10))])),
    ]);
    assert!(extract_usage(&partial).is_none());
}

#[test]
fn recording_reporter_keeps_reports_in_order() {
    let mut reporter = RecordingUsageReporter::new();
    let payload = obj(vec![
        ("model", jstr("m1")),
        (
            "usage",
            obj(vec![
                ("completion_tokens", JsonValue::Int(1)),
                ("prompt_tokens", JsonValue::Int(2)),
                ("total_tokens", JsonValue::Int(3)),
            ]),
        ),
    ]);
    let report = extract_usage(&payload).unwrap();
    reporter.report(report).unwrap();
    assert_eq!(reporter.reports().len(), 1);
    assert_eq!(reporter.reports()[0].model, "m1");
    assert_eq!(reporter.reports()[0].usage.total_tokens, 3);
}
