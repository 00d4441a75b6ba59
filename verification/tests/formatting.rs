//! The response formatters, plain and style-aware.

use perplexity_mcp_tools::errors::ToolError;
use perplexity_mcp_tools::format::{
    extract_content, format_deep_research_response, format_response_with_references,
};
use perplexity_mcp_tools::json::JsonValue;
use perplexity_mcp_tools::tools::{finish_call, ToolContent};
use perplexity_mcp_tools::usage::RecordingUsageReporter;

fn jstr(s: &str) -> JsonValue {
    JsonValue::Str(s.to_string())
}

fn obj(fields: Vec<(&str, JsonValue)>) -> JsonValue {
    JsonValue::Obj(fields.into_iter().map(|(k, v)| (k.to_string(), v)).collect())
}

fn response_with(content: &str, extra: Vec<(&str, JsonValue)>) -> JsonValue {
    let mut fields = vec![(
        "choices",
        JsonValue::Arr(vec![obj(vec![(
            "message",
            obj(vec![("content", jstr(content))]),
        )])]),
    )];
    fields.extend(extra);
    obj(fields)
}

#[test]
fn plain_content_without_citations_is_returned_unchanged() {
    let resp = response_with("Already formatted text.\n\nReferences:\n[1]: u", vec![]);
    let out = format_response_with_references(&resp).unwrap();
    assert_eq!(out, "Already formatted text.\n\nReferences:\n[1]: u");
}

#[test]
fn empty_citation_list_changes_nothing() {
    let resp = response_with("Plain.", vec![("citations", JsonValue::Arr(vec![]))]);
    assert_eq!(format_response_with_references(&resp).unwrap(), "Plain.");
    assert_eq!(format_deep_research_response(&resp, "apa").unwrap(), "Plain.");
}

#[test]
fn plain_references_are_numbered_from_one() {
    let resp = response_with(
        "Answer.",
        vec![(
            "citations",
            JsonValue::Arr(vec![jstr("https://a.example"), jstr("https://b.example")]),
        )],
    );
    assert_eq!(
        format_response_with_references(&resp).unwrap(),
        "Answer.\n\nReferences:\n[1]: https://a.example\n[2]: https://b.example"
    );
}

#[test]
fn structured_citation_uses_its_url_field() {
    let resp = response_with(
        "Answer.",
        vec![(
            "citations",
            JsonValue::Arr(vec![
                obj(vec![("url", jstr("https://c.example")), ("title", jstr("T"))]),
                obj(vec![("title", jstr("No link"))]),
                JsonValue::Int(7),
            ]),
        )],
    );
    assert_eq!(
        format_response_with_references(&resp).unwrap(),
        "Answer.\n\nReferences:\n[1]: https://c.example\n[2]: Unknown URL\n[3]: Unknown URL"
    );
}

#[test]
fn missing_content_is_malformed_at_formatting_time() {
    // The gateway hands the payload through; only formatting rejects it.
    let no_choices = obj(vec![("citations", JsonValue::Arr(vec![]))]);
    let empty_choices = obj(vec![("choices", JsonValue::Arr(vec![]))]);
    let non_string = obj(vec![(
        "choices",
        JsonValue::Arr(vec![obj(vec![(
            "message",
            obj(vec![("content", JsonValue::Int(3))]),
        )])]),
    )]);
    for resp in [no_choices, empty_choices, non_string] {
        let err = format_response_with_references(&resp).unwrap_err();
        match err {
            ToolError::MalformedResponse(f) => assert_eq!(f, "content"),
            other => panic!("expected MalformedResponse, got: {}", other.message()),
        }
        assert!(format_deep_research_response(&resp, "apa").is_err());
        assert!(extract_content(&resp).is_none());
    }
}

#[test]
fn apa_formatting_of_mixed_citations_with_assessment_table() {
    let first = obj(vec![
        ("title", jstr("T1")),
        ("url", jstr("u1")),
        ("authors", JsonValue::Arr(vec![jstr("A")])),
        ("date", jstr("2020")),
    ]);
    let resp = response_with(
        "Body.",
        vec![("citations", JsonValue::Arr(vec![first, jstr("u2")]))],
    );
    let out = format_deep_research_response(&resp, "apa").unwrap();
    assert_eq!(
        out,
        "Body.\n\n\n## References\n\n\
         [1] A. (2020). *T1*. u1\n\n\
         [2] u2\n\n\
         \n## Source Assessment\n\n\
         | Category | Metrics |\n\
         |----------|--------|\n\
         | Total Sources | 2 |\n"
    );
}

#[test]
fn apa_entry_joins_authors_and_omits_absent_parts() {
    let citation = obj(vec![
        ("title", jstr("T")),
        ("url", jstr("u")),
        ("authors", JsonValue::Arr(vec![jstr("A"), jstr("B"), jstr("C")])),
        ("publisher", jstr("P")),
    ]);
    let resp = response_with("X.", vec![("citations", JsonValue::Arr(vec![citation]))]);
    let out = format_deep_research_response(&resp, "apa").unwrap();
    assert!(out.contains("[1] A, B, C. P. *T*. u\n\n"));
    assert!(!out.contains("()"));
}

#[test]
fn other_styles_fall_back_to_a_flat_source_list() {
    let resp = response_with(
        "Body.",
        vec![(
            "citations",
            JsonValue::Arr(vec![jstr("u1"), obj(vec![("url", jstr("u2"))]), jstr("u3")]),
        )],
    );
    let out = format_deep_research_response(&resp, "ieee").unwrap();
    assert_eq!(
        out,
        "Body.\n\n\n## Sources\n\n\
         [1]: u1\n\
         [2]: u2\n\
         [3]: u3\n\
         \n## Source Assessment\n\n\
         | Category | Metrics |\n\
         |----------|--------|\n\
         | Total Sources | 3 |\n"
    );
}

#[test]
fn search_iterations_appear_in_the_assessment_when_reported() {
    let resp = response_with(
        "Body.",
        vec![
            ("citations", JsonValue::Arr(vec![jstr("u1")])),
            ("search_info", obj(vec![("iterations", JsonValue::Int(10))])),
        ],
    );
    let out = format_deep_research_response(&resp, "mla").unwrap();
    assert!(out.ends_with("| Total Sources | 1 |\n| Search Iterations | 10 |\n"));
}

#[test]
fn finish_call_reports_usage_and_formats_per_style() {
    let resp = response_with(
        "Done.",
        vec![
            ("model", jstr("sonar-reasoning-pro")),
            (
                "usage",
                obj(vec![
                    ("completion_tokens", JsonValue::Int(7)),
                    ("prompt_tokens", JsonValue::Int(3)),
                    ("total_tokens", JsonValue::Int(10)),
                ]),
            ),
        ],
    );
    let mut reporter = RecordingUsageReporter::new();
    let out = finish_call(&mut reporter, None, &resp).unwrap();
    assert_eq!(out.len(), 1);
    let ToolContent::Text { text } = &out[0];
    assert_eq!(text, "Done.");
    assert_eq!(reporter.reports().len(), 1);
    assert_eq!(reporter.reports()[0].usage.total_tokens, 10);

    // Without a usage block, nothing is reported, and the call still
    // succeeds.
    let bare = response_with("Done.", vec![]);
    let mut reporter = RecordingUsageReporter::new();
    let out = finish_call(&mut reporter, Some(&"apa".to_string()), &bare).unwrap();
    assert_eq!(out.len(), 1);
    assert_eq!(reporter.reports().len(), 0);
}

#[test]
fn decimal_rendering_is_exact() {
    let mut s = String::new();
    perplexity_mcp_tools::text::push_u64(&mut s, 0);
    s.push(' ');
    perplexity_mcp_tools::text::push_u64(&mut s, 1234567890);
    s.push(' ');
    perplexity_mcp_tools::text::push_i64(&mut s, -42);
    assert_eq!(s, "0 1234567890 -42");

    let mut extremes = String::new();
    perplexity_mcp_tools::text::push_u64(&mut extremes, u64::MAX);
    extremes.push(' ');
    perplexity_mcp_tools::text::push_i64(&mut extremes, i64::MIN);
    assert_eq!(extremes, "18446744073709551615 -9223372036854775808");
}
