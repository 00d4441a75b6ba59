//! Tool validation, prompt construction, and registry dispatch.

use perplexity_mcp_tools::errors::ToolError;
use perplexity_mcp_tools::json::JsonValue;
use perplexity_mcp_tools::prompts::{
    build_apis_prompt, build_deprecated_prompt, build_documentation_prompt, build_research_prompt,
    build_search_prompt,
};
use perplexity_mcp_tools::registry::ToolRegistry;
use perplexity_mcp_tools::tools::{
    prepare_request, CheckDeprecatedCodeTool, DeepResearchTool, FindApisTool,
    GetDocumentationTool, SearchTool, ToolKind,
};

fn jstr(s: &str) -> JsonValue {
    JsonValue::Str(s.to_string())
}

fn obj(fields: Vec<(&str, JsonValue)>) -> JsonValue {
    JsonValue::Obj(fields.into_iter().map(|(k, v)| (k.to_string(), v)).collect())
}

fn invalid_argument_field(e: &ToolError) -> &str {
    match e {
        ToolError::InvalidArgument(f) => f.as_str(),
        other => panic!("expected InvalidArgument, got: {}", other.message()),
    }
}

#[test]
fn missing_required_field_names_it_for_every_variant() {
    let empty = obj(vec![]);
    let cases = [
        (ToolKind::Search, "query"),
        (ToolKind::GetDocumentation, "query"),
        (ToolKind::FindApis, "requirement"),
        (ToolKind::CheckDeprecatedCode, "code"),
        (ToolKind::DeepResearch, "topic"),
    ];
    for (kind, field) in cases {
        let err = prepare_request(kind, Some(&empty)).unwrap_err();
        assert_eq!(invalid_argument_field(&err), field);
        let err = prepare_request(kind, None).unwrap_err();
        assert_eq!(invalid_argument_field(&err), field);
    }
}

#[test]
fn non_string_required_field_is_invalid() {
    let args = obj(vec![("query", JsonValue::Int(7))]);
    let err = prepare_request(ToolKind::Search, Some(&args)).unwrap_err();
    assert_eq!(invalid_argument_field(&err), "query");
}

#[test]
fn search_prompt_exact_text_per_detail_level() {
    assert_eq!(
        build_search_prompt("What is Rust?", "brief"),
        "Provide a brief, concise answer to: What is Rust?"
    );
    assert_eq!(
        build_search_prompt("What is Rust?", "detailed"),
        "Provide a comprehensive, detailed analysis of: What is Rust?. Include relevant \
         examples, context, and supporting information where applicable."
    );
    assert_eq!(
        build_search_prompt("What is Rust?", "normal"),
        "Provide a clear, balanced answer to: What is Rust?. Include key points and relevant \
         context."
    );
    // An unrecognized level is accepted as opaque text and gets the
    // balanced form.
    assert_eq!(
        build_search_prompt("q", "thorough"),
        build_search_prompt("q", "normal")
    );
}

#[test]
fn prompt_is_deterministic_across_repeated_calls() {
    let args = obj(vec![
        ("topic", jstr("lichens")),
        ("depth", jstr("brief")),
        ("focus", jstr("alpine")),
    ]);
    let a = prepare_request(ToolKind::DeepResearch, Some(&args)).unwrap();
    let b = prepare_request(ToolKind::DeepResearch, Some(&args)).unwrap();
    assert_eq!(a.model, b.model);
    assert_eq!(a.messages.len(), b.messages.len());
    for (x, y) in a.messages.iter().zip(b.messages.iter()) {
        assert_eq!(x.role, y.role);
        assert_eq!(x.content, y.content);
    }
}

#[test]
fn documentation_prompt_includes_optional_context() {
    let with = build_documentation_prompt("serde", "derive macros");
    assert!(with.starts_with(
        "Provide comprehensive documentation and usage examples for serde. Focus on: derive \
         macros. "
    ));
    assert!(with.contains("1. Basic overview and purpose"));
    assert!(with.contains("7. Links to official documentation if available"));
    let without = build_documentation_prompt("serde", "");
    assert!(without.starts_with(
        "Provide comprehensive documentation and usage examples for serde. "
    ));
    assert!(!without.contains("Focus on:"));
}

#[test]
fn apis_prompt_exact_shape() {
    let p = build_apis_prompt("geocoding", "mobile app");
    assert!(p.starts_with(
        "Find and evaluate APIs that could be used for: geocoding. Context: mobile app. "
    ));
    assert!(p.contains("8. Code example of basic usage"));
}

#[test]
fn deprecated_prompt_embeds_code_and_technology() {
    let p = build_deprecated_prompt("var x = 1;", "JavaScript");
    assert!(p.starts_with(
        "Analyze this code for deprecated features or patterns in JavaScript:\n\nvar x = 1;\n\n"
    ));
    assert!(p.contains("6. Code examples showing how to update to current best practices"));
    let bare = build_deprecated_prompt("var x = 1;", "");
    assert!(bare.starts_with("Analyze this code for deprecated features or patterns:\n\n"));
}

#[test]
fn research_prompt_carries_style_and_optional_parts() {
    let p = build_research_prompt("fusion", "exhaustive", "engineering", "recent", "ieee");
    assert!(p.starts_with("Conduct a deep research investigation on: fusion\n\n"));
    assert!(p.contains("Your research should be exhaustive, focused on engineering. Consider \
                        the time period: recent\n\n"));
    assert!(p.contains("4. Cite all sources using ieee format"));
}

#[test]
fn deep_research_defaults_fill_the_prompt_verbatim() {
    let args = obj(vec![("topic", jstr("bees"))]);
    let p = prepare_request(ToolKind::DeepResearch, Some(&args)).unwrap();
    assert_eq!(p.model, "sonar-deep-research");
    assert_eq!(p.messages.len(), 2);
    assert_eq!(p.messages[0].role, "system");
    assert_eq!(p.messages[1].role, "user");
    assert!(p.messages[1].content.contains("Your research should be comprehensive\n\n"));
    assert!(p.messages[1].content.contains("4. Cite all sources using apa format"));
    assert_eq!(p.citation_style.as_deref(), Some("apa"));
    let research = p.research.expect("deep research carries its options");
    assert_eq!(research.time_constraint, "");
}

#[test]
fn search_arguments_flow_into_the_request() {
    let args = obj(vec![
        ("query", jstr("rust async")),
        ("detail_level", jstr("brief")),
        ("search_recency_filter", jstr("week")),
    ]);
    let p = prepare_request(ToolKind::Search, Some(&args)).unwrap();
    assert_eq!(p.model, "sonar-reasoning-pro");
    assert_eq!(p.messages.len(), 1);
    assert_eq!(p.messages[0].role, "user");
    assert_eq!(
        p.messages[0].content,
        "Provide a brief, concise answer to: rust async"
    );
    assert_eq!(p.search_recency_filter.as_deref(), Some("week"));
    assert!(p.research.is_none());
    assert!(p.citation_style.is_none());
}

#[test]
fn descriptors_declare_names_and_required_fields() {
    let tool = SearchTool::new().to_tool();
    assert_eq!(tool.name, "search");
    assert_eq!(
        tool.description.as_deref(),
        Some("Perform a general search query to get comprehensive information on any topic")
    );
    let schema = &tool.input_schema;
    let required = schema.get("required").and_then(|r| r.as_arr()).unwrap();
    assert_eq!(required.len(), 1);
    assert_eq!(required[0].as_str(), Some("query"));
    let props = schema.get("properties").unwrap();
    let detail = props.get("detail_level").unwrap();
    let options = detail.get("enum").and_then(|e| e.as_arr()).unwrap();
    let opts: Vec<&str> = options.iter().filter_map(|o| o.as_str()).collect();
    assert_eq!(opts, ["brief", "normal", "detailed"]);

    assert_eq!(GetDocumentationTool::new().to_tool().name, "get_documentation");
    assert_eq!(FindApisTool::new().to_tool().name, "find_apis");
    assert_eq!(CheckDeprecatedCodeTool::new().to_tool().name, "check_deprecated_code");
    let research = DeepResearchTool::new().to_tool();
    assert_eq!(research.name, "deep_research");
    let req = research.input_schema.get("required").and_then(|r| r.as_arr()).unwrap();
    assert_eq!(req[0].as_str(), Some("topic"));
}

#[test]
fn registry_lists_and_dispatches_by_name() {
    let mut registry = ToolRegistry::new();
    registry.register(ToolKind::Search);
    registry.register(ToolKind::GetDocumentation);
    registry.register(ToolKind::FindApis);
    registry.register(ToolKind::CheckDeprecatedCode);
    registry.register(ToolKind::DeepResearch);
    // Registering an already-present variant changes nothing.
    registry.register(ToolKind::Search);
    let tools = registry.list();
    assert_eq!(tools.len(), 5);
    assert_eq!(tools[0].name, "search");
    assert_eq!(tools[4].name, "deep_research");

    let args = obj(vec![("query", jstr("hello"))]);
    let p = registry.dispatch("search", Some(&args)).unwrap();
    assert_eq!(p.model, "sonar-reasoning-pro");

    let err = registry.dispatch("no_such_tool", Some(&args)).unwrap_err();
    match err {
        ToolError::ToolNotFound(n) => assert_eq!(n, "no_such_tool"),
        other => panic!("expected ToolNotFound, got: {}", other.message()),
    }
}

#[test]
fn error_messages_name_their_subject() {
    assert_eq!(
        ToolError::InvalidArgument("query".to_string()).message(),
        "Missing or invalid query"
    );
    assert_eq!(
        ToolError::MissingCredential.message(),
        "PERPLEXITY_API_KEY not set in environment"
    );
    assert_eq!(
        ToolError::MalformedResponse("content".to_string()).message(),
        "Failed to extract content from response"
    );
    assert_eq!(
        ToolError::UpstreamUnavailable("timed out".to_string()).message(),
        "Failed to call remote API: timed out"
    );
    assert_eq!(
        ToolError::ToolNotFound("x".to_string()).message(),
        "No tool named x"
    );
}

#[test]
fn interleaved_calls_share_no_per_call_state() {
    // Calls to the same tool with different arguments, interleaved,
    // prepare exactly what each would prepare alone.
    let registry = {
        let mut r = ToolRegistry::new();
        r.register(ToolKind::Search);
        r
    };
    let a = obj(vec![("query", jstr("alpha")), ("detail_level", jstr("brief"))]);
    let b = obj(vec![("query", jstr("beta")), ("detail_level", jstr("detailed"))]);
    let alone_a = registry.dispatch("search", Some(&a)).unwrap();
    let alone_b = registry.dispatch("search", Some(&b)).unwrap();
    let inter_a = registry.dispatch("search", Some(&a)).unwrap();
    let inter_b = registry.dispatch("search", Some(&b)).unwrap();
    assert_eq!(inter_a.messages[0].content, alone_a.messages[0].content);
    assert_eq!(inter_b.messages[0].content, alone_b.messages[0].content);
    assert_eq!(alone_a.messages[0].content, "Provide a brief, concise answer to: alpha");
}
