//! The prompt builders: one pure function per tool variant, from
//! arguments to the natural-language prompt sent to the remote API.
//!
//! Each builder is a deterministic function of its arguments and nothing
//! else: the same arguments give the byte-identical prompt on every call.

use vstd::prelude::*;
use vstd::string::*;

use crate::text::str_eq;

verus! {

/// The search prompt: a brief, balanced, or detailed answer to the
/// query, picked by the detail level; any unrecognized level gets the
/// balanced form.
pub open spec fn spec_search_prompt(query: Seq<char>, detail_level: Seq<char>) -> Seq<char> {
    if detail_level == "brief"@ {
        "Provide a brief, concise answer to: "@ + query
    } else if detail_level == "detailed"@ {
        "Provide a comprehensive, detailed analysis of: "@ + query
            + ". Include relevant examples, context, and supporting information where applicable."@
    } else {
        "Provide a clear, balanced answer to: "@ + query
            + ". Include key points and relevant context."@
    }
}

/// Builds the search prompt.
pub fn build_search_prompt(query: &str, detail_level: &str) -> (r: String)
    ensures
        r@ == spec_search_prompt(query@, detail_level@),
{
    let mut out = String::new();
    if str_eq(detail_level, "brief") {
        out.append("Provide a brief, concise answer to: ");
        out.append(query);
    } else if str_eq(detail_level, "detailed") {
        out.append("Provide a comprehensive, detailed analysis of: ");
        out.append(query);
        out.append(
            ". Include relevant examples, context, and supporting information where applicable.",
        );
    } else {
        out.append("Provide a clear, balanced answer to: ");
        out.append(query);
        out.append(". Include key points and relevant context.");
    }
    proof {
        assert(out@ =~= spec_search_prompt(query@, detail_level@));
    }
    out
}

/// The documentation prompt: a structured request for overview,
/// features, setup, examples, best practices, pitfalls, and links, with
/// an optional focus taken from the context argument.
pub open spec fn spec_documentation_prompt(query: Seq<char>, context: Seq<char>) -> Seq<char> {
    "Provide comprehensive documentation and usage examples for "@ + query + ". "@ + (if context.len()
        > 0 {
        "Focus on: "@ + context + ". "@
    } else {
        Seq::empty()
    })
        + " Include:\n1. Basic overview and purpose\n2. Key features and capabilities\n3. Installation/setup if applicable\n4. Common usage examples\n5. Best practices\n6. Common pitfalls to avoid\n7. Links to official documentation if available"@
}

/// Builds the documentation prompt.
pub fn build_documentation_prompt(query: &str, context: &str) -> (r: String)
    ensures
        r@ == spec_documentation_prompt(query@, context@),
{
    let mut out = String::new();
    out.append("Provide comprehensive documentation and usage examples for ");
    out.append(query);
    out.append(". ");
    if !context.is_empty() {
        out.append("Focus on: ");
        out.append(context);
        out.append(". ");
    }
    out.append(
        " Include:\n1. Basic overview and purpose\n2. Key features and capabilities\n3. Installation/setup if applicable\n4. Common usage examples\n5. Best practices\n6. Common pitfalls to avoid\n7. Links to official documentation if available",
    );
    proof {
        assert(out@ =~= spec_documentation_prompt(query@, context@));
    }
    out
}

/// The API-evaluation prompt: a structured request to find and assess
/// candidate APIs for the requirement, with optional project context.
pub open spec fn spec_apis_prompt(requirement: Seq<char>, context: Seq<char>) -> Seq<char> {
    "Find and evaluate APIs that could be used for: "@ + requirement + ". "@ + (if context.len()
        > 0 {
        "Context: "@ + context + ". "@
    } else {
        Seq::empty()
    })
        + " For each API, provide:\n1. Name and brief description\n2. Key features and capabilities\n3. Pricing model (if available)\n4. Integration complexity\n5. Documentation quality\n6. Community support and popularity\n7. Any potential limitations or concerns\n8. Code example of basic usage"@
}

/// Builds the API-evaluation prompt.
pub fn build_apis_prompt(requirement: &str, context: &str) -> (r: String)
    ensures
        r@ == spec_apis_prompt(requirement@, context@),
{
    let mut out = String::new();
    out.append("Find and evaluate APIs that could be used for: ");
    out.append(requirement);
    out.append(". ");
    if !context.is_empty() {
        out.append("Context: ");
        out.append(context);
        out.append(". ");
    }
    out.append(
        " For each API, provide:\n1. Name and brief description\n2. Key features and capabilities\n3. Pricing model (if available)\n4. Integration complexity\n5. Documentation quality\n6. Community support and popularity\n7. Any potential limitations or concerns\n8. Code example of basic usage",
    );
    proof {
        assert(out@ =~= spec_apis_prompt(requirement@, context@));
    }
    out
}

/// The deprecation-analysis prompt: the code under scrutiny, optionally
/// placed in its technology, and a structured request for deprecated
/// features, alternatives, migration steps, impact, timeline, and
/// updated examples.
pub open spec fn spec_deprecated_prompt(code: Seq<char>, technology: Seq<char>) -> Seq<char> {
    "Analyze this code for deprecated features or patterns"@ + (if technology.len() > 0 {
        " in "@ + technology
    } else {
        Seq::empty()
    }) + ":\n\n"@ + code
        + "\n\nPlease provide:\n1. Identification of any deprecated features, methods, or patterns\n2. Current recommended alternatives\n3. Migration steps if applicable\n4. Impact of the deprecation\n5. Timeline of deprecation if known\n6. Code examples showing how to update to current best practices"@
}

/// Builds the deprecation-analysis prompt.
pub fn build_deprecated_prompt(code: &str, technology: &str) -> (r: String)
    ensures
        r@ == spec_deprecated_prompt(code@, technology@),
{
    let mut out = String::new();
    out.append("Analyze this code for deprecated features or patterns");
    if !technology.is_empty() {
        out.append(" in ");
        out.append(technology);
    }
    out.append(":\n\n");
    out.append(code);
    out.append(
        "\n\nPlease provide:\n1. Identification of any deprecated features, methods, or patterns\n2. Current recommended alternatives\n3. Migration steps if applicable\n4. Impact of the deprecation\n5. Timeline of deprecation if known\n6. Code examples showing how to update to current best practices",
    );
    proof {
        assert(out@ =~= spec_deprecated_prompt(code@, technology@));
    }
    out
}

/// The deep-research prompt: the topic, the requested depth, an optional
/// focus, an optional time period, and a structured report plan citing
/// sources in the requested style.
pub open spec fn spec_research_prompt(
    topic: Seq<char>,
    depth: Seq<char>,
    focus: Seq<char>,
    time_constraint: Seq<char>,
    citation_style: Seq<char>,
) -> Seq<char> {
    "Conduct a deep research investigation on: "@ + topic
        + "\n\nPlease approach this as an expert researcher would, conducting multiple searches and analyzing diverse sources to provide comprehensive information. Your research should be "@
        + depth + (if focus.len() > 0 {
        ", focused on "@ + focus
    } else {
        Seq::empty()
    }) + (if time_constraint.len() > 0 {
        ". Consider the time period: "@ + time_constraint
    } else {
        Seq::empty()
    })
        + "\n\nWhen preparing your report:\n1. Start with an executive summary of key findings\n2. Organize information in a logical structure with headings and subheadings\n3. Include critical analysis and multiple perspectives\n4. Cite all sources using "@
        + citation_style
        + " format\n5. Prioritize recent, peer-reviewed, and authoritative sources\n6. Identify any gaps in existing research\n7. Conclude with practical implications and future directions"@
}

/// Builds the deep-research prompt.
pub fn build_research_prompt(
    topic: &str,
    depth: &str,
    focus: &str,
    time_constraint: &str,
    citation_style: &str,
) -> (r: String)
    ensures
        r@ == spec_research_prompt(topic@, depth@, focus@, time_constraint@, citation_style@),
{
    let mut out = String::new();
    out.append("Conduct a deep research investigation on: ");
    out.append(topic);
    out.append(
        "\n\nPlease approach this as an expert researcher would, conducting multiple searches and analyzing diverse sources to provide comprehensive information. Your research should be ",
    );
    out.append(depth);
    if !focus.is_empty() {
        out.append(", focused on ");
        out.append(focus);
    }
    if !time_constraint.is_empty() {
        out.append(". Consider the time period: ");
        out.append(time_constraint);
    }
    out.append(
        "\n\nWhen preparing your report:\n1. Start with an executive summary of key findings\n2. Organize information in a logical structure with headings and subheadings\n3. Include critical analysis and multiple perspectives\n4. Cite all sources using ",
    );
    out.append(citation_style);
    out.append(
        " format\n5. Prioritize recent, peer-reviewed, and authoritative sources\n6. Identify any gaps in existing research\n7. Conclude with practical implications and future directions",
    );
    proof {
        assert(out@ =~= spec_research_prompt(
            topic@,
            depth@,
            focus@,
            time_constraint@,
            citation_style@,
        ));
    }
    out
}

/// The fixed system message that frames the deep-research conversation.
pub open spec fn spec_research_system_prompt() -> Seq<char> {
    "You are a Deep Research agent capable of conducting comprehensive research by performing multiple searches. Your goal is to create an in-depth report that combines information from hundreds of sources, analyzes contradictions, and presents a complete picture of the topic."@
}

/// Builds the deep-research system message.
pub fn build_research_system_prompt() -> (r: String)
    ensures
        r@ == spec_research_system_prompt(),
{
    String::from_str(
        "You are a Deep Research agent capable of conducting comprehensive research by performing multiple searches. Your goal is to create an in-depth report that combines information from hundreds of sources, analyzes contradictions, and presents a complete picture of the topic.",
    )
}

} // verus!
