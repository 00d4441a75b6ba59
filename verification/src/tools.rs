//! The tool variants: what each one declares to the dispatcher, how each
//! one validates its arguments and builds its request, and how the
//! pipeline turns a raw payload into the final text.

use vstd::prelude::*;
use vstd::string::*;

use crate::errors::ToolError;
use crate::format::{
    format_deep_research_response, format_response_with_references, spec_citations, spec_content,
    spec_plain_format, spec_research_format, spec_search_iterations,
};
use crate::json::{jmodel_fields, jmodel_seq, json_get_str, lemma_jmodel_fields, Json, JsonValue};
use crate::prompts::{
    build_apis_prompt, build_deprecated_prompt, build_documentation_prompt, build_research_prompt,
    build_research_system_prompt, build_search_prompt, spec_apis_prompt, spec_deprecated_prompt,
    spec_documentation_prompt, spec_research_prompt, spec_research_system_prompt,
    spec_search_prompt,
};
use crate::request::{messages_model, Message, MessageModel, ResearchOptions};
use crate::usage::{extract_usage, UsageReporter};

verus! {

/// The closed set of tool variants.
#[derive(Clone, Copy, PartialEq, Eq, Structural)]
pub enum ToolKind {
    Search,
    GetDocumentation,
    FindApis,
    CheckDeprecatedCode,
    DeepResearch,
}

/// What a tool declares to the external dispatcher: its name, a
/// description, and a JSON-Schema-shaped account of its arguments.
#[derive(Debug)]
pub struct Tool {
    pub name: String,
    pub description: Option<String>,
    pub input_schema: JsonValue,
}

/// The mathematical model of a [`Tool`].
#[verifier::ext_equal]
pub struct ToolModel {
    pub name: Seq<char>,
    pub description: Option<Seq<char>>,
    pub input_schema: Json,
}

impl View for Tool {
    type V = ToolModel;

    open spec fn view(&self) -> ToolModel {
        ToolModel {
            name: self.name@,
            description: match self.description {
                Some(d) => Some(d@),
                None => None,
            },
            input_schema: self.input_schema@,
        }
    }
}

/// One piece of a tool's result.  Text is the only kind the pipeline
/// produces.
#[derive(Debug)]
pub enum ToolContent {
    Text { text: String },
}

impl View for ToolContent {
    type V = Seq<char>;

    open spec fn view(&self) -> Seq<char> {
        match self {
            ToolContent::Text { text } => text@,
        }
    }
}

/// The name each variant is dispatched under.
pub open spec fn spec_tool_name(kind: ToolKind) -> Seq<char> {
    match kind {
        ToolKind::Search => "search"@,
        ToolKind::GetDocumentation => "get_documentation"@,
        ToolKind::FindApis => "find_apis"@,
        ToolKind::CheckDeprecatedCode => "check_deprecated_code"@,
        ToolKind::DeepResearch => "deep_research"@,
    }
}

/// The name each variant is dispatched under.
pub fn tool_name(kind: ToolKind) -> (r: &'static str)
    ensures
        r@ == spec_tool_name(kind),
{
    match kind {
        ToolKind::Search => "search",
        ToolKind::GetDocumentation => "get_documentation",
        ToolKind::FindApis => "find_apis",
        ToolKind::CheckDeprecatedCode => "check_deprecated_code",
        ToolKind::DeepResearch => "deep_research",
    }
}

/// The description each variant declares.
pub open spec fn spec_tool_description(kind: ToolKind) -> Seq<char> {
    match kind {
        ToolKind::Search => "Perform a general search query to get comprehensive information on any topic"@,
        ToolKind::GetDocumentation => "Get documentation and usage examples for a specific technology, library, or API"@,
        ToolKind::FindApis => "Find and evaluate APIs that could be integrated into a project"@,
        ToolKind::CheckDeprecatedCode => "Check if code or dependencies might be using deprecated features"@,
        ToolKind::DeepResearch => "Conduct in-depth research on complex topics by analyzing hundreds of sources"@,
    }
}

/// The views of a list of strings.
pub open spec fn spec_strs(v: Seq<String>) -> Seq<Seq<char>> {
    v.map_values(|o: String| o@)
}

/// A schema property describing one plain string argument.
pub open spec fn spec_prop(desc: Seq<char>) -> Json {
    Json::Obj(seq![("type"@, Json::Str("string"@)), ("description"@, Json::Str(desc))])
}

/// A schema property describing one string argument drawn from an
/// enumerated set of values.
pub open spec fn spec_enum_prop(desc: Seq<char>, options: Seq<Seq<char>>) -> Json {
    Json::Obj(
        seq![
            ("type"@, Json::Str("string"@)),
            ("description"@, Json::Str(desc)),
            ("enum"@, Json::Arr(options.map_values(|o: Seq<char>| Json::Str(o)))),
        ],
    )
}

/// A whole input schema: an object with the given properties, of which
/// the `required` ones must be supplied.
pub open spec fn spec_schema(props: Seq<(Seq<char>, Json)>, required: Seq<Seq<char>>) -> Json {
    Json::Obj(
        seq![
            ("type"@, Json::Str("object"@)),
            ("properties"@, Json::Obj(props)),
            ("required"@, Json::Arr(required.map_values(|o: Seq<char>| Json::Str(o)))),
        ],
    )
}

/// Builds a plain string property.
fn prop(desc: &str) -> (r: JsonValue)
    ensures
        r@ == spec_prop(desc@),
{
    let mut fields: Vec<(String, JsonValue)> = Vec::new();
    fields.push((String::from_str("type"), JsonValue::Str(String::from_str("string"))));
    fields.push((String::from_str("description"), JsonValue::Str(desc.to_owned())));
    proof {
        lemma_jmodel_fields(fields@);
        assert(jmodel_fields(fields@) =~= seq![
            ("type"@, Json::Str("string"@)),
            ("description"@, Json::Str(desc@)),
        ]);
    }
    JsonValue::Obj(fields)
}

/// Builds an enumerated string property.
fn enum_prop(desc: &str, options: Vec<String>) -> (r: JsonValue)
    ensures
        r@ == spec_enum_prop(desc@, spec_strs(options@)),
{
    let ghost gopts = spec_strs(options@);
    let mut arr: Vec<JsonValue> = Vec::new();
    let n = options.len();
    for i in 0..n
        invariant
            n == options@.len(),
            gopts == spec_strs(options@),
            arr@.len() == i,
            forall|k: int|
                0 <= k < i ==> crate::json::jmodel(#[trigger] arr@[k]) == Json::Str(options@[k]@),
    {
        arr.push(JsonValue::Str(options[i].clone()));
    }
    proof {
        crate::json::lemma_jmodel_seq(arr@);
        assert(jmodel_seq(arr@) =~= gopts.map_values(|o: Seq<char>| Json::Str(o)));
    }
    let mut fields: Vec<(String, JsonValue)> = Vec::new();
    fields.push((String::from_str("type"), JsonValue::Str(String::from_str("string"))));
    fields.push((String::from_str("description"), JsonValue::Str(desc.to_owned())));
    fields.push((String::from_str("enum"), JsonValue::Arr(arr)));
    proof {
        lemma_jmodel_fields(fields@);
        assert(jmodel_fields(fields@) =~= seq![
            ("type"@, Json::Str("string"@)),
            ("description"@, Json::Str(desc@)),
            ("enum"@, Json::Arr(gopts.map_values(|o: Seq<char>| Json::Str(o)))),
        ]);
    }
    JsonValue::Obj(fields)
}

/// Builds a whole input schema from its properties and required names.
fn schema(props: Vec<(String, JsonValue)>, required: Vec<String>) -> (r: JsonValue)
    ensures
        r@ == spec_schema(jmodel_fields(props@), spec_strs(required@)),
{
    let ghost greq = spec_strs(required@);
    let mut arr: Vec<JsonValue> = Vec::new();
    let n = required.len();
    for i in 0..n
        invariant
            n == required@.len(),
            greq == spec_strs(required@),
            arr@.len() == i,
            forall|k: int|
                0 <= k < i ==> crate::json::jmodel(#[trigger] arr@[k]) == Json::Str(
                    required@[k]@,
                ),
    {
        arr.push(JsonValue::Str(required[i].clone()));
    }
    proof {
        crate::json::lemma_jmodel_seq(arr@);
        assert(jmodel_seq(arr@) =~= greq.map_values(|o: Seq<char>| Json::Str(o)));
    }
    let mut fields: Vec<(String, JsonValue)> = Vec::new();
    fields.push((String::from_str("type"), JsonValue::Str(String::from_str("object"))));
    fields.push((String::from_str("properties"), JsonValue::Obj(props)));
    fields.push((String::from_str("required"), JsonValue::Arr(arr)));
    proof {
        lemma_jmodel_fields(fields@);
        assert(jmodel_fields(fields@) =~= seq![
            ("type"@, Json::Str("object"@)),
            ("properties"@, Json::Obj(jmodel_fields(props@))),
            ("required"@, Json::Arr(greq.map_values(|o: Seq<char>| Json::Str(o)))),
        ]);
    }
    JsonValue::Obj(fields)
}

/// The input schema each variant declares: its arguments, their
/// descriptions, the enumerated values where the argument has a fixed
/// set, and which arguments are required.
pub open spec fn spec_tool_schema(kind: ToolKind) -> Json {
    match kind {
        ToolKind::Search => spec_schema(
            seq![
                ("query"@, spec_prop("The search query or question"@)),
                (
                    "detail_level"@,
                    spec_enum_prop(
                        "Optional: Desired level of detail (brief, normal, detailed)"@,
                        seq!["brief"@, "normal"@, "detailed"@],
                    ),
                ),
                (
                    "search_recency_filter"@,
                    spec_enum_prop(
                        "Optional: Filter for search results recency (month, week, day, hour)"@,
                        seq!["month"@, "week"@, "day"@, "hour"@],
                    ),
                ),
            ],
            seq!["query"@],
        ),
        ToolKind::GetDocumentation => spec_schema(
            seq![
                ("query"@, spec_prop("The technology, library, or API to get documentation for"@)),
                ("context"@, spec_prop("Additional context or specific aspects to focus on"@)),
            ],
            seq!["query"@],
        ),
        ToolKind::FindApis => spec_schema(
            seq![
                (
                    "requirement"@,
                    spec_prop("The functionality or requirement you're looking to fulfill"@),
                ),
                (
                    "context"@,
                    spec_prop("Additional context about the project or specific needs"@),
                ),
            ],
            seq!["requirement"@],
        ),
        ToolKind::CheckDeprecatedCode => spec_schema(
            seq![
                ("code"@, spec_prop("The code snippet or dependency to check"@)),
                (
                    "technology"@,
                    spec_prop("The technology or framework context (e.g., 'React', 'Node.js')"@),
                ),
            ],
            seq!["code"@],
        ),
        ToolKind::DeepResearch => spec_schema(
            seq![
                ("topic"@, spec_prop("The research topic or question to investigate in depth"@)),
                (
                    "depth"@,
                    spec_enum_prop(
                        "Desired research depth (brief, comprehensive, exhaustive)"@,
                        seq!["brief"@, "comprehensive"@, "exhaustive"@],
                    ),
                ),
                (
                    "focus"@,
                    spec_prop("Optional focus area (academic, business, technical, historical, etc.)"@),
                ),
                (
                    "time_constraint"@,
                    spec_prop(
                        "Optional time period to focus on (recent, last year, historical, etc.)"@,
                    ),
                ),
                (
                    "citation_style"@,
                    spec_enum_prop(
                        "Citation style for references (apa, mla, chicago, ieee)"@,
                        seq!["apa"@, "mla"@, "chicago"@, "ieee"@],
                    ),
                ),
            ],
            seq!["topic"@],
        ),
    }
}

/// What each variant declares to the dispatcher.
pub open spec fn spec_descriptor(kind: ToolKind) -> ToolModel {
    ToolModel {
        name: spec_tool_name(kind),
        description: Some(spec_tool_description(kind)),
        input_schema: spec_tool_schema(kind),
    }
}

/// Builds the declaration of one variant, exactly as
/// [`spec_descriptor`] states it.
pub fn descriptor(kind: ToolKind) -> (t: Tool)
    ensures
        t@ == spec_descriptor(kind),
{
    let (input_schema, description): (JsonValue, &'static str) = match kind {
        ToolKind::Search => {
            let mut props: Vec<(String, JsonValue)> = Vec::new();
            props.push((String::from_str("query"), prop("The search query or question")));
            let mut opts: Vec<String> = Vec::new();
            opts.push(String::from_str("brief"));
            opts.push(String::from_str("normal"));
            opts.push(String::from_str("detailed"));
            proof {
                assert(spec_strs(opts@) =~= seq!["brief"@, "normal"@, "detailed"@]);
            }
            props.push(
                (
                    String::from_str("detail_level"),
                    enum_prop("Optional: Desired level of detail (brief, normal, detailed)", opts),
                ),
            );
            let mut ropts: Vec<String> = Vec::new();
            ropts.push(String::from_str("month"));
            ropts.push(String::from_str("week"));
            ropts.push(String::from_str("day"));
            ropts.push(String::from_str("hour"));
            proof {
                assert(spec_strs(ropts@) =~= seq!["month"@, "week"@, "day"@, "hour"@]);
            }
            props.push(
                (
                    String::from_str("search_recency_filter"),
                    enum_prop(
                        "Optional: Filter for search results recency (month, week, day, hour)",
                        ropts,
                    ),
                ),
            );
            let mut required: Vec<String> = Vec::new();
            required.push(String::from_str("query"));
            proof {
                assert(spec_strs(required@) =~= seq!["query"@]);
                lemma_jmodel_fields(props@);
                assert(jmodel_fields(props@) =~~= match spec_tool_schema(ToolKind::Search) {
                    Json::Obj(top) => match top[1].1 {
                        Json::Obj(p) => p,
                        _ => Seq::empty(),
                    },
                    _ => Seq::empty(),
                });
            }
            (
                schema(props, required),
                "Perform a general search query to get comprehensive information on any topic",
            )
        },
        ToolKind::GetDocumentation => {
            let mut props: Vec<(String, JsonValue)> = Vec::new();
            props.push(
                (
                    String::from_str("query"),
                    prop("The technology, library, or API to get documentation for"),
                ),
            );
            props.push(
                (
                    String::from_str("context"),
                    prop("Additional context or specific aspects to focus on"),
                ),
            );
            let mut required: Vec<String> = Vec::new();
            required.push(String::from_str("query"));
            proof {
                assert(spec_strs(required@) =~= seq!["query"@]);
                lemma_jmodel_fields(props@);
                assert(jmodel_fields(props@) =~~= match spec_tool_schema(
                    ToolKind::GetDocumentation,
                ) {
                    Json::Obj(top) => match top[1].1 {
                        Json::Obj(p) => p,
                        _ => Seq::empty(),
                    },
                    _ => Seq::empty(),
                });
            }
            (
                schema(props, required),
                "Get documentation and usage examples for a specific technology, library, or API",
            )
        },
        ToolKind::FindApis => {
            let mut props: Vec<(String, JsonValue)> = Vec::new();
            props.push(
                (
                    String::from_str("requirement"),
                    prop("The functionality or requirement you're looking to fulfill"),
                ),
            );
            props.push(
                (
                    String::from_str("context"),
                    prop("Additional context about the project or specific needs"),
                ),
            );
            let mut required: Vec<String> = Vec::new();
            required.push(String::from_str("requirement"));
            proof {
                assert(spec_strs(required@) =~= seq!["requirement"@]);
                lemma_jmodel_fields(props@);
                assert(jmodel_fields(props@) =~~= match spec_tool_schema(ToolKind::FindApis) {
                    Json::Obj(top) => match top[1].1 {
                        Json::Obj(p) => p,
                        _ => Seq::empty(),
                    },
                    _ => Seq::empty(),
                });
            }
            (
                schema(props, required),
                "Find and evaluate APIs that could be integrated into a project",
            )
        },
        ToolKind::CheckDeprecatedCode => {
            let mut props: Vec<(String, JsonValue)> = Vec::new();
            props.push(
                (String::from_str("code"), prop("The code snippet or dependency to check")),
            );
            props.push(
                (
                    String::from_str("technology"),
                    prop("The technology or framework context (e.g., 'React', 'Node.js')"),
                ),
            );
            let mut required: Vec<String> = Vec::new();
            required.push(String::from_str("code"));
            proof {
                assert(spec_strs(required@) =~= seq!["code"@]);
                lemma_jmodel_fields(props@);
                assert(jmodel_fields(props@) =~~= match spec_tool_schema(
                    ToolKind::CheckDeprecatedCode,
                ) {
                    Json::Obj(top) => match top[1].1 {
                        Json::Obj(p) => p,
                        _ => Seq::empty(),
                    },
                    _ => Seq::empty(),
                });
            }
            (
                schema(props, required),
                "Check if code or dependencies might be using deprecated features",
            )
        },
        ToolKind::DeepResearch => {
            let mut props: Vec<(String, JsonValue)> = Vec::new();
            props.push(
                (
                    String::from_str("topic"),
                    prop("The research topic or question to investigate in depth"),
                ),
            );
            let mut dopts: Vec<String> = Vec::new();
            dopts.push(String::from_str("brief"));
            dopts.push(String::from_str("comprehensive"));
            dopts.push(String::from_str("exhaustive"));
            proof {
                assert(spec_strs(dopts@) =~= seq!["brief"@, "comprehensive"@, "exhaustive"@]);
            }
            props.push(
                (
                    String::from_str("depth"),
                    enum_prop("Desired research depth (brief, comprehensive, exhaustive)", dopts),
                ),
            );
            props.push(
                (
                    String::from_str("focus"),
                    prop("Optional focus area (academic, business, technical, historical, etc.)"),
                ),
            );
            props.push(
                (
                    String::from_str("time_constraint"),
                    prop("Optional time period to focus on (recent, last year, historical, etc.)"),
                ),
            );
            let mut copts: Vec<String> = Vec::new();
            copts.push(String::from_str("apa"));
            copts.push(String::from_str("mla"));
            copts.push(String::from_str("chicago"));
            copts.push(String::from_str("ieee"));
            proof {
                assert(spec_strs(copts@) =~= seq!["apa"@, "mla"@, "chicago"@, "ieee"@]);
            }
            props.push(
                (
                    String::from_str("citation_style"),
                    enum_prop("Citation style for references (apa, mla, chicago, ieee)", copts),
                ),
            );
            let mut required: Vec<String> = Vec::new();
            required.push(String::from_str("topic"));
            proof {
                assert(spec_strs(required@) =~= seq!["topic"@]);
                lemma_jmodel_fields(props@);
                assert(jmodel_fields(props@) =~~= match spec_tool_schema(ToolKind::DeepResearch) {
                    Json::Obj(top) => match top[1].1 {
                        Json::Obj(p) => p,
                        _ => Seq::empty(),
                    },
                    _ => Seq::empty(),
                });
            }
            (
                schema(props, required),
                "Conduct in-depth research on complex topics by analyzing hundreds of sources",
            )
        },
    };
    let t = Tool {
        name: tool_name(kind).to_owned(),
        description: Some(description.to_owned()),
        input_schema,
    };
    proof {
        assert(t@ =~~= spec_descriptor(kind));
    }
    t
}


/// Everything a validated tool invocation hands the gateway: the model,
/// the messages, the explicit recency filter, the deep-research options
/// when the variant has them, and the citation style the formatter will
/// use.
#[derive(Debug)]
pub struct PreparedRequest {
    pub model: String,
    pub messages: Vec<Message>,
    pub search_recency_filter: Option<String>,
    pub research: Option<ResearchOptions>,
    pub citation_style: Option<String>,
}

/// The mathematical model of a [`PreparedRequest`].
#[verifier::ext_equal]
pub struct PreparedRequestModel {
    pub model: Seq<char>,
    pub messages: Seq<MessageModel>,
    pub search_recency_filter: Option<Seq<char>>,
    pub research_time_constraint: Option<Seq<char>>,
    pub citation_style: Option<Seq<char>>,
}

impl View for PreparedRequest {
    type V = PreparedRequestModel;

    open spec fn view(&self) -> PreparedRequestModel {
        PreparedRequestModel {
            model: self.model@,
            messages: messages_model(self.messages@),
            search_recency_filter: match self.search_recency_filter {
                Some(s) => Some(s@),
                None => None,
            },
            research_time_constraint: match self.research {
                Some(o) => Some(o.time_constraint@),
                None => None,
            },
            citation_style: match self.citation_style {
                Some(s) => Some(s@),
                None => None,
            },
        }
    }
}

/// The model of an optional argument object.
pub open spec fn spec_opt_model(args: Option<&JsonValue>) -> Option<Json> {
    match args {
        Some(a) => Some(a@),
        None => None,
    }
}

/// A string argument: present exactly when the arguments hold a string
/// under the key.
pub open spec fn spec_arg(args: Option<Json>, key: Seq<char>) -> Option<Seq<char>> {
    match args {
        Some(a) => json_get_str(a, key),
        None => None,
    }
}

/// A string argument with its stated default: an absent optional
/// argument falls back to the default verbatim.
pub open spec fn spec_arg_or(args: Option<Json>, key: Seq<char>, default: Seq<char>) -> Seq<
    char,
> {
    match spec_arg(args, key) {
        Some(s) => s,
        None => default,
    }
}

/// A single user message carrying the prompt.
pub open spec fn spec_user_message(content: Seq<char>) -> Seq<MessageModel> {
    seq![MessageModel { role: "user"@, content }]
}

/// What each variant prepares from its arguments, or the name of the
/// required argument it found missing.
///
/// Every variant requires exactly one argument and accepts the rest as
/// opaque text, absent optional arguments falling back to their stated
/// defaults.  The deep-research variant carries its free-text time
/// constraint to the gateway and its citation style to the formatter.
pub open spec fn spec_prepare(kind: ToolKind, args: Option<Json>) -> Result<
    PreparedRequestModel,
    Seq<char>,
> {
    match kind {
        ToolKind::Search => match spec_arg(args, "query"@) {
            None => Err("query"@),
            Some(q) => Ok(
                PreparedRequestModel {
                    model: "sonar-reasoning-pro"@,
                    messages: spec_user_message(
                        spec_search_prompt(q, spec_arg_or(args, "detail_level"@, "normal"@)),
                    ),
                    search_recency_filter: spec_arg(args, "search_recency_filter"@),
                    research_time_constraint: None,
                    citation_style: None,
                },
            ),
        },
        ToolKind::GetDocumentation => match spec_arg(args, "query"@) {
            None => Err("query"@),
            Some(q) => Ok(
                PreparedRequestModel {
                    model: "sonar-reasoning-pro"@,
                    messages: spec_user_message(
                        spec_documentation_prompt(
                            q,
                            spec_arg_or(args, "context"@, Seq::empty()),
                        ),
                    ),
                    search_recency_filter: None,
                    research_time_constraint: None,
                    citation_style: None,
                },
            ),
        },
        ToolKind::FindApis => match spec_arg(args, "requirement"@) {
            None => Err("requirement"@),
            Some(req) => Ok(
                PreparedRequestModel {
                    model: "sonar-reasoning-pro"@,
                    messages: spec_user_message(
                        spec_apis_prompt(req, spec_arg_or(args, "context"@, Seq::empty())),
                    ),
                    search_recency_filter: None,
                    research_time_constraint: None,
                    citation_style: None,
                },
            ),
        },
        ToolKind::CheckDeprecatedCode => match spec_arg(args, "code"@) {
            None => Err("code"@),
            Some(code) => Ok(
                PreparedRequestModel {
                    model: "sonar-reasoning-pro"@,
                    messages: spec_user_message(
                        spec_deprecated_prompt(
                            code,
                            spec_arg_or(args, "technology"@, Seq::empty()),
                        ),
                    ),
                    search_recency_filter: None,
                    research_time_constraint: None,
                    citation_style: None,
                },
            ),
        },
        ToolKind::DeepResearch => match spec_arg(args, "topic"@) {
            None => Err("topic"@),
            Some(topic) => {
                let depth = spec_arg_or(args, "depth"@, "comprehensive"@);
                let focus = spec_arg_or(args, "focus"@, Seq::empty());
                let tc = spec_arg_or(args, "time_constraint"@, Seq::empty());
                let style = spec_arg_or(args, "citation_style"@, "apa"@);
                Ok(
                    PreparedRequestModel {
                        model: "sonar-deep-research"@,
                        messages: seq![
                            MessageModel { role: "system"@, content: spec_research_system_prompt() },
                            MessageModel {
                                role: "user"@,
                                content: spec_research_prompt(topic, depth, focus, tc, style),
                            },
                        ],
                        search_recency_filter: None,
                        research_time_constraint: Some(tc),
                        citation_style: Some(style),
                    },
                )
            },
        },
    }
}

/// How a prepared request relates to its arguments: success carries
/// exactly what [`spec_prepare`] states, and failure is the
/// invalid-argument error naming the missing required argument.
pub open spec fn prepare_result_matches(
    kind: ToolKind,
    args: Option<Json>,
    r: Result<PreparedRequest, ToolError>,
) -> bool {
    match r {
        Ok(p) => spec_prepare(kind, args) == Ok::<PreparedRequestModel, Seq<char>>(p@),
        Err(e) => match spec_prepare(kind, args) {
            Err(f) => e matches ToolError::InvalidArgument(g) && g@ == f,
            Ok(_) => false,
        },
    }
}

/// Reads one string argument, exactly when [`spec_arg`] finds one.
fn get_str_arg<'a>(args: Option<&'a JsonValue>, key: &str) -> (r: Option<&'a str>)
    ensures
        match r {
            Some(s) => spec_arg(spec_opt_model(args), key@) == Some(s@),
            None => spec_arg(spec_opt_model(args), key@) is None,
        },
{
    match args {
        Some(a) => match a.get(key) {
            Some(v) => v.as_str(),
            None => None,
        },
        None => None,
    }
}

/// Validates the arguments of one variant and builds its request:
/// the missing required argument is an invalid-argument error naming
/// it, and nothing beyond the arguments enters the result.  No remote
/// call and no cache access happens here.
pub fn prepare_request(kind: ToolKind, arguments: Option<&JsonValue>) -> (r: Result<
    PreparedRequest,
    ToolError,
>)
    ensures
        prepare_result_matches(kind, spec_opt_model(arguments), r),
{
    match kind {
        ToolKind::Search => {
            let query = match get_str_arg(arguments, "query") {
                Some(s) => s,
                None => {
                    return Err(ToolError::InvalidArgument(String::from_str("query")));
                },
            };
            let detail_level: String = match get_str_arg(arguments, "detail_level") {
                Some(s) => s.to_owned(),
                None => String::from_str("normal"),
            };
            let search_recency_filter: Option<String> = match get_str_arg(
                arguments,
                "search_recency_filter",
            ) {
                Some(s) => Some(s.to_owned()),
                None => None,
            };
            let prompt = build_search_prompt(query, detail_level.as_str());
            let mut messages: Vec<Message> = Vec::new();
            messages.push(Message { role: String::from_str("user"), content: prompt });
            let p = PreparedRequest {
                model: String::from_str("sonar-reasoning-pro"),
                messages,
                search_recency_filter,
                research: None,
                citation_style: None,
            };
            proof {
                assert(messages_model(p.messages@) =~= spec_user_message(
                    spec_search_prompt(
                        query@,
                        spec_arg_or(spec_opt_model(arguments), "detail_level"@, "normal"@),
                    ),
                ));
                assert(spec_prepare(kind, spec_opt_model(arguments))
                    == Ok::<PreparedRequestModel, Seq<char>>(p@)) by {
                    assert(p@ =~= match spec_prepare(kind, spec_opt_model(arguments)) {
                        Ok(m) => m,
                        Err(_) => p@,
                    });
                }
            }
            Ok(p)
        },
        ToolKind::GetDocumentation => {
            let query = match get_str_arg(arguments, "query") {
                Some(s) => s,
                None => {
                    return Err(ToolError::InvalidArgument(String::from_str("query")));
                },
            };
            let context: String = match get_str_arg(arguments, "context") {
                Some(s) => s.to_owned(),
                None => String::new(),
            };
            let prompt = build_documentation_prompt(query, context.as_str());
            let mut messages: Vec<Message> = Vec::new();
            messages.push(Message { role: String::from_str("user"), content: prompt });
            let p = PreparedRequest {
                model: String::from_str("sonar-reasoning-pro"),
                messages,
                search_recency_filter: None,
                research: None,
                citation_style: None,
            };
            proof {
                assert(messages_model(p.messages@) =~= spec_user_message(
                    spec_documentation_prompt(
                        query@,
                        spec_arg_or(spec_opt_model(arguments), "context"@, Seq::empty()),
                    ),
                ));
                assert(spec_prepare(kind, spec_opt_model(arguments))
                    == Ok::<PreparedRequestModel, Seq<char>>(p@)) by {
                    assert(p@ =~= match spec_prepare(kind, spec_opt_model(arguments)) {
                        Ok(m) => m,
                        Err(_) => p@,
                    });
                }
            }
            Ok(p)
        },
        ToolKind::FindApis => {
            let requirement = match get_str_arg(arguments, "requirement") {
                Some(s) => s,
                None => {
                    return Err(ToolError::InvalidArgument(String::from_str("requirement")));
                },
            };
            let context: String = match get_str_arg(arguments, "context") {
                Some(s) => s.to_owned(),
                None => String::new(),
            };
            let prompt = build_apis_prompt(requirement, context.as_str());
            let mut messages: Vec<Message> = Vec::new();
            messages.push(Message { role: String::from_str("user"), content: prompt });
            let p = PreparedRequest {
                model: String::from_str("sonar-reasoning-pro"),
                messages,
                search_recency_filter: None,
                research: None,
                citation_style: None,
            };
            proof {
                assert(messages_model(p.messages@) =~= spec_user_message(
                    spec_apis_prompt(
                        requirement@,
                        spec_arg_or(spec_opt_model(arguments), "context"@, Seq::empty()),
                    ),
                ));
                assert(spec_prepare(kind, spec_opt_model(arguments))
                    == Ok::<PreparedRequestModel, Seq<char>>(p@)) by {
                    assert(p@ =~= match spec_prepare(kind, spec_opt_model(arguments)) {
                        Ok(m) => m,
                        Err(_) => p@,
                    });
                }
            }
            Ok(p)
        },
        ToolKind::CheckDeprecatedCode => {
            let code = match get_str_arg(arguments, "code") {
                Some(s) => s,
                None => {
                    return Err(ToolError::InvalidArgument(String::from_str("code")));
                },
            };
            let technology: String = match get_str_arg(arguments, "technology") {
                Some(s) => s.to_owned(),
                None => String::new(),
            };
            let prompt = build_deprecated_prompt(code, technology.as_str());
            let mut messages: Vec<Message> = Vec::new();
            messages.push(Message { role: String::from_str("user"), content: prompt });
            let p = PreparedRequest {
                model: String::from_str("sonar-reasoning-pro"),
                messages,
                search_recency_filter: None,
                research: None,
                citation_style: None,
            };
            proof {
                assert(messages_model(p.messages@) =~= spec_user_message(
                    spec_deprecated_prompt(
                        code@,
                        spec_arg_or(spec_opt_model(arguments), "technology"@, Seq::empty()),
                    ),
                ));
                assert(spec_prepare(kind, spec_opt_model(arguments))
                    == Ok::<PreparedRequestModel, Seq<char>>(p@)) by {
                    assert(p@ =~= match spec_prepare(kind, spec_opt_model(arguments)) {
                        Ok(m) => m,
                        Err(_) => p@,
                    });
                }
            }
            Ok(p)
        },
        ToolKind::DeepResearch => {
            let topic = match get_str_arg(arguments, "topic") {
                Some(s) => s,
                None => {
                    return Err(ToolError::InvalidArgument(String::from_str("topic")));
                },
            };
            let depth: String = match get_str_arg(arguments, "depth") {
                Some(s) => s.to_owned(),
                None => String::from_str("comprehensive"),
            };
            let focus: String = match get_str_arg(arguments, "focus") {
                Some(s) => s.to_owned(),
                None => String::new(),
            };
            let time_constraint: String = match get_str_arg(arguments, "time_constraint") {
                Some(s) => s.to_owned(),
                None => String::new(),
            };
            let citation_style: String = match get_str_arg(arguments, "citation_style") {
                Some(s) => s.to_owned(),
                None => String::from_str("apa"),
            };
            let prompt = build_research_prompt(
                topic,
                depth.as_str(),
                focus.as_str(),
                time_constraint.as_str(),
                citation_style.as_str(),
            );
            let mut messages: Vec<Message> = Vec::new();
            messages.push(
                Message { role: String::from_str("system"), content: build_research_system_prompt() },
            );
            messages.push(Message { role: String::from_str("user"), content: prompt });
            let p = PreparedRequest {
                model: String::from_str("sonar-deep-research"),
                messages,
                search_recency_filter: None,
                research: Some(ResearchOptions { time_constraint: time_constraint.clone() }),
                citation_style: Some(citation_style),
            };
            proof {
                let gargs = spec_opt_model(arguments);
                assert(messages_model(p.messages@) =~= seq![
                    MessageModel { role: "system"@, content: spec_research_system_prompt() },
                    MessageModel {
                        role: "user"@,
                        content: spec_research_prompt(
                            topic@,
                            spec_arg_or(gargs, "depth"@, "comprehensive"@),
                            spec_arg_or(gargs, "focus"@, Seq::empty()),
                            spec_arg_or(gargs, "time_constraint"@, Seq::empty()),
                            spec_arg_or(gargs, "citation_style"@, "apa"@),
                        ),
                    },
                ]);
                assert(spec_prepare(kind, gargs) == Ok::<PreparedRequestModel, Seq<char>>(p@))
                    by {
                    assert(p@ =~= match spec_prepare(kind, gargs) {
                        Ok(m) => m,
                        Err(_) => p@,
                    });
                }
            }
            Ok(p)
        },
    }
}

/// The constructed request — prompt text included — is a pure function
/// of the tool variant and its arguments: equal arguments prepare equal
/// requests, on every call.
pub proof fn lemma_prepare_deterministic(
    kind: ToolKind,
    args1: Option<Json>,
    args2: Option<Json>,
)
    requires
        args1 == args2,
    ensures
        spec_prepare(kind, args1) == spec_prepare(kind, args2),
{
}

/// Finishes a completed call: reports token usage when the payload
/// carries a well-formed usage block — best-effort, a reporting failure
/// is dropped — and renders the payload, style-aware when a citation
/// style is given, plain otherwise.
pub fn finish_call<R: UsageReporter>(
    reporter: &mut R,
    citation_style: Option<&String>,
    response: &JsonValue,
) -> (r: Result<Vec<ToolContent>, ToolError>)
    ensures
        match crate::usage::spec_extract_usage(response@) {
            Some(u) => final(reporter).after_report(*old(reporter), u),
            None => *final(reporter) == *old(reporter),
        },
        match r {
            Ok(v) => {
                &&& v@.len() == 1
                &&& match spec_content(response@) {
                    Some(c) => v@[0]@ == match citation_style {
                        Some(s) => spec_research_format(
                            c,
                            spec_citations(response@),
                            s@,
                            spec_search_iterations(response@),
                        ),
                        None => spec_plain_format(c, spec_citations(response@)),
                    },
                    None => false,
                }
            },
            Err(e) => spec_content(response@) is None && (e matches ToolError::MalformedResponse(
                f,
            ) && f@ == "content"@),
        },
{
    match extract_usage(response) {
        Some(report) => {
            let outcome = reporter.report(report);
            match outcome {
                Ok(_) => {},
                Err(_) => {
                    // Usage telemetry is best-effort; a failed report is dropped.
                },
            }
        },
        None => {},
    }
    let text = match citation_style {
        Some(style) => match format_deep_research_response(response, style.as_str()) {
            Ok(t) => t,
            Err(e) => {
                return Err(e);
            },
        },
        None => match format_response_with_references(response) {
            Ok(t) => t,
            Err(e) => {
                return Err(e);
            },
        },
    };
    let mut out: Vec<ToolContent> = Vec::new();
    out.push(ToolContent::Text { text });
    Ok(out)
}


/// Answers a general search query, at a chosen level of detail.
///
/// One of the five tool variants; stateless, its behaviour given
/// entirely by [`spec_prepare`] for [`ToolKind::Search`].
pub struct SearchTool;

impl SearchTool {
    pub fn new() -> (r: Self) {
        SearchTool
    }

    /// What this variant declares to the dispatcher.
    pub fn to_tool(&self) -> (t: Tool)
        ensures
            t@ == spec_descriptor(ToolKind::Search),
    {
        descriptor(ToolKind::Search)
    }

    /// Validates the arguments and builds the outbound request.
    pub fn prepare(&self, arguments: Option<&JsonValue>) -> (r: Result<
        PreparedRequest,
        ToolError,
    >)
        ensures
            prepare_result_matches(ToolKind::Search, spec_opt_model(arguments), r),
    {
        prepare_request(ToolKind::Search, arguments)
    }
}

/// Fetches documentation and usage examples for a technology.
///
/// One of the five tool variants; stateless, its behaviour given
/// entirely by [`spec_prepare`] for [`ToolKind::GetDocumentation`].
pub struct GetDocumentationTool;

impl GetDocumentationTool {
    pub fn new() -> (r: Self) {
        GetDocumentationTool
    }

    /// What this variant declares to the dispatcher.
    pub fn to_tool(&self) -> (t: Tool)
        ensures
            t@ == spec_descriptor(ToolKind::GetDocumentation),
    {
        descriptor(ToolKind::GetDocumentation)
    }

    /// Validates the arguments and builds the outbound request.
    pub fn prepare(&self, arguments: Option<&JsonValue>) -> (r: Result<
        PreparedRequest,
        ToolError,
    >)
        ensures
            prepare_result_matches(ToolKind::GetDocumentation, spec_opt_model(arguments), r),
    {
        prepare_request(ToolKind::GetDocumentation, arguments)
    }
}

/// Finds and evaluates candidate APIs for a requirement.
///
/// One of the five tool variants; stateless, its behaviour given
/// entirely by [`spec_prepare`] for [`ToolKind::FindApis`].
pub struct FindApisTool;

impl FindApisTool {
    pub fn new() -> (r: Self) {
        FindApisTool
    }

    /// What this variant declares to the dispatcher.
    pub fn to_tool(&self) -> (t: Tool)
        ensures
            t@ == spec_descriptor(ToolKind::FindApis),
    {
        descriptor(ToolKind::FindApis)
    }

    /// Validates the arguments and builds the outbound request.
    pub fn prepare(&self, arguments: Option<&JsonValue>) -> (r: Result<
        PreparedRequest,
        ToolError,
    >)
        ensures
            prepare_result_matches(ToolKind::FindApis, spec_opt_model(arguments), r),
    {
        prepare_request(ToolKind::FindApis, arguments)
    }
}

/// Checks code for deprecated features and patterns.
///
/// One of the five tool variants; stateless, its behaviour given
/// entirely by [`spec_prepare`] for [`ToolKind::CheckDeprecatedCode`].
pub struct CheckDeprecatedCodeTool;

impl CheckDeprecatedCodeTool {
    pub fn new() -> (r: Self) {
        CheckDeprecatedCodeTool
    }

    /// What this variant declares to the dispatcher.
    pub fn to_tool(&self) -> (t: Tool)
        ensures
            t@ == spec_descriptor(ToolKind::CheckDeprecatedCode),
    {
        descriptor(ToolKind::CheckDeprecatedCode)
    }

    /// Validates the arguments and builds the outbound request.
    pub fn prepare(&self, arguments: Option<&JsonValue>) -> (r: Result<
        PreparedRequest,
        ToolError,
    >)
        ensures
            prepare_result_matches(ToolKind::CheckDeprecatedCode, spec_opt_model(arguments), r),
    {
        prepare_request(ToolKind::CheckDeprecatedCode, arguments)
    }
}

/// Conducts a multi-source research investigation with citations.
///
/// One of the five tool variants; stateless, its behaviour given
/// entirely by [`spec_prepare`] for [`ToolKind::DeepResearch`].
pub struct DeepResearchTool;

impl DeepResearchTool {
    pub fn new() -> (r: Self) {
        DeepResearchTool
    }

    /// What this variant declares to the dispatcher.
    pub fn to_tool(&self) -> (t: Tool)
        ensures
            t@ == spec_descriptor(ToolKind::DeepResearch),
    {
        descriptor(ToolKind::DeepResearch)
    }

    /// Validates the arguments and builds the outbound request.
    pub fn prepare(&self, arguments: Option<&JsonValue>) -> (r: Result<
        PreparedRequest,
        ToolError,
    >)
        ensures
            prepare_result_matches(ToolKind::DeepResearch, spec_opt_model(arguments), r),
    {
        prepare_request(ToolKind::DeepResearch, arguments)
    }
}

} // verus!
