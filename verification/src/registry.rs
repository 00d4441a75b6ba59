//! The tool registry: the variants a dispatcher can discover and call.

use vstd::prelude::*;

use crate::errors::ToolError;
use crate::json::JsonValue;
use crate::text::str_eq;
use crate::tools::{
    descriptor, prepare_request, prepare_result_matches, spec_descriptor, spec_opt_model,
    spec_tool_name, tool_name, PreparedRequest, Tool, ToolKind,
};

verus! {

/// The first registered variant carrying the given name, if any.
pub open spec fn spec_lookup(tools: Seq<ToolKind>, name: Seq<char>) -> Option<ToolKind>
    decreases tools.len(),
{
    if tools.len() == 0 {
        None
    } else if spec_tool_name(tools[0]) == name {
        Some(tools[0])
    } else {
        spec_lookup(tools.drop_first(), name)
    }
}

/// A registry of tool variants, dispatched by name.
///
/// Registration keeps names unique: registering a variant twice leaves
/// the registry unchanged, and lookup is by name, so registration order
/// never affects dispatch.
pub struct ToolRegistry {
    pub tools: Vec<ToolKind>,
}

impl ToolRegistry {
    /// An empty registry.
    pub fn new() -> (r: Self)
        ensures
            r.tools@.len() == 0,
    {
        ToolRegistry { tools: Vec::new() }
    }

    /// Adds a variant, unless one of its name is already present.
    pub fn register(&mut self, kind: ToolKind)
        ensures
            final(self).tools@ == if old(self).tools@.contains(kind) {
                old(self).tools@
            } else {
                old(self).tools@.push(kind)
            },
    {
        let n = self.tools.len();
        for i in 0..n
            invariant
                n == self.tools@.len(),
                forall|k: int| 0 <= k < i ==> self.tools@[k] != kind,
                self.tools@ == old(self).tools@,
        {
            if self.tools[i] == kind {
                return ;
            }
        }
        self.tools.push(kind);
    }

    /// Every registered variant's declaration, for capability discovery,
    /// in registration order.
    pub fn list(&self) -> (r: Vec<Tool>)
        ensures
            r@.len() == self.tools@.len(),
            forall|i: int|
                0 <= i < r@.len() ==> (#[trigger] r@[i])@ == spec_descriptor(self.tools@[i]),
    {
        let mut out: Vec<Tool> = Vec::new();
        let n = self.tools.len();
        for i in 0..n
            invariant
                n == self.tools@.len(),
                out@.len() == i,
                forall|k: int|
                    0 <= k < i ==> (#[trigger] out@[k])@ == spec_descriptor(self.tools@[k]),
        {
            out.push(descriptor(self.tools[i]));
        }
        out
    }

    /// Routes a call to the variant registered under `name`: its
    /// prepared request, its invalid-argument error — or the not-found
    /// error when no variant carries the name.
    pub fn dispatch(&self, name: &str, arguments: Option<&JsonValue>) -> (r: Result<
        PreparedRequest,
        ToolError,
    >)
        ensures
            match spec_lookup(self.tools@, name@) {
                Some(kind) => prepare_result_matches(kind, spec_opt_model(arguments), r),
                None => r matches Err(ToolError::ToolNotFound(n)) && n@ == name@,
            },
    {
        let ghost gtools = self.tools@;
        proof {
            assert(gtools.skip(0) =~= gtools);
        }
        let n = self.tools.len();
        for i in 0..n
            invariant
                n == self.tools@.len(),
                gtools == self.tools@,
                spec_lookup(gtools, name@) == spec_lookup(gtools.skip(i as int), name@),
        {
            proof {
                assert(gtools.skip(i as int)[0] == gtools[i as int]);
                assert(gtools.skip(i as int).drop_first() =~= gtools.skip(i + 1));
            }
            if str_eq(tool_name(self.tools[i]), name) {
                return prepare_request(self.tools[i], arguments);
            }
        }
        proof {
            assert(gtools.skip(n as int) =~= Seq::<ToolKind>::empty());
        }
        Err(ToolError::ToolNotFound(name.to_owned()))
    }
}

/// The five tool names are pairwise distinct: a name identifies its
/// variant.
pub proof fn lemma_tool_names_injective(k1: ToolKind, k2: ToolKind)
    requires
        spec_tool_name(k1) == spec_tool_name(k2),
    ensures
        k1 == k2,
{
    reveal_strlit("search");
    reveal_strlit("get_documentation");
    reveal_strlit("find_apis");
    reveal_strlit("check_deprecated_code");
    reveal_strlit("deep_research");
    assert(spec_tool_name(ToolKind::Search).len() == 6);
    assert(spec_tool_name(ToolKind::GetDocumentation).len() == 17);
    assert(spec_tool_name(ToolKind::FindApis).len() == 9);
    assert(spec_tool_name(ToolKind::CheckDeprecatedCode).len() == 21);
    assert(spec_tool_name(ToolKind::DeepResearch).len() == 13);
}

/// Distinct registered variants carry distinct names — so within a
/// registry, which keeps its variants unique, every name is unique.
pub proof fn lemma_registry_names_unique(tools: Seq<ToolKind>, i: int, j: int)
    requires
        0 <= i < tools.len(),
        0 <= j < tools.len(),
        tools[i] != tools[j],
    ensures
        spec_tool_name(tools[i]) != spec_tool_name(tools[j]),
{
    if spec_tool_name(tools[i]) == spec_tool_name(tools[j]) {
        lemma_tool_names_injective(tools[i], tools[j]);
    }
}

/// What a lookup finds: a registered variant carrying the name, or
/// nothing exactly when no registered variant carries it.
pub proof fn lemma_lookup_by_membership(tools: Seq<ToolKind>, name: Seq<char>)
    ensures
        match spec_lookup(tools, name) {
            Some(k) => tools.contains(k) && spec_tool_name(k) == name,
            None => forall|k: ToolKind| tools.contains(k) ==> spec_tool_name(k) != name,
        },
    decreases tools.len(),
{
    if tools.len() == 0 {
        assert(forall|k: ToolKind| !tools.contains(k));
    } else if spec_tool_name(tools[0]) == name {
        assert(tools.contains(tools[0]));
    } else {
        lemma_lookup_by_membership(tools.drop_first(), name);
        match spec_lookup(tools.drop_first(), name) {
            Some(k) => {
                let i = choose|i: int|
                    0 <= i < tools.drop_first().len() && tools.drop_first()[i] == k;
                assert(tools[i + 1] == k);
                assert(tools.contains(k));
            },
            None => {
                assert forall|k: ToolKind| tools.contains(k) implies spec_tool_name(k)
                    != name by {
                    let i = choose|i: int| 0 <= i < tools.len() && tools[i] == k;
                    if i == 0 {
                    } else {
                        assert(tools.drop_first()[i - 1] == k);
                        assert(tools.drop_first().contains(k));
                    }
                }
            },
        }
    }
}

/// Registration order does not affect dispatch: two registries holding
/// the same variants, in any orders, route every name to the same
/// variant, because lookup is by name and a name identifies its
/// variant.
pub proof fn lemma_dispatch_order_independent(
    t1: Seq<ToolKind>,
    t2: Seq<ToolKind>,
    name: Seq<char>,
)
    requires
        forall|k: ToolKind| t1.contains(k) <==> t2.contains(k),
    ensures
        spec_lookup(t1, name) == spec_lookup(t2, name),
{
    lemma_lookup_by_membership(t1, name);
    lemma_lookup_by_membership(t2, name);
    match (spec_lookup(t1, name), spec_lookup(t2, name)) {
        (Some(k1), Some(k2)) => {
            lemma_tool_names_injective(k1, k2);
        },
        (Some(k1), None) => {
            assert(t2.contains(k1));
        },
        (None, Some(k2)) => {
            assert(t1.contains(k2));
        },
        (None, None) => {},
    }
}

} // verus!
