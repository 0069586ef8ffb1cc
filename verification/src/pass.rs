//! The lint pass: its registration metadata, the host-supplied version
//! threshold, and the per-node hook the host's tree-walking visitor calls.

use vstd::prelude::*;

use crate::ast::Expr;
use crate::matcher::{collect_matches, matches_in, spec_match, visit, MatchResult};
use crate::suggestion::{build, diag_for, Diagnostic};
use crate::version::{spec_is_enabled, Version};

verus! {

/// The maturity category a pass is registered under; the host uses it to
/// decide default enablement.
#[derive(Clone, Copy, Debug, PartialEq, Eq, Structural)]
pub enum Category {
    Correctness,
    Style,
    Complexity,
    Perf,
    Pedantic,
    Nursery,
}

/// Declarative registration metadata: a unique identifier, a maturity
/// category, and a one-line description. Consumed once at startup; not
/// part of the runtime data flow.
#[derive(Debug)]
pub struct PassInfo {
    pub name: String,
    pub category: Category,
    pub description: String,
}

/// The registration record for this rule.
pub fn register_pass() -> (info: PassInfo)
    ensures
        info.name@ == "mem_size_of_integer"@,
        info.category == Category::Nursery,
        info.description@ == "replacing size_of() with a constant"@,
{
    PassInfo {
        name: "mem_size_of_integer".to_owned(),
        category: Category::Nursery,
        description: "replacing size_of() with a constant".to_owned(),
    }
}

/// The pass itself. It carries the host-supplied minimum supported version
/// and nothing else: no mutable state persists between visits, so each
/// visit is independent and side-effect-free.
pub struct MemSizeOfInteger {
    pub msrv: Option<Version>,
}

impl MemSizeOfInteger {
    /// A pass for a project whose configured minimum supported version is
    /// `msrv`; `None` means none is configured.
    #[must_use]
    pub fn new(msrv: Option<Version>) -> (pass: Self)
        ensures
            pass.msrv == msrv,
    {
        MemSizeOfInteger { msrv }
    }

    /// The enablement decision, evaluated once per analysis run. When the
    /// rule is disabled the host skips the traversal entirely.
    pub fn is_enabled(&self) -> (r: bool)
        ensures
            r == spec_is_enabled(self.msrv),
    {
        crate::version::is_enabled(self.msrv)
    }

    /// What one visit decides once enablement is taken into account: the
    /// node's match when the rule is enabled, nothing when it is disabled.
    pub open spec fn spec_check(self, e: Expr) -> Option<MatchResult> {
        if spec_is_enabled(self.msrv) {
            spec_match(e)
        } else {
            None
        }
    }

    /// The per-node hook: the diagnostic owed for this node, or nothing
    /// when the rule is disabled or the node is no instance of the idiom.
    pub fn check_expr(&self, e: &Expr) -> (r: Option<Diagnostic>)
        ensures
            (r is Some) == (self.spec_check(*e) is Some),
            r matches Some(d) ==> diag_for(d, self.spec_check(*e)->Some_0),
    {
        if !self.is_enabled() {
            return None;
        }
        match visit(e) {
            Some(m) => Some(build(&m)),
            None => None,
        }
    }

    /// One whole analysis run over the tree rooted at `root`: decides
    /// enablement once and, when the rule is enabled, reports one diagnostic per
    /// confirmed match, in document pre-order.
    pub fn run(&self, root: &Expr) -> (out: Vec<Diagnostic>)
        ensures
            spec_is_enabled(self.msrv) ==> {
                &&& out@.len() == matches_in(*root).len()
                &&& forall|i: int|
                    0 <= i < out@.len() ==> diag_for(#[trigger] out@[i], matches_in(*root)[i])
            },
            !spec_is_enabled(self.msrv) ==> out@.len() == 0,
    {
        let mut out: Vec<Diagnostic> = Vec::new();
        if !self.is_enabled() {
            return out;
        }
        let ms = collect_matches(root);
        let mut i: usize = 0;
        while i < ms.len()
            invariant
                i <= ms.len(),
                ms@ == matches_in(*root),
                out@.len() == i,
                forall|j: int| 0 <= j < i ==> diag_for(#[trigger] out@[j], matches_in(*root)[j]),
            decreases ms.len() - i,
        {
            let d = build(&ms[i]);
            out.push(d);
            i = i + 1;
        }
        out
    }
}

} // verus!
