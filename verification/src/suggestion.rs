//! The suggestion builder: turns a confirmed match into the diagnostic the
//! host's sink receives, and describes the rewrite that diagnostic proposes.
//!
//! The replacement text is `<TypeName>::BITS`, applied over the outer span
//! (the whole multiplication), since the bit-width constant is a drop-in
//! numeric substitute for "bytes times eight". The applicability is kept at
//! a conservative level — the surrounding expression's inferred numeric
//! type could differ subtly from the constant's — so the rewrite is offered
//! for confirmation, never applied unconditionally.

use vstd::prelude::*;
use vstd::string::StringExecFns;

use crate::ast::{int_type_name, spec_int_type_name, Expr, ExprKind, IntType, Span};
use crate::matcher::{matches_in, spec_match, MatchResult};

verus! {

/// Whether a diagnostic's suggested rewrite is safe to apply
/// automatically, may be wrong, needs manual completion, or is purely
/// advisory.
#[derive(Clone, Copy, Debug, PartialEq, Eq, Structural)]
pub enum Applicability {
    MachineApplicable,
    MaybeIncorrect,
    HasPlaceholders,
    Unspecified,
}

/// The output record handed to the host's diagnostic sink: the primary
/// message, the span to underline, a human-readable suggestion, the
/// replacement text, and the applicability of that replacement.
#[derive(Debug)]
pub struct Diagnostic {
    pub message: String,
    pub span: Span,
    pub help: String,
    pub replacement: String,
    pub applicability: Applicability,
}

/// The primary message.
pub open spec fn spec_message() -> Seq<char> {
    "this operation involves a type and a constant which have the same meaning"@
}

/// The human-readable suggestion.
pub open spec fn spec_help() -> Seq<char> {
    "consider using the type's bit-width constant"@
}

/// The replacement text for a match on integer type `t`: `<TypeName>::BITS`.
pub open spec fn spec_replacement(t: IntType) -> Seq<char> {
    spec_int_type_name(t) + "::BITS"@
}

/// `d` is exactly the diagnostic owed for the confirmed match `m`.
pub open spec fn diag_for(d: Diagnostic, m: MatchResult) -> bool {
    &&& d.message@ == spec_message()
    &&& d.span == m.outer
    &&& d.help@ == spec_help()
    &&& d.replacement@ == spec_replacement(m.ty)
    &&& d.applicability == Applicability::MaybeIncorrect
}

/// Builds the diagnostic for a confirmed match: underline the outer span,
/// propose `<TypeName>::BITS` over it, and mark the rewrite as needing
/// human confirmation. Constructs a value and nothing else: emission is the
/// host's responsibility.
pub fn build(m: &MatchResult) -> (d: Diagnostic)
    ensures
        diag_for(d, *m),
{
    let name = int_type_name(m.ty);
    let replacement = name.concat("::BITS");
    Diagnostic {
        message: "this operation involves a type and a constant which have the same meaning".to_owned(),
        span: m.outer,
        help: "consider using the type's bit-width constant".to_owned(),
        replacement,
        applicability: Applicability::MaybeIncorrect,
    }
}

/// The expression the suggested rewrite puts in place of the matched
/// multiplication: an access to the type's bit-width constant, over the
/// outer span.
pub open spec fn spec_rewrite(m: MatchResult) -> Expr {
    Expr { span: m.outer, kind: ExprKind::BitsConst(m.ty) }
}

/// Builds the replacement node for a confirmed match.
pub fn apply_rewrite(m: &MatchResult) -> (e: Expr)
    ensures
        e == spec_rewrite(*m),
{
    Expr { span: m.outer, kind: ExprKind::BitsConst(m.ty) }
}

/// Law: the rewrite is idempotent. The constant-access form a suggestion
/// produces never re-triggers the matcher — neither at the rewritten node
/// nor anywhere in its subtree — so re-running the analysis over the
/// rewritten tree reports nothing new.
pub proof fn lemma_rewrite_never_matches(m: MatchResult)
    ensures
        spec_match(spec_rewrite(m)) is None,
        matches_in(spec_rewrite(m)) == Seq::<MatchResult>::empty(),
{
    assert(matches_in(spec_rewrite(m)) =~= Seq::<MatchResult>::empty());
}

} // verus!
