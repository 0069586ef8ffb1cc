//! The pattern matcher: decides, per expression node, whether the node is
//! an instance of the idiom "zero-argument size-measurement call on a
//! primitive integer type, multiplied by the literal eight", in either
//! operand order.
//!
//! A match is accepted only when the host's symbol resolver reported the
//! callee's fully-qualified path and that path equals the known path of the
//! standard measurement function exactly; a same-named user function, or an
//! unresolvable callee, never matches. Any node shape outside the idiom
//! yields no match, never an error.

use vstd::prelude::*;

use crate::ast::{
    span_contains, spans_nested, BinOp, Call, Expr, ExprKind, IntType, LitKind, Span, TyArg,
};

verus! {

/// A confirmed idiom instance: the span of the whole multiplication, the
/// span of the measurement call inside it, and the integer type the call
/// was instantiated with. Consumed immediately by the suggestion builder.
#[derive(Clone, Copy, Debug, PartialEq, Eq, Structural)]
pub struct MatchResult {
    pub outer: Span,
    pub inner: Span,
    pub ty: IntType,
}

/// `p` is the fully-qualified path of the standard measurement function.
/// Its canonical identity is `core::mem::size_of`; the `std::mem` name is a
/// re-export that the resolver reports under the canonical path.
pub open spec fn is_size_of_path(p: Seq<String>) -> bool {
    &&& p.len() == 3
    &&& p[0]@ == "core"@
    &&& p[1]@ == "mem"@
    &&& p[2]@ == "size_of"@
}

/// Compares a resolved path against the known measurement-function path.
fn path_is_size_of(p: &Vec<String>) -> (r: bool)
    ensures
        r == is_size_of_path(p@),
{
    if p.len() != 3 {
        return false;
    }
    let seg0: String = "core".to_owned();
    let seg1: String = "mem".to_owned();
    let seg2: String = "size_of".to_owned();
    p[0] == seg0 && p[1] == seg1 && p[2] == seg2
}

/// The call denotes the measurement function: its callee resolved to the
/// known path, it takes no arguments, and its single generic type argument
/// is a primitive integer type.
pub open spec fn call_is_measurement(c: Call) -> bool {
    &&& c.resolved matches Some(p) && is_size_of_path(p@)
    &&& c.args@.len() == 0
    &&& c.ty_args@.len() == 1
    &&& c.ty_args@[0] is Int
}

/// The integer type the call measures; meaningful only on a measurement
/// call.
pub open spec fn call_int_type(c: Call) -> IntType
    recommends
        call_is_measurement(c),
{
    c.ty_args@[0]->Int_0
}

/// The node shape is the integer literal `8` exactly.
pub open spec fn is_lit_eight(k: ExprKind) -> bool {
    k == ExprKind::Lit(LitKind::Int(8))
}

/// The node shape is a measurement call.
pub open spec fn is_measurement_call(k: ExprKind) -> bool {
    k matches ExprKind::Call(c) && call_is_measurement(c)
}

/// The measured integer type of a measurement-call node.
pub open spec fn measured_type(k: ExprKind) -> IntType
    recommends
        is_measurement_call(k),
{
    call_int_type(k->Call_0)
}

/// What one visit decides: the node matches iff it is a multiplication of
/// a measurement call by the literal eight, in either operand order. The
/// outer span is the node's own, the inner span the call operand's.
pub open spec fn spec_match(e: Expr) -> Option<MatchResult> {
    match e.kind {
        ExprKind::Binary(op, l, r) => if op == BinOp::Mul {
            if is_measurement_call((*l).kind) && is_lit_eight((*r).kind) {
                Some(
                    MatchResult {
                        outer: e.span,
                        inner: (*l).span,
                        ty: measured_type((*l).kind),
                    },
                )
            } else if is_lit_eight((*l).kind) && is_measurement_call((*r).kind) {
                Some(
                    MatchResult {
                        outer: e.span,
                        inner: (*r).span,
                        ty: measured_type((*r).kind),
                    },
                )
            } else {
                None
            }
        } else {
            None
        },
        _ => None,
    }
}

/// Is this literal node the integer `8`?
fn lit_is_eight(k: &ExprKind) -> (r: bool)
    ensures
        r == is_lit_eight(*k),
{
    match k {
        ExprKind::Lit(LitKind::Int(n)) => *n == 8,
        _ => false,
    }
}

/// The measured integer type, if this node is a measurement call.
fn measurement_call_type(k: &ExprKind) -> (r: Option<IntType>)
    ensures
        (r is Some) == is_measurement_call(*k),
        r matches Some(t) ==> t == measured_type(*k),
{
    match k {
        ExprKind::Call(c) => {
            let resolved_ok = match &c.resolved {
                Some(p) => path_is_size_of(p),
                None => false,
            };
            if resolved_ok && c.args.len() == 0 && c.ty_args.len() == 1 {
                match c.ty_args[0] {
                    TyArg::Int(t) => Some(t),
                    TyArg::Other => None,
                }
            } else {
                None
            }
        },
        _ => None,
    }
}

/// One visit of the matcher: reads the node, mutates nothing, and returns
/// the confirmed match, or nothing for every node shape outside the idiom.
pub fn visit(e: &Expr) -> (r: Option<MatchResult>)
    ensures
        r == spec_match(*e),
{
    match &e.kind {
        ExprKind::Binary(op, l, r) => {
            if *op == BinOp::Mul {
                if let Some(t) = measurement_call_type(&l.kind) {
                    if lit_is_eight(&r.kind) {
                        return Some(MatchResult { outer: e.span, inner: l.span, ty: t });
                    }
                }
                if lit_is_eight(&l.kind) {
                    if let Some(t) = measurement_call_type(&r.kind) {
                        return Some(MatchResult { outer: e.span, inner: r.span, ty: t });
                    }
                }
                None
            } else {
                None
            }
        },
        _ => None,
    }
}

/// Law: a multiplication of a resolved, zero-argument measurement call on
/// a primitive integer type by the integer literal `8` — in either operand
/// order — matches, and the match extracts exactly that call's measured
/// type, the call's span as the inner span, and the whole multiplication's
/// span as the outer span.
pub proof fn lemma_idiom_matches(e: Expr, call: Expr, lit: Expr)
    requires
        e.kind matches ExprKind::Binary(op, l, r) && op == BinOp::Mul && ((*l == call && *r == lit)
            || (*l == lit && *r == call)),
        is_measurement_call(call.kind),
        is_lit_eight(lit.kind),
    ensures
        spec_match(e) == Some(
            MatchResult { outer: e.span, inner: call.span, ty: measured_type(call.kind) },
        ),
{
}

/// Law: no match is fabricated from syntactic shape alone. A confirmed
/// match always comes from a multiplication with an operand that is a call
/// whose callee the resolver mapped to the known measurement-function
/// path; the match's type and inner span are that operand's, and the other
/// operand is the integer literal `8`.
pub proof fn lemma_no_fabrication(e: Expr)
    requires
        spec_match(e) is Some,
    ensures
        e.kind is Binary,
        e.kind->Binary_0 == BinOp::Mul,
        ({
            let m = spec_match(e)->Some_0;
            let l = *e.kind->Binary_1;
            let r = *e.kind->Binary_2;
            ||| (is_measurement_call(l.kind) && is_lit_eight(r.kind) && m.ty == measured_type(
                l.kind,
            ) && m.inner == l.span)
            ||| (is_measurement_call(r.kind) && is_lit_eight(l.kind) && m.ty == measured_type(
                r.kind,
            ) && m.inner == r.span)
        }),
        spec_match(e)->Some_0.outer == e.span,
{
}

/// Law: matching is commutative over `*`. Two multiplications with the
/// same span whose operands are mirror images match alike: one matches iff
/// the other does, with the same extracted type and the same spans.
pub proof fn lemma_match_commutative(a: Expr, b: Expr)
    requires
        a.kind is Binary,
        b.kind is Binary,
        a.kind->Binary_0 == b.kind->Binary_0,
        *a.kind->Binary_1 == *b.kind->Binary_2,
        *a.kind->Binary_2 == *b.kind->Binary_1,
        a.span == b.span,
    ensures
        (spec_match(a) is Some) == (spec_match(b) is Some),
        spec_match(a) matches Some(m) ==> spec_match(b) == Some(m),
{
}

/// Law: a node that is not a multiplication never matches.
pub proof fn lemma_non_multiplication_no_match(e: Expr)
    requires
        e.kind is Binary ==> e.kind->Binary_0 != BinOp::Mul,
    ensures
        spec_match(e) is None,
{
}

/// Law: a multiplication in which neither operand is the integer literal
/// `8` exactly — so one by `7`, by `16`, or by any floating-point literal —
/// never matches.
pub proof fn lemma_literal_not_eight_no_match(e: Expr)
    requires
        e.kind is Binary,
        !is_lit_eight((*e.kind->Binary_1).kind),
        !is_lit_eight((*e.kind->Binary_2).kind),
    ensures
        spec_match(e) is None,
{
}

/// Law: the resolver disambiguates. When every call operand's callee either
/// failed to resolve or resolved to some path other than the known
/// measurement-function path — a user-defined function under the same local
/// name, say — the node never matches.
pub proof fn lemma_foreign_callee_no_match(e: Expr)
    requires
        e.kind is Binary,
        (*e.kind->Binary_1).kind matches ExprKind::Call(c) ==> !(c.resolved matches Some(p)
            && is_size_of_path(p@)),
        (*e.kind->Binary_2).kind matches ExprKind::Call(c) ==> !(c.resolved matches Some(p)
            && is_size_of_path(p@)),
    ensures
        spec_match(e) is None,
{
}

/// Law: a call with one or more arguments never matches.
pub proof fn lemma_call_with_arguments_no_match(e: Expr)
    requires
        e.kind is Binary,
        (*e.kind->Binary_1).kind matches ExprKind::Call(c) ==> c.args@.len() > 0,
        (*e.kind->Binary_2).kind matches ExprKind::Call(c) ==> c.args@.len() > 0,
    ensures
        spec_match(e) is None,
{
}

/// Law: on a node whose operand spans nest within its own — as they do in
/// any tree the host hands over — a match's outer span is the node's span
/// and covers the inner span, which is the call sub-expression's.
pub proof fn lemma_match_spans(e: Expr)
    requires
        spans_nested(e),
    ensures
        spec_match(e) matches Some(m) ==> m.outer == e.span && span_contains(m.outer, m.inner),
{
}

/// Every confirmed match in the subtree rooted at `e`, in document
/// pre-order: the node's own match first, then the operands' subtrees left
/// to right; for a call, the arguments in order.
pub open spec fn matches_in(e: Expr) -> Seq<MatchResult>
    decreases e,
{
    let here = match spec_match(e) {
        Some(m) => seq![m],
        None => Seq::empty(),
    };
    match e.kind {
        ExprKind::Binary(_op, l, r) => here + matches_in(*l) + matches_in(*r),
        ExprKind::Call(c) => here + matches_in_list(c.args@),
        _ => here,
    }
}

/// Every confirmed match in a list of subtrees, in order.
pub open spec fn matches_in_list(s: Seq<Expr>) -> Seq<MatchResult>
    decreases s,
{
    if s.len() == 0 {
        Seq::empty()
    } else {
        matches_in(s[0]) + matches_in_list(s.drop_first())
    }
}

/// Extending a processed prefix of a list by one subtree appends exactly
/// that subtree's matches.
proof fn lemma_matches_in_list_snoc(s: Seq<Expr>, i: int)
    requires
        0 <= i < s.len(),
    ensures
        matches_in_list(s.take(i + 1)) == matches_in_list(s.take(i)) + matches_in(s[i]),
    decreases i,
{
    if i == 0 {
        assert(s.take(1) =~= seq![s[0]]);
        assert(s.take(0) =~= Seq::<Expr>::empty());
        assert(seq![s[0]].drop_first() =~= Seq::<Expr>::empty());
        assert(matches_in_list(s.take(1)) =~= matches_in_list(s.take(0)) + matches_in(s[0]));
    } else {
        lemma_matches_in_list_snoc(s.drop_first(), i - 1);
        assert(s.take(i + 1).drop_first() =~= s.drop_first().take(i));
        assert(s.take(i).drop_first() =~= s.drop_first().take(i - 1));
        assert(s.take(i + 1)[0] == s[0]);
        assert(s.take(i)[0] == s[0]);
        assert(s.drop_first()[i - 1] == s[i]);
        assert(matches_in_list(s.take(i + 1)) =~= matches_in_list(s.take(i)) + matches_in(s[i]));
    }
}

/// Walks the subtree rooted at `e` in pre-order, appending every match.
#[verifier::loop_isolation(false)]
fn collect_into(e: &Expr, out: &mut Vec<MatchResult>)
    ensures
        final(out)@ == old(out)@ + matches_in(*e),
    decreases *e,
{
    match visit(e) {
        Some(m) => out.push(m),
        None => {},
    }
    match &e.kind {
        ExprKind::Binary(_op, l, r) => {
            collect_into(l, out);
            collect_into(r, out);
            proof {
                assert(out@ =~= old(out)@ + matches_in(*e));
            }
        },
        ExprKind::Call(c) => {
            let ghost prefix = out@;
            let n: usize = c.args.len();
            let mut i: usize = 0;
            while i < n
                invariant
                    i <= n,
                    n == c.args@.len(),
                    out@ == prefix + matches_in_list(c.args@.take(i as int)),
                decreases n - i,
            {
                proof {
                    assert(c.args@.take(i as int + 1) == c.args@.take(i as int) + seq![
                        c.args@[i as int],
                    ]) by {
                        assert(c.args@.take(i as int + 1) =~= c.args@.take(i as int) + seq![
                            c.args@[i as int],
                        ]);
                    }
                    lemma_matches_in_list_snoc(c.args@, i as int);
                    assert(*c == e.kind->Call_0);
                    assert(decreases_to!(*e => e.kind));
                    assert(decreases_to!(e.kind => e.kind->Call_0));
                    assert(decreases_to!(e.kind->Call_0 => e.kind->Call_0.args));
                    assert(decreases_to!(e.kind->Call_0.args => e.kind->Call_0.args[i as int]));
                    assert(decreases_to!(*e => c.args[i as int]));
                }
                collect_into(&c.args[i], out);
                i = i + 1;
            }
            proof {
                assert(c.args@.take(n as int) =~= c.args@);
                assert(out@ =~= old(out)@ + matches_in(*e));
            }
        },
        _ => {
            proof {
                assert(out@ =~= old(out)@ + matches_in(*e));
            }
        },
    }
}

/// Every match in the subtree rooted at `e`, in document pre-order, as one
/// read-only pass would report them.
pub fn collect_matches(e: &Expr) -> (out: Vec<MatchResult>)
    ensures
        out@ == matches_in(*e),
{
    let mut out: Vec<MatchResult> = Vec::new();
    collect_into(e, &mut out);
    proof {
        assert(out@ =~= matches_in(*e));
    }
    out
}

} // verus!
