//! The expression model the matcher works on.
//!
//! The host owns the real syntax tree; what it hands this library is one
//! node per visit, carrying exactly what the matcher is allowed to read:
//! the node's kind, its source span, and — for call-shaped nodes — the
//! ordered argument list, the generic type arguments, and what the host's
//! symbol resolver reported for the callee (its fully-qualified path, or
//! nothing when the callee is unresolvable). Matching is purely structural
//! and semantic: no surface text drives it.

use vstd::prelude::*;

verus! {

/// A half-open source range in bytes: `lo <= position < hi`.
#[derive(Clone, Copy, Debug, PartialEq, Eq, Structural)]
pub struct Span {
    pub lo: usize,
    pub hi: usize,
}

/// `outer` covers every position that `inner` covers.
pub open spec fn span_contains(outer: Span, inner: Span) -> bool {
    outer.lo <= inner.lo && inner.hi <= outer.hi
}

/// The fixed-width and pointer-sized primitive integer types: the only
/// generic arguments for which the idiom has a bit-width constant to offer.
#[derive(Clone, Copy, Debug, PartialEq, Eq, Structural)]
pub enum IntType {
    U8,
    U16,
    U32,
    U64,
    U128,
    Usize,
    I8,
    I16,
    I32,
    I64,
    I128,
    Isize,
}

/// The name of the type as written in source, as a sequence of characters.
pub open spec fn spec_int_type_name(t: IntType) -> Seq<char> {
    match t {
        IntType::U8 => "u8"@,
        IntType::U16 => "u16"@,
        IntType::U32 => "u32"@,
        IntType::U64 => "u64"@,
        IntType::U128 => "u128"@,
        IntType::Usize => "usize"@,
        IntType::I8 => "i8"@,
        IntType::I16 => "i16"@,
        IntType::I32 => "i32"@,
        IntType::I64 => "i64"@,
        IntType::I128 => "i128"@,
        IntType::Isize => "isize"@,
    }
}

/// Renders the type's name.
pub fn int_type_name(t: IntType) -> (r: String)
    ensures
        r@ == spec_int_type_name(t),
{
    match t {
        IntType::U8 => String::from_str("u8"),
        IntType::U16 => String::from_str("u16"),
        IntType::U32 => String::from_str("u32"),
        IntType::U64 => String::from_str("u64"),
        IntType::U128 => String::from_str("u128"),
        IntType::Usize => String::from_str("usize"),
        IntType::I8 => String::from_str("i8"),
        IntType::I16 => String::from_str("i16"),
        IntType::I32 => String::from_str("i32"),
        IntType::I64 => String::from_str("i64"),
        IntType::I128 => String::from_str("i128"),
        IntType::Isize => String::from_str("isize"),
    }
}

/// One generic type argument attached to a call, as the host resolved it:
/// either a primitive integer type, or anything else (a non-primitive type,
/// or an argument that did not resolve to a concrete type).
#[derive(Clone, Copy, Debug, PartialEq, Eq, Structural)]
pub enum TyArg {
    Int(IntType),
    Other,
}

/// A literal operand. Only the exact integer value matters to the matcher;
/// a floating-point literal never matches whatever its value, so none is
/// carried.
#[derive(Clone, Copy, Debug, PartialEq, Eq, Structural)]
pub enum LitKind {
    Int(u128),
    Float,
    Other,
}

/// A binary operator. The matcher accepts multiplication only.
#[derive(Clone, Copy, Debug, PartialEq, Eq, Structural)]
pub enum BinOp {
    Mul,
    Add,
    Sub,
    Div,
    Rem,
    Other,
}

/// A call-shaped node, with the symbol resolver's answer for its callee
/// baked in by the host: `resolved` is the callee's fully-qualified path as
/// a sequence of segments, or `None` when the callee could not be resolved
/// (dynamic dispatch, a macro-generated call with no fixed target).
#[derive(Debug)]
pub struct Call {
    pub resolved: Option<Vec<String>>,
    pub ty_args: Vec<TyArg>,
    pub args: Vec<Expr>,
}

/// What shape an expression node has.
#[derive(Debug)]
pub enum ExprKind {
    /// A literal.
    Lit(LitKind),
    /// A function call.
    Call(Call),
    /// A binary operation over two sub-expressions.
    Binary(BinOp, Box<Expr>, Box<Expr>),
    /// An associated-constant access on a primitive integer type, such as
    /// `usize::BITS`: the shape the suggested rewrite produces.
    BitsConst(IntType),
    /// Any other expression shape; never matched, never an error.
    Other,
}

/// One expression node: its source span and its shape.
#[derive(Debug)]
pub struct Expr {
    pub span: Span,
    pub kind: ExprKind,
}

/// A node's spans are nested one level down: each direct sub-expression
/// lies within its parent's span. The host's tree has this by construction.
pub open spec fn spans_nested(e: Expr) -> bool {
    match e.kind {
        ExprKind::Binary(_op, l, r) => span_contains(e.span, (*l).span) && span_contains(
            e.span,
            (*r).span,
        ),
        _ => true,
    }
}

} // verus!
