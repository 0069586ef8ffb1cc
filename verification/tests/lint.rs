use mem_size_of_integer::ast::{BinOp, Call, Expr, ExprKind, IntType, LitKind, Span, TyArg};
use mem_size_of_integer::matcher::{collect_matches, visit, MatchResult};
use mem_size_of_integer::pass::{register_pass, Category, MemSizeOfInteger};
use mem_size_of_integer::suggestion::{apply_rewrite, build, Applicability};
use mem_size_of_integer::version::{is_enabled, required_version, version_ge, Version};

fn canonical_path() -> Vec<String> {
    vec!["core".to_owned(), "mem".to_owned(), "size_of".to_owned()]
}

fn size_of_call(ty: IntType, span: Span) -> Expr {
    Expr {
        span,
        kind: ExprKind::Call(Call {
            resolved: Some(canonical_path()),
            ty_args: vec![TyArg::Int(ty)],
            args: Vec::new(),
        }),
    }
}

fn int_lit(value: u128, span: Span) -> Expr {
    Expr {
        span,
        kind: ExprKind::Lit(LitKind::Int(value)),
    }
}

fn mk_mul(l: Expr, r: Expr, span: Span) -> Expr {
    Expr {
        span,
        kind: ExprKind::Binary(BinOp::Mul, Box::new(l), Box::new(r)),
    }
}

fn sp(lo: usize, hi: usize) -> Span {
    Span { lo, hi }
}

#[test]
fn call_times_eight_matches() {
    let e = mk_mul(
        size_of_call(IntType::Usize, sp(0, 28)),
        int_lit(8, sp(31, 32)),
        sp(0, 32),
    );
    let m = visit(&e).expect("the idiom must match");
    assert_eq!(m.outer, sp(0, 32));
    assert_eq!(m.inner, sp(0, 28));
    assert_eq!(m.ty, IntType::Usize);
    let d = build(&m);
    assert_eq!(d.replacement, "usize::BITS");
}

#[test]
fn eight_times_call_matches() {
    let e = mk_mul(
        int_lit(8, sp(0, 1)),
        size_of_call(IntType::U32, sp(4, 30)),
        sp(0, 30),
    );
    let m = visit(&e).expect("the mirrored idiom must match");
    assert_eq!(m.outer, sp(0, 30));
    assert_eq!(m.inner, sp(4, 30));
    assert_eq!(m.ty, IntType::U32);
    assert_eq!(build(&m).replacement, "u32::BITS");
}

#[test]
fn every_integer_type_renders_its_own_constant() {
    let cases = [
        (IntType::U8, "u8::BITS"),
        (IntType::U16, "u16::BITS"),
        (IntType::U64, "u64::BITS"),
        (IntType::U128, "u128::BITS"),
        (IntType::I8, "i8::BITS"),
        (IntType::I16, "i16::BITS"),
        (IntType::I32, "i32::BITS"),
        (IntType::I64, "i64::BITS"),
        (IntType::I128, "i128::BITS"),
        (IntType::Isize, "isize::BITS"),
    ];
    for (ty, expected) in cases {
        let e = mk_mul(size_of_call(ty, sp(0, 20)), int_lit(8, sp(23, 24)), sp(0, 24));
        let m = visit(&e).expect("the idiom must match");
        assert_eq!(build(&m).replacement, expected);
    }
}

#[test]
fn literal_seven_does_not_match() {
    let e = mk_mul(
        size_of_call(IntType::Usize, sp(0, 28)),
        int_lit(7, sp(31, 32)),
        sp(0, 32),
    );
    assert!(visit(&e).is_none());
}

#[test]
fn literal_sixteen_does_not_match() {
    let e = mk_mul(
        size_of_call(IntType::Usize, sp(0, 28)),
        int_lit(16, sp(31, 33)),
        sp(0, 33),
    );
    assert!(visit(&e).is_none());
}

#[test]
fn float_literal_eight_does_not_match() {
    let e = mk_mul(
        size_of_call(IntType::Usize, sp(0, 28)),
        Expr { span: sp(31, 34), kind: ExprKind::Lit(LitKind::Float) },
        sp(0, 34),
    );
    assert!(visit(&e).is_none());
}

#[test]
fn non_multiplication_does_not_match() {
    let e = Expr {
        span: sp(0, 32),
        kind: ExprKind::Binary(
            BinOp::Add,
            Box::new(size_of_call(IntType::Usize, sp(0, 28))),
            Box::new(int_lit(8, sp(31, 32))),
        ),
    };
    assert!(visit(&e).is_none());
}

#[test]
fn same_name_other_path_does_not_match() {
    // A user-defined `size_of` resolving to a different fully-qualified
    // path: the resolver-based disambiguation must reject it.
    let call = Expr {
        span: sp(0, 12),
        kind: ExprKind::Call(Call {
            resolved: Some(vec!["mycrate".to_owned(), "size_of".to_owned()]),
            ty_args: vec![TyArg::Int(IntType::Usize)],
            args: Vec::new(),
        }),
    };
    let e = mk_mul(call, int_lit(8, sp(15, 16)), sp(0, 16));
    assert!(visit(&e).is_none());
}

#[test]
fn unresolvable_callee_does_not_match() {
    let call = Expr {
        span: sp(0, 12),
        kind: ExprKind::Call(Call {
            resolved: None,
            ty_args: vec![TyArg::Int(IntType::Usize)],
            args: Vec::new(),
        }),
    };
    let e = mk_mul(call, int_lit(8, sp(15, 16)), sp(0, 16));
    assert!(visit(&e).is_none());
}

#[test]
fn call_with_an_argument_does_not_match() {
    let call = Expr {
        span: sp(0, 12),
        kind: ExprKind::Call(Call {
            resolved: Some(canonical_path()),
            ty_args: vec![TyArg::Int(IntType::Usize)],
            args: vec![int_lit(1, sp(10, 11))],
        }),
    };
    let e = mk_mul(call, int_lit(8, sp(15, 16)), sp(0, 16));
    assert!(visit(&e).is_none());
}

#[test]
fn non_integer_type_argument_does_not_match() {
    let call = Expr {
        span: sp(0, 26),
        kind: ExprKind::Call(Call {
            resolved: Some(canonical_path()),
            ty_args: vec![TyArg::Other],
            args: Vec::new(),
        }),
    };
    let e = mk_mul(call, int_lit(8, sp(29, 30)), sp(0, 30));
    assert!(visit(&e).is_none());
}

#[test]
fn missing_type_argument_does_not_match() {
    let call = Expr {
        span: sp(0, 20),
        kind: ExprKind::Call(Call {
            resolved: Some(canonical_path()),
            ty_args: Vec::new(),
            args: Vec::new(),
        }),
    };
    let e = mk_mul(call, int_lit(8, sp(23, 24)), sp(0, 24));
    assert!(visit(&e).is_none());
}

#[test]
fn rule_enabled_with_no_configured_minimum() {
    assert!(is_enabled(None));
}

#[test]
fn rule_enabled_at_and_above_the_requirement() {
    assert!(is_enabled(Some(Version { major: 1, minor: 52, patch: 0 })));
    assert!(is_enabled(Some(Version { major: 1, minor: 52, patch: 1 })));
    assert!(is_enabled(Some(Version { major: 1, minor: 53, patch: 0 })));
    assert!(is_enabled(Some(Version { major: 2, minor: 0, patch: 0 })));
}

#[test]
fn rule_disabled_below_the_requirement() {
    assert!(!is_enabled(Some(Version { major: 1, minor: 51, patch: 9 })));
    assert!(!is_enabled(Some(Version { major: 1, minor: 0, patch: 0 })));
    assert!(!is_enabled(Some(Version { major: 0, minor: 99, patch: 0 })));
}

#[test]
fn requirement_is_one_fifty_two() {
    let v = required_version();
    assert_eq!(v, Version { major: 1, minor: 52, patch: 0 });
    assert!(version_ge(&Version { major: 1, minor: 52, patch: 0 }, &v));
    assert!(!version_ge(&Version { major: 1, minor: 51, patch: 999 }, &v));
}

#[test]
fn rewrite_is_idempotent() {
    let e = mk_mul(
        size_of_call(IntType::Usize, sp(0, 28)),
        int_lit(8, sp(31, 32)),
        sp(0, 32),
    );
    let m = visit(&e).expect("the idiom must match");
    let rewritten = apply_rewrite(&m);
    assert_eq!(rewritten.span, sp(0, 32));
    assert!(visit(&rewritten).is_none());
    assert!(collect_matches(&rewritten).is_empty());
}

#[test]
fn end_to_end_one_diagnostic_without_configured_minimum() {
    // Source shaped like `std::mem::size_of::<usize>() * 8`; the resolver
    // reports the callee under its canonical path `core::mem::size_of`.
    let e = mk_mul(
        size_of_call(IntType::Usize, sp(0, 28)),
        int_lit(8, sp(31, 32)),
        sp(0, 32),
    );
    let pass = MemSizeOfInteger::new(None);
    let diags = pass.run(&e);
    assert_eq!(diags.len(), 1);
    assert_eq!(diags[0].replacement, "usize::BITS");
    assert_eq!(diags[0].applicability, Applicability::MaybeIncorrect);
    assert_eq!(diags[0].span, sp(0, 32));
    assert_eq!(
        diags[0].message,
        "this operation involves a type and a constant which have the same meaning"
    );
    assert_eq!(diags[0].help, "consider using the type's bit-width constant");
}

#[test]
fn end_to_end_zero_diagnostics_below_the_minimum() {
    let e = mk_mul(
        size_of_call(IntType::Usize, sp(0, 28)),
        int_lit(8, sp(31, 32)),
        sp(0, 32),
    );
    let pass = MemSizeOfInteger::new(Some(Version { major: 1, minor: 51, patch: 0 }));
    assert!(pass.run(&e).is_empty());
    assert!(pass.check_expr(&e).is_none());
}

#[test]
fn nested_instances_are_reported_in_document_order() {
    // (size_of::<u8>() * 8) + f(8 * size_of::<i64>())
    let first = mk_mul(
        size_of_call(IntType::U8, sp(1, 24)),
        int_lit(8, sp(27, 28)),
        sp(1, 28),
    );
    let second = mk_mul(
        int_lit(8, sp(34, 35)),
        size_of_call(IntType::I64, sp(38, 62)),
        sp(34, 62),
    );
    let wrapped = Expr {
        span: sp(32, 63),
        kind: ExprKind::Call(Call {
            resolved: Some(vec!["mycrate".to_owned(), "f".to_owned()]),
            ty_args: Vec::new(),
            args: vec![second],
        }),
    };
    let root = Expr {
        span: sp(0, 63),
        kind: ExprKind::Binary(BinOp::Add, Box::new(first), Box::new(wrapped)),
    };
    let found: Vec<MatchResult> = collect_matches(&root);
    assert_eq!(found.len(), 2);
    assert_eq!(found[0].ty, IntType::U8);
    assert_eq!(found[0].outer, sp(1, 28));
    assert_eq!(found[1].ty, IntType::I64);
    assert_eq!(found[1].inner, sp(38, 62));
    let pass = MemSizeOfInteger::new(None);
    let diags = pass.run(&root);
    assert_eq!(diags.len(), 2);
    assert_eq!(diags[0].replacement, "u8::BITS");
    assert_eq!(diags[1].replacement, "i64::BITS");
}

#[test]
fn registration_metadata() {
    let info = register_pass();
    assert_eq!(info.name, "mem_size_of_integer");
    assert_eq!(info.category, Category::Nursery);
    assert_eq!(info.description, "replacing size_of() with a constant");
}
