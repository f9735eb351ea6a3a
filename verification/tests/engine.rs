use power_assert::ast::{
    BinExpr, CallExpr, Callee, Expr, ExprOrSpread, ExprStmt, Ident, IdentName, ImportDecl,
    ImportSpecifier, KeyValueProp, Lit, MemberExpr, MemberProp, Module, ModuleItem, NumLit,
    ObjectLit, Span, Stmt, StrLit, UnaryExpr, UnaryOp, VarDecl, VarDeclKind, VarDeclarator,
};
use power_assert::pos::calculate_utf16_pos;
use power_assert::transform::TransformVisitor;

fn sp(lo: u32, hi: u32) -> Span {
    Span { lo, hi }
}

fn sp0() -> Span {
    Span { lo: 0, hi: 0 }
}

fn id(sym: &str, ctxt: u32, lo: u32, hi: u32) -> Ident {
    Ident { sym: sym.to_string(), ctxt, span: sp(lo, hi) }
}

fn synth_id(sym: &str) -> Ident {
    Ident { sym: sym.to_string(), ctxt: 0, span: sp0() }
}

fn ident_expr(sym: &str, ctxt: u32, lo: u32, hi: u32) -> Expr {
    Expr::Ident(id(sym, ctxt, lo, hi))
}

/// A synthesized `obj.prop` member access, as the engine builds it.
fn synth_member(obj: &str, prop: &str) -> Expr {
    Expr::Member(MemberExpr {
        span: sp0(),
        obj: Box::new(Expr::Ident(synth_id(obj))),
        prop: MemberProp::Ident(IdentName { sym: prop.to_string(), span: sp0() }),
    })
}

fn num(value: u64) -> Expr {
    Expr::Lit(Lit::Num(NumLit { span: sp0(), value }))
}

fn strlit(value: &str) -> Expr {
    Expr::Lit(Lit::Str(StrLit { span: sp0(), value: value.to_string() }))
}

fn plain_arg(e: Expr) -> ExprOrSpread {
    ExprOrSpread { spread: false, expr: Box::new(e) }
}

/// `<argrec>.tap(<e>, <pos>)`, optionally with a `{ hint: ... }` argument.
fn tap_call(argrec: &str, e: Expr, pos: u64, hint: Option<&str>) -> Expr {
    let mut args = vec![plain_arg(e), plain_arg(num(pos))];
    if let Some(h) = hint {
        args.push(plain_arg(Expr::Object(ObjectLit {
            span: sp0(),
            props: vec![KeyValueProp {
                key: "hint".to_string(),
                value: Box::new(strlit(h)),
            }],
        })));
    }
    Expr::Call(CallExpr {
        span: sp0(),
        callee: Callee::Expr(Box::new(synth_member(argrec, "tap"))),
        args,
    })
}

/// `<argrec>.rec(<e>, <pos>)` — a demoted capture keeps its arguments.
fn rec_call_with_pos(argrec: &str, e: Expr, pos: u64) -> Expr {
    Expr::Call(CallExpr {
        span: sp0(),
        callee: Callee::Expr(Box::new(synth_member(argrec, "rec"))),
        args: vec![plain_arg(e), plain_arg(num(pos))],
    })
}

fn const_decl(name: &str, init: Expr) -> Stmt {
    Stmt::VarDecl(VarDecl {
        span: sp0(),
        kind: VarDeclKind::Const,
        decls: vec![VarDeclarator {
            span: sp0(),
            name: synth_id(name),
            init: Some(Box::new(init)),
        }],
    })
}

fn runtime_import() -> ModuleItem {
    ModuleItem::Import(ImportDecl {
        span: sp0(),
        src: "@power-assert/runtime".to_string(),
        specifiers: vec![ImportSpecifier::Named { local: synth_id("_power_"), imported: None }],
    })
}

fn assert_import(src: &str) -> ModuleItem {
    ModuleItem::Import(ImportDecl {
        span: sp(1, 38),
        src: src.to_string(),
        specifiers: vec![ImportSpecifier::Named {
            local: id("assert", 1, 10, 16),
            imported: None,
        }],
    })
}

/// `const <runner> = _power_(assert, null, <text>[, { binexp: <op> }]);`
fn runner_decl(runner: &str, text: &str, binexp: Option<&str>) -> Stmt {
    let mut args = vec![
        plain_arg(Expr::Ident(synth_id("assert"))),
        plain_arg(Expr::Lit(Lit::Null(sp0()))),
        plain_arg(strlit(text)),
    ];
    if let Some(op) = binexp {
        args.push(plain_arg(Expr::Object(ObjectLit {
            span: sp0(),
            props: vec![KeyValueProp {
                key: "binexp".to_string(),
                value: Box::new(strlit(op)),
            }],
        })));
    }
    const_decl(
        runner,
        Expr::Call(CallExpr {
            span: sp0(),
            callee: Callee::Expr(Box::new(Expr::Ident(synth_id("_power_")))),
            args,
        }),
    )
}

/// `const <recorder> = <runner>.recorder(<idx>);`
fn recorder_decl(recorder: &str, runner: &str, idx: u64) -> Stmt {
    const_decl(
        recorder,
        Expr::Call(CallExpr {
            span: sp0(),
            callee: Callee::Expr(Box::new(synth_member(runner, "recorder"))),
            args: vec![plain_arg(num(idx))],
        }),
    )
}

/// `assert(a === b);` after an import from `node:assert`: one runner and one
/// recorder declaration appear after the import, the callee is rewired to the
/// runner, the comparison carries the `===` hint and its operands the
/// `left`/`right` side hints at their UTF-16 offsets.
#[test]
fn capture_rewrites_comparison_assertion() {
    let code = "import { assert } from 'node:assert';\nassert(a === b);\n";
    let module = Module {
        span: sp(1, code.len() as u32 + 1),
        items: vec![
            assert_import("node:assert"),
            ModuleItem::Stmt(Stmt::Expr(ExprStmt {
                span: sp(39, 55),
                expr: Box::new(Expr::Call(CallExpr {
                    span: sp(39, 54),
                    callee: Callee::Expr(Box::new(ident_expr("assert", 1, 39, 45))),
                    args: vec![plain_arg(Expr::Bin(BinExpr {
                        span: sp(46, 53),
                        op: "===".to_string(),
                        left: Box::new(ident_expr("a", 1, 46, 47)),
                        right: Box::new(ident_expr("b", 1, 52, 53)),
                    }))],
                })),
            })),
        ],
    };
    let mut visitor = TransformVisitor::from_code(code.to_string());
    let result = visitor.visit_mut_module(module);

    let rewritten_bin = Expr::Bin(BinExpr {
        span: sp(46, 53),
        op: "===".to_string(),
        left: Box::new(tap_call("_parg1", ident_expr("a", 1, 46, 47), 7, Some("left"))),
        right: Box::new(tap_call("_parg1", ident_expr("b", 1, 52, 53), 13, Some("right"))),
    });
    let expected = Module {
        span: sp(1, code.len() as u32 + 1),
        items: vec![
            assert_import("node:assert"),
            runtime_import(),
            ModuleItem::Stmt(runner_decl("_pasrt1", "assert(a === b)", Some("==="))),
            ModuleItem::Stmt(recorder_decl("_parg1", "_pasrt1", 0)),
            ModuleItem::Stmt(Stmt::Expr(ExprStmt {
                span: sp(39, 55),
                expr: Box::new(Expr::Call(CallExpr {
                    span: sp(39, 54),
                    callee: Callee::Expr(Box::new(synth_member("_pasrt1", "run"))),
                    args: vec![plain_arg(rec_call_with_pos("_parg1", rewritten_bin, 9))],
                })),
            })),
        ],
    };
    assert_eq!(result, expected);
}

/// `assert(...args)` stays byte-for-byte unrewritten: no runner, no recorder,
/// only the one-time runtime import joins the module.
#[test]
fn spread_argument_leaves_call_unrewritten() {
    let code = "import { assert } from 'node:assert';\nassert(...args);\n";
    let call = || CallExpr {
        span: sp(39, 54),
        callee: Callee::Expr(Box::new(ident_expr("assert", 1, 39, 45))),
        args: vec![ExprOrSpread {
            spread: true,
            expr: Box::new(ident_expr("args", 1, 49, 53)),
        }],
    };
    let module = Module {
        span: sp(1, code.len() as u32 + 1),
        items: vec![
            assert_import("node:assert"),
            ModuleItem::Stmt(Stmt::Expr(ExprStmt {
                span: sp(39, 55),
                expr: Box::new(Expr::Call(call())),
            })),
        ],
    };
    let mut visitor = TransformVisitor::from_code(code.to_string());
    let result = visitor.visit_mut_module(module);

    let expected = Module {
        span: sp(1, code.len() as u32 + 1),
        items: vec![
            assert_import("node:assert"),
            runtime_import(),
            ModuleItem::Stmt(Stmt::Expr(ExprStmt {
                span: sp(39, 55),
                expr: Box::new(Expr::Call(call())),
            })),
        ],
    };
    assert_eq!(result, expected);
}

/// `assert(typeof x)`: the whole `typeof x` expression is captured, but the
/// bare identifier under `typeof` is never wrapped.
#[test]
fn typeof_target_is_not_wrapped() {
    let code = "import { assert } from 'node:assert';\nassert(typeof x);\n";
    let typeof_x = |wrapped: bool| -> Expr {
        let inner = Expr::Unary(UnaryExpr {
            span: sp(46, 54),
            op: UnaryOp::TypeOf,
            arg: Box::new(ident_expr("x", 1, 53, 54)),
        });
        if wrapped {
            rec_call_with_pos("_parg1", inner, 7)
        } else {
            inner
        }
    };
    let module = Module {
        span: sp(1, code.len() as u32 + 1),
        items: vec![
            assert_import("node:assert"),
            ModuleItem::Stmt(Stmt::Expr(ExprStmt {
                span: sp(39, 56),
                expr: Box::new(Expr::Call(CallExpr {
                    span: sp(39, 55),
                    callee: Callee::Expr(Box::new(ident_expr("assert", 1, 39, 45))),
                    args: vec![plain_arg(typeof_x(false))],
                })),
            })),
        ],
    };
    let mut visitor = TransformVisitor::from_code(code.to_string());
    let result = visitor.visit_mut_module(module);

    let expected = Module {
        span: sp(1, code.len() as u32 + 1),
        items: vec![
            assert_import("node:assert"),
            runtime_import(),
            ModuleItem::Stmt(runner_decl("_pasrt1", "assert(typeof x)", None)),
            ModuleItem::Stmt(recorder_decl("_parg1", "_pasrt1", 0)),
            ModuleItem::Stmt(Stmt::Expr(ExprStmt {
                span: sp(39, 56),
                expr: Box::new(Expr::Call(CallExpr {
                    span: sp(39, 55),
                    callee: Callee::Expr(Box::new(synth_member("_pasrt1", "run"))),
                    args: vec![plain_arg(typeof_x(true))],
                })),
            })),
        ],
    };
    assert_eq!(result, expected);
}

/// Importing `assert` from an unconfigured module resolves no target binding,
/// so a call through it is not instrumented at all.
#[test]
fn unconfigured_module_is_not_instrumented() {
    let code = "import { assert } from 'not-assert38';\nassert(x);\n";
    let stmt = || {
        ModuleItem::Stmt(Stmt::Expr(ExprStmt {
            span: sp(40, 50),
            expr: Box::new(Expr::Call(CallExpr {
                span: sp(40, 49),
                callee: Callee::Expr(Box::new(ident_expr("assert", 1, 40, 46))),
                args: vec![plain_arg(ident_expr("x", 1, 47, 48))],
            })),
        }))
    };
    let import = || {
        ModuleItem::Import(ImportDecl {
            span: sp(1, 39),
            src: "not-assert38".to_string(),
            specifiers: vec![ImportSpecifier::Named {
                local: id("assert", 1, 10, 16),
                imported: None,
            }],
        })
    };
    let module = Module {
        span: sp(1, code.len() as u32 + 1),
        items: vec![import(), stmt()],
    };
    let mut visitor = TransformVisitor::from_code(code.to_string());
    let result = visitor.visit_mut_module(module);

    let expected = Module {
        span: sp(1, code.len() as u32 + 1),
        items: vec![import(), runtime_import(), stmt()],
    };
    assert_eq!(result, expected);
}

/// UTF-16 offsets: for text without multi-byte characters they equal the
/// UTF-8 offsets; a 3-byte character before a captured node shifts the
/// reported offset to the UTF-16 code-unit count.
#[test]
fn positions_convert_utf8_to_utf16() {
    // assert("かx" === s) — the string literal holds a 3-byte character.
    let code = "assert(\"かx\" === s)";
    let lit = Expr::Lit(Lit::Str(StrLit { span: sp(8, 14), value: "かx".to_string() }));
    let s_ident = ident_expr("s", 1, 19, 20);
    let bin = Expr::Bin(BinExpr {
        span: sp(8, 20),
        op: "===".to_string(),
        left: Box::new(lit),
        right: Box::new(s_ident),
    });
    // The literal starts at UTF-8 offset 7, which is also UTF-16 offset 7.
    if let Expr::Bin(b) = &bin {
        assert_eq!(calculate_utf16_pos(&b.left, 1, code, true), 7);
        // `s` sits at UTF-8 offset 18, but only 16 UTF-16 units in.
        assert_eq!(calculate_utf16_pos(&b.right, 1, code, true), 16);
    }
    // The operator is found at UTF-8 offset 14 = UTF-16 offset 12.
    assert_eq!(calculate_utf16_pos(&bin, 1, code, true), 12);

    // Without multi-byte characters the offsets are identical.
    let ascii = "assert(yy === s)";
    let yy = ident_expr("yy", 1, 8, 10);
    let s2 = ident_expr("s", 1, 15, 16);
    let bin2 = Expr::Bin(BinExpr {
        span: sp(8, 16),
        op: "===".to_string(),
        left: Box::new(yy),
        right: Box::new(s2),
    });
    if let Expr::Bin(b) = &bin2 {
        assert_eq!(calculate_utf16_pos(&b.left, 1, ascii, false), 7);
        assert_eq!(calculate_utf16_pos(&b.right, 1, ascii, false), 14);
    }
    assert_eq!(calculate_utf16_pos(&bin2, 1, ascii, false), 10);
}

/// An assertion inside a function-literal argument of an ordinary call is
/// still discovered, and its declarations are spliced at the start of the
/// function body — the enclosing scope — not at module level.
#[test]
fn nested_scope_flushes_inside_function_body() {
    let code = "import { assert } from 'node:assert';\nit('t', function () { assert(x); });\n";
    let fn_body_stmt = |instrumented: bool| -> Stmt {
        let arg: Expr = if instrumented {
            rec_call_with_pos("_parg1", ident_expr("x", 1, 68, 69), 7)
        } else {
            ident_expr("x", 1, 68, 69)
        };
        let callee: Expr = if instrumented {
            synth_member("_pasrt1", "run")
        } else {
            ident_expr("assert", 1, 61, 67)
        };
        Stmt::Expr(ExprStmt {
            span: sp(61, 71),
            expr: Box::new(Expr::Call(CallExpr {
                span: sp(61, 70),
                callee: Callee::Expr(Box::new(callee)),
                args: vec![plain_arg(arg)],
            })),
        })
    };
    let it_stmt = |body: Vec<Stmt>| {
        ModuleItem::Stmt(Stmt::Expr(ExprStmt {
            span: sp(39, 76),
            expr: Box::new(Expr::Call(CallExpr {
                span: sp(39, 75),
                callee: Callee::Expr(Box::new(ident_expr("it", 1, 39, 41))),
                args: vec![
                    plain_arg(Expr::Lit(Lit::Str(StrLit {
                        span: sp(42, 45),
                        value: "t".to_string(),
                    }))),
                    plain_arg(Expr::Func(power_assert::ast::FnExpr { span: sp(47, 73), body })),
                ],
            })),
        }))
    };
    let module = Module {
        span: sp(1, code.len() as u32 + 1),
        items: vec![assert_import("node:assert"), it_stmt(vec![fn_body_stmt(false)])],
    };
    let mut visitor = TransformVisitor::from_code(code.to_string());
    let result = visitor.visit_mut_module(module);

    let expected = Module {
        span: sp(1, code.len() as u32 + 1),
        items: vec![
            assert_import("node:assert"),
            runtime_import(),
            it_stmt(vec![
                runner_decl("_pasrt1", "assert(x)", None),
                recorder_decl("_parg1", "_pasrt1", 0),
                fn_body_stmt(true),
            ]),
        ],
    };
    assert_eq!(result, expected);
}

/// Retracting an unused recorder allocation reissues the same name, keeping
/// the numbering contiguous.
#[test]
fn recorder_counter_round_trips() {
    let mut visitor = TransformVisitor::default();
    let first = visitor.next_argrec_variable_name();
    assert_eq!(first, "_parg1");
    visitor.unset_argrec_variable_name();
    let reissued = visitor.next_argrec_variable_name();
    assert_eq!(reissued, "_parg1");
    let next = visitor.next_argrec_variable_name();
    assert_eq!(next, "_parg2");
    let runner = visitor.next_powered_runner_variable_name();
    assert_eq!(runner, "_pasrt1");
}

/// Decimal rendering of larger counters.
#[test]
fn names_render_decimal_counters() {
    assert_eq!(power_assert::names::runner_name(12), "_pasrt12");
    assert_eq!(power_assert::names::argrec_name(105), "_parg105");
    assert_eq!(power_assert::text::u64_to_dec(0), "0");
    assert_eq!(power_assert::text::u64_to_dec(907), "907");
}
