//! Declaration synthesizer: the site/argument records accumulated during the
//! walk, and the builders for everything the engine injects into the tree —
//! capture wrappers, hint objects, runner/recorder declarations and the
//! runtime import.

use vstd::prelude::*;
use crate::ast::{
    BinExpr, CallExpr, Callee, Expr, ExprOrSpread, GArg, GCallee, GExpr, GIdent, GImportDecl,
    GImportSpecifier, GLit, GMemberProp, GModuleItem, GProp, GSpan, GStmt, GVarDecl,
    GVarDeclarator, Ident, IdentName, ImportDecl, ImportSpecifier, KeyValueProp, Lit, MemberExpr,
    MemberProp, ModuleItem, NumLit, ObjectLit, Span, Stmt, StrLit, VarDecl, VarDeclKind,
    VarDeclarator, lemma_view_args_push, lemma_view_declarators_push, lemma_view_props_push,
    lemma_view_specifiers_push, view_arg, view_args, view_callee, view_declarators, view_expr,
    view_declarator, view_item, view_prop, view_props, view_specifier, view_specifiers, view_stmt,
};
use crate::text::str_eq;

verus! {

/// Everything remembered about one recognized assertion site.
#[derive(Debug, PartialEq)]
pub struct AssertionMetadata {
    pub ident_name: String,
    pub callee_ident_name: String,
    pub receiver_ident_name: Option<String>,
    pub assertion_code: String,
    pub assertion_start_pos: u32,
    pub contains_multibyte_char: bool,
    pub binary_op: Option<String>,
}

pub ghost struct GAssertionMeta {
    pub ident_name: Seq<char>,
    pub callee_ident_name: Seq<char>,
    pub receiver_ident_name: Option<Seq<char>>,
    pub assertion_code: Seq<char>,
    pub assertion_start_pos: int,
    pub contains_multibyte_char: bool,
    pub binary_op: Option<Seq<char>>,
}

impl AssertionMetadata {
    pub open spec fn view(&self) -> GAssertionMeta {
        GAssertionMeta {
            ident_name: self.ident_name@,
            callee_ident_name: self.callee_ident_name@,
            receiver_ident_name: match self.receiver_ident_name {
                Option::Some(ref s) => Option::Some(s@),
                Option::None => Option::None,
            },
            assertion_code: self.assertion_code@,
            assertion_start_pos: self.assertion_start_pos as int,
            contains_multibyte_char: self.contains_multibyte_char,
            binary_op: match self.binary_op {
                Option::Some(ref s) => Option::Some(s@),
                Option::None => Option::None,
            },
        }
    }
}

/// Everything remembered about one captured argument slot.
#[derive(Debug, PartialEq)]
pub struct ArgumentMetadata {
    pub is_captured: bool,
    pub ident_name: String,
    pub arg_index: usize,
    pub powered_ident_name: String,
}

pub ghost struct GArgMeta {
    pub is_captured: bool,
    pub ident_name: Seq<char>,
    pub arg_index: int,
    pub powered_ident_name: Seq<char>,
}

impl ArgumentMetadata {
    pub open spec fn view(&self) -> GArgMeta {
        GArgMeta {
            is_captured: self.is_captured,
            ident_name: self.ident_name@,
            arg_index: self.arg_index as int,
            powered_ident_name: self.powered_ident_name@,
        }
    }
}

// ---------------------------------------------------------------------------
// Ghost builders
// ---------------------------------------------------------------------------

pub open spec fn g_span_default() -> GSpan {
    GSpan { lo: 0, hi: 0 }
}

/// A synthesized identifier: no scope qualifier, no source position.
pub open spec fn g_synth_ident(sym: Seq<char>) -> GIdent {
    GIdent { sym: sym, ctxt: 0, span: g_span_default() }
}

/// A synthesized `obj.prop` member access.
pub open spec fn g_synth_member(obj: Seq<char>, prop: Seq<char>) -> GExpr {
    GExpr::Member {
        span: g_span_default(),
        obj: Box::new(GExpr::Ident(g_synth_ident(obj))),
        prop: GMemberProp::Ident { sym: prop, span: g_span_default() },
    }
}

/// `<argrec>.tap(<e>, <pos>)`: report the value and position, return the value.
pub open spec fn g_wrap_tap(argrec: Seq<char>, e: GExpr, pos: int) -> GExpr {
    GExpr::Call {
        span: g_span_default(),
        callee: GCallee::Expr(Box::new(g_synth_member(argrec, "tap"@))),
        args: seq![
            GArg { spread: false, expr: e },
            GArg {
                spread: false,
                expr: GExpr::Lit(GLit::Num { span: g_span_default(), value: pos }),
            },
        ],
    }
}

/// `<argrec>.rec(<e>)`: the light report-only wrap, without a position.
pub open spec fn g_wrap_rec(argrec: Seq<char>, e: GExpr) -> GExpr {
    GExpr::Call {
        span: g_span_default(),
        callee: GCallee::Expr(Box::new(g_synth_member(argrec, "rec"@))),
        args: seq![GArg { spread: false, expr: e }],
    }
}

/// Is `e` a capture call `<argrec>.tap(...)` for this slot's recorder?
pub open spec fn g_is_tap_call(e: GExpr, argrec: Seq<char>) -> bool {
    match e {
        GExpr::Call { span, callee, args } => match callee {
            GCallee::Expr(ce) => match *ce {
                GExpr::Member { span: msp, obj, prop } => match prop {
                    GMemberProp::Ident { sym, span: psp } => match *obj {
                        GExpr::Ident(oi) => oi.sym == argrec && sym == "tap"@,
                        _ => false,
                    },
                    _ => false,
                },
                _ => false,
            },
            GCallee::Other => false,
        },
        _ => false,
    }
}

/// Demote a direct capture call from `tap` to `rec`, keeping its arguments:
/// the argument's own value is already bound to the recorder, so it only
/// needs the report, not the position-and-return form.
pub open spec fn g_demote_tap(e: GExpr, argrec: Seq<char>) -> GExpr {
    if g_is_tap_call(e, argrec) {
        match e {
            GExpr::Call { span, callee, args } => match callee {
                GCallee::Expr(ce) => match *ce {
                    GExpr::Member { span: msp, obj, prop } => match prop {
                        GMemberProp::Ident { sym, span: psp } => GExpr::Call {
                            span,
                            callee: GCallee::Expr(
                                Box::new(
                                    GExpr::Member {
                                        span: msp,
                                        obj,
                                        prop: GMemberProp::Ident { sym: "rec"@, span: psp },
                                    },
                                ),
                            ),
                            args,
                        },
                        _ => e,
                    },
                    _ => e,
                },
                _ => e,
            },
            _ => e,
        }
    } else {
        e
    }
}

/// The `{ hint: "<h>" }` object attached to a comparison operand's capture.
pub open spec fn g_hint_object(h: Seq<char>) -> GExpr {
    GExpr::Object {
        span: g_span_default(),
        props: seq![
            GProp {
                key: "hint"@,
                value: GExpr::Lit(GLit::Str { span: g_span_default(), value: h }),
            },
        ],
    }
}

/// Append a hint argument to a capture call, when `e` is one.
pub open spec fn g_add_hint_if_tap(e: GExpr, argrec: Seq<char>, h: Seq<char>) -> GExpr {
    if g_is_tap_call(e, argrec) {
        match e {
            GExpr::Call { span, callee, args } => GExpr::Call {
                span,
                callee,
                args: args.push(GArg { spread: false, expr: g_hint_object(h) }),
            },
            _ => e,
        }
    } else {
        e
    }
}

/// When the walked argument is a captured top-level comparison, attach the
/// `"left"`/`"right"` side hints to the operands' capture calls.
pub open spec fn g_apply_binexp_hint(e: GExpr, argrec: Seq<char>) -> GExpr {
    if g_is_tap_call(e, argrec) {
        match e {
            GExpr::Call { span, callee, args } => {
                if args.len() >= 1 {
                    match args[0].expr {
                        GExpr::Bin { span: bsp, op, left, right } => {
                            let new_bin = GExpr::Bin {
                                span: bsp,
                                op,
                                left: Box::new(g_add_hint_if_tap(*left, argrec, "left"@)),
                                right: Box::new(g_add_hint_if_tap(*right, argrec, "right"@)),
                            };
                            GExpr::Call {
                                span,
                                callee,
                                args: args.update(
                                    0,
                                    GArg { spread: args[0].spread, expr: new_bin },
                                ),
                            }
                        },
                        _ => e,
                    }
                } else {
                    e
                }
            },
            _ => e,
        }
    } else {
        e
    }
}

/// The callee that rewires a captured assertion: `<runner>.run`.
pub open spec fn g_powered_run_callee(powered: Seq<char>) -> GCallee {
    GCallee::Expr(Box::new(g_synth_member(powered, "run"@)))
}

/// `const <name> = <init>;`
pub open spec fn g_const_decl(sym: Seq<char>, init: GExpr) -> GStmt {
    GStmt::VarDecl(
        GVarDecl {
            span: g_span_default(),
            kind: VarDeclKind::Const,
            decls: seq![
                GVarDeclarator {
                    span: g_span_default(),
                    name: g_synth_ident(sym),
                    init: Option::Some(init),
                },
            ],
        },
    )
}

/// `const <recorder> = <runner>.recorder(<argIndex>);`
pub open spec fn g_argrec_decl(m: GArgMeta) -> GStmt {
    g_const_decl(
        m.ident_name,
        GExpr::Call {
            span: g_span_default(),
            callee: GCallee::Expr(Box::new(g_synth_member(m.powered_ident_name, "recorder"@))),
            args: seq![
                GArg {
                    spread: false,
                    expr: GExpr::Lit(GLit::Num { span: g_span_default(), value: m.arg_index }),
                },
            ],
        },
    )
}

/// The original callee expression a runner proxies to: `receiver.callee` for a
/// member-form assertion, the bare callee identifier otherwise.
pub open spec fn g_runner_target(m: GAssertionMeta) -> GExpr {
    match m.receiver_ident_name {
        Option::Some(r) => g_synth_member(r, m.callee_ident_name),
        Option::None => GExpr::Ident(g_synth_ident(m.callee_ident_name)),
    }
}

/// The receiver argument of the runner: the receiver identifier, or `null`.
pub open spec fn g_runner_receiver(m: GAssertionMeta) -> GExpr {
    match m.receiver_ident_name {
        Option::Some(r) => GExpr::Ident(g_synth_ident(r)),
        Option::None => GExpr::Lit(GLit::Null { span: g_span_default() }),
    }
}

/// The runner's arguments: original callee, receiver-or-null, the verbatim
/// assertion text, and — for a one-argument comparison assertion — the
/// `{ binexp: "<op>" }` hint object.
pub open spec fn g_runner_args(m: GAssertionMeta) -> Seq<GArg> {
    let base = seq![
        GArg { spread: false, expr: g_runner_target(m) },
        GArg { spread: false, expr: g_runner_receiver(m) },
        GArg {
            spread: false,
            expr: GExpr::Lit(GLit::Str { span: g_span_default(), value: m.assertion_code }),
        },
    ];
    match m.binary_op {
        Option::Some(op) => base.push(
            GArg {
                spread: false,
                expr: GExpr::Object {
                    span: g_span_default(),
                    props: seq![
                        GProp {
                            key: "binexp"@,
                            value: GExpr::Lit(GLit::Str { span: g_span_default(), value: op }),
                        },
                    ],
                },
            },
        ),
        Option::None => base,
    }
}

/// `const <runner> = _power_(<callee>, <receiver-or-null>, "<text>"[, {binexp}]);`
pub open spec fn g_runner_decl(m: GAssertionMeta) -> GStmt {
    g_const_decl(
        m.ident_name,
        GExpr::Call {
            span: g_span_default(),
            callee: GCallee::Expr(Box::new(GExpr::Ident(g_synth_ident("_power_"@)))),
            args: g_runner_args(m),
        },
    )
}

/// `import { _power_ } from "@power-assert/runtime";`
pub open spec fn g_runtime_import() -> GModuleItem {
    GModuleItem::Import(
        GImportDecl {
            span: g_span_default(),
            src: "@power-assert/runtime"@,
            specifiers: seq![
                GImportSpecifier::Named {
                    local: g_synth_ident("_power_"@),
                    imported: Option::None,
                },
            ],
        },
    )
}

// ---------------------------------------------------------------------------
// Executable builders
// ---------------------------------------------------------------------------

pub fn span_default() -> (sp: Span)
    ensures
        sp.view() == g_span_default(),
{
    Span { lo: 0, hi: 0 }
}

pub fn make_ident(sym: &str) -> (i: Ident)
    ensures
        i.view() == g_synth_ident(sym@),
{
    Ident { sym: sym.to_owned(), ctxt: 0, span: span_default() }
}

/// Build a synthesized `obj.prop` member access.
pub fn make_synth_member(obj: &str, prop: &str) -> (e: Expr)
    ensures
        view_expr(e) == g_synth_member(obj@, prop@),
{
    let oid = Expr::Ident(make_ident(obj));
    proof {
        assert(view_expr(oid) == GExpr::Ident(g_synth_ident(obj@)));
    }
    let e = Expr::Member(
        MemberExpr {
            span: span_default(),
            obj: Box::new(oid),
            prop: MemberProp::Ident(IdentName { sym: prop.to_owned(), span: span_default() }),
        },
    );
    e
}

/// Build `<argrec>.tap(<e>, <pos>)`.
pub fn build_tap_call(argrec: &str, e: Expr, pos: u32) -> (r: Expr)
    ensures
        view_expr(r) == g_wrap_tap(argrec@, view_expr(e), pos as int),
{
    let ghost ev = view_expr(e);
    let mut args: Vec<ExprOrSpread> = Vec::new();
    args.push(ExprOrSpread { spread: false, expr: Box::new(e) });
    let ghost s1 = args@;
    args.push(
        ExprOrSpread {
            spread: false,
            expr: Box::new(Expr::Lit(Lit::Num(NumLit { span: span_default(), value: pos as u64 }))),
        },
    );
    let member = make_synth_member(argrec, "tap");
    let callee = Callee::Expr(Box::new(member));
    proof {
        assert(view_callee(callee) == GCallee::Expr(Box::new(g_synth_member(argrec@, "tap"@))));
    }
    let r = Expr::Call(CallExpr { span: span_default(), callee, args });
    proof {
        lemma_view_args_push(Seq::<ExprOrSpread>::empty(), s1[0]);
        assert(view_args(Seq::<ExprOrSpread>::empty()) =~= Seq::<GArg>::empty());
        assert(s1 =~= Seq::<ExprOrSpread>::empty().push(s1[0]));
        lemma_view_args_push(s1, args@[1]);
        assert(args@ =~= s1.push(args@[1]));
        assert(view_arg(args@[0]) == GArg { spread: false, expr: ev });
        assert(view_arg(args@[1]) == GArg {
            spread: false,
            expr: GExpr::Lit(GLit::Num { span: g_span_default(), value: pos as int }),
        }) by {
            assert(view_expr(Expr::Lit(Lit::Num(NumLit { span: Span { lo: 0, hi: 0 }, value: pos as u64 })))
                == GExpr::Lit(GLit::Num { span: g_span_default(), value: pos as int }));
        }
        assert(view_args(args@) =~= seq![view_arg(args@[0]), view_arg(args@[1])]);
        assert(view_args(args@) == seq![
            GArg { spread: false, expr: ev },
            GArg {
                spread: false,
                expr: GExpr::Lit(GLit::Num { span: g_span_default(), value: pos as int }),
            },
        ]);
    }
    r
}

/// Build `<argrec>.rec(<e>)` — the report-only wrap used to close a slot.
pub fn wrap_with_rec_without_pos(argrec: &str, e: Expr) -> (r: Expr)
    ensures
        view_expr(r) == g_wrap_rec(argrec@, view_expr(e)),
{
    let ghost ev = view_expr(e);
    let mut args: Vec<ExprOrSpread> = Vec::new();
    args.push(ExprOrSpread { spread: false, expr: Box::new(e) });
    let member = make_synth_member(argrec, "rec");
    let callee = Callee::Expr(Box::new(member));
    proof {
        assert(view_callee(callee) == GCallee::Expr(Box::new(g_synth_member(argrec@, "rec"@))));
    }
    let r = Expr::Call(CallExpr { span: span_default(), callee, args });
    proof {
        lemma_view_args_push(Seq::<ExprOrSpread>::empty(), args@[0]);
        assert(args@ =~= Seq::<ExprOrSpread>::empty().push(args@[0]));
        assert(view_args(Seq::<ExprOrSpread>::empty()) =~= Seq::<GArg>::empty());
        assert(view_arg(args@[0]) == GArg { spread: false, expr: ev });
        assert(view_args(args@) =~= seq![view_arg(args@[0])]);
        assert(view_args(args@) == seq![GArg { spread: false, expr: ev }]);
    }
    r
}

/// Is `e` a capture call `<argrec>.tap(...)`?
pub fn is_tap_call(e: &Expr, argrec: &str) -> (r: bool)
    ensures
        r == g_is_tap_call(view_expr(*e), argrec@),
{
    match e {
        Expr::Call(c) => {
            proof {
                assert(view_expr(*e) == GExpr::Call {
                    span: c.span.view(),
                    callee: view_callee(c.callee),
                    args: view_args(c.args@),
                });
            }
            match &c.callee {
                Callee::Expr(ce) => {
                    proof {
                        assert(view_callee(c.callee) == GCallee::Expr(
                            Box::new(view_expr(**ce)),
                        ));
                    }
                    match &**ce {
                        Expr::Member(m) => {
                            match &m.prop {
                                MemberProp::Ident(pn) => {
                                    proof {
                                        assert(view_expr(**ce) == GExpr::Member {
                                            span: m.span.view(),
                                            obj: Box::new(view_expr(*m.obj)),
                                            prop: GMemberProp::Ident {
                                                sym: pn.sym@,
                                                span: pn.span.view(),
                                            },
                                        });
                                    }
                                    match &*m.obj {
                                        Expr::Ident(oi) => {
                                            proof {
                                                assert(view_expr(*m.obj) == GExpr::Ident(
                                                    oi.view(),
                                                ));
                                            }
                                            let same_obj = str_eq(oi.sym.as_str(), argrec);
                                            let is_tap = str_eq(pn.sym.as_str(), "tap");
                                            same_obj && is_tap
                                        },
                                        _ => false,
                                    }
                                },
                                MemberProp::Computed(_) => {
                                    proof {
                                        assert(!(view_expr(**ce) is Ident));
                                        assert(view_expr(**ce) matches GExpr::Member {
                                            prop: GMemberProp::Computed { .. },
                                            ..
                                        });
                                    }
                                    false
                                },
                            }
                        },
                        _ => false,
                    }
                },
                Callee::Other => false,
            }
        },
        _ => false,
    }
}

/// If the argument's root is a capture call for this recorder, demote it from
/// `tap` to `rec`; report whether it was.
pub fn replace_with_rec_if_tap_exists_directly_under_the_arg(
    arg: ExprOrSpread,
    argrec: &str,
) -> (r: (ExprOrSpread, bool))
    ensures
        r.1 == g_is_tap_call(view_arg(arg).expr, argrec@),
        view_arg(r.0) == (GArg {
            spread: arg.spread,
            expr: g_demote_tap(view_arg(arg).expr, argrec@),
        }),
{
    let tap = is_tap_call(&*arg.expr, argrec);
    if !tap {
        return (arg, false);
    }
    let ghost ev = view_expr(*arg.expr);
    let spread = arg.spread;
    match *arg.expr {
        Expr::Call(c) => {
            proof {
                assert(ev == GExpr::Call {
                    span: c.span.view(),
                    callee: view_callee(c.callee),
                    args: view_args(c.args@),
                });
            }
            match c.callee {
                Callee::Expr(ce) => {
                    proof {
                        assert(view_callee(Callee::Expr(ce)) == GCallee::Expr(
                            Box::new(view_expr(*ce)),
                        ));
                    }
                    match *ce {
                        Expr::Member(m) => {
                            match m.prop {
                                MemberProp::Ident(pn) => {
                                    proof {
                                        assert(view_expr(Expr::Member(MemberExpr {
                                            span: m.span,
                                            obj: m.obj,
                                            prop: MemberProp::Ident(IdentName {
                                                sym: pn.sym,
                                                span: pn.span,
                                            }),
                                        })) == GExpr::Member {
                                            span: m.span.view(),
                                            obj: Box::new(view_expr(*m.obj)),
                                            prop: GMemberProp::Ident {
                                                sym: pn.sym@,
                                                span: pn.span.view(),
                                            },
                                        });
                                    }
                                    let new_member = Expr::Member(
                                        MemberExpr {
                                            span: m.span,
                                            obj: m.obj,
                                            prop: MemberProp::Ident(
                                                IdentName {
                                                    sym: "rec".to_owned(),
                                                    span: pn.span,
                                                },
                                            ),
                                        },
                                    );
                                    proof {
                                        assert(view_expr(new_member) == GExpr::Member {
                                            span: m.span.view(),
                                            obj: Box::new(view_expr(*m.obj)),
                                            prop: GMemberProp::Ident {
                                                sym: "rec"@,
                                                span: pn.span.view(),
                                            },
                                        });
                                    }
                                    let out = Expr::Call(
                                        CallExpr {
                                            span: c.span,
                                            callee: Callee::Expr(Box::new(new_member)),
                                            args: c.args,
                                        },
                                    );
                                    (ExprOrSpread { spread, expr: Box::new(out) }, true)
                                },
                                MemberProp::Computed(cp) => {
                                    let orig = Expr::Call(
                                        CallExpr {
                                            span: c.span,
                                            callee: Callee::Expr(
                                                Box::new(
                                                    Expr::Member(
                                                        MemberExpr {
                                                            span: m.span,
                                                            obj: m.obj,
                                                            prop: MemberProp::Computed(cp),
                                                        },
                                                    ),
                                                ),
                                            ),
                                            args: c.args,
                                        },
                                    );
                                    (ExprOrSpread { spread, expr: Box::new(orig) }, true)
                                },
                            }
                        },
                        other => {
                            let orig = Expr::Call(
                                CallExpr {
                                    span: c.span,
                                    callee: Callee::Expr(Box::new(other)),
                                    args: c.args,
                                },
                            );
                            (ExprOrSpread { spread, expr: Box::new(orig) }, true)
                        },
                    }
                },
                Callee::Other => {
                    let orig = Expr::Call(
                        CallExpr { span: c.span, callee: Callee::Other, args: c.args },
                    );
                    (ExprOrSpread { spread, expr: Box::new(orig) }, true)
                },
            }
        },
        other => (ExprOrSpread { spread, expr: Box::new(other) }, true),
    }
}

/// Build the `{ hint: "<h>" }` object.
pub fn create_hint_object(h: &str) -> (r: Expr)
    ensures
        view_expr(r) == g_hint_object(h@),
{
    let value = Expr::Lit(Lit::Str(StrLit { span: span_default(), value: h.to_owned() }));
    proof {
        assert(view_expr(value) == GExpr::Lit(GLit::Str { span: g_span_default(), value: h@ }));
    }
    let mut props: Vec<KeyValueProp> = Vec::new();
    props.push(KeyValueProp { key: "hint".to_owned(), value: Box::new(value) });
    let r = Expr::Object(ObjectLit { span: span_default(), props });
    proof {
        lemma_view_props_push(Seq::<KeyValueProp>::empty(), props@[0]);
        assert(props@ =~= Seq::<KeyValueProp>::empty().push(props@[0]));
        assert(view_props(Seq::<KeyValueProp>::empty()) =~= Seq::<GProp>::empty());
        assert(view_prop(props@[0]) == GProp {
            key: "hint"@,
            value: GExpr::Lit(GLit::Str { span: g_span_default(), value: h@ }),
        });
        assert(view_props(props@) =~= seq![view_prop(props@[0])]);
        assert(view_props(props@) == seq![
            GProp {
                key: "hint"@,
                value: GExpr::Lit(GLit::Str { span: g_span_default(), value: h@ }),
            },
        ]);
    }
    r
}

/// Append a hint argument to `e` when it is a capture call for this recorder.
pub fn add_hint_if_tap(e: Expr, argrec: &str, h: &str) -> (r: Expr)
    ensures
        view_expr(r) == g_add_hint_if_tap(view_expr(e), argrec@, h@),
{
    let tap = is_tap_call(&e, argrec);
    if !tap {
        return e;
    }
    let ghost ev = view_expr(e);
    match e {
        Expr::Call(c) => {
            proof {
                assert(ev == GExpr::Call {
                    span: c.span.view(),
                    callee: view_callee(c.callee),
                    args: view_args(c.args@),
                });
            }
            let ghost args0 = c.args@;
            let hint = create_hint_object(h);
            let mut args = c.args;
            args.push(ExprOrSpread { spread: false, expr: Box::new(hint) });
            proof {
                lemma_view_args_push(args0, args@[args@.len() - 1]);
                assert(args@ =~= args0.push(args@[args@.len() - 1]));
                assert(view_arg(args@[args@.len() - 1]) == GArg {
                    spread: false,
                    expr: g_hint_object(h@),
                });
                assert(view_args(args@) =~= view_args(args0).push(GArg {
                    spread: false,
                    expr: g_hint_object(h@),
                }));
            }
            Expr::Call(CallExpr { span: c.span, callee: c.callee, args })
        },
        other => other,
    }
}

/// Attach `"left"`/`"right"` hints to the operand captures of a captured
/// top-level comparison argument.
pub fn apply_binexp_hint(arg: ExprOrSpread, argrec: &str) -> (r: ExprOrSpread)
    ensures
        view_arg(r) == (GArg {
            spread: arg.spread,
            expr: g_apply_binexp_hint(view_arg(arg).expr, argrec@),
        }),
{
    let tap = is_tap_call(&*arg.expr, argrec);
    if !tap {
        return arg;
    }
    let ghost ev = view_expr(*arg.expr);
    let spread = arg.spread;
    match *arg.expr {
        Expr::Call(c) => {
            proof {
                assert(ev == GExpr::Call {
                    span: c.span.view(),
                    callee: view_callee(c.callee),
                    args: view_args(c.args@),
                });
            }
            let mut args = c.args;
            if args.len() == 0 {
                proof {
                    assert(view_args(args@).len() == 0);
                }
                let orig = Expr::Call(CallExpr { span: c.span, callee: c.callee, args });
                return ExprOrSpread { spread, expr: Box::new(orig) };
            }
            let ghost args0 = args@;
            let first = args.remove(0);
            proof {
                assert(args0[0] == first);
                assert(args@ =~= args0.drop_first());
                assert(view_args(args0) == seq![view_arg(args0[0])] + view_args(
                    args0.drop_first(),
                ));
            }
            let first_spread = first.spread;
            match *first.expr {
                Expr::Bin(b) => {
                    proof {
                        assert(view_arg(args0[0]).expr == GExpr::Bin {
                            span: b.span.view(),
                            op: b.op@,
                            left: Box::new(view_expr(*b.left)),
                            right: Box::new(view_expr(*b.right)),
                        });
                    }
                    let left2 = add_hint_if_tap(*b.left, argrec, "left");
                    let right2 = add_hint_if_tap(*b.right, argrec, "right");
                    let new_bin = Expr::Bin(
                        BinExpr {
                            span: b.span,
                            op: b.op,
                            left: Box::new(left2),
                            right: Box::new(right2),
                        },
                    );
                    let new_first = ExprOrSpread { spread: first_spread, expr: Box::new(new_bin) };
                    args.insert(0, new_first);
                    proof {
                        assert(args@ =~= args0.drop_first().insert(0, new_first));
                        assert(args@[0] == new_first);
                        assert(args@.drop_first() =~= args0.drop_first());
                        assert(view_args(args@) == seq![view_arg(args@[0])] + view_args(
                            args@.drop_first(),
                        ));
                        assert(view_args(args@) =~= view_args(args0).update(
                            0,
                            view_arg(new_first),
                        ));
                    }
                    let out = Expr::Call(CallExpr { span: c.span, callee: c.callee, args });
                    ExprOrSpread { spread, expr: Box::new(out) }
                },
                other => {
                    let back = ExprOrSpread { spread: first_spread, expr: Box::new(other) };
                    args.insert(0, back);
                    proof {
                        assert(args@ =~= args0.drop_first().insert(0, back));
                        assert(args@[0] == back);
                        assert(view_arg(back) == view_arg(args0[0]));
                        assert(args@.drop_first() =~= args0.drop_first());
                        assert(view_args(args@) == seq![view_arg(args@[0])] + view_args(
                            args@.drop_first(),
                        ));
                        assert(view_args(args@) =~= view_args(args0));
                    }
                    let out = Expr::Call(CallExpr { span: c.span, callee: c.callee, args });
                    ExprOrSpread { spread, expr: Box::new(out) }
                },
            }
        },
        other => ExprOrSpread { spread, expr: Box::new(other) },
    }
}

/// The callee `<runner>.run` that replaces a captured assertion's callee.
pub fn replace_callee_with_powered_run(powered_ident_name: &str) -> (r: Callee)
    ensures
        view_callee(r) == g_powered_run_callee(powered_ident_name@),
{
    let member = make_synth_member(powered_ident_name, "run");
    Callee::Expr(Box::new(member))
}

/// Build `const <name> = <init>;`.
pub fn build_const_decl(sym: &str, init: Expr) -> (r: Stmt)
    ensures
        view_stmt(r) == g_const_decl(sym@, view_expr(init)),
{
    let ghost iv = view_expr(init);
    let name = make_ident(sym);
    let mut decls: Vec<VarDeclarator> = Vec::new();
    decls.push(VarDeclarator { span: span_default(), name, init: Some(Box::new(init)) });
    let r = Stmt::VarDecl(VarDecl { span: span_default(), kind: VarDeclKind::Const, decls });
    proof {
        lemma_view_declarators_push(Seq::<VarDeclarator>::empty(), decls@[0]);
        assert(decls@ =~= Seq::<VarDeclarator>::empty().push(decls@[0]));
        assert(view_declarators(Seq::<VarDeclarator>::empty())
            =~= Seq::<GVarDeclarator>::empty());
        assert(view_declarators(decls@) =~= seq![view_declarator(decls@[0])]);
        assert(view_declarator(decls@[0]) == (GVarDeclarator {
            span: g_span_default(),
            name: g_synth_ident(sym@),
            init: Option::Some(iv),
        }));
    }
    r
}

/// Build `const <recorder> = <runner>.recorder(<argIndex>);`.
pub fn create_argrec_decl(argument_metadata: &ArgumentMetadata) -> (r: Stmt)
    ensures
        view_stmt(r) == g_argrec_decl(argument_metadata.view()),
{
    let member = make_synth_member(argument_metadata.powered_ident_name.as_str(), "recorder");
    let callee = Callee::Expr(Box::new(member));
    proof {
        assert(view_callee(callee) == GCallee::Expr(Box::new(g_synth_member(
            argument_metadata.powered_ident_name@,
            "recorder"@,
        ))));
    }
    let idx = Expr::Lit(
        Lit::Num(NumLit { span: span_default(), value: argument_metadata.arg_index as u64 }),
    );
    proof {
        assert(view_expr(idx) == GExpr::Lit(GLit::Num {
            span: g_span_default(),
            value: argument_metadata.arg_index as int,
        }));
    }
    let mut args: Vec<ExprOrSpread> = Vec::new();
    args.push(ExprOrSpread { spread: false, expr: Box::new(idx) });
    proof {
        lemma_view_args_push(Seq::<ExprOrSpread>::empty(), args@[0]);
        assert(args@ =~= Seq::<ExprOrSpread>::empty().push(args@[0]));
        assert(view_args(Seq::<ExprOrSpread>::empty()) =~= Seq::<GArg>::empty());
        assert(view_args(args@) =~= seq![view_arg(args@[0])]);
        assert(view_args(args@) == seq![
            GArg {
                spread: false,
                expr: GExpr::Lit(GLit::Num {
                    span: g_span_default(),
                    value: argument_metadata.arg_index as int,
                }),
            },
        ]);
    }
    let init = Expr::Call(CallExpr { span: span_default(), callee, args });
    build_const_decl(argument_metadata.ident_name.as_str(), init)
}

/// Build the runner's argument list: original callee, receiver-or-null, the
/// verbatim assertion text, and the optional comparison hint.
fn build_runner_args(assertion_metadata: &AssertionMetadata) -> (r: Vec<ExprOrSpread>)
    ensures
        view_args(r@) == g_runner_args(assertion_metadata.view()),
{
    let ghost m = assertion_metadata.view();
    let target = match &assertion_metadata.receiver_ident_name {
        Some(receiver_ident_name) => {
            let t = make_synth_member(
                receiver_ident_name.as_str(),
                assertion_metadata.callee_ident_name.as_str(),
            );
            proof {
                assert(view_expr(t) == g_runner_target(m));
            }
            t
        },
        None => {
            let t = Expr::Ident(make_ident(assertion_metadata.callee_ident_name.as_str()));
            proof {
                assert(view_expr(t) == g_runner_target(m));
            }
            t
        },
    };
    let receiver = match &assertion_metadata.receiver_ident_name {
        Some(receiver_ident_name) => {
            let t = Expr::Ident(make_ident(receiver_ident_name.as_str()));
            proof {
                assert(view_expr(t) == g_runner_receiver(m));
            }
            t
        },
        None => {
            let t = Expr::Lit(Lit::Null(span_default()));
            proof {
                assert(view_expr(t) == g_runner_receiver(m));
            }
            t
        },
    };
    let text = Expr::Lit(
        Lit::Str(
            StrLit { span: span_default(), value: assertion_metadata.assertion_code.clone() },
        ),
    );
    proof {
        assert(view_expr(text) == GExpr::Lit(GLit::Str {
            span: g_span_default(),
            value: m.assertion_code,
        }));
    }
    let mut args: Vec<ExprOrSpread> = Vec::new();
    args.push(ExprOrSpread { spread: false, expr: Box::new(target) });
    let ghost s1 = args@;
    args.push(ExprOrSpread { spread: false, expr: Box::new(receiver) });
    let ghost s2 = args@;
    args.push(ExprOrSpread { spread: false, expr: Box::new(text) });
    let ghost s3 = args@;
    proof {
        lemma_view_args_push(Seq::<ExprOrSpread>::empty(), s1[0]);
        assert(s1 =~= Seq::<ExprOrSpread>::empty().push(s1[0]));
        assert(view_args(Seq::<ExprOrSpread>::empty()) =~= Seq::<GArg>::empty());
        assert(view_args(s1) =~= seq![view_arg(s1[0])]);
        lemma_view_args_push(s1, s2[1]);
        assert(s2 =~= s1.push(s2[1]));
        lemma_view_args_push(s2, s3[2]);
        assert(s3 =~= s2.push(s3[2]));
        assert(view_args(s3) =~= seq![view_arg(s3[0]), view_arg(s3[1]), view_arg(s3[2])]);
        assert(view_args(s3) == seq![
            GArg { spread: false, expr: g_runner_target(m) },
            GArg { spread: false, expr: g_runner_receiver(m) },
            GArg {
                spread: false,
                expr: GExpr::Lit(GLit::Str { span: g_span_default(), value: m.assertion_code }),
            },
        ]);
    }
    if let Some(op) = &assertion_metadata.binary_op {
        let opval = Expr::Lit(Lit::Str(StrLit { span: span_default(), value: op.clone() }));
        proof {
            assert(view_expr(opval) == GExpr::Lit(GLit::Str {
                span: g_span_default(),
                value: m.binary_op->Some_0,
            }));
        }
        let mut props: Vec<KeyValueProp> = Vec::new();
        props.push(KeyValueProp { key: "binexp".to_owned(), value: Box::new(opval) });
        let obj = Expr::Object(ObjectLit { span: span_default(), props });
        proof {
            lemma_view_props_push(Seq::<KeyValueProp>::empty(), props@[0]);
            assert(props@ =~= Seq::<KeyValueProp>::empty().push(props@[0]));
            assert(view_props(Seq::<KeyValueProp>::empty()) =~= Seq::<GProp>::empty());
            assert(view_props(props@) =~= seq![view_prop(props@[0])]);
            assert(view_expr(obj) == GExpr::Object {
                span: g_span_default(),
                props: seq![
                    GProp {
                        key: "binexp"@,
                        value: GExpr::Lit(GLit::Str {
                            span: g_span_default(),
                            value: m.binary_op->Some_0,
                        }),
                    },
                ],
            });
        }
        args.push(ExprOrSpread { spread: false, expr: Box::new(obj) });
        proof {
            lemma_view_args_push(s3, args@[3]);
            assert(args@ =~= s3.push(args@[3]));
            assert(view_args(args@) =~= g_runner_args(m));
        }
    } else {
        proof {
            assert(view_args(args@) =~= g_runner_args(m));
        }
    }
    args
}

/// Build `const <runner> = _power_(<callee>, <receiver-or-null>, "<text>"[, {binexp}]);`.
pub fn create_powered_runner_decl(assertion_metadata: &AssertionMetadata) -> (r: Stmt)
    ensures
        view_stmt(r) == g_runner_decl(assertion_metadata.view()),
{
    let ghost m = assertion_metadata.view();
    let args = build_runner_args(assertion_metadata);
    let power = Expr::Ident(make_ident("_power_"));
    proof {
        assert(view_expr(power) == GExpr::Ident(g_synth_ident("_power_"@)));
    }
    let callee = Callee::Expr(Box::new(power));
    proof {
        assert(view_callee(callee) == GCallee::Expr(
            Box::new(GExpr::Ident(g_synth_ident("_power_"@))),
        ));
    }
    let init = Expr::Call(CallExpr { span: span_default(), callee, args });
    proof {
        assert(view_expr(init) == (GExpr::Call {
            span: g_span_default(),
            callee: GCallee::Expr(Box::new(GExpr::Ident(g_synth_ident("_power_"@)))),
            args: g_runner_args(m),
        }));
    }
    build_const_decl(assertion_metadata.ident_name.as_str(), init)
}

/// Build the one-time `import { _power_ } from "@power-assert/runtime";`.
pub fn create_power_assert_runtime_import_decl() -> (r: ModuleItem)
    ensures
        view_item(r) == g_runtime_import(),
{
    let local = make_ident("_power_");
    let mut specifiers: Vec<ImportSpecifier> = Vec::new();
    specifiers.push(ImportSpecifier::Named { local, imported: None });
    let r = ModuleItem::Import(
        ImportDecl {
            span: span_default(),
            src: "@power-assert/runtime".to_owned(),
            specifiers,
        },
    );
    proof {
        lemma_view_specifiers_push(Seq::<ImportSpecifier>::empty(), specifiers@[0]);
        assert(specifiers@ =~= Seq::<ImportSpecifier>::empty().push(specifiers@[0]));
        assert(view_specifiers(Seq::<ImportSpecifier>::empty())
            =~= Seq::<GImportSpecifier>::empty());
        assert(view_specifiers(specifiers@) =~= seq![view_specifier(specifiers@[0])]);
        assert(view_specifiers(specifiers@) == seq![
            GImportSpecifier::Named { local: g_synth_ident("_power_"@), imported: Option::None },
        ]);
    }
    r
}

} // verus!
