//! Capture policy / tree walker: the recursive traversal over one assertion
//! argument that wraps every reportable sub-expression in a capture call,
//! suppressing the constructs whose capture would change evaluation or add no
//! diagnostic value.
//!
//! The one-shot "do not capture the next descended node" flag is threaded
//! in and out of every visit, exactly as the engine consumes it: parentheses,
//! comma expressions and function literals pass it through untouched; every
//! other node consumes it on entry.

use vstd::prelude::*;
use crate::ast::{
    CallExpr, Callee, ComputedPropName, CondExpr, Expr, ExprOrSpread, GArg, GCallee, GExpr,
    GMemberProp, GProp, GSpan, KeyValueProp, MemberExpr, MemberProp, NewExpr, ObjectLit,
    ParenExpr, SequenceExpr, UnaryExpr, UnaryOp, UpdateExpr, AwaitExpr, AssignExpr, BinExpr,
    size_args, size_expr, size_exprs, size_props, view_arg, view_args, view_callee, view_expr,
    view_exprs, view_prop, view_props,
};
use crate::pos::{
    calculate_utf16_pos, g_args_site_ok, g_expr_site_ok, g_exprs_site_ok, g_props_site_ok,
    g_utf16_pos,
};
use crate::synth::{build_tap_call, g_wrap_tap};
use crate::text::{utf16_len, utf8_len};

verus! {

/// The constant context of one argument walk: the assertion's start position
/// and verbatim text, its multi-byte flag, and the slot's recorder name.
pub ghost struct GWalkCtx {
    pub start: int,
    pub code: Seq<char>,
    pub multibyte: bool,
    pub argrec: Seq<char>,
}

impl GWalkCtx {
    /// The context's cached flag matches the text and positions fit the
    /// machine's arithmetic.
    pub open spec fn wf(self) -> bool {
        &&& self.multibyte == (utf16_len(self.code) < utf8_len(self.code))
        &&& utf8_len(self.code) <= u32::MAX
        &&& 0 <= self.start <= u32::MAX
    }
}

pub ghost struct GWalkOut {
    pub expr: GExpr,
    pub sup: bool,
    pub cap: bool,
}

pub ghost struct GWalkExprsOut {
    pub exprs: Seq<GExpr>,
    pub sup: bool,
    pub cap: bool,
}

pub ghost struct GWalkArgsOut {
    pub args: Seq<GArg>,
    pub sup: bool,
    pub cap: bool,
}

pub ghost struct GWalkPropsOut {
    pub props: Seq<GProp>,
    pub sup: bool,
    pub cap: bool,
}

/// Visit one expression while a slot is active. Comma and parenthesized
/// expressions only descend (they have no reportable value of their own), a
/// function literal is skipped whole, and every other node computes its
/// position, descends, and is wrapped in a capture call unless the one-shot
/// suppression flag was set for it.
pub open spec fn g_walk(c: GWalkCtx, sup: bool, e: GExpr) -> GWalkOut
    decreases size_expr(e), 1nat,
{
    match e {
        GExpr::Sequence { span, exprs } => {
            let o = g_walk_exprs(c, sup, exprs);
            GWalkOut { expr: GExpr::Sequence { span, exprs: o.exprs }, sup: o.sup, cap: o.cap }
        },
        GExpr::Paren { span, expr } => {
            let o = g_walk(c, sup, *expr);
            GWalkOut { expr: GExpr::Paren { span, expr: Box::new(o.expr) }, sup: o.sup, cap: o.cap }
        },
        GExpr::Func { .. } => GWalkOut { expr: e, sup, cap: false },
        _ => {
            let pos = g_utf16_pos(e, c.start, c.code);
            let o = g_walk_children(c, e);
            if !sup {
                GWalkOut { expr: g_wrap_tap(c.argrec, o.expr, pos), sup: o.sup, cap: true }
            } else {
                GWalkOut { expr: o.expr, sup: o.sup, cap: o.cap }
            }
        },
    }
}

/// Descend into an expression's children, dispatching the per-kind policy.
/// Entered with the suppression flag already consumed (false).
pub open spec fn g_walk_children(c: GWalkCtx, e: GExpr) -> GWalkOut
    decreases size_expr(e), 0nat,
{
    match e {
        GExpr::Member { span, obj, prop } => {
            let o1 = g_walk(c, false, *obj);
            match prop {
                GMemberProp::Ident { sym, span: psp } => GWalkOut {
                    expr: GExpr::Member {
                        span,
                        obj: Box::new(o1.expr),
                        prop: GMemberProp::Ident { sym, span: psp },
                    },
                    sup: o1.sup,
                    cap: o1.cap,
                },
                GMemberProp::Computed { span: psp, expr } => {
                    let o2 = g_walk(c, o1.sup, *expr);
                    GWalkOut {
                        expr: GExpr::Member {
                            span,
                            obj: Box::new(o1.expr),
                            prop: GMemberProp::Computed { span: psp, expr: Box::new(o2.expr) },
                        },
                        sup: o2.sup,
                        cap: o1.cap || o2.cap,
                    }
                },
            }
        },
        GExpr::Call { span, callee, args } => {
            // An identifier callee is never captured; a member-access callee
            // descends with its own node suppressed; anything else descends
            // normally. The flag is cleared after a member-access callee.
            let co = match callee {
                GCallee::Expr(ce) => match *ce {
                    GExpr::Ident(_) => (GCallee::Expr(ce), false, false),
                    GExpr::Member { .. } => {
                        let o = g_walk(c, true, *ce);
                        (GCallee::Expr(Box::new(o.expr)), false, o.cap)
                    },
                    _ => {
                        let o = g_walk(c, false, *ce);
                        (GCallee::Expr(Box::new(o.expr)), o.sup, o.cap)
                    },
                },
                GCallee::Other => (GCallee::Other, false, false),
            };
            let ao = g_walk_args(c, co.1, args);
            GWalkOut {
                expr: GExpr::Call { span, callee: co.0, args: ao.args },
                sup: ao.sup,
                cap: co.2 || ao.cap,
            }
        },
        GExpr::New { span, callee, args } => {
            let o1 = g_walk(c, true, *callee);
            let ao = g_walk_args(c, o1.sup, args);
            GWalkOut {
                expr: GExpr::New { span, callee: Box::new(o1.expr), args: ao.args },
                sup: false,
                cap: o1.cap || ao.cap,
            }
        },
        GExpr::Bin { span, op, left, right } => {
            let o1 = g_walk(c, false, *left);
            let o2 = g_walk(c, o1.sup, *right);
            GWalkOut {
                expr: GExpr::Bin {
                    span,
                    op,
                    left: Box::new(o1.expr),
                    right: Box::new(o2.expr),
                },
                sup: o2.sup,
                cap: o1.cap || o2.cap,
            }
        },
        GExpr::Assign { span, op, left, right } => {
            let o = g_walk(c, false, *right);
            GWalkOut {
                expr: GExpr::Assign { span, op, left, right: Box::new(o.expr) },
                sup: o.sup,
                cap: o.cap,
            }
        },
        GExpr::Cond { span, test, cons, alt } => {
            let o1 = g_walk(c, false, *test);
            let o2 = g_walk(c, o1.sup, *cons);
            let o3 = g_walk(c, o2.sup, *alt);
            GWalkOut {
                expr: GExpr::Cond {
                    span,
                    test: Box::new(o1.expr),
                    cons: Box::new(o2.expr),
                    alt: Box::new(o3.expr),
                },
                sup: o3.sup,
                cap: o1.cap || o2.cap || o3.cap,
            }
        },
        GExpr::Unary { span, op, arg } => {
            if (op == UnaryOp::TypeOf || op == UnaryOp::Delete) && (*arg) is Ident {
                GWalkOut { expr: e, sup: false, cap: false }
            } else {
                let o = g_walk(c, false, *arg);
                GWalkOut {
                    expr: GExpr::Unary { span, op, arg: Box::new(o.expr) },
                    sup: o.sup,
                    cap: o.cap,
                }
            }
        },
        GExpr::Update { span, op, prefix, arg } => {
            let o = g_walk(c, true, *arg);
            GWalkOut {
                expr: GExpr::Update { span, op, prefix, arg: Box::new(o.expr) },
                sup: false,
                cap: o.cap,
            }
        },
        GExpr::Await { span, arg } => {
            let o = g_walk(c, true, *arg);
            GWalkOut {
                expr: GExpr::Await { span, arg: Box::new(o.expr) },
                sup: false,
                cap: o.cap,
            }
        },
        GExpr::Object { span, props } => {
            let o = g_walk_props(c, false, props);
            GWalkOut { expr: GExpr::Object { span, props: o.props }, sup: o.sup, cap: o.cap }
        },
        _ => GWalkOut { expr: e, sup: false, cap: false },
    }
}

pub open spec fn g_walk_exprs(c: GWalkCtx, sup: bool, s: Seq<GExpr>) -> GWalkExprsOut
    decreases size_exprs(s), 0nat,
{
    if s.len() == 0 {
        GWalkExprsOut { exprs: s, sup, cap: false }
    } else {
        let o = g_walk(c, sup, s[0]);
        let rest = g_walk_exprs(c, o.sup, s.drop_first());
        GWalkExprsOut {
            exprs: seq![o.expr] + rest.exprs,
            sup: rest.sup,
            cap: o.cap || rest.cap,
        }
    }
}

pub open spec fn g_walk_args(c: GWalkCtx, sup: bool, s: Seq<GArg>) -> GWalkArgsOut
    decreases size_args(s), 0nat,
{
    if s.len() == 0 {
        GWalkArgsOut { args: s, sup, cap: false }
    } else {
        let o = g_walk(c, sup, s[0].expr);
        let rest = g_walk_args(c, o.sup, s.drop_first());
        GWalkArgsOut {
            args: seq![GArg { spread: s[0].spread, expr: o.expr }] + rest.args,
            sup: rest.sup,
            cap: o.cap || rest.cap,
        }
    }
}

pub open spec fn g_walk_props(c: GWalkCtx, sup: bool, s: Seq<GProp>) -> GWalkPropsOut
    decreases size_props(s), 0nat,
{
    if s.len() == 0 {
        GWalkPropsOut { props: s, sup, cap: false }
    } else {
        let o = g_walk(c, sup, s[0].value);
        let rest = g_walk_props(c, o.sup, s.drop_first());
        GWalkPropsOut {
            props: seq![GProp { key: s[0].key, value: o.expr }] + rest.props,
            sup: rest.sup,
            cap: o.cap || rest.cap,
        }
    }
}

// ---------------------------------------------------------------------------
// Executable walker
// ---------------------------------------------------------------------------

/// The walk context assembled from the active assertion site's data.
pub open spec fn g_ctx(start: int, code: Seq<char>, multibyte: bool, argrec: Seq<char>) -> GWalkCtx {
    GWalkCtx { start, code, multibyte, argrec }
}

/// Visit one expression of the active argument; returns the rewritten
/// expression, the suppression flag's state after the visit, and whether
/// anything in the subtree was captured.
pub fn walk_expr(start: u32, code: &str, multibyte: bool, argrec: &str, sup: bool, e: Expr) -> (r:
    (Expr, bool, bool))
    requires
        g_ctx(start as int, code@, multibyte, argrec@).wf(),
        g_expr_site_ok(view_expr(e), start as int, code@),
    ensures
        ({
            let o = g_walk(g_ctx(start as int, code@, multibyte, argrec@), sup, view_expr(e));
            view_expr(r.0) == o.expr && r.1 == o.sup && r.2 == o.cap
        }),
    decreases size_expr(view_expr(e)), 1nat,
{
    let ghost ctx = g_ctx(start as int, code@, multibyte, argrec@);
    let ghost ge = view_expr(e);
    match e {
        Expr::Sequence(se) => {
            proof {
                assert(ge == GExpr::Sequence { span: se.span.view(), exprs: view_exprs(se.exprs@) });
            }
            let (exprs2, sup2, cap2) = walk_exprs(
                start,
                code,
                multibyte,
                argrec,
                sup,
                se.exprs,
                Ghost(se.span.view()),
            );
            let r0 = Expr::Sequence(SequenceExpr { span: se.span, exprs: exprs2 });
            proof {
                assert(view_expr(r0) == GExpr::Sequence {
                    span: se.span.view(),
                    exprs: view_exprs(exprs2@),
                });
            }
            (r0, sup2, cap2)
        },
        Expr::Paren(p) => {
            proof {
                assert(ge == GExpr::Paren {
                    span: p.span.view(),
                    expr: Box::new(view_expr(*p.expr)),
                });
            }
            let (inner, sup2, cap2) = walk_expr(start, code, multibyte, argrec, sup, *p.expr);
            let r0 = Expr::Paren(ParenExpr { span: p.span, expr: Box::new(inner) });
            proof {
                assert(view_expr(r0) == GExpr::Paren {
                    span: p.span.view(),
                    expr: Box::new(view_expr(inner)),
                });
            }
            (r0, sup2, cap2)
        },
        Expr::Func(f) => {
            proof {
                assert(ge is Func);
            }
            (Expr::Func(f), sup, false)
        },
        other => {
            let pos = calculate_utf16_pos(&other, start, code, multibyte);
            let (e1, sup1, cap1) = walk_children(start, code, multibyte, argrec, other);
            if !sup {
                let wrapped = build_tap_call(argrec, e1, pos);
                (wrapped, sup1, true)
            } else {
                (e1, sup1, cap1)
            }
        },
    }
}

/// Descend into the children of a non-parenthesis, non-function node,
/// applying the per-kind suppression policy.
#[verifier::rlimit(100)]
#[verifier::spinoff_prover]
pub fn walk_children(start: u32, code: &str, multibyte: bool, argrec: &str, e: Expr) -> (r: (
    Expr,
    bool,
    bool,
))
    requires
        g_ctx(start as int, code@, multibyte, argrec@).wf(),
        g_expr_site_ok(view_expr(e), start as int, code@),
    ensures
        ({
            let o = g_walk_children(g_ctx(start as int, code@, multibyte, argrec@), view_expr(e));
            view_expr(r.0) == o.expr && r.1 == o.sup && r.2 == o.cap
        }),
    decreases size_expr(view_expr(e)), 0nat,
{
    let ghost ctx = g_ctx(start as int, code@, multibyte, argrec@);
    let ghost ge = view_expr(e);
    match e {
        Expr::Member(m) => {
            proof {
                assert(ge == GExpr::Member {
                    span: m.span.view(),
                    obj: Box::new(view_expr(*m.obj)),
                    prop: match m.prop {
                        MemberProp::Ident(ref n) => GMemberProp::Ident {
                            sym: n.sym@,
                            span: n.span.view(),
                        },
                        MemberProp::Computed(ref cp) => GMemberProp::Computed {
                            span: cp.span.view(),
                            expr: Box::new(view_expr(*cp.expr)),
                        },
                    },
                });
            }
            let (obj2, sup1, cap1) = walk_expr(start, code, multibyte, argrec, false, *m.obj);
            match m.prop {
                MemberProp::Ident(n) => {
                    let r0 = Expr::Member(
                        MemberExpr {
                            span: m.span,
                            obj: Box::new(obj2),
                            prop: MemberProp::Ident(n),
                        },
                    );
                    proof {
                        assert(view_expr(r0) == g_walk_children(ctx, ge).expr);
                    }
                    (r0, sup1, cap1)
                },
                MemberProp::Computed(cp) => {
                    let (ie, sup2, cap2) = walk_expr(
                        start,
                        code,
                        multibyte,
                        argrec,
                        sup1,
                        *cp.expr,
                    );
                    let r0 = Expr::Member(
                        MemberExpr {
                            span: m.span,
                            obj: Box::new(obj2),
                            prop: MemberProp::Computed(
                                ComputedPropName { span: cp.span, expr: Box::new(ie) },
                            ),
                        },
                    );
                    proof {
                        assert(view_expr(r0) == g_walk_children(ctx, ge).expr);
                    }
                    (r0, sup2, cap1 || cap2)
                },
            }
        },
        Expr::Call(cc) => {
            proof {
                assert(ge == GExpr::Call {
                    span: cc.span.view(),
                    callee: view_callee(cc.callee),
                    args: view_args(cc.args@),
                });
            }
            let (callee2, sup1, cap1): (Callee, bool, bool) = match cc.callee {
                Callee::Expr(ce) => {
                    let ghost gce = view_expr(*ce);
                    proof {
                        assert(view_callee(Callee::Expr(ce)) == GCallee::Expr(Box::new(gce)));
                    }
                    match *ce {
                        Expr::Ident(i) => {
                            let back = Expr::Ident(i);
                            let c2 = Callee::Expr(Box::new(back));
                            proof {
                                assert(gce is Ident);
                                assert(view_callee(c2) == GCallee::Expr(Box::new(gce)));
                            }
                            (c2, false, false)
                        },
                        Expr::Member(mm) => {
                            let me = Expr::Member(mm);
                            proof {
                                assert(view_expr(me) == gce);
                                assert(gce is Member);
                            }
                            let (ce2, s, cp) = walk_expr(start, code, multibyte, argrec, true, me);
                            let c2 = Callee::Expr(Box::new(ce2));
                            proof {
                                assert(view_callee(c2) == GCallee::Expr(Box::new(view_expr(ce2))));
                            }
                            (c2, false, cp)
                        },
                        other_callee => {
                            proof {
                                assert(view_expr(other_callee) == gce);
                                assert(!(gce is Ident));
                                assert(!(gce is Member));
                            }
                            let (ce2, s, cp) = walk_expr(
                                start,
                                code,
                                multibyte,
                                argrec,
                                false,
                                other_callee,
                            );
                            let c2 = Callee::Expr(Box::new(ce2));
                            proof {
                                assert(view_callee(c2) == GCallee::Expr(Box::new(view_expr(ce2))));
                            }
                            (c2, s, cp)
                        },
                    }
                },
                Callee::Other => (Callee::Other, false, false),
            };
            let (args2, sup2, cap2) = walk_args(
                start,
                code,
                multibyte,
                argrec,
                sup1,
                cc.args,
                Ghost(cc.span.view()),
            );
            let r0 = Expr::Call(CallExpr { span: cc.span, callee: callee2, args: args2 });
            proof {
                assert(view_expr(r0) == g_walk_children(ctx, ge).expr);
            }
            (r0, sup2, cap1 || cap2)
        },
        Expr::New(ne) => {
            proof {
                assert(ge == GExpr::New {
                    span: ne.span.view(),
                    callee: Box::new(view_expr(*ne.callee)),
                    args: view_args(ne.args@),
                });
            }
            let (callee2, sup1, cap1) = walk_expr(start, code, multibyte, argrec, true, *ne.callee);
            let (args2, sup2, cap2) = walk_args(
                start,
                code,
                multibyte,
                argrec,
                sup1,
                ne.args,
                Ghost(ne.span.view()),
            );
            let r0 = Expr::New(NewExpr { span: ne.span, callee: Box::new(callee2), args: args2 });
            proof {
                assert(view_expr(r0) == g_walk_children(ctx, ge).expr);
            }
            (r0, false, cap1 || cap2)
        },
        Expr::Bin(b) => {
            proof {
                assert(ge == GExpr::Bin {
                    span: b.span.view(),
                    op: b.op@,
                    left: Box::new(view_expr(*b.left)),
                    right: Box::new(view_expr(*b.right)),
                });
            }
            let (l2, sup1, cap1) = walk_expr(start, code, multibyte, argrec, false, *b.left);
            let (r2, sup2, cap2) = walk_expr(start, code, multibyte, argrec, sup1, *b.right);
            let r0 = Expr::Bin(
                BinExpr { span: b.span, op: b.op, left: Box::new(l2), right: Box::new(r2) },
            );
            proof {
                assert(view_expr(r0) == g_walk_children(ctx, ge).expr);
            }
            (r0, sup2, cap1 || cap2)
        },
        Expr::Assign(a) => {
            proof {
                assert(ge == GExpr::Assign {
                    span: a.span.view(),
                    op: a.op@,
                    left: Box::new(view_expr(*a.left)),
                    right: Box::new(view_expr(*a.right)),
                });
            }
            let (r2, sup1, cap1) = walk_expr(start, code, multibyte, argrec, false, *a.right);
            let r0 = Expr::Assign(
                AssignExpr { span: a.span, op: a.op, left: a.left, right: Box::new(r2) },
            );
            proof {
                assert(view_expr(r0) == g_walk_children(ctx, ge).expr);
            }
            (r0, sup1, cap1)
        },
        Expr::Cond(cd) => {
            proof {
                assert(ge == GExpr::Cond {
                    span: cd.span.view(),
                    test: Box::new(view_expr(*cd.test)),
                    cons: Box::new(view_expr(*cd.cons)),
                    alt: Box::new(view_expr(*cd.alt)),
                });
            }
            let (t2, sup1, cap1) = walk_expr(start, code, multibyte, argrec, false, *cd.test);
            let (c2, sup2, cap2) = walk_expr(start, code, multibyte, argrec, sup1, *cd.cons);
            let (a2, sup3, cap3) = walk_expr(start, code, multibyte, argrec, sup2, *cd.alt);
            let r0 = Expr::Cond(
                CondExpr {
                    span: cd.span,
                    test: Box::new(t2),
                    cons: Box::new(c2),
                    alt: Box::new(a2),
                },
            );
            proof {
                assert(view_expr(r0) == g_walk_children(ctx, ge).expr);
            }
            (r0, sup3, cap1 || cap2 || cap3)
        },
        Expr::Unary(u) => {
            proof {
                assert(ge == GExpr::Unary {
                    span: u.span.view(),
                    op: u.op,
                    arg: Box::new(view_expr(*u.arg)),
                });
            }
            let is_bare_target = match (&u.op, &*u.arg) {
                (UnaryOp::TypeOf, Expr::Ident(_)) => true,
                (UnaryOp::Delete, Expr::Ident(_)) => true,
                _ => false,
            };
            if is_bare_target {
                proof {
                    assert(view_expr(*u.arg) is Ident);
                }
                (Expr::Unary(u), false, false)
            } else {
                proof {
                    assert(!((u.op == UnaryOp::TypeOf || u.op == UnaryOp::Delete)
                        && view_expr(*u.arg) is Ident));
                }
                let (a2, sup1, cap1) = walk_expr(start, code, multibyte, argrec, false, *u.arg);
                let r0 = Expr::Unary(UnaryExpr { span: u.span, op: u.op, arg: Box::new(a2) });
                proof {
                    assert(view_expr(r0) == g_walk_children(ctx, ge).expr);
                }
                (r0, sup1, cap1)
            }
        },
        Expr::Update(u) => {
            proof {
                assert(ge == GExpr::Update {
                    span: u.span.view(),
                    op: u.op@,
                    prefix: u.prefix,
                    arg: Box::new(view_expr(*u.arg)),
                });
            }
            let (a2, sup1, cap1) = walk_expr(start, code, multibyte, argrec, true, *u.arg);
            let r0 = Expr::Update(
                UpdateExpr { span: u.span, op: u.op, prefix: u.prefix, arg: Box::new(a2) },
            );
            proof {
                assert(view_expr(r0) == g_walk_children(ctx, ge).expr);
            }
            (r0, false, cap1)
        },
        Expr::Await(aw) => {
            proof {
                assert(ge == GExpr::Await {
                    span: aw.span.view(),
                    arg: Box::new(view_expr(*aw.arg)),
                });
            }
            let (a2, sup1, cap1) = walk_expr(start, code, multibyte, argrec, true, *aw.arg);
            let r0 = Expr::Await(AwaitExpr { span: aw.span, arg: Box::new(a2) });
            proof {
                assert(view_expr(r0) == g_walk_children(ctx, ge).expr);
            }
            (r0, false, cap1)
        },
        Expr::Object(o) => {
            proof {
                assert(ge == GExpr::Object { span: o.span.view(), props: view_props(o.props@) });
            }
            let (props2, sup1, cap1) = walk_props(
                start,
                code,
                multibyte,
                argrec,
                false,
                o.props,
                Ghost(o.span.view()),
            );
            let r0 = Expr::Object(ObjectLit { span: o.span, props: props2 });
            proof {
                assert(view_expr(r0) == g_walk_children(ctx, ge).expr);
            }
            (r0, sup1, cap1)
        },
        other => {
            proof {
                assert(g_walk_children(ctx, ge).expr == ge);
            }
            (other, false, false)
        },
    }
}

/// Walk a comma expression's operands in order, threading the flags.
pub fn walk_exprs(
    start: u32,
    code: &str,
    multibyte: bool,
    argrec: &str,
    sup: bool,
    v: Vec<Expr>,
    Ghost(outer): Ghost<GSpan>,
) -> (r: (Vec<Expr>, bool, bool))
    requires
        g_ctx(start as int, code@, multibyte, argrec@).wf(),
        g_exprs_site_ok(view_exprs(v@), outer, start as int, code@),
    ensures
        ({
            let o = g_walk_exprs(g_ctx(start as int, code@, multibyte, argrec@), sup, view_exprs(v@));
            view_exprs(r.0@) == o.exprs && r.1 == o.sup && r.2 == o.cap
        }),
    decreases size_exprs(view_exprs(v@)), 0nat,
{
    let ghost ctx = g_ctx(start as int, code@, multibyte, argrec@);
    let ghost gs = view_exprs(v@);
    let mut rest = v;
    if rest.len() == 0 {
        proof {
            assert(gs.len() == 0);
        }
        return (rest, sup, false);
    }
    let ghost v0 = rest@;
    proof {
        assert(gs == seq![view_expr(v0[0])] + view_exprs(v0.drop_first()));
        assert(gs[0] == view_expr(v0[0]));
        assert(gs.drop_first() =~= view_exprs(v0.drop_first()));
    }
    let first = rest.remove(0);
    let (fe, sup1, cap1) = walk_expr(start, code, multibyte, argrec, sup, first);
    let (tail, sup2, cap2) = walk_exprs(start, code, multibyte, argrec, sup1, rest, Ghost(outer));
    let ghost tail0 = tail@;
    let mut out = tail;
    out.insert(0, fe);
    proof {
        assert(out@[0] == fe);
        assert(out@.drop_first() =~= tail0);
        assert(view_exprs(out@) == seq![view_expr(out@[0])] + view_exprs(out@.drop_first()));
        assert(view_exprs(out@) =~= g_walk_exprs(ctx, sup, gs).exprs);
    }
    (out, sup2, cap1 || cap2)
}

/// Walk a call's arguments in order, threading the flags.
pub fn walk_args(
    start: u32,
    code: &str,
    multibyte: bool,
    argrec: &str,
    sup: bool,
    v: Vec<ExprOrSpread>,
    Ghost(outer): Ghost<GSpan>,
) -> (r: (Vec<ExprOrSpread>, bool, bool))
    requires
        g_ctx(start as int, code@, multibyte, argrec@).wf(),
        g_args_site_ok(view_args(v@), outer, start as int, code@),
    ensures
        ({
            let o = g_walk_args(g_ctx(start as int, code@, multibyte, argrec@), sup, view_args(v@));
            view_args(r.0@) == o.args && r.1 == o.sup && r.2 == o.cap
        }),
    decreases size_args(view_args(v@)), 0nat,
{
    let ghost ctx = g_ctx(start as int, code@, multibyte, argrec@);
    let ghost gs = view_args(v@);
    let mut rest = v;
    if rest.len() == 0 {
        proof {
            assert(gs.len() == 0);
        }
        return (rest, sup, false);
    }
    let ghost v0 = rest@;
    proof {
        assert(gs == seq![view_arg(v0[0])] + view_args(v0.drop_first()));
        assert(gs[0] == view_arg(v0[0]));
        assert(gs.drop_first() =~= view_args(v0.drop_first()));
    }
    let first = rest.remove(0);
    let spread = first.spread;
    let (fe, sup1, cap1) = walk_expr(start, code, multibyte, argrec, sup, *first.expr);
    let (tail, sup2, cap2) = walk_args(start, code, multibyte, argrec, sup1, rest, Ghost(outer));
    let ghost tail0 = tail@;
    let mut out = tail;
    let new_first = ExprOrSpread { spread, expr: Box::new(fe) };
    out.insert(0, new_first);
    proof {
        assert(out@[0] == new_first);
        assert(out@.drop_first() =~= tail0);
        assert(view_args(out@) == seq![view_arg(out@[0])] + view_args(out@.drop_first()));
        assert(view_arg(new_first) == (GArg { spread: v0[0].spread, expr: view_expr(fe) }));
        assert(view_args(out@) =~= g_walk_args(ctx, sup, gs).args);
    }
    (out, sup2, cap1 || cap2)
}

/// Walk an object literal's property values in order, threading the flags.
pub fn walk_props(
    start: u32,
    code: &str,
    multibyte: bool,
    argrec: &str,
    sup: bool,
    v: Vec<KeyValueProp>,
    Ghost(outer): Ghost<GSpan>,
) -> (r: (Vec<KeyValueProp>, bool, bool))
    requires
        g_ctx(start as int, code@, multibyte, argrec@).wf(),
        g_props_site_ok(view_props(v@), outer, start as int, code@),
    ensures
        ({
            let o = g_walk_props(g_ctx(start as int, code@, multibyte, argrec@), sup, view_props(v@));
            view_props(r.0@) == o.props && r.1 == o.sup && r.2 == o.cap
        }),
    decreases size_props(view_props(v@)), 0nat,
{
    let ghost ctx = g_ctx(start as int, code@, multibyte, argrec@);
    let ghost gs = view_props(v@);
    let mut rest = v;
    if rest.len() == 0 {
        proof {
            assert(gs.len() == 0);
        }
        return (rest, sup, false);
    }
    let ghost v0 = rest@;
    proof {
        assert(gs == seq![view_prop(v0[0])] + view_props(v0.drop_first()));
        assert(gs[0] == view_prop(v0[0]));
        assert(gs.drop_first() =~= view_props(v0.drop_first()));
    }
    let first = rest.remove(0);
    let key = first.key;
    let (fe, sup1, cap1) = walk_expr(start, code, multibyte, argrec, sup, *first.value);
    let (tail, sup2, cap2) = walk_props(start, code, multibyte, argrec, sup1, rest, Ghost(outer));
    let ghost tail0 = tail@;
    let mut out = tail;
    let new_first = KeyValueProp { key, value: Box::new(fe) };
    out.insert(0, new_first);
    proof {
        assert(out@[0] == new_first);
        assert(out@.drop_first() =~= tail0);
        assert(view_props(out@) == seq![view_prop(out@[0])] + view_props(out@.drop_first()));
        assert(view_prop(new_first) == (GProp { key: v0[0].key@, value: view_expr(fe) }));
        assert(view_props(out@) =~= g_walk_props(ctx, sup, gs).props);
    }
    (out, sup2, cap1 || cap2)
}

} // verus!
