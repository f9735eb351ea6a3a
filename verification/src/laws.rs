//! Engine-wide laws: properties of the capture pipeline that hold for every
//! input, stated over the ghost model and proved once and for all.

use vstd::prelude::*;
use crate::ast::{GArg, GCallee, GExpr, GSpan};

use crate::pos::g_utf16_pos;
use crate::synth::{
    GArgMeta, GAssertionMeta, g_add_hint_if_tap, g_apply_binexp_hint, g_argrec_decl,
    g_hint_object, g_is_tap_call, g_runner_decl, g_wrap_tap,
};
use crate::transform::{
    GVisitor, g_argrec_decl_stmts, g_capture, g_capture_args, g_capture_one, g_candidate,
    g_flush_decls, g_has_spread, g_runner_decl_stmts, g_site_code,
};
use crate::walk::{GWalkCtx, GWalkOut, g_walk, g_walk_children};
use crate::text::{utf16_len, utf8_len};

verus! {

/// The capture decisions for an argument list: one flag per argument, true
/// exactly when walking that argument captured something, threaded through the
/// same counter and suppression states the capture takes.
pub open spec fn g_capture_flags(
    start: int,
    code: Seq<char>,
    multibyte: bool,
    powered: Seq<char>,
    has_binop: bool,
    cnt: int,
    idx: int,
    sup: bool,
    args: Seq<GArg>,
) -> Seq<bool>
    decreases args,
{
    if args.len() == 0 {
        Seq::empty()
    } else {
        let one = g_capture_one(start, code, multibyte, powered, has_binop, cnt, idx, sup, args[0]);
        seq![one.3] + g_capture_flags(
            start,
            code,
            multibyte,
            powered,
            has_binop,
            one.1,
            idx + 1,
            one.4,
            args.drop_first(),
        )
    }
}

/// How many of the flags are set.
pub open spec fn count_true(s: Seq<bool>) -> nat
    decreases s,
{
    if s.len() == 0 {
        0
    } else {
        (if s[0] {
            1nat
        } else {
            0nat
        }) + count_true(s.drop_first())
    }
}

/// Capturing an argument list keeps every argument in place and records
/// exactly one slot for each argument whose walk captured something — in
/// argument order, none for the others.
pub proof fn lemma_capture_args_shape(
    start: int,
    code: Seq<char>,
    multibyte: bool,
    powered: Seq<char>,
    has_binop: bool,
    cnt: int,
    idx: int,
    sup: bool,
    args: Seq<GArg>,
)
    ensures
        ({
            let o = g_capture_args(start, code, multibyte, powered, has_binop, cnt, idx, sup, args);
            let flags = g_capture_flags(
                start,
                code,
                multibyte,
                powered,
                has_binop,
                cnt,
                idx,
                sup,
                args,
            );
            &&& o.args.len() == args.len()
            &&& o.slots.len() == count_true(flags)
            &&& o.any == (count_true(flags) > 0)
            &&& o.slots.len() <= args.len()
        }),
    decreases args,
{
    reveal(crate::transform::g_capture_one);
    if args.len() != 0 {
        let one = g_capture_one(start, code, multibyte, powered, has_binop, cnt, idx, sup, args[0]);
        lemma_capture_args_shape(
            start,
            code,
            multibyte,
            powered,
            has_binop,
            one.1,
            idx + 1,
            one.4,
            args.drop_first(),
        );
        let rest_flags = g_capture_flags(
            start,
            code,
            multibyte,
            powered,
            has_binop,
            one.1,
            idx + 1,
            one.4,
            args.drop_first(),
        );
        let flags = g_capture_flags(start, code, multibyte, powered, has_binop, cnt, idx, sup, args);
        assert(flags == seq![one.3] + rest_flags);
        assert(flags[0] == one.3);
        assert(flags.drop_first() =~= rest_flags);
        assert(count_true(flags) == (if one.3 {
            1nat
        } else {
            0nat
        }) + count_true(rest_flags));
        assert(one.2 is Some <==> one.3);
    }
}

/// Capturing a recognized assertion call without spread arguments records
/// exactly one site, and one slot per capturing argument.
pub proof fn lemma_capture_site_count(
    v: GVisitor,
    span: GSpan,
    callee: GCallee,
    args: Seq<GArg>,
    prop: Seq<char>,
    recv: Option<Seq<char>>,
)
    requires
        !g_has_spread(args),
    ensures
        ({
            let (v2, e2) = g_capture(v, span, callee, args, prop, recv);
            let code = g_site_code(v.code, span.lo - v.span_offset - 1, span.hi - v.span_offset - 1);
            &&& v2.assertion_metadata_vec.len() == v.assertion_metadata_vec.len() + 1
            &&& v2.assertion_metadata_vec == v.assertion_metadata_vec.push(
                v2.assertion_metadata_vec.last(),
            )
            &&& v2.argument_metadata_vec.len() == v.argument_metadata_vec.len() + count_true(
                g_capture_flags(
                    span.lo,
                    code,
                    utf16_len(code) < utf8_len(code),
                    v2.assertion_metadata_vec.last().ident_name,
                    v2.assertion_metadata_vec.last().binary_op is Some,
                    v.argrec_var_cnt,
                    0,
                    false,
                    args,
                ),
            )
            &&& e2 is Call
        }),
{
    let code = g_site_code(v.code, span.lo - v.span_offset - 1, span.hi - v.span_offset - 1);
    let (v2, e2) = g_capture(v, span, callee, args, prop, recv);
    assert(v2.assertion_metadata_vec =~= v.assertion_metadata_vec.push(
        v2.assertion_metadata_vec.last(),
    ));
    lemma_capture_args_shape(
        span.lo,
        code,
        utf16_len(code) < utf8_len(code),
        v2.assertion_metadata_vec.last().ident_name,
        v2.assertion_metadata_vec.last().binary_op is Some,
        v.argrec_var_cnt,
        0,
        false,
        args,
    );
}

/// A scope flush emits exactly one runner declaration per recorded site and
/// one recorder declaration per recorded slot, sites first, each list in
/// discovery order.
pub proof fn lemma_flush_order(v: GVisitor)
    ensures
        g_flush_decls(v).len() == v.assertion_metadata_vec.len() + v.argument_metadata_vec.len(),
        forall|i: int|
            0 <= i < v.assertion_metadata_vec.len() ==> g_flush_decls(v)[i] == g_runner_decl(
                #[trigger] v.assertion_metadata_vec[i],
            ),
        forall|j: int|
            0 <= j < v.argument_metadata_vec.len() ==> g_flush_decls(v)[v.assertion_metadata_vec.len()
                + j] == g_argrec_decl(#[trigger] v.argument_metadata_vec[j]),
{
    lemma_runner_decl_stmts_index(v.assertion_metadata_vec);
    lemma_argrec_decl_stmts_index(v.argument_metadata_vec);
}

pub proof fn lemma_runner_decl_stmts_index(s: Seq<GAssertionMeta>)
    ensures
        g_runner_decl_stmts(s).len() == s.len(),
        forall|i: int|
            0 <= i < s.len() ==> g_runner_decl_stmts(s)[i] == g_runner_decl(#[trigger] s[i]),
    decreases s,
{
    if s.len() != 0 {
        lemma_runner_decl_stmts_index(s.drop_first());
        assert forall|i: int| 0 <= i < s.len() implies g_runner_decl_stmts(s)[i] == g_runner_decl(
            #[trigger] s[i],
        ) by {
            if i > 0 {
                assert(s.drop_first()[i - 1] == s[i]);
                assert(g_runner_decl_stmts(s)[i] == g_runner_decl_stmts(s.drop_first())[i - 1]);
            }
        }
    }
}

pub proof fn lemma_argrec_decl_stmts_index(s: Seq<GArgMeta>)
    ensures
        g_argrec_decl_stmts(s).len() == s.len(),
        forall|i: int|
            0 <= i < s.len() ==> g_argrec_decl_stmts(s)[i] == g_argrec_decl(#[trigger] s[i]),
    decreases s,
{
    if s.len() != 0 {
        lemma_argrec_decl_stmts_index(s.drop_first());
        assert forall|i: int| 0 <= i < s.len() implies g_argrec_decl_stmts(s)[i] == g_argrec_decl(
            #[trigger] s[i],
        ) by {
            if i > 0 {
                assert(s.drop_first()[i - 1] == s[i]);
                assert(g_argrec_decl_stmts(s)[i] == g_argrec_decl_stmts(s.drop_first())[i - 1]);
            }
        }
    }
}

/// A call with a spread argument is left structurally untouched: the returned
/// call is the original, no site and no slot is recorded, and the recorder
/// counter is unchanged.
pub proof fn lemma_spread_leaves_call_untouched(
    v: GVisitor,
    span: GSpan,
    callee: GCallee,
    args: Seq<GArg>,
    prop: Seq<char>,
    recv: Option<Seq<char>>,
)
    requires
        g_has_spread(args),
    ensures
        ({
            let (v2, e2) = g_capture(v, span, callee, args, prop, recv);
            &&& e2 == GExpr::Call { span, callee, args }
            &&& v2.assertion_metadata_vec == v.assertion_metadata_vec
            &&& v2.argument_metadata_vec == v.argument_metadata_vec
            &&& v2.argrec_var_cnt == v.argrec_var_cnt
            &&& v2.target_variables == v.target_variables
            &&& v2.code == v.code
        }),
{
}

/// A bare identifier under `typeof` or `delete` is never wrapped in a capture
/// call: the whole unary expression is captured, its operand untouched.
pub proof fn lemma_typeof_target_not_captured(c: GWalkCtx, span: GSpan, op: crate::ast::UnaryOp, arg: GExpr)
    requires
        op == crate::ast::UnaryOp::TypeOf || op == crate::ast::UnaryOp::Delete,
        arg is Ident,
    ensures
        ({
            let e = GExpr::Unary { span, op, arg: Box::new(arg) };
            g_walk(c, false, e) == (GWalkOut {
                expr: g_wrap_tap(c.argrec, e, g_utf16_pos(e, c.start, c.code)),
                sup: false,
                cap: true,
            })
        }),
{
    let e = GExpr::Unary { span, op, arg: Box::new(arg) };
    assert(g_walk_children(c, e) == (GWalkOut { expr: e, sup: false, cap: false }));
}

/// With no resolved target bindings, no call is ever recognized as an
/// assertion site.
pub proof fn lemma_empty_targets_no_candidate(callee: GCallee)
    ensures
        g_candidate(Seq::<(Seq<char>, int)>::empty(), callee) is None,
{
    match callee {
        GCallee::Expr(ce) => {
            match *ce {
                GExpr::Member { span, obj, prop } => {
                    match *obj {
                        GExpr::Ident(oi) => {
                            assert(!Seq::<(Seq<char>, int)>::empty().contains((oi.sym, oi.ctxt)));
                        },
                        _ => {},
                    }
                },
                GExpr::Ident(i) => {
                    assert(!Seq::<(Seq<char>, int)>::empty().contains((i.sym, i.ctxt)));
                },
                _ => {},
            }
        },
        GCallee::Other => {},
    }
}

/// Appending a side hint to a capture call: the hint object becomes one extra
/// trailing argument; everything else stays.
pub proof fn lemma_add_hint_appends(e: GExpr, argrec: Seq<char>, h: Seq<char>)
    requires
        g_is_tap_call(e, argrec),
    ensures
        ({
            let hinted = g_add_hint_if_tap(e, argrec, h);
            match (e, hinted) {
                (
                    GExpr::Call { span: sp0, callee: c0, args: a0 },
                    GExpr::Call { span: sp1, callee: c1, args: a1 },
                ) => sp1 == sp0 && c1 == c0 && a1 == a0.push(
                    GArg { spread: false, expr: g_hint_object(h) },
                ),
                _ => false,
            }
        }),
{
}

/// For a captured top-level comparison, the operand captures carry the
/// `"left"` and `"right"` side hints, and the comparison's own capture call
/// keeps its shape.
pub proof fn lemma_binexp_hint_attachment(
    argrec: Seq<char>,
    bsp: GSpan,
    op: Seq<char>,
    l: GExpr,
    r: GExpr,
    pos: int,
)
    requires
        g_is_tap_call(l, argrec),
        g_is_tap_call(r, argrec),
    ensures
        ({
            let bin = GExpr::Bin { span: bsp, op, left: Box::new(l), right: Box::new(r) };
            let wrapped = g_wrap_tap(argrec, bin, pos);
            let hinted_bin = GExpr::Bin {
                span: bsp,
                op,
                left: Box::new(g_add_hint_if_tap(l, argrec, "left"@)),
                right: Box::new(g_add_hint_if_tap(r, argrec, "right"@)),
            };
            g_apply_binexp_hint(wrapped, argrec) == g_wrap_tap(argrec, hinted_bin, pos)
        }),
{
    let bin = GExpr::Bin { span: bsp, op, left: Box::new(l), right: Box::new(r) };
    let wrapped = g_wrap_tap(argrec, bin, pos);
    assert(g_is_tap_call(wrapped, argrec));
    let hinted_bin = GExpr::Bin {
        span: bsp,
        op,
        left: Box::new(g_add_hint_if_tap(l, argrec, "left"@)),
        right: Box::new(g_add_hint_if_tap(r, argrec, "right"@)),
    };
    match wrapped {
        GExpr::Call { span, callee, args } => {
            assert(args.len() == 2);
            assert(args[0].expr == bin);
            assert(args.update(0, GArg { spread: args[0].spread, expr: hinted_bin }) =~= g_wrap_tap(
                argrec,
                hinted_bin,
                pos,
            )->Call_args);
        },
        _ => {},
    }
}

} // verus!
