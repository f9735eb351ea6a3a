//! Position index: computes, for a node being captured, its UTF-8 byte offset
//! relative to the assertion's start — per-kind rules pick the most useful
//! token (property name, operator, `?`, opening parenthesis) — and converts it
//! to UTF-16 units for the runtime.

use vstd::prelude::*;
use crate::ast::{
    Callee, Expr, GArg, GCallee, GExpr, GLit, GMemberProp, GModule, GModuleItem, GProp, GSpan,
    GStmt, GVarDeclarator, Lit, MemberProp, Span, view_callee, view_expr,
};
use crate::text::{
    char_utf8_len, find_byte_from, find_from_byte, is_utf8_boundary, lemma_ascii_offset_identity,
    lemma_utf16_le_utf8, utf16_at_byte, utf16_len, utf16_of_utf8, utf8_len,
};

verus! {

use vstd::string::StrSliceExecFns;

/// The span of an expression node.
pub open spec fn g_span_of(e: GExpr) -> GSpan {
    match e {
        GExpr::Ident(i) => i.span,
        GExpr::Member { span, .. } => span,
        GExpr::Call { span, .. } => span,
        GExpr::New { span, .. } => span,
        GExpr::Bin { span, .. } => span,
        GExpr::Assign { span, .. } => span,
        GExpr::Cond { span, .. } => span,
        GExpr::Unary { span, .. } => span,
        GExpr::Update { span, .. } => span,
        GExpr::Await { span, .. } => span,
        GExpr::Sequence { span, .. } => span,
        GExpr::Paren { span, .. } => span,
        GExpr::Func { span, .. } => span,
        GExpr::Object { span, .. } => span,
        GExpr::Lit(l) => match l {
            GLit::Str { span, .. } => span,
            GLit::Num { span, .. } => span,
            GLit::Null { span } => span,
        },
    }
}

/// The span of a statement node.
pub open spec fn g_stmt_span_of(s: GStmt) -> GSpan {
    match s {
        GStmt::Expr { span, .. } => span,
        GStmt::VarDecl(vd) => vd.span,
        GStmt::FnDecl { span, .. } => span,
        GStmt::Block { span, .. } => span,
    }
}

/// A span lies inside the text that starts at absolute byte position `base`,
/// and both of its ends are character boundaries of that text.
pub open spec fn g_span_site_ok(sp: GSpan, base: int, text: Seq<char>) -> bool {
    &&& base <= sp.lo <= sp.hi <= base + utf8_len(text)
    &&& is_utf8_boundary(text, sp.lo - base)
    &&& is_utf8_boundary(text, sp.hi - base)
}

/// One span contains another.
pub open spec fn g_span_contains(outer: GSpan, inner: GSpan) -> bool {
    outer.lo <= inner.lo && inner.hi <= outer.hi
}

/// Every node of the expression lies inside the text starting at `base`, on
/// character boundaries, with children nested inside their parents.
pub open spec fn g_expr_site_ok(e: GExpr, base: int, text: Seq<char>) -> bool
    decreases e,
{
    g_span_site_ok(g_span_of(e), base, text) && (match e {
        GExpr::Ident(_) => true,
        GExpr::Member { span, obj, prop } => {
            &&& g_expr_site_ok(*obj, base, text)
            &&& g_span_contains(span, g_span_of(*obj))
            &&& match prop {
                GMemberProp::Ident { sym, span: psp } => g_span_site_ok(psp, base, text)
                    && g_span_contains(span, psp),
                GMemberProp::Computed { span: psp, expr } => {
                    &&& g_span_site_ok(psp, base, text)
                    &&& g_span_contains(span, psp)
                    &&& g_expr_site_ok(*expr, base, text)
                    &&& g_span_contains(span, g_span_of(*expr))
                },
            }
        },
        GExpr::Call { span, callee, args } => {
            &&& match callee {
                GCallee::Expr(ce) => g_expr_site_ok(*ce, base, text) && g_span_contains(
                    span,
                    g_span_of(*ce),
                ),
                GCallee::Other => true,
            }
            &&& g_args_site_ok(args, span, base, text)
        },
        GExpr::New { span, callee, args } => {
            &&& g_expr_site_ok(*callee, base, text)
            &&& g_span_contains(span, g_span_of(*callee))
            &&& g_args_site_ok(args, span, base, text)
        },
        GExpr::Bin { span, op, left, right } => {
            &&& g_expr_site_ok(*left, base, text)
            &&& g_span_contains(span, g_span_of(*left))
            &&& g_expr_site_ok(*right, base, text)
            &&& g_span_contains(span, g_span_of(*right))
        },
        GExpr::Assign { span, op, left, right } => {
            &&& g_expr_site_ok(*left, base, text)
            &&& g_span_contains(span, g_span_of(*left))
            &&& g_expr_site_ok(*right, base, text)
            &&& g_span_contains(span, g_span_of(*right))
        },
        GExpr::Cond { span, test, cons, alt } => {
            &&& g_expr_site_ok(*test, base, text)
            &&& g_span_contains(span, g_span_of(*test))
            &&& g_expr_site_ok(*cons, base, text)
            &&& g_span_contains(span, g_span_of(*cons))
            &&& g_expr_site_ok(*alt, base, text)
            &&& g_span_contains(span, g_span_of(*alt))
        },
        GExpr::Unary { span, op, arg } => g_expr_site_ok(*arg, base, text) && g_span_contains(
            span,
            g_span_of(*arg),
        ),
        GExpr::Update { span, op, prefix, arg } => g_expr_site_ok(*arg, base, text)
            && g_span_contains(span, g_span_of(*arg)),
        GExpr::Await { span, arg } => g_expr_site_ok(*arg, base, text) && g_span_contains(
            span,
            g_span_of(*arg),
        ),
        GExpr::Sequence { span, exprs } => g_exprs_site_ok(exprs, span, base, text),
        GExpr::Paren { span, expr } => g_expr_site_ok(*expr, base, text) && g_span_contains(
            span,
            g_span_of(*expr),
        ),
        GExpr::Func { span, body } => g_stmts_site_ok(body, span, base, text),
        GExpr::Object { span, props } => g_props_site_ok(props, span, base, text),
        GExpr::Lit(_) => true,
    })
}

pub open spec fn g_exprs_site_ok(s: Seq<GExpr>, outer: GSpan, base: int, text: Seq<char>) -> bool
    decreases s,
{
    if s.len() == 0 {
        true
    } else {
        g_expr_site_ok(s[0], base, text) && g_span_contains(outer, g_span_of(s[0]))
            && g_exprs_site_ok(s.drop_first(), outer, base, text)
    }
}

pub open spec fn g_args_site_ok(s: Seq<GArg>, outer: GSpan, base: int, text: Seq<char>) -> bool
    decreases s,
{
    if s.len() == 0 {
        true
    } else {
        g_expr_site_ok(s[0].expr, base, text) && g_span_contains(outer, g_span_of(s[0].expr))
            && g_args_site_ok(s.drop_first(), outer, base, text)
    }
}

pub open spec fn g_props_site_ok(s: Seq<GProp>, outer: GSpan, base: int, text: Seq<char>) -> bool
    decreases s,
{
    if s.len() == 0 {
        true
    } else {
        g_expr_site_ok(s[0].value, base, text) && g_span_contains(outer, g_span_of(s[0].value))
            && g_props_site_ok(s.drop_first(), outer, base, text)
    }
}

pub open spec fn g_stmt_site_ok(s: GStmt, base: int, text: Seq<char>) -> bool
    decreases s,
{
    g_span_site_ok(g_stmt_span_of(s), base, text) && (match s {
        GStmt::Expr { span, expr } => g_expr_site_ok(*expr, base, text) && g_span_contains(
            span,
            g_span_of(*expr),
        ),
        GStmt::VarDecl(vd) => g_declarators_site_ok(vd.decls, vd.span, base, text),
        GStmt::FnDecl { span, ident, body } => g_stmts_site_ok(body, span, base, text),
        GStmt::Block { span, stmts } => g_stmts_site_ok(stmts, span, base, text),
    })
}

pub open spec fn g_declarators_site_ok(
    s: Seq<GVarDeclarator>,
    outer: GSpan,
    base: int,
    text: Seq<char>,
) -> bool
    decreases s,
{
    if s.len() == 0 {
        true
    } else {
        (match s[0].init {
            Option::Some(e) => g_expr_site_ok(e, base, text) && g_span_contains(
                outer,
                g_span_of(e),
            ),
            Option::None => true,
        }) && g_declarators_site_ok(s.drop_first(), outer, base, text)
    }
}

pub open spec fn g_stmts_site_ok(s: Seq<GStmt>, outer: GSpan, base: int, text: Seq<char>) -> bool
    decreases s,
{
    if s.len() == 0 {
        true
    } else {
        g_stmt_site_ok(s[0], base, text) && g_span_contains(outer, g_stmt_span_of(s[0]))
            && g_stmts_site_ok(s.drop_first(), outer, base, text)
    }
}

// ---------------------------------------------------------------------------
// The offset rules
// ---------------------------------------------------------------------------

/// UTF-8 byte offset, relative to the assertion's start `start`, of the token
/// that best identifies the captured node inside the assertion text `code`:
/// the property name of a member access, the callee name or opening
/// parenthesis of a call, the operator of a binary/assignment/postfix-update
/// expression, the `?` of a conditional, and the node's own start otherwise.
pub open spec fn g_utf8_pos(e: GExpr, start: int, code: Seq<char>) -> int {
    match e {
        GExpr::Member { span, obj, prop } => match prop {
            GMemberProp::Computed { span: psp, .. } => psp.lo - start,
            GMemberProp::Ident { span: psp, .. } => psp.lo - start,
        },
        GExpr::Call { span, callee, args } => match callee {
            GCallee::Expr(ce) => match *ce {
                GExpr::Ident(i) => i.span.lo - start,
                GExpr::Member {
                    prop: GMemberProp::Ident { span: psp, .. },
                    ..
                } => psp.lo - start,
                _ => find_byte_from(code, g_span_of(*ce).hi - start, "("@),
            },
            GCallee::Other => span.lo - start,
        },
        GExpr::Bin { span, op, left, right } => find_byte_from(
            code,
            g_span_of(*left).hi - start,
            op,
        ),
        GExpr::Assign { span, op, left, right } => find_byte_from(
            code,
            g_span_of(*left).hi - start,
            op,
        ),
        GExpr::Cond { span, test, .. } => find_byte_from(code, g_span_of(*test).hi - start, "?"@),
        GExpr::Update { span, op, prefix, arg } => if prefix {
            span.lo - start
        } else {
            find_byte_from(code, g_span_of(*arg).hi - start, op)
        },
        _ => g_span_of(e).lo - start,
    }
}

/// The same offset in UTF-16 units.
pub open spec fn g_utf16_pos(e: GExpr, start: int, code: Seq<char>) -> int {
    utf16_of_utf8(code, g_utf8_pos(e, start, code)) as int
}

/// A well-placed node's own span is well placed.
pub proof fn lemma_site_ok_span(e: GExpr, base: int, text: Seq<char>)
    requires
        g_expr_site_ok(e, base, text),
    ensures
        g_span_site_ok(g_span_of(e), base, text),
{
}

/// The UTF-8 offset always lands inside the assertion text.
pub proof fn lemma_utf8_pos_in_code(e: GExpr, start: int, code: Seq<char>)
    requires
        g_expr_site_ok(e, start, code),
    ensures
        0 <= g_utf8_pos(e, start, code) <= utf8_len(code),
{
    match e {
        GExpr::Call { span, callee, args } => {
            match callee {
                GCallee::Expr(ce) => {
                    assert(g_expr_site_ok(*ce, start, code));
                    lemma_site_ok_span(*ce, start, code);
                    match *ce {
                        GExpr::Ident(i) => {
                            assert(g_span_site_ok(i.span, start, code));
                        },
                        GExpr::Member { span: msp, obj, prop: GMemberProp::Ident { sym, span: psp } } => {
                            assert(g_span_site_ok(psp, start, code));
                        },
                        _ => {
                            lemma_find_in_code(code, g_span_of(*ce).hi - start, "("@);
                        },
                    }
                },
                GCallee::Other => {},
            }
        },
        GExpr::Bin { span, op, left, right } => {
            lemma_site_ok_span(*left, start, code);
            lemma_find_in_code(code, g_span_of(*left).hi - start, op);
        },
        GExpr::Assign { span, op, left, right } => {
            lemma_site_ok_span(*left, start, code);
            lemma_find_in_code(code, g_span_of(*left).hi - start, op);
        },
        GExpr::Cond { span, test, cons, alt } => {
            lemma_site_ok_span(*test, start, code);
            lemma_find_in_code(code, g_span_of(*test).hi - start, "?"@);
        },
        GExpr::Update { span, op, prefix, arg } => {
            if !prefix {
                lemma_site_ok_span(*arg, start, code);
                lemma_find_in_code(code, g_span_of(*arg).hi - start, op);
            }
        },
        _ => {},
    }
}

/// A forward search from a valid offset stays inside the text.
pub proof fn lemma_find_in_code(code: Seq<char>, start_b: int, pat: Seq<char>)
    requires
        0 <= start_b <= utf8_len(code),
    ensures
        0 <= find_byte_from(code, start_b, pat) <= utf8_len(code),
{
    crate::text::lemma_char_idx_of_byte_bounds(code, start_b);
    let ci = crate::text::char_idx_of_byte(code, start_b);
    crate::text::lemma_find_char_from_bounds(code, ci, pat);
    match crate::text::find_char_from(code, ci, pat) {
        Option::Some(k) => {
            crate::text::lemma_take_le_monotonic(code, k, code.len() as int);
            assert(code.take(code.len() as int) =~= code);
        },
        Option::None => {},
    }
}

/// The span of an expression node.
pub fn expr_span(e: &Expr) -> (sp: Span)
    ensures
        sp.view() == g_span_of(view_expr(*e)),
{
    match e {
        Expr::Ident(i) => i.span,
        Expr::Member(m) => m.span,
        Expr::Call(c) => c.span,
        Expr::New(n) => n.span,
        Expr::Bin(b) => b.span,
        Expr::Assign(a) => a.span,
        Expr::Cond(c) => c.span,
        Expr::Unary(u) => u.span,
        Expr::Update(u) => u.span,
        Expr::Await(a) => a.span,
        Expr::Sequence(s) => s.span,
        Expr::Paren(p) => p.span,
        Expr::Func(f) => f.span,
        Expr::Object(o) => o.span,
        Expr::Lit(l) => match l {
            Lit::Str(s) => s.span,
            Lit::Num(n) => n.span,
            Lit::Null(sp) => *sp,
        },
    }
}

/// Scan the assertion text forward from the end of a sub-span for a literal
/// token, as a byte offset relative to the assertion's start.
fn search_pos_for(search_target: &str, search_start_hi: u32, start: u32, code: &str) -> (p: u32)
    requires
        start <= search_start_hi,
        search_start_hi - start <= utf8_len(code@),
        is_utf8_boundary(code@, search_start_hi - start),
        utf8_len(code@) <= u32::MAX,
    ensures
        p == find_byte_from(code@, search_start_hi - start, search_target@),
        p <= utf8_len(code@),
{
    let search_start_pos = (search_start_hi - start) as usize;
    let found = find_from_byte(code, search_start_pos, search_target);
    found as u32
}

/// UTF-8 byte offset of the captured node relative to the assertion's start.
pub fn calculate_utf8_pos(e: &Expr, start: u32, code: &str) -> (p: u32)
    requires
        g_expr_site_ok(view_expr(*e), start as int, code@),
        utf8_len(code@) <= u32::MAX,
    ensures
        p == g_utf8_pos(view_expr(*e), start as int, code@),
        p <= utf8_len(code@),
{
    let ghost ge = view_expr(*e);
    proof {
        assert(g_expr_site_ok(ge, start as int, code@));
    }
    match e {
        Expr::Member(m) => {
            match &m.prop {
                MemberProp::Computed(c) => {
                    proof {
                        assert(g_span_site_ok(c.span.view(), start as int, code@));
                    }
                    c.span.lo - start
                },
                MemberProp::Ident(n) => {
                    proof {
                        assert(g_span_site_ok(n.span.view(), start as int, code@));
                    }
                    n.span.lo - start
                },
            }
        },
        Expr::Call(c) => {
            match &c.callee {
                Callee::Expr(ce) => {
                    proof {
                        assert(view_callee(c.callee) == GCallee::Expr(Box::new(view_expr(**ce))));
                        assert(g_expr_site_ok(view_expr(**ce), start as int, code@));
                    }
                    match &**ce {
                        Expr::Ident(i) => {
                            proof {
                                assert(g_span_site_ok(i.span.view(), start as int, code@));
                            }
                            i.span.lo - start
                        },
                        Expr::Member(m) => {
                            match &m.prop {
                                MemberProp::Ident(n) => {
                                    proof {
                                        assert(g_span_site_ok(n.span.view(), start as int, code@));
                                    }
                                    n.span.lo - start
                                },
                                MemberProp::Computed(_) => {
                                    let sp = expr_span(&**ce);
                                    proof {
                                        lemma_site_ok_span(view_expr(**ce), start as int, code@);
                                    }
                                    search_pos_for("(", sp.hi, start, code)
                                },
                            }
                        },
                        _ => {
                            let sp = expr_span(&**ce);
                            proof {
                                lemma_site_ok_span(view_expr(**ce), start as int, code@);
                            }
                            search_pos_for("(", sp.hi, start, code)
                        },
                    }
                },
                Callee::Other => {
                    proof {
                        assert(g_span_site_ok(c.span.view(), start as int, code@));
                    }
                    c.span.lo - start
                },
            }
        },
        Expr::Bin(b) => {
            let sp = expr_span(&*b.left);
            proof {
                assert(g_expr_site_ok(view_expr(*b.left), start as int, code@));
                lemma_site_ok_span(view_expr(*b.left), start as int, code@);
            }
            search_pos_for(b.op.as_str(), sp.hi, start, code)
        },
        Expr::Assign(a) => {
            let sp = expr_span(&*a.left);
            proof {
                assert(g_expr_site_ok(view_expr(*a.left), start as int, code@));
                lemma_site_ok_span(view_expr(*a.left), start as int, code@);
            }
            search_pos_for(a.op.as_str(), sp.hi, start, code)
        },
        Expr::Cond(c) => {
            let sp = expr_span(&*c.test);
            proof {
                assert(g_expr_site_ok(view_expr(*c.test), start as int, code@));
                lemma_site_ok_span(view_expr(*c.test), start as int, code@);
            }
            search_pos_for("?", sp.hi, start, code)
        },
        Expr::Update(u) => {
            if u.prefix {
                proof {
                    assert(g_span_site_ok(u.span.view(), start as int, code@));
                }
                u.span.lo - start
            } else {
                let sp = expr_span(&*u.arg);
                proof {
                    assert(g_expr_site_ok(view_expr(*u.arg), start as int, code@));
                    lemma_site_ok_span(view_expr(*u.arg), start as int, code@);
                }
                search_pos_for(u.op.as_str(), sp.hi, start, code)
            }
        },
        _ => {
            let sp = expr_span(e);
            proof {
                lemma_site_ok_span(ge, start as int, code@);
            }
            sp.lo - start
        },
    }
}

/// UTF-16 offset of the captured node relative to the assertion's start.
/// `contains_multibyte` caches whether the assertion text has any character
/// wider than one byte; when it does not, the UTF-8 offset is already the
/// UTF-16 offset.
pub fn calculate_utf16_pos(e: &Expr, start: u32, code: &str, contains_multibyte: bool) -> (p: u32)
    requires
        g_expr_site_ok(view_expr(*e), start as int, code@),
        utf8_len(code@) <= u32::MAX,
        contains_multibyte == (utf16_len(code@) < utf8_len(code@)),
    ensures
        p == g_utf16_pos(view_expr(*e), start as int, code@),
        p <= utf8_len(code@),
{
    let utf8_pos = calculate_utf8_pos(e, start, code);
    if !contains_multibyte {
        proof {
            lemma_utf16_le_utf8(code@);
            lemma_ascii_offset_identity(code@, utf8_pos as int);
        }
        return utf8_pos;
    }
    let p = utf16_at_byte(code, utf8_pos as usize);
    proof {
        lemma_utf16_of_utf8_le(code@, utf8_pos as int);
    }
    p as u32
}

/// The UTF-16 conversion of an offset never exceeds the offset.
pub proof fn lemma_utf16_of_utf8_le(s: Seq<char>, b: int)
    ensures
        utf16_of_utf8(s, b) <= utf8_len(s),
    decreases s,
{
    if !(b <= 0 || s.len() == 0) {
        lemma_utf16_of_utf8_le(s.drop_first(), b - char_utf8_len(s[0]));
    }
}

// ---------------------------------------------------------------------------
// Restricting well-placedness to a sub-text
// ---------------------------------------------------------------------------

/// A boundary of the whole text between two cut points is a boundary of the
/// sub-text between them.
pub proof fn lemma_boundary_restrict(text: Seq<char>, c0: int, c1: int, babs: int)
    requires
        0 <= c0 <= c1 <= text.len(),
        is_utf8_boundary(text, babs),
        utf8_len(text.take(c0)) <= babs <= utf8_len(text.take(c1)),
    ensures
        is_utf8_boundary(text.subrange(c0, c1), babs - utf8_len(text.take(c0))),
{
    let sub = text.subrange(c0, c1);
    let b0 = utf8_len(text.take(c0)) as int;
    let k = choose|k: int| 0 <= k <= text.len() && utf8_len(text.take(k)) == babs;
    if k < c0 {
        crate::text::lemma_take_le_monotonic(text, k, c0);
        assert(babs == b0);
        assert(sub.take(0) =~= Seq::<char>::empty());
        assert(utf8_len(sub.take(0)) == babs - b0);
    } else if k > c1 {
        crate::text::lemma_take_le_monotonic(text, c1, k);
        assert(babs == utf8_len(text.take(c1)));
        assert(sub.take(c1 - c0) =~= sub);
        assert(text.take(c1) =~= text.take(c0) + sub);
        crate::text::lemma_utf8_len_concat(text.take(c0), sub);
        assert(utf8_len(sub.take(c1 - c0)) == babs - b0);
    } else {
        assert(text.take(k) =~= text.take(c0) + sub.take(k - c0));
        crate::text::lemma_utf8_len_concat(text.take(c0), sub.take(k - c0));
        assert(utf8_len(sub.take(k - c0)) == babs - b0);
    }
}

/// A span that is well placed in the whole text, and lies between two cut
/// points, is well placed in the sub-text between them.
pub proof fn lemma_span_restrict(
    sp: GSpan,
    base: int,
    text: Seq<char>,
    b0: int,
    b1: int,
    c0: int,
    c1: int,
)
    requires
        g_span_site_ok(sp, base, text),
        b0 <= sp.lo,
        sp.hi <= b1,
        0 <= c0 <= c1 <= text.len(),
        utf8_len(text.take(c0)) == b0 - base,
        utf8_len(text.take(c1)) == b1 - base,
    ensures
        g_span_site_ok(sp, b0, text.subrange(c0, c1)),
{
    let sub = text.subrange(c0, c1);
    assert(text.take(c1) =~= text.take(c0) + sub);
    crate::text::lemma_utf8_len_concat(text.take(c0), sub);
    assert(utf8_len(sub) == b1 - b0);
    lemma_boundary_restrict(text, c0, c1, sp.lo - base);
    lemma_boundary_restrict(text, c0, c1, sp.hi - base);
}

/// Restriction of well-placedness for a whole expression tree whose spans all
/// lie between the two cut points.
pub proof fn lemma_expr_site_restrict(
    e: GExpr,
    base: int,
    text: Seq<char>,
    b0: int,
    b1: int,
    c0: int,
    c1: int,
)
    requires
        g_expr_site_ok(e, base, text),
        b0 <= g_span_of(e).lo,
        g_span_of(e).hi <= b1,
        0 <= c0 <= c1 <= text.len(),
        utf8_len(text.take(c0)) == b0 - base,
        utf8_len(text.take(c1)) == b1 - base,
    ensures
        g_expr_site_ok(e, b0, text.subrange(c0, c1)),
    decreases e, 1nat,
{
    lemma_span_restrict(g_span_of(e), base, text, b0, b1, c0, c1);
    match e {
        GExpr::Ident(_) => {},
        GExpr::Member { span, obj, prop } => {
            lemma_expr_site_restrict(*obj, base, text, b0, b1, c0, c1);
            match prop {
                GMemberProp::Ident { sym, span: psp } => {
                    lemma_span_restrict(psp, base, text, b0, b1, c0, c1);
                },
                GMemberProp::Computed { span: psp, expr } => {
                    lemma_span_restrict(psp, base, text, b0, b1, c0, c1);
                    lemma_expr_site_restrict(*expr, base, text, b0, b1, c0, c1);
                },
            }
        },
        GExpr::Call { span, callee, args } => {
            match callee {
                GCallee::Expr(ce) => {
                    lemma_expr_site_restrict(*ce, base, text, b0, b1, c0, c1);
                },
                GCallee::Other => {},
            }
            lemma_args_site_restrict(args, span, base, text, b0, b1, c0, c1);
        },
        GExpr::New { span, callee, args } => {
            lemma_expr_site_restrict(*callee, base, text, b0, b1, c0, c1);
            lemma_args_site_restrict(args, span, base, text, b0, b1, c0, c1);
        },
        GExpr::Bin { span, op, left, right } => {
            lemma_expr_site_restrict(*left, base, text, b0, b1, c0, c1);
            lemma_expr_site_restrict(*right, base, text, b0, b1, c0, c1);
        },
        GExpr::Assign { span, op, left, right } => {
            lemma_expr_site_restrict(*left, base, text, b0, b1, c0, c1);
            lemma_expr_site_restrict(*right, base, text, b0, b1, c0, c1);
        },
        GExpr::Cond { span, test, cons, alt } => {
            lemma_expr_site_restrict(*test, base, text, b0, b1, c0, c1);
            lemma_expr_site_restrict(*cons, base, text, b0, b1, c0, c1);
            lemma_expr_site_restrict(*alt, base, text, b0, b1, c0, c1);
        },
        GExpr::Unary { span, op, arg } => {
            lemma_expr_site_restrict(*arg, base, text, b0, b1, c0, c1);
        },
        GExpr::Update { span, op, prefix, arg } => {
            lemma_expr_site_restrict(*arg, base, text, b0, b1, c0, c1);
        },
        GExpr::Await { span, arg } => {
            lemma_expr_site_restrict(*arg, base, text, b0, b1, c0, c1);
        },
        GExpr::Sequence { span, exprs } => {
            lemma_exprs_site_restrict(exprs, span, base, text, b0, b1, c0, c1);
        },
        GExpr::Paren { span, expr } => {
            lemma_expr_site_restrict(*expr, base, text, b0, b1, c0, c1);
        },
        GExpr::Func { span, body } => {
            lemma_stmts_site_restrict(body, span, base, text, b0, b1, c0, c1);
        },
        GExpr::Object { span, props } => {
            lemma_props_site_restrict(props, span, base, text, b0, b1, c0, c1);
        },
        GExpr::Lit(_) => {},
    }
}

pub proof fn lemma_exprs_site_restrict(
    s: Seq<GExpr>,
    outer: GSpan,
    base: int,
    text: Seq<char>,
    b0: int,
    b1: int,
    c0: int,
    c1: int,
)
    requires
        g_exprs_site_ok(s, outer, base, text),
        b0 <= outer.lo,
        outer.hi <= b1,
        0 <= c0 <= c1 <= text.len(),
        utf8_len(text.take(c0)) == b0 - base,
        utf8_len(text.take(c1)) == b1 - base,
    ensures
        g_exprs_site_ok(s, outer, b0, text.subrange(c0, c1)),
    decreases s, 0nat,
{
    if s.len() != 0 {
        lemma_expr_site_restrict(s[0], base, text, b0, b1, c0, c1);
        lemma_exprs_site_restrict(s.drop_first(), outer, base, text, b0, b1, c0, c1);
    }
}

pub proof fn lemma_args_site_restrict(
    s: Seq<GArg>,
    outer: GSpan,
    base: int,
    text: Seq<char>,
    b0: int,
    b1: int,
    c0: int,
    c1: int,
)
    requires
        g_args_site_ok(s, outer, base, text),
        b0 <= outer.lo,
        outer.hi <= b1,
        0 <= c0 <= c1 <= text.len(),
        utf8_len(text.take(c0)) == b0 - base,
        utf8_len(text.take(c1)) == b1 - base,
    ensures
        g_args_site_ok(s, outer, b0, text.subrange(c0, c1)),
    decreases s, 0nat,
{
    if s.len() != 0 {
        lemma_expr_site_restrict(s[0].expr, base, text, b0, b1, c0, c1);
        lemma_args_site_restrict(s.drop_first(), outer, base, text, b0, b1, c0, c1);
    }
}

pub proof fn lemma_props_site_restrict(
    s: Seq<GProp>,
    outer: GSpan,
    base: int,
    text: Seq<char>,
    b0: int,
    b1: int,
    c0: int,
    c1: int,
)
    requires
        g_props_site_ok(s, outer, base, text),
        b0 <= outer.lo,
        outer.hi <= b1,
        0 <= c0 <= c1 <= text.len(),
        utf8_len(text.take(c0)) == b0 - base,
        utf8_len(text.take(c1)) == b1 - base,
    ensures
        g_props_site_ok(s, outer, b0, text.subrange(c0, c1)),
    decreases s, 0nat,
{
    if s.len() != 0 {
        lemma_expr_site_restrict(s[0].value, base, text, b0, b1, c0, c1);
        lemma_props_site_restrict(s.drop_first(), outer, base, text, b0, b1, c0, c1);
    }
}

pub proof fn lemma_stmt_site_restrict(
    s: GStmt,
    base: int,
    text: Seq<char>,
    b0: int,
    b1: int,
    c0: int,
    c1: int,
)
    requires
        g_stmt_site_ok(s, base, text),
        b0 <= g_stmt_span_of(s).lo,
        g_stmt_span_of(s).hi <= b1,
        0 <= c0 <= c1 <= text.len(),
        utf8_len(text.take(c0)) == b0 - base,
        utf8_len(text.take(c1)) == b1 - base,
    ensures
        g_stmt_site_ok(s, b0, text.subrange(c0, c1)),
    decreases s, 1nat,
{
    lemma_span_restrict(g_stmt_span_of(s), base, text, b0, b1, c0, c1);
    match s {
        GStmt::Expr { span, expr } => {
            lemma_expr_site_restrict(*expr, base, text, b0, b1, c0, c1);
        },
        GStmt::VarDecl(vd) => {
            lemma_declarators_site_restrict(vd.decls, vd.span, base, text, b0, b1, c0, c1);
        },
        GStmt::FnDecl { span, ident, body } => {
            lemma_stmts_site_restrict(body, span, base, text, b0, b1, c0, c1);
        },
        GStmt::Block { span, stmts } => {
            lemma_stmts_site_restrict(stmts, span, base, text, b0, b1, c0, c1);
        },
    }
}

pub proof fn lemma_declarators_site_restrict(
    s: Seq<GVarDeclarator>,
    outer: GSpan,
    base: int,
    text: Seq<char>,
    b0: int,
    b1: int,
    c0: int,
    c1: int,
)
    requires
        g_declarators_site_ok(s, outer, base, text),
        b0 <= outer.lo,
        outer.hi <= b1,
        0 <= c0 <= c1 <= text.len(),
        utf8_len(text.take(c0)) == b0 - base,
        utf8_len(text.take(c1)) == b1 - base,
    ensures
        g_declarators_site_ok(s, outer, b0, text.subrange(c0, c1)),
    decreases s, 0nat,
{
    if s.len() != 0 {
        match s[0].init {
            Option::Some(e) => {
                lemma_expr_site_restrict(e, base, text, b0, b1, c0, c1);
            },
            Option::None => {},
        }
        lemma_declarators_site_restrict(s.drop_first(), outer, base, text, b0, b1, c0, c1);
    }
}

pub proof fn lemma_stmts_site_restrict(
    s: Seq<GStmt>,
    outer: GSpan,
    base: int,
    text: Seq<char>,
    b0: int,
    b1: int,
    c0: int,
    c1: int,
)
    requires
        g_stmts_site_ok(s, outer, base, text),
        b0 <= outer.lo,
        outer.hi <= b1,
        0 <= c0 <= c1 <= text.len(),
        utf8_len(text.take(c0)) == b0 - base,
        utf8_len(text.take(c1)) == b1 - base,
    ensures
        g_stmts_site_ok(s, outer, b0, text.subrange(c0, c1)),
    decreases s, 0nat,
{
    if s.len() != 0 {
        lemma_stmt_site_restrict(s[0], base, text, b0, b1, c0, c1);
        lemma_stmts_site_restrict(s.drop_first(), outer, base, text, b0, b1, c0, c1);
    }
}

/// Well-placedness of module items: import declarations carry no captured
/// positions; statements must be well placed.
pub open spec fn g_item_site_ok(it: GModuleItem, base: int, text: Seq<char>) -> bool {
    match it {
        GModuleItem::Import(_) => true,
        GModuleItem::Stmt(s) => g_stmt_site_ok(s, base, text),
    }
}

pub open spec fn g_items_site_ok(s: Seq<GModuleItem>, base: int, text: Seq<char>) -> bool
    decreases s,
{
    if s.len() == 0 {
        true
    } else {
        g_item_site_ok(s[0], base, text) && g_items_site_ok(s.drop_first(), base, text)
    }
}

/// A module is well placed when every statement's positions lie inside the
/// source text, measured from the module's own start.
pub open spec fn g_module_site_ok(m: GModule, text: Seq<char>) -> bool {
    &&& 1 <= m.span.lo <= m.span.hi
    &&& g_span_site_ok(m.span, m.span.lo, text)
    &&& g_items_site_ok(m.items, m.span.lo, text)
}

} // verus!
