//! The assertion-site detector and traversal driver: recognizes assertion
//! calls through the resolved target bindings, drives the per-argument capture
//! walk, and splices the synthesized declarations at scope boundaries.

use vstd::prelude::*;
use crate::ast::{
    CallExpr, Callee, Expr, ExprOrSpread, GArg, GCallee, GExpr, GImportDecl, GImportSpecifier,
    GMemberProp, ImportDecl, ImportSpecifier, ModuleExportName,
    lemma_view_specifiers_index, view_args, view_callee, view_expr, view_specifier,
    view_specifiers,
};
use crate::names::{argrec_name, g_argrec_name, g_runner_name, runner_name};
use crate::ast::{
    GModule, GModuleItem, GProp, GStmt, GVarDecl, GVarDeclarator, GSpan, lemma_view_args_index,
    size_args, size_declarators, size_expr, size_exprs, size_item, size_items, size_props,
    size_stmt, size_stmts, view_arg,
};
use crate::synth::{g_argrec_decl, g_runner_decl, g_runtime_import};
use crate::pos::{
    g_args_site_ok, g_declarators_site_ok, g_expr_site_ok, g_exprs_site_ok, g_props_site_ok,
    g_span_site_ok, g_stmt_site_ok, g_stmts_site_ok, lemma_args_site_restrict,
};
use crate::ast::{
    BlockStmt, ExprStmt, MemberProp, Module, ModuleItem, Stmt, VarDecl, VarDeclarator,
    lemma_view_items_concat, lemma_view_items_index, lemma_view_stmts_concat,
    lemma_view_stmts_index, view_declarator, view_declarators, view_exprs, view_item, view_items,
    view_prop, view_props, view_stmt, view_stmts,
};
use crate::synth::{
    AssertionMetadata, ArgumentMetadata, GArgMeta, GAssertionMeta, apply_binexp_hint,
    g_apply_binexp_hint, g_demote_tap, g_is_tap_call, g_powered_run_callee, g_wrap_rec,
    replace_callee_with_powered_run, replace_with_rec_if_tap_exists_directly_under_the_arg,
    wrap_with_rec_without_pos,
};
use crate::text::{char_idx_of_byte, substring_bytes, utf16_len, utf16_unit_len, utf8_byte_len};
use crate::walk::{GWalkCtx, g_walk};
use crate::targets::{
    Id, ModuleEntry, TargetModules, allow_contains, g_collect_specifiers, g_ids, g_import_targets,
    g_specifier_local, g_specifier_targeted, targets_contain,
};
use crate::text::{str_eq, utf8_len};

verus! {

/// Ghost image of the whole transform state.
#[verifier::ext_equal]
pub ghost struct GVisitor {
    pub span_offset: int,
    pub powered_var_cnt: int,
    pub argrec_var_cnt: int,
    pub target_variables: Seq<(Seq<char>, int)>,
    pub target_modules: Seq<(Seq<char>, Seq<Seq<char>>)>,
    pub assertion_metadata_vec: Seq<GAssertionMeta>,
    pub assertion_metadata: Option<GAssertionMeta>,
    pub argument_metadata_vec: Seq<GArgMeta>,
    pub argument_metadata: Option<GArgMeta>,
    pub is_runtime_imported: bool,
    pub do_not_capture_immediate_child: bool,
    pub code: Seq<char>,
}

/// The expression-instrumentation engine's state over one compilation unit.
pub struct TransformVisitor {
    pub span_offset: u32,
    pub powered_var_cnt: usize,
    pub argrec_var_cnt: usize,
    pub target_variables: Vec<Id>,
    pub target_modules: TargetModules,
    pub assertion_metadata_vec: Vec<AssertionMetadata>,
    pub assertion_metadata: Option<AssertionMetadata>,
    pub argument_metadata_vec: Vec<ArgumentMetadata>,
    pub argument_metadata: Option<ArgumentMetadata>,
    pub is_runtime_imported: bool,
    pub do_not_capture_immediate_child: bool,
    pub code: String,
}

impl TransformVisitor {
    pub open spec fn view(&self) -> GVisitor {
        GVisitor {
            span_offset: self.span_offset as int,
            powered_var_cnt: self.powered_var_cnt as int,
            argrec_var_cnt: self.argrec_var_cnt as int,
            target_variables: g_ids(self.target_variables@),
            target_modules: self.target_modules.view(),
            assertion_metadata_vec: self.assertion_metadata_vec@.map_values(
                |m: AssertionMetadata| m.view(),
            ),
            assertion_metadata: match self.assertion_metadata {
                Option::Some(ref m) => Option::Some(m.view()),
                Option::None => Option::None,
            },
            argument_metadata_vec: self.argument_metadata_vec@.map_values(
                |m: ArgumentMetadata| m.view(),
            ),
            argument_metadata: match self.argument_metadata {
                Option::Some(ref m) => Option::Some(m.view()),
                Option::None => Option::None,
            },
            is_runtime_imported: self.is_runtime_imported,
            do_not_capture_immediate_child: self.do_not_capture_immediate_child,
            code: self.code@,
        }
    }

    /// State invariant between top-level traversal steps: no site or slot is
    /// active, the one-shot suppression flag is clear, and the source text's
    /// positions fit the position arithmetic.
    pub open spec fn inv(&self) -> bool {
        &&& self.assertion_metadata is None
        &&& self.argument_metadata is None
        &&& !self.do_not_capture_immediate_child
        &&& utf8_len(self.code@) <= u32::MAX
    }
}

/// The configuration the engine starts from: the standard assertion module
/// under its aliases, every export counting, plus the one allow-listed
/// test-framework re-export.
pub open spec fn g_default_modules() -> Seq<(Seq<char>, Seq<Seq<char>>)> {
    seq![
        ("node:assert"@, Seq::<Seq<char>>::empty()),
        ("node:assert/strict"@, Seq::<Seq<char>>::empty()),
        ("assert"@, Seq::<Seq<char>>::empty()),
        ("assert/strict"@, Seq::<Seq<char>>::empty()),
        ("vitest"@, seq!["assert"@]),
    ]
}

/// The fresh engine state over the given source text.
pub open spec fn g_initial_visitor(code: Seq<char>) -> GVisitor {
    GVisitor {
        span_offset: 0,
        powered_var_cnt: 0,
        argrec_var_cnt: 0,
        target_variables: Seq::empty(),
        target_modules: g_default_modules(),
        assertion_metadata_vec: Seq::empty(),
        assertion_metadata: Option::None,
        argument_metadata_vec: Seq::empty(),
        argument_metadata: Option::None,
        is_runtime_imported: false,
        do_not_capture_immediate_child: false,
        code: code,
    }
}

fn default_target_modules() -> (r: TargetModules)
    ensures
        r.view() == g_default_modules(),
{
    let mut entries: Vec<ModuleEntry> = Vec::new();
    entries.push(ModuleEntry { name: "node:assert".to_owned(), allow: Vec::new() });
    entries.push(ModuleEntry { name: "node:assert/strict".to_owned(), allow: Vec::new() });
    entries.push(ModuleEntry { name: "assert".to_owned(), allow: Vec::new() });
    entries.push(ModuleEntry { name: "assert/strict".to_owned(), allow: Vec::new() });
    let mut vitest_allowlist: Vec<String> = Vec::new();
    vitest_allowlist.push("assert".to_owned());
    proof {
        assert(vitest_allowlist.deep_view() =~= seq!["assert"@]);
    }
    entries.push(ModuleEntry { name: "vitest".to_owned(), allow: vitest_allowlist });
    let r = TargetModules { entries };
    proof {
        assert(r.entries@.len() == 5);
        assert(r.view()[0] == ("node:assert"@, Seq::<Seq<char>>::empty())) by {
            assert(r.entries@[0].allow.deep_view() =~= Seq::<Seq<char>>::empty());
        }
        assert(r.view()[1] == ("node:assert/strict"@, Seq::<Seq<char>>::empty())) by {
            assert(r.entries@[1].allow.deep_view() =~= Seq::<Seq<char>>::empty());
        }
        assert(r.view()[2] == ("assert"@, Seq::<Seq<char>>::empty())) by {
            assert(r.entries@[2].allow.deep_view() =~= Seq::<Seq<char>>::empty());
        }
        assert(r.view()[3] == ("assert/strict"@, Seq::<Seq<char>>::empty())) by {
            assert(r.entries@[3].allow.deep_view() =~= Seq::<Seq<char>>::empty());
        }
        assert(r.view()[4] == ("vitest"@, seq!["assert"@]));
        assert(r.view() =~= g_default_modules());
    }
    r
}

impl Default for TransformVisitor {
    /// A fresh engine over empty source text.
    fn default() -> (r: Self)
        ensures
            r.view() == g_initial_visitor(Seq::<char>::empty()),
            r.inv(),
    {
        let r = TransformVisitor {
            span_offset: 0,
            powered_var_cnt: 0,
            argrec_var_cnt: 0,
            target_variables: Vec::new(),
            target_modules: default_target_modules(),
            assertion_metadata_vec: Vec::new(),
            assertion_metadata: None,
            argument_metadata_vec: Vec::new(),
            argument_metadata: None,
            is_runtime_imported: false,
            do_not_capture_immediate_child: false,
            code: String::new(),
        };
        proof {
            assert(g_ids(r.target_variables@) =~= Seq::<(Seq<char>, int)>::empty());
            assert(r.assertion_metadata_vec@.map_values(|m: AssertionMetadata| m.view())
                =~= Seq::<GAssertionMeta>::empty());
            assert(r.argument_metadata_vec@.map_values(|m: ArgumentMetadata| m.view())
                =~= Seq::<GArgMeta>::empty());
            assert(utf8_len(Seq::<char>::empty()) == 0);
        }
        r
    }
}

impl TransformVisitor {
    /// A fresh engine over the given source text.
    pub fn from_code(code: String) -> (r: Self)
        requires
            utf8_len(code@) <= u32::MAX,
        ensures
            r.view() == g_initial_visitor(code@),
            r.inv(),
    {
        let mut r = Self::default();
        r.code = code;
        r
    }

    /// Allocate the next runner binding name.
    pub fn next_powered_runner_variable_name(&mut self) -> (r: String)
        requires
            old(self).powered_var_cnt < usize::MAX,
        ensures
            final(self).powered_var_cnt == old(self).powered_var_cnt + 1,
            r@ == g_runner_name(old(self).powered_var_cnt + 1),
            *final(self) == (TransformVisitor {
                powered_var_cnt: final(self).powered_var_cnt,
                ..*old(self)
            }),
    {
        self.powered_var_cnt = self.powered_var_cnt + 1;
        runner_name(self.powered_var_cnt)
    }

    /// Allocate the next recorder binding name.
    pub fn next_argrec_variable_name(&mut self) -> (r: String)
        requires
            old(self).argrec_var_cnt < usize::MAX,
        ensures
            final(self).argrec_var_cnt == old(self).argrec_var_cnt + 1,
            r@ == g_argrec_name(old(self).argrec_var_cnt + 1),
            *final(self) == (TransformVisitor {
                argrec_var_cnt: final(self).argrec_var_cnt,
                ..*old(self)
            }),
    {
        self.argrec_var_cnt = self.argrec_var_cnt + 1;
        argrec_name(self.argrec_var_cnt)
    }

    /// Retract the most recent, unused recorder allocation so the next
    /// argument reuses its number.
    pub fn unset_argrec_variable_name(&mut self)
        requires
            old(self).argrec_var_cnt >= 1,
        ensures
            final(self).argrec_var_cnt == old(self).argrec_var_cnt - 1,
            *final(self) == (TransformVisitor {
                argrec_var_cnt: final(self).argrec_var_cnt,
                ..*old(self)
            }),
    {
        self.argrec_var_cnt = self.argrec_var_cnt - 1;
    }

    /// Forget the records accumulated for the scope that was just flushed.
    pub fn clear_transformations(&mut self)
        ensures
            final(self).assertion_metadata_vec@ == Seq::<AssertionMetadata>::empty(),
            final(self).argument_metadata_vec@ == Seq::<ArgumentMetadata>::empty(),
            *final(self) == (TransformVisitor {
                assertion_metadata_vec: final(self).assertion_metadata_vec,
                argument_metadata_vec: final(self).argument_metadata_vec,
                ..*old(self)
            }),
    {
        self.assertion_metadata_vec = Vec::new();
        self.argument_metadata_vec = Vec::new();
    }

    /// Are there runner/recorder declarations waiting to be spliced?
    pub fn has_declarations_to_be_inserted(&self) -> (r: bool)
        ensures
            r == (self.view().assertion_metadata_vec.len() != 0
                || self.view().argument_metadata_vec.len() != 0),
    {
        !self.assertion_metadata_vec.is_empty() || !self.argument_metadata_vec.is_empty()
    }

    /// Is there anything to splice at module level, counting the one-time
    /// runtime import?
    pub fn has_declarations_and_imports_to_be_inserted(&self) -> (r: bool)
        ensures
            r == (!self.is_runtime_imported || self.view().assertion_metadata_vec.len() != 0
                || self.view().argument_metadata_vec.len() != 0),
    {
        !self.is_runtime_imported || self.has_declarations_to_be_inserted()
    }

    /// Scan one import declaration and record every local binding it creates
    /// for a configured assertion module.
    pub fn visit_mut_import_decl(&mut self, n: &ImportDecl)
        ensures
            g_ids(final(self).target_variables@) == g_import_targets(
                old(self).view().target_modules,
                g_ids(old(self).target_variables@),
                n.view(),
            ),
            *final(self) == (TransformVisitor {
                target_variables: final(self).target_variables,
                ..*old(self)
            }),
    {
        let ghost gold = g_ids(self.target_variables@);
        let ghost gspecs = view_specifiers(n.specifiers@);
        let allow_opt = self.target_modules.lookup(n.src.as_str());
        match allow_opt {
            None => {},
            Some(allow_list) => {
                let ghost gallow = allow_list.deep_view();
                let n_specs = n.specifiers.len();
                let mut i: usize = 0;
                proof {
                    lemma_view_specifiers_index(n.specifiers@);
                    assert(gspecs.skip(0) =~= gspecs);
                }
                while i < n_specs
                    invariant
                        0 <= i <= n_specs,
                        n_specs == n.specifiers@.len(),
                        gspecs == view_specifiers(n.specifiers@),
                        gspecs.len() == n.specifiers@.len(),
                        forall|j: int|
                            0 <= j < n.specifiers@.len() ==> gspecs[j] == view_specifier(
                                n.specifiers@[j],
                            ),
                        gallow == allow_list.deep_view(),
                        g_ids(self.target_variables@) + g_collect_specifiers(
                            gallow,
                            gspecs.skip(i as int),
                        ) == gold + g_collect_specifiers(gallow, gspecs),
                        *self == (TransformVisitor {
                            target_variables: self.target_variables,
                            ..*old(self)
                        }),
                    decreases n_specs - i,
                {
                    let ghost gtv = g_ids(self.target_variables@);
                    let ghost grest = gspecs.skip(i as int);
                    proof {
                        assert(grest[0] == gspecs[i as int]);
                        assert(grest.drop_first() =~= gspecs.skip(i as int + 1));
                        assert(g_collect_specifiers(gallow, grest) == (if g_specifier_targeted(
                            gallow,
                            grest[0],
                        ) {
                            seq![g_specifier_local(grest[0])]
                        } else {
                            Seq::<(Seq<char>, int)>::empty()
                        }) + g_collect_specifiers(gallow, grest.drop_first()));
                    }
                    let sp = &n.specifiers[i];
                    let (local_sym, local_ctxt, targeted): (&String, u32, bool) = match sp {
                        ImportSpecifier::Default { local } => (&local.sym, local.ctxt, true),
                        ImportSpecifier::Namespace { local } => (&local.sym, local.ctxt, true),
                        ImportSpecifier::Named { local, imported } => {
                            let ok = match imported {
                                Some(ModuleExportName::Ident(nm)) => allow_list.is_empty()
                                    || allow_contains(allow_list, nm.as_str()),
                                Some(ModuleExportName::Str(nm)) => allow_list.is_empty()
                                    || allow_contains(allow_list, nm.as_str()),
                                None => allow_list.is_empty() || allow_contains(
                                    allow_list,
                                    local.sym.as_str(),
                                ),
                            };
                            (&local.sym, local.ctxt, ok)
                        },
                    };
                    proof {
                        assert(targeted == g_specifier_targeted(gallow, grest[0]));
                    }
                    if targeted {
                        let id = Id { sym: local_sym.clone(), ctxt: local_ctxt };
                        proof {
                            assert(id.view() == g_specifier_local(grest[0]));
                        }
                        self.target_variables.push(id);
                        proof {
                            assert(g_ids(self.target_variables@) =~= gtv.push(
                                g_specifier_local(grest[0]),
                            ));
                            assert(gtv.push(g_specifier_local(grest[0])) + g_collect_specifiers(
                                gallow,
                                grest.drop_first(),
                            ) =~= gtv + g_collect_specifiers(gallow, grest));
                        }
                    } else {
                        proof {
                            assert(Seq::<(Seq<char>, int)>::empty() + g_collect_specifiers(
                                gallow,
                                grest.drop_first(),
                            ) =~= g_collect_specifiers(gallow, grest));
                            assert(gtv + g_collect_specifiers(gallow, grest.drop_first())
                                =~= gtv + (Seq::<(Seq<char>, int)>::empty()
                                + g_collect_specifiers(gallow, grest.drop_first())));
                        }
                    }
                    i = i + 1;
                }
                proof {
                    assert(gspecs.skip(n_specs as int) =~= Seq::<GImportSpecifier>::empty());
                    assert(g_ids(self.target_variables@) + Seq::<(Seq<char>, int)>::empty()
                        =~= g_ids(self.target_variables@));
                }
            },
        }
    }
}

// ---------------------------------------------------------------------------
// Assertion site detection and capture
// ---------------------------------------------------------------------------

/// The ghost image of a call node.
pub open spec fn view_call(c: CallExpr) -> GExpr {
    view_expr(Expr::Call(c))
}

pub open spec fn view_opt_string(o: Option<String>) -> Option<Seq<char>> {
    match o {
        Option::Some(s) => Option::Some(s@),
        Option::None => Option::None,
    }
}

/// The candidate (callee name, receiver name) pair of a call: a bare
/// identifier bound in the target set, or a member access whose object is one.
pub open spec fn g_candidate(
    targets: Seq<(Seq<char>, int)>,
    callee: GCallee,
) -> Option<(Seq<char>, Option<Seq<char>>)> {
    match callee {
        GCallee::Expr(ce) => match *ce {
            GExpr::Member { span, obj, prop } => match prop {
                GMemberProp::Ident { sym: psym, span: psp } => match *obj {
                    GExpr::Ident(oi) => if targets.contains((oi.sym, oi.ctxt)) {
                        Option::Some((psym, Option::Some(oi.sym)))
                    } else {
                        Option::None
                    },
                    _ => Option::None,
                },
                _ => Option::None,
            },
            GExpr::Ident(i) => if targets.contains((i.sym, i.ctxt)) {
                Option::Some((i.sym, Option::None))
            } else {
                Option::None
            },
            _ => Option::None,
        },
        GCallee::Other => Option::None,
    }
}

/// Any argument is a spread element.
pub open spec fn g_has_spread(args: Seq<GArg>) -> bool {
    exists|i: int| 0 <= i < args.len() && args[i].spread
}

/// The four equality/inequality comparison operators.
pub open spec fn g_is_eq_op(op: Seq<char>) -> bool {
    op == "=="@ || op == "==="@ || op == "!="@ || op == "!=="@
}

/// The binary-operator hint of a site: present exactly when the call has one
/// argument and that argument is a top-level comparison.
pub open spec fn g_binop_of(args: Seq<GArg>) -> Option<Seq<char>> {
    if args.len() == 1 {
        match args[0].expr {
            GExpr::Bin { span, op, left, right } => if g_is_eq_op(op) {
                Option::Some(op)
            } else {
                Option::None
            },
            _ => Option::None,
        }
    } else {
        Option::None
    }
}

/// The verbatim source text between two byte offsets of the compilation unit.
pub open spec fn g_site_code(file: Seq<char>, lo_b: int, hi_b: int) -> Seq<char> {
    file.subrange(char_idx_of_byte(file, lo_b), char_idx_of_byte(file, hi_b))
}

#[verifier::ext_equal]
pub ghost struct GCapArgsOut {
    pub args: Seq<GArg>,
    pub argrec_cnt: int,
    pub slots: Seq<GArgMeta>,
    pub any: bool,
    pub sup: bool,
}

/// Capture one argument: allocate a recorder, walk the subtree, attach
/// comparison hints, and close the slot — demoting or adding the final
/// report-only wrap when something was captured, retracting the recorder
/// allocation when nothing was. Yields the rewritten argument, the counter
/// after the step, the slot record if one was kept, the capture flag, and the
/// suppression flag after the walk.
#[verifier::opaque]
pub open spec fn g_capture_one(
    start: int,
    code: Seq<char>,
    multibyte: bool,
    powered: Seq<char>,
    has_binop: bool,
    cnt: int,
    idx: int,
    sup: bool,
    a: GArg,
) -> (GArg, int, Option<GArgMeta>, bool, bool) {
    let argrec = g_argrec_name(cnt + 1);
    let o = g_walk(GWalkCtx { start, code, multibyte, argrec }, sup, a.expr);
    let hinted = if has_binop {
        g_apply_binexp_hint(o.expr, argrec)
    } else {
        o.expr
    };
    if o.cap {
        let closed = if g_is_tap_call(hinted, argrec) {
            g_demote_tap(hinted, argrec)
        } else {
            g_wrap_rec(argrec, hinted)
        };
        let slot = GArgMeta {
            is_captured: true,
            ident_name: argrec,
            arg_index: idx,
            powered_ident_name: powered,
        };
        (GArg { spread: a.spread, expr: closed }, cnt + 1, Option::Some(slot), true, o.sup)
    } else {
        (GArg { spread: a.spread, expr: hinted }, cnt, Option::None, false, o.sup)
    }
}

/// Capture the arguments in order, threading the counter and the flag.
pub open spec fn g_capture_args(
    start: int,
    code: Seq<char>,
    multibyte: bool,
    powered: Seq<char>,
    has_binop: bool,
    cnt: int,
    idx: int,
    sup: bool,
    args: Seq<GArg>,
) -> GCapArgsOut
    decreases args,
{
    if args.len() == 0 {
        GCapArgsOut { args, argrec_cnt: cnt, slots: Seq::empty(), any: false, sup }
    } else {
        let one = g_capture_one(start, code, multibyte, powered, has_binop, cnt, idx, sup, args[0]);
        let rest = g_capture_args(
            start,
            code,
            multibyte,
            powered,
            has_binop,
            one.1,
            idx + 1,
            one.4,
            args.drop_first(),
        );
        GCapArgsOut {
            args: seq![one.0] + rest.args,
            argrec_cnt: rest.argrec_cnt,
            slots: (match one.2 {
                Option::Some(slot) => seq![slot],
                Option::None => Seq::<GArgMeta>::empty(),
            }) + rest.slots,
            any: one.3 || rest.any,
            sup: rest.sup,
        }
    }
}

/// Capture one recognized assertion call: allocate its runner, extract its
/// verbatim text, record the comparison hint, and — unless any argument is a
/// spread element, which leaves the call untouched — capture each argument
/// and rewire the callee to `<runner>.run` when anything was captured. The
/// site record is stored in either case except the spread abort.
pub open spec fn g_capture(
    v: GVisitor,
    span: GSpan,
    callee: GCallee,
    args: Seq<GArg>,
    prop: Seq<char>,
    recv: Option<Seq<char>>,
) -> (GVisitor, GExpr) {
    let powered = g_runner_name(v.powered_var_cnt + 1);
    let lo_b = span.lo - v.span_offset - 1;
    let hi_b = span.hi - v.span_offset - 1;
    let code = g_site_code(v.code, lo_b, hi_b);
    let multibyte = utf16_len(code) < utf8_len(code);
    let site = GAssertionMeta {
        ident_name: powered,
        callee_ident_name: prop,
        receiver_ident_name: recv,
        assertion_code: code,
        assertion_start_pos: span.lo,
        contains_multibyte_char: multibyte,
        binary_op: g_binop_of(args),
    };
    if g_has_spread(args) {
        (
            GVisitor {
                powered_var_cnt: v.powered_var_cnt + 1,
                assertion_metadata: Option::None,
                ..v
            },
            GExpr::Call { span, callee, args },
        )
    } else {
        let ao = g_capture_args(
            span.lo,
            code,
            multibyte,
            powered,
            site.binary_op is Some,
            v.argrec_var_cnt,
            0,
            false,
            args,
        );
        let callee2 = if ao.any {
            g_powered_run_callee(powered)
        } else {
            callee
        };
        (
            GVisitor {
                powered_var_cnt: v.powered_var_cnt + 1,
                argrec_var_cnt: ao.argrec_cnt,
                assertion_metadata_vec: v.assertion_metadata_vec + seq![site],
                argument_metadata_vec: v.argument_metadata_vec + ao.slots,
                assertion_metadata: Option::None,
                argument_metadata: Option::None,
                do_not_capture_immediate_child: false,
                ..v
            },
            GExpr::Call { span, callee: callee2, args: ao.args },
        )
    }
}

/// Does any argument use spread syntax?
fn args_have_spread(args: &Vec<ExprOrSpread>) -> (r: bool)
    ensures
        r == g_has_spread(view_args(args@)),
{
    proof {
        lemma_view_args_index(args@);
    }
    let n = args.len();
    let mut i: usize = 0;
    while i < n
        invariant
            0 <= i <= n,
            n == args@.len(),
            view_args(args@).len() == args@.len(),
            forall|j: int|
                0 <= j < args@.len() ==> view_args(args@)[j] == view_arg(args@[j]),
            forall|j: int| 0 <= j < i ==> !view_args(args@)[j].spread,
        decreases n - i,
    {
        if args[i].spread {
            proof {
                assert(view_args(args@)[i as int].spread);
            }
            return true;
        }
        i = i + 1;
    }
    false
}

/// The comparison-operator hint for the call's arguments, if one applies.
fn detect_binary_op(args: &Vec<ExprOrSpread>) -> (r: Option<String>)
    ensures
        view_opt_string(r) == g_binop_of(view_args(args@)),
{
    proof {
        lemma_view_args_index(args@);
    }
    if args.len() != 1 {
        return None;
    }
    match &*args[0].expr {
        Expr::Bin(b) => {
            proof {
                assert(view_args(args@)[0] == view_arg(args@[0]));
                assert(view_arg(args@[0]).expr == (GExpr::Bin {
                    span: b.span.view(),
                    op: b.op@,
                    left: Box::new(view_expr(*b.left)),
                    right: Box::new(view_expr(*b.right)),
                }));
            }
            let is_eq = str_eq(b.op.as_str(), "==") || str_eq(b.op.as_str(), "===") || str_eq(
                b.op.as_str(),
                "!=",
            ) || str_eq(b.op.as_str(), "!==");
            if is_eq {
                Some(b.op.clone())
            } else {
                None
            }
        },
        _ => None,
    }
}

impl TransformVisitor {
    /// Capture one argument of an assertion site.
    fn capture_one_arg(
        &mut self,
        start: u32,
        code: &str,
        multibyte: bool,
        powered: &str,
        has_binop: bool,
        idx: usize,
        sup: bool,
        arg: ExprOrSpread,
    ) -> (r: (ExprOrSpread, bool, bool))
        requires
            old(self).argument_metadata is None,
            old(self).argrec_var_cnt < usize::MAX,
            multibyte == (utf16_len(code@) < utf8_len(code@)),
            utf8_len(code@) <= u32::MAX,
            g_expr_site_ok(view_arg(arg).expr, start as int, code@),
        ensures
            ({
                let one = g_capture_one(
                    start as int,
                    code@,
                    multibyte,
                    powered@,
                    has_binop,
                    old(self).argrec_var_cnt as int,
                    idx as int,
                    sup,
                    view_arg(arg),
                );
                &&& view_arg(r.0) == one.0
                &&& final(self).argrec_var_cnt == one.1
                &&& final(self).argument_metadata_vec@.map_values(
                    |m: ArgumentMetadata| m.view(),
                ) == old(self).argument_metadata_vec@.map_values(
                    |m: ArgumentMetadata| m.view(),
                ) + (match one.2 {
                    Option::Some(slot) => seq![slot],
                    Option::None => Seq::<GArgMeta>::empty(),
                })
                &&& r.1 == one.3
                &&& r.2 == one.4
            }),
            final(self).argrec_var_cnt <= old(self).argrec_var_cnt + 1,
            final(self).argument_metadata is None,
            *final(self) == (TransformVisitor {
                argrec_var_cnt: final(self).argrec_var_cnt,
                argument_metadata_vec: final(self).argument_metadata_vec,
                argument_metadata: final(self).argument_metadata,
                ..*old(self)
            }),
    {
        proof {
            reveal(g_capture_one);
        }
        let ghost slots0 = self.argument_metadata_vec@.map_values(
            |m: ArgumentMetadata| m.view(),
        );
        let spread = arg.spread;
        let argrec_ident_name = self.next_argrec_variable_name();
        self.argument_metadata = Some(
            ArgumentMetadata {
                is_captured: false,
                ident_name: argrec_ident_name.clone(),
                arg_index: idx,
                powered_ident_name: powered.to_owned(),
            },
        );
        let (we, sup1, cap) = crate::walk::walk_expr(
            start,
            code,
            multibyte,
            argrec_ident_name.as_str(),
            sup,
            *arg.expr,
        );
        self.argument_metadata = None;
        let walked = ExprOrSpread { spread, expr: Box::new(we) };
        let hinted = if has_binop {
            apply_binexp_hint(walked, argrec_ident_name.as_str())
        } else {
            walked
        };
        if cap {
            let (demoted, was_tap) = replace_with_rec_if_tap_exists_directly_under_the_arg(
                hinted,
                argrec_ident_name.as_str(),
            );
            let out_arg = if was_tap {
                demoted
            } else {
                let inner = wrap_with_rec_without_pos(argrec_ident_name.as_str(), *demoted.expr);
                ExprOrSpread { spread: demoted.spread, expr: Box::new(inner) }
            };
            self.argument_metadata_vec.push(
                ArgumentMetadata {
                    is_captured: true,
                    ident_name: argrec_ident_name,
                    arg_index: idx,
                    powered_ident_name: powered.to_owned(),
                },
            );
            proof {
                assert(self.argument_metadata_vec@.map_values(|m: ArgumentMetadata| m.view())
                    =~= slots0 + seq![
                    GArgMeta {
                        is_captured: true,
                        ident_name: argrec_ident_name@,
                        arg_index: idx as int,
                        powered_ident_name: powered@,
                    },
                ]);
            }
            (out_arg, true, sup1)
        } else {
            self.unset_argrec_variable_name();
            proof {
                assert(slots0 + Seq::<GArgMeta>::empty() =~= slots0);
            }
            (hinted, false, sup1)
        }
    }

    /// Capture the arguments of one assertion site in order.
    #[verifier::rlimit(100)]
    #[verifier::spinoff_prover]
    fn capture_args(
        &mut self,
        start: u32,
        code: &str,
        multibyte: bool,
        powered: &str,
        has_binop: bool,
        idx: usize,
        sup: bool,
        args: Vec<ExprOrSpread>,
        Ghost(outer): Ghost<GSpan>,
    ) -> (r: (Vec<ExprOrSpread>, bool, bool))
        requires
            old(self).argument_metadata is None,
            old(self).argrec_var_cnt + args@.len() <= usize::MAX,
            idx + args@.len() <= usize::MAX,
            multibyte == (utf16_len(code@) < utf8_len(code@)),
            utf8_len(code@) <= u32::MAX,
            g_args_site_ok(view_args(args@), outer, start as int, code@),
        ensures
            ({
                let o = g_capture_args(
                    start as int,
                    code@,
                    multibyte,
                    powered@,
                    has_binop,
                    old(self).argrec_var_cnt as int,
                    idx as int,
                    sup,
                    view_args(args@),
                );
                &&& view_args(r.0@) == o.args
                &&& final(self).argrec_var_cnt == o.argrec_cnt
                &&& final(self).argument_metadata_vec@.map_values(
                    |m: ArgumentMetadata| m.view(),
                ) == old(self).argument_metadata_vec@.map_values(
                    |m: ArgumentMetadata| m.view(),
                ) + o.slots
                &&& r.1 == o.any
                &&& r.2 == o.sup
            }),
            final(self).argrec_var_cnt <= old(self).argrec_var_cnt + args@.len(),
            final(self).argument_metadata is None,
            *final(self) == (TransformVisitor {
                argrec_var_cnt: final(self).argrec_var_cnt,
                argument_metadata_vec: final(self).argument_metadata_vec,
                argument_metadata: final(self).argument_metadata,
                ..*old(self)
            }),
        decreases args@.len(),
    {
        let ghost gargs = view_args(args@);
        let ghost cnt0 = self.argrec_var_cnt as int;
        let ghost slots0 = self.argument_metadata_vec@.map_values(
            |m: ArgumentMetadata| m.view(),
        );
        let mut rest = args;
        if rest.len() == 0 {
            proof {
                assert(gargs.len() == 0);
                assert(slots0 + Seq::<GArgMeta>::empty() =~= slots0);
            }
            return (rest, false, sup);
        }
        let ghost v0 = rest@;
        proof {
            assert(gargs == seq![view_arg(v0[0])] + view_args(v0.drop_first()));
            assert(gargs[0] == view_arg(v0[0]));
            assert(gargs.drop_first() =~= view_args(v0.drop_first()));
        }
        let first = rest.remove(0);
        let (closed, cap, sup1) = self.capture_one_arg(
            start,
            code,
            multibyte,
            powered,
            has_binop,
            idx,
            sup,
            first,
        );
        let ghost slots1 = self.argument_metadata_vec@.map_values(
            |m: ArgumentMetadata| m.view(),
        );
        let (tail, any2, sup2) = self.capture_args(
            start,
            code,
            multibyte,
            powered,
            has_binop,
            idx + 1,
            sup1,
            rest,
            Ghost(outer),
        );
        let ghost tail0 = tail@;
        let mut out = tail;
        out.insert(0, closed);
        proof {
            let one = g_capture_one(
                start as int,
                code@,
                multibyte,
                powered@,
                has_binop,
                cnt0,
                idx as int,
                sup,
                gargs[0],
            );
            let o = g_capture_args(
                start as int,
                code@,
                multibyte,
                powered@,
                has_binop,
                cnt0,
                idx as int,
                sup,
                gargs,
            );
            assert(out@[0] == closed);
            assert(out@.drop_first() =~= tail0);
            assert(view_args(out@) == seq![view_arg(out@[0])] + view_args(out@.drop_first()));
            assert(view_args(out@) =~= o.args);
            assert(final(self).argument_metadata_vec@.map_values(|m: ArgumentMetadata| m.view())
                =~= slots0 + o.slots);
        }
        (out, cap || any2, sup2)
    }
}

impl TransformVisitor {
    /// Capture one recognized assertion call site.
    #[verifier::rlimit(100)]
    #[verifier::spinoff_prover]
    pub fn capture_assertion(
        &mut self,
        n: CallExpr,
        prop_ident_name: String,
        obj_ident_name: Option<String>,
    ) -> (r: CallExpr)
        requires
            old(self).inv(),
            old(self).powered_var_cnt < usize::MAX,
            old(self).argrec_var_cnt + n.args@.len() <= usize::MAX,
            g_expr_site_ok(
                view_call(n),
                old(self).span_offset as int + 1,
                old(self).code@,
            ),
        ensures
            ({
                let (gv, ge) = g_capture(
                    old(self).view(),
                    n.span.view(),
                    view_callee(n.callee),
                    view_args(n.args@),
                    prop_ident_name@,
                    view_opt_string(obj_ident_name),
                );
                &&& final(self).view() == gv
                &&& view_call(r) == ge
            }),
            final(self).inv(),
            final(self).powered_var_cnt == old(self).powered_var_cnt + 1,
            final(self).argrec_var_cnt <= old(self).argrec_var_cnt + n.args@.len(),
            final(self).span_offset == old(self).span_offset,
            final(self).code == old(self).code,
            final(self).target_modules == old(self).target_modules,
            final(self).target_variables == old(self).target_variables,
            final(self).is_runtime_imported == old(self).is_runtime_imported,
    {
        let ghost gv0 = self.view();
        let ghost gcall = view_call(n);
        proof {
            assert(gcall == GExpr::Call {
                span: n.span.view(),
                callee: view_callee(n.callee),
                args: view_args(n.args@),
            });
            assert(g_span_site_ok(
                n.span.view(),
                self.span_offset as int + 1,
                self.code@,
            ));
        }
        let powered_ident_name = self.next_powered_runner_variable_name();
        let assertion_start_pos = n.span.lo;
        let start_pos = n.span.lo - self.span_offset - 1;
        let end_pos = n.span.hi - self.span_offset - 1;
        let assertion_code = substring_bytes(
            self.code.as_str(),
            start_pos as usize,
            end_pos as usize,
        );
        let utf16_len_code = utf16_unit_len(assertion_code.as_str());
        let utf8_len_code = utf8_byte_len(assertion_code.as_str());
        let contains_multibyte_char = utf16_len_code < utf8_len_code;
        let binary_op = detect_binary_op(&n.args);
        proof {
            assert(assertion_code@ == g_site_code(
                self.code@,
                n.span.lo - self.span_offset - 1,
                n.span.hi - self.span_offset - 1,
            ));
        }
        let site = AssertionMetadata {
            ident_name: powered_ident_name.clone(),
            callee_ident_name: prop_ident_name,
            receiver_ident_name: obj_ident_name,
            assertion_code: assertion_code.clone(),
            assertion_start_pos,
            contains_multibyte_char,
            binary_op,
        };
        if args_have_spread(&n.args) {
            // Spread arguments cannot be captured at the syntax level: leave
            // the whole call untouched, recording nothing for it.
            self.assertion_metadata = None;
            proof {
                let (gv, ge) = g_capture(
                    gv0,
                    n.span.view(),
                    view_callee(n.callee),
                    view_args(n.args@),
                    site.callee_ident_name@,
                    view_opt_string(site.receiver_ident_name),
                );
                assert(self.view() =~= gv);
            }
            return n;
        }
        self.assertion_metadata = Some(site);
        let has_binop = match &self.assertion_metadata {
            Some(m) => m.binary_op.is_some(),
            None => false,
        };
        let ghost lo_b = n.span.lo - self.span_offset as int - 1;
        let ghost hi_b = n.span.hi - self.span_offset as int - 1;
        let ghost c0 = char_idx_of_byte(self.code@, lo_b);
        let ghost c1 = char_idx_of_byte(self.code@, hi_b);
        proof {
            crate::text::lemma_char_idx_of_byte_bounds(self.code@, lo_b);
            crate::text::lemma_char_idx_of_byte_bounds(self.code@, hi_b);
            if c0 > c1 {
                crate::text::lemma_take_le_monotonic(self.code@, c1, c0);
            }
            lemma_args_site_restrict(
                view_args(n.args@),
                n.span.view(),
                self.span_offset as int + 1,
                self.code@,
                n.span.lo as int,
                n.span.hi as int,
                c0,
                c1,
            );
        }
        let (new_args, is_some_arg_captured, _flag_after) = self.capture_args(
            assertion_start_pos,
            assertion_code.as_str(),
            contains_multibyte_char,
            powered_ident_name.as_str(),
            has_binop,
            0,
            false,
            n.args,
            Ghost(n.span.view()),
        );
        let callee2 = if is_some_arg_captured {
            replace_callee_with_powered_run(powered_ident_name.as_str())
        } else {
            n.callee
        };
        // The site was stored above and nothing in the argument walk touches
        // it, so `take` always returns it; the other arm is never reached.
        let site_back = match self.assertion_metadata.take() {
            Some(m) => m,
            None => AssertionMetadata {
                ident_name: powered_ident_name,
                callee_ident_name: String::new(),
                receiver_ident_name: None,
                assertion_code,
                assertion_start_pos,
                contains_multibyte_char,
                binary_op: None,
            },
        };
        self.do_not_capture_immediate_child = false;
        self.assertion_metadata_vec.push(site_back);
        let r = CallExpr { span: n.span, callee: callee2, args: new_args };
        proof {
            let (gv, ge) = g_capture(
                gv0,
                n.span.view(),
                view_callee(n.callee),
                view_args(n.args@),
                site_back.callee_ident_name@,
                view_opt_string(site_back.receiver_ident_name),
            );
            assert(self.assertion_metadata_vec@.map_values(|m: AssertionMetadata| m.view())
                =~= gv0.assertion_metadata_vec + seq![site_back.view()]);
            assert(self.view() =~= gv);
            assert(view_call(r) == ge);
        }
        r
    }
}

// ---------------------------------------------------------------------------
// The outer traversal
// ---------------------------------------------------------------------------

/// Visit one expression outside any assertion: recognize assertion calls and
/// capture them; otherwise descend. Function-literal bodies are statement
/// lists and flush their own declarations.
pub open spec fn g_visit_expr(v: GVisitor, e: GExpr) -> (GVisitor, GExpr)
    decreases size_expr(e), 1nat,
{
    match e {
        GExpr::Call { span, callee, args } => {
            match g_candidate(v.target_variables, callee) {
                Option::Some(pr) => g_capture(v, span, callee, args, pr.0, pr.1),
                Option::None => {
                    let co = match callee {
                        GCallee::Expr(ce) => {
                            let o = g_visit_expr(v, *ce);
                            (o.0, GCallee::Expr(Box::new(o.1)))
                        },
                        GCallee::Other => (v, GCallee::Other),
                    };
                    let ao = g_visit_args(co.0, args);
                    (ao.0, GExpr::Call { span, callee: co.1, args: ao.1 })
                },
            }
        },
        GExpr::Member { span, obj, prop } => {
            let o1 = g_visit_expr(v, *obj);
            match prop {
                GMemberProp::Ident { sym, span: psp } => (
                    o1.0,
                    GExpr::Member {
                        span,
                        obj: Box::new(o1.1),
                        prop: GMemberProp::Ident { sym, span: psp },
                    },
                ),
                GMemberProp::Computed { span: psp, expr } => {
                    let o2 = g_visit_expr(o1.0, *expr);
                    (
                        o2.0,
                        GExpr::Member {
                            span,
                            obj: Box::new(o1.1),
                            prop: GMemberProp::Computed { span: psp, expr: Box::new(o2.1) },
                        },
                    )
                },
            }
        },
        GExpr::New { span, callee, args } => {
            let o1 = g_visit_expr(v, *callee);
            let ao = g_visit_args(o1.0, args);
            (ao.0, GExpr::New { span, callee: Box::new(o1.1), args: ao.1 })
        },
        GExpr::Bin { span, op, left, right } => {
            let o1 = g_visit_expr(v, *left);
            let o2 = g_visit_expr(o1.0, *right);
            (o2.0, GExpr::Bin { span, op, left: Box::new(o1.1), right: Box::new(o2.1) })
        },
        GExpr::Assign { span, op, left, right } => {
            let o1 = g_visit_expr(v, *left);
            let o2 = g_visit_expr(o1.0, *right);
            (o2.0, GExpr::Assign { span, op, left: Box::new(o1.1), right: Box::new(o2.1) })
        },
        GExpr::Cond { span, test, cons, alt } => {
            let o1 = g_visit_expr(v, *test);
            let o2 = g_visit_expr(o1.0, *cons);
            let o3 = g_visit_expr(o2.0, *alt);
            (
                o3.0,
                GExpr::Cond {
                    span,
                    test: Box::new(o1.1),
                    cons: Box::new(o2.1),
                    alt: Box::new(o3.1),
                },
            )
        },
        GExpr::Unary { span, op, arg } => {
            let o = g_visit_expr(v, *arg);
            (o.0, GExpr::Unary { span, op, arg: Box::new(o.1) })
        },
        GExpr::Update { span, op, prefix, arg } => {
            let o = g_visit_expr(v, *arg);
            (o.0, GExpr::Update { span, op, prefix, arg: Box::new(o.1) })
        },
        GExpr::Await { span, arg } => {
            let o = g_visit_expr(v, *arg);
            (o.0, GExpr::Await { span, arg: Box::new(o.1) })
        },
        GExpr::Sequence { span, exprs } => {
            let o = g_visit_exprs(v, exprs);
            (o.0, GExpr::Sequence { span, exprs: o.1 })
        },
        GExpr::Paren { span, expr } => {
            let o = g_visit_expr(v, *expr);
            (o.0, GExpr::Paren { span, expr: Box::new(o.1) })
        },
        GExpr::Func { span, body } => {
            let o = g_visit_stmts(v, body);
            (o.0, GExpr::Func { span, body: o.1 })
        },
        GExpr::Object { span, props } => {
            let o = g_visit_props(v, props);
            (o.0, GExpr::Object { span, props: o.1 })
        },
        _ => (v, e),
    }
}

pub open spec fn g_visit_exprs(v: GVisitor, s: Seq<GExpr>) -> (GVisitor, Seq<GExpr>)
    decreases size_exprs(s), 0nat,
{
    if s.len() == 0 {
        (v, s)
    } else {
        let o = g_visit_expr(v, s[0]);
        let rest = g_visit_exprs(o.0, s.drop_first());
        (rest.0, seq![o.1] + rest.1)
    }
}

pub open spec fn g_visit_args(v: GVisitor, s: Seq<GArg>) -> (GVisitor, Seq<GArg>)
    decreases size_args(s), 0nat,
{
    if s.len() == 0 {
        (v, s)
    } else {
        let o = g_visit_expr(v, s[0].expr);
        let rest = g_visit_args(o.0, s.drop_first());
        (rest.0, seq![GArg { spread: s[0].spread, expr: o.1 }] + rest.1)
    }
}

pub open spec fn g_visit_props(v: GVisitor, s: Seq<GProp>) -> (GVisitor, Seq<GProp>)
    decreases size_props(s), 0nat,
{
    if s.len() == 0 {
        (v, s)
    } else {
        let o = g_visit_expr(v, s[0].value);
        let rest = g_visit_props(o.0, s.drop_first());
        (rest.0, seq![GProp { key: s[0].key, value: o.1 }] + rest.1)
    }
}

pub open spec fn g_visit_declarators(v: GVisitor, s: Seq<GVarDeclarator>) -> (
    GVisitor,
    Seq<GVarDeclarator>,
)
    decreases size_declarators(s), 0nat,
{
    if s.len() == 0 {
        (v, s)
    } else {
        let o = match s[0].init {
            Option::Some(e) => {
                let oe = g_visit_expr(v, e);
                (oe.0, GVarDeclarator { span: s[0].span, name: s[0].name, init: Option::Some(oe.1) })
            },
            Option::None => (v, s[0]),
        };
        let rest = g_visit_declarators(o.0, s.drop_first());
        (rest.0, seq![o.1] + rest.1)
    }
}

pub open spec fn g_visit_stmt(v: GVisitor, s: GStmt) -> (GVisitor, GStmt)
    decreases size_stmt(s), 1nat,
{
    match s {
        GStmt::Expr { span, expr } => {
            let o = g_visit_expr(v, *expr);
            (o.0, GStmt::Expr { span, expr: Box::new(o.1) })
        },
        GStmt::VarDecl(vd) => {
            let o = g_visit_declarators(v, vd.decls);
            (o.0, GStmt::VarDecl(GVarDecl { span: vd.span, kind: vd.kind, decls: o.1 }))
        },
        GStmt::FnDecl { span, ident, body } => {
            let o = g_visit_stmts(v, body);
            (o.0, GStmt::FnDecl { span, ident, body: o.1 })
        },
        GStmt::Block { span, stmts } => {
            let o = g_visit_stmts(v, stmts);
            (o.0, GStmt::Block { span, stmts: o.1 })
        },
    }
}

pub open spec fn g_visit_stmt_list(v: GVisitor, s: Seq<GStmt>) -> (GVisitor, Seq<GStmt>)
    decreases size_stmts(s), 0nat,
{
    if s.len() == 0 {
        (v, s)
    } else {
        let o = g_visit_stmt(v, s[0]);
        let rest = g_visit_stmt_list(o.0, s.drop_first());
        (rest.0, seq![o.1] + rest.1)
    }
}

/// The runner declarations of the accumulated sites, in discovery order.
pub open spec fn g_runner_decl_stmts(s: Seq<GAssertionMeta>) -> Seq<GStmt>
    decreases s,
{
    if s.len() == 0 {
        Seq::empty()
    } else {
        seq![g_runner_decl(s[0])] + g_runner_decl_stmts(s.drop_first())
    }
}

/// The recorder declarations of the accumulated slots, in discovery order.
pub open spec fn g_argrec_decl_stmts(s: Seq<GArgMeta>) -> Seq<GStmt>
    decreases s,
{
    if s.len() == 0 {
        Seq::empty()
    } else {
        seq![g_argrec_decl(s[0])] + g_argrec_decl_stmts(s.drop_first())
    }
}

/// Everything a scope flush prepends: one runner declaration per site, then
/// one recorder declaration per slot.
pub open spec fn g_flush_decls(v: GVisitor) -> Seq<GStmt> {
    g_runner_decl_stmts(v.assertion_metadata_vec) + g_argrec_decl_stmts(v.argument_metadata_vec)
}

/// Visit a statement list (a block scope or function body) and flush the
/// accumulated declarations at its start.
pub open spec fn g_visit_stmts(v: GVisitor, s: Seq<GStmt>) -> (GVisitor, Seq<GStmt>)
    decreases size_stmts(s), 1nat,
{
    let o = g_visit_stmt_list(v, s);
    let v1 = o.0;
    if v1.assertion_metadata_vec.len() == 0 && v1.argument_metadata_vec.len() == 0 {
        (v1, o.1)
    } else {
        (
            GVisitor {
                assertion_metadata_vec: Seq::empty(),
                argument_metadata_vec: Seq::empty(),
                ..v1
            },
            g_flush_decls(v1) + o.1,
        )
    }
}

pub open spec fn g_visit_item(v: GVisitor, it: GModuleItem) -> (GVisitor, GModuleItem)
    decreases size_item(it), 1nat,
{
    match it {
        GModuleItem::Import(d) => (
            GVisitor {
                target_variables: g_import_targets(v.target_modules, v.target_variables, d),
                ..v
            },
            it,
        ),
        GModuleItem::Stmt(s) => {
            let o = g_visit_stmt(v, s);
            (o.0, GModuleItem::Stmt(o.1))
        },
    }
}

pub open spec fn g_visit_item_list(v: GVisitor, s: Seq<GModuleItem>) -> (GVisitor, Seq<GModuleItem>)
    decreases size_items(s), 0nat,
{
    if s.len() == 0 {
        (v, s)
    } else {
        let o = g_visit_item(v, s[0]);
        let rest = g_visit_item_list(o.0, s.drop_first());
        (rest.0, seq![o.1] + rest.1)
    }
}

pub open spec fn g_first_non_import(items: Seq<GModuleItem>, i: int) -> Option<int>
    recommends
        0 <= i,
    decreases items.len() - i + 1,
{
    if i >= items.len() {
        Option::None
    } else if !(items[i] is Import) {
        Option::Some(i)
    } else {
        g_first_non_import(items, i + 1)
    }
}

/// Where module-level declarations are spliced: right after the last leading
/// import, or at the very front of a module made only of imports.
pub open spec fn g_end_of_imports(items: Seq<GModuleItem>) -> int {
    match g_first_non_import(items, 0) {
        Option::Some(i) => i,
        Option::None => 0,
    }
}

pub open spec fn g_stmts_as_items(s: Seq<GStmt>) -> Seq<GModuleItem>
    decreases s,
{
    if s.len() == 0 {
        Seq::empty()
    } else {
        seq![GModuleItem::Stmt(s[0])] + g_stmts_as_items(s.drop_first())
    }
}

/// Visit the module's items and splice the one-time runtime import plus the
/// accumulated declarations right after the leading imports.
pub open spec fn g_visit_module_items(v: GVisitor, items: Seq<GModuleItem>) -> (
    GVisitor,
    Seq<GModuleItem>,
)
    decreases size_items(items), 1nat,
{
    let o = g_visit_item_list(v, items);
    let v1 = o.0;
    if v1.is_runtime_imported && v1.assertion_metadata_vec.len() == 0
        && v1.argument_metadata_vec.len() == 0 {
        (v1, o.1)
    } else {
        let idx = g_end_of_imports(o.1);
        let new_items = seq![g_runtime_import()] + g_stmts_as_items(g_flush_decls(v1));
        (
            GVisitor {
                is_runtime_imported: true,
                assertion_metadata_vec: Seq::empty(),
                argument_metadata_vec: Seq::empty(),
                ..v1
            },
            o.1.take(idx) + new_items + o.1.skip(idx),
        )
    }
}

/// Transform one module: record its span offset, then rewrite its items.
pub open spec fn g_visit_module(v: GVisitor, m: GModule) -> (GVisitor, GModule) {
    let v0 = GVisitor { span_offset: m.span.lo - 1, ..v };
    let o = g_visit_module_items(v0, m.items);
    (o.0, GModule { span: m.span, items: o.1 })
}

/// Each argument contributes at least one unit of size.
pub proof fn lemma_size_args_ge_len(s: Seq<GArg>)
    ensures
        size_args(s) >= s.len(),
    decreases s,
{
    if s.len() != 0 {
        lemma_size_args_ge_len(s.drop_first());
    }
}

impl TransformVisitor {
    /// Visit one expression outside any assertion site.
    #[verifier::rlimit(100)]
    #[verifier::spinoff_prover]
    pub fn visit_mut_expr(&mut self, e: Expr) -> (r: Expr)
        requires
            old(self).inv(),
            g_expr_site_ok(view_expr(e), old(self).span_offset as int + 1, old(self).code@),
            old(self).powered_var_cnt + size_expr(view_expr(e)) <= usize::MAX,
            old(self).argrec_var_cnt + size_expr(view_expr(e)) <= usize::MAX,
        ensures
            ({
                let o = g_visit_expr(old(self).view(), view_expr(e));
                final(self).view() == o.0 && view_expr(r) == o.1
            }),
            final(self).inv(),
            final(self).span_offset == old(self).span_offset,
            final(self).code == old(self).code,
            final(self).powered_var_cnt <= old(self).powered_var_cnt + size_expr(view_expr(e)),
            final(self).argrec_var_cnt <= old(self).argrec_var_cnt + size_expr(view_expr(e)),
        decreases size_expr(view_expr(e)), 2nat,
    {
        let ghost gv0 = self.view();
        let ghost ge = view_expr(e);
        match e {
            Expr::Call(c) => {
                proof {
                    assert(ge == GExpr::Call {
                        span: c.span.view(),
                        callee: view_callee(c.callee),
                        args: view_args(c.args@),
                    });
                }
                let r0 = self.visit_mut_call_expr(c);
                Expr::Call(r0)
            },
            Expr::Member(m) => {
                proof {
                    assert(ge == GExpr::Member {
                        span: m.span.view(),
                        obj: Box::new(view_expr(*m.obj)),
                        prop: match m.prop {
                            MemberProp::Ident(ref n) => GMemberProp::Ident {
                                sym: n.sym@,
                                span: n.span.view(),
                            },
                            MemberProp::Computed(ref cp) => GMemberProp::Computed {
                                span: cp.span.view(),
                                expr: Box::new(view_expr(*cp.expr)),
                            },
                        },
                    });
                }
                let obj2 = self.visit_mut_expr(*m.obj);
                match m.prop {
                    MemberProp::Ident(n) => {
                        let r0 = Expr::Member(
                            crate::ast::MemberExpr {
                                span: m.span,
                                obj: Box::new(obj2),
                                prop: MemberProp::Ident(n),
                            },
                        );
                        proof {
                            assert(view_expr(r0) == g_visit_expr(gv0, ge).1);
                        }
                        r0
                    },
                    MemberProp::Computed(cp) => {
                        let ie = self.visit_mut_expr(*cp.expr);
                        let r0 = Expr::Member(
                            crate::ast::MemberExpr {
                                span: m.span,
                                obj: Box::new(obj2),
                                prop: MemberProp::Computed(
                                    crate::ast::ComputedPropName {
                                        span: cp.span,
                                        expr: Box::new(ie),
                                    },
                                ),
                            },
                        );
                        proof {
                            assert(view_expr(r0) == g_visit_expr(gv0, ge).1);
                        }
                        r0
                    },
                }
            },
            Expr::New(ne) => {
                proof {
                    assert(ge == GExpr::New {
                        span: ne.span.view(),
                        callee: Box::new(view_expr(*ne.callee)),
                        args: view_args(ne.args@),
                    });
                }
                let callee2 = self.visit_mut_expr(*ne.callee);
                let args2 = self.visit_mut_args(ne.args, Ghost(ne.span.view()));
                let r0 = Expr::New(
                    crate::ast::NewExpr { span: ne.span, callee: Box::new(callee2), args: args2 },
                );
                proof {
                    assert(view_expr(r0) == g_visit_expr(gv0, ge).1);
                }
                r0
            },
            Expr::Bin(b) => {
                proof {
                    assert(ge == GExpr::Bin {
                        span: b.span.view(),
                        op: b.op@,
                        left: Box::new(view_expr(*b.left)),
                        right: Box::new(view_expr(*b.right)),
                    });
                }
                let l2 = self.visit_mut_expr(*b.left);
                let r2 = self.visit_mut_expr(*b.right);
                let r0 = Expr::Bin(
                    crate::ast::BinExpr {
                        span: b.span,
                        op: b.op,
                        left: Box::new(l2),
                        right: Box::new(r2),
                    },
                );
                proof {
                    assert(view_expr(r0) == g_visit_expr(gv0, ge).1);
                }
                r0
            },
            Expr::Assign(a) => {
                proof {
                    assert(ge == GExpr::Assign {
                        span: a.span.view(),
                        op: a.op@,
                        left: Box::new(view_expr(*a.left)),
                        right: Box::new(view_expr(*a.right)),
                    });
                }
                let l2 = self.visit_mut_expr(*a.left);
                let r2 = self.visit_mut_expr(*a.right);
                let r0 = Expr::Assign(
                    crate::ast::AssignExpr {
                        span: a.span,
                        op: a.op,
                        left: Box::new(l2),
                        right: Box::new(r2),
                    },
                );
                proof {
                    assert(view_expr(r0) == g_visit_expr(gv0, ge).1);
                }
                r0
            },
            Expr::Cond(cd) => {
                proof {
                    assert(ge == GExpr::Cond {
                        span: cd.span.view(),
                        test: Box::new(view_expr(*cd.test)),
                        cons: Box::new(view_expr(*cd.cons)),
                        alt: Box::new(view_expr(*cd.alt)),
                    });
                }
                let t2 = self.visit_mut_expr(*cd.test);
                let c2 = self.visit_mut_expr(*cd.cons);
                let a2 = self.visit_mut_expr(*cd.alt);
                let r0 = Expr::Cond(
                    crate::ast::CondExpr {
                        span: cd.span,
                        test: Box::new(t2),
                        cons: Box::new(c2),
                        alt: Box::new(a2),
                    },
                );
                proof {
                    assert(view_expr(r0) == g_visit_expr(gv0, ge).1);
                }
                r0
            },
            Expr::Unary(u) => {
                proof {
                    assert(ge == GExpr::Unary {
                        span: u.span.view(),
                        op: u.op,
                        arg: Box::new(view_expr(*u.arg)),
                    });
                }
                let a2 = self.visit_mut_expr(*u.arg);
                let r0 = Expr::Unary(
                    crate::ast::UnaryExpr { span: u.span, op: u.op, arg: Box::new(a2) },
                );
                proof {
                    assert(view_expr(r0) == g_visit_expr(gv0, ge).1);
                }
                r0
            },
            Expr::Update(u) => {
                proof {
                    assert(ge == GExpr::Update {
                        span: u.span.view(),
                        op: u.op@,
                        prefix: u.prefix,
                        arg: Box::new(view_expr(*u.arg)),
                    });
                }
                let a2 = self.visit_mut_expr(*u.arg);
                let r0 = Expr::Update(
                    crate::ast::UpdateExpr {
                        span: u.span,
                        op: u.op,
                        prefix: u.prefix,
                        arg: Box::new(a2),
                    },
                );
                proof {
                    assert(view_expr(r0) == g_visit_expr(gv0, ge).1);
                }
                r0
            },
            Expr::Await(aw) => {
                proof {
                    assert(ge == GExpr::Await {
                        span: aw.span.view(),
                        arg: Box::new(view_expr(*aw.arg)),
                    });
                }
                let a2 = self.visit_mut_expr(*aw.arg);
                let r0 = Expr::Await(crate::ast::AwaitExpr { span: aw.span, arg: Box::new(a2) });
                proof {
                    assert(view_expr(r0) == g_visit_expr(gv0, ge).1);
                }
                r0
            },
            Expr::Sequence(se) => {
                proof {
                    assert(ge == GExpr::Sequence {
                        span: se.span.view(),
                        exprs: view_exprs(se.exprs@),
                    });
                }
                let exprs2 = self.visit_mut_exprs(se.exprs, Ghost(se.span.view()));
                let r0 = Expr::Sequence(
                    crate::ast::SequenceExpr { span: se.span, exprs: exprs2 },
                );
                proof {
                    assert(view_expr(r0) == g_visit_expr(gv0, ge).1);
                }
                r0
            },
            Expr::Paren(p) => {
                proof {
                    assert(ge == GExpr::Paren {
                        span: p.span.view(),
                        expr: Box::new(view_expr(*p.expr)),
                    });
                }
                let inner = self.visit_mut_expr(*p.expr);
                let r0 = Expr::Paren(
                    crate::ast::ParenExpr { span: p.span, expr: Box::new(inner) },
                );
                proof {
                    assert(view_expr(r0) == g_visit_expr(gv0, ge).1);
                }
                r0
            },
            Expr::Func(f) => {
                proof {
                    assert(ge == GExpr::Func { span: f.span.view(), body: view_stmts(f.body@) });
                }
                let body2 = self.visit_mut_stmts(f.body, Ghost(f.span.view()));
                let r0 = Expr::Func(crate::ast::FnExpr { span: f.span, body: body2 });
                proof {
                    assert(view_expr(r0) == g_visit_expr(gv0, ge).1);
                }
                r0
            },
            Expr::Object(o) => {
                proof {
                    assert(ge == GExpr::Object {
                        span: o.span.view(),
                        props: view_props(o.props@),
                    });
                }
                let props2 = self.visit_mut_props(o.props, Ghost(o.span.view()));
                let r0 = Expr::Object(crate::ast::ObjectLit { span: o.span, props: props2 });
                proof {
                    assert(view_expr(r0) == g_visit_expr(gv0, ge).1);
                }
                r0
            },
            other => {
                proof {
                    assert(g_visit_expr(gv0, ge).1 == ge);
                    assert(g_visit_expr(gv0, ge).0 == gv0);
                }
                other
            },
        }
    }

    /// Visit one call expression: capture it when its callee resolves to an
    /// assertion entry point, descend otherwise.
    #[verifier::rlimit(100)]
    #[verifier::spinoff_prover]
    pub fn visit_mut_call_expr(&mut self, n: CallExpr) -> (r: CallExpr)
        requires
            old(self).inv(),
            g_expr_site_ok(view_call(n), old(self).span_offset as int + 1, old(self).code@),
            old(self).powered_var_cnt + size_expr(view_call(n)) <= usize::MAX,
            old(self).argrec_var_cnt + size_expr(view_call(n)) <= usize::MAX,
        ensures
            ({
                let o = g_visit_expr(old(self).view(), view_call(n));
                final(self).view() == o.0 && view_call(r) == o.1
            }),
            final(self).inv(),
            final(self).span_offset == old(self).span_offset,
            final(self).code == old(self).code,
            final(self).powered_var_cnt <= old(self).powered_var_cnt + size_expr(view_call(n)),
            final(self).argrec_var_cnt <= old(self).argrec_var_cnt + size_expr(view_call(n)),
        decreases size_expr(view_call(n)), 1nat,
    {
        let ghost gv0 = self.view();
        let ghost ge = view_call(n);
        proof {
            assert(ge == GExpr::Call {
                span: n.span.view(),
                callee: view_callee(n.callee),
                args: view_args(n.args@),
            });
            lemma_view_args_index(n.args@);
            lemma_size_args_ge_len(view_args(n.args@));
        }
        let (prop_name, obj_name): (Option<String>, Option<String>) = match &n.callee {
            Callee::Expr(ce) => {
                proof {
                    assert(view_callee(n.callee) == GCallee::Expr(Box::new(view_expr(**ce))));
                }
                match &**ce {
                    Expr::Member(m) => {
                        match (&m.prop, &*m.obj) {
                            (MemberProp::Ident(pn), Expr::Ident(oi)) => {
                                proof {
                                    assert(view_expr(**ce) == GExpr::Member {
                                        span: m.span.view(),
                                        obj: Box::new(view_expr(*m.obj)),
                                        prop: GMemberProp::Ident {
                                            sym: pn.sym@,
                                            span: pn.span.view(),
                                        },
                                    });
                                    assert(view_expr(*m.obj) == GExpr::Ident(oi.view()));
                                }
                                if targets_contain(
                                    &self.target_variables,
                                    oi.sym.as_str(),
                                    oi.ctxt,
                                ) {
                                    (Some(pn.sym.clone()), Some(oi.sym.clone()))
                                } else {
                                    (None, None)
                                }
                            },
                            _ => {
                                proof {
                                    assert(g_candidate(gv0.target_variables, view_callee(n.callee))
                                        is None);
                                }
                                (None, None)
                            },
                        }
                    },
                    Expr::Ident(i) => {
                        proof {
                            assert(view_expr(**ce) == GExpr::Ident(i.view()));
                        }
                        if targets_contain(&self.target_variables, i.sym.as_str(), i.ctxt) {
                            (Some(i.sym.clone()), None)
                        } else {
                            (None, None)
                        }
                    },
                    _ => {
                        proof {
                            assert(g_candidate(gv0.target_variables, view_callee(n.callee))
                                is None);
                        }
                        (None, None)
                    },
                }
            },
            Callee::Other => (None, None),
        };
        match prop_name {
            Some(prop_name_value) => {
                proof {
                    assert(g_candidate(gv0.target_variables, view_callee(n.callee))
                        == Option::Some((prop_name_value@, view_opt_string(obj_name))));
                }
                self.capture_assertion(n, prop_name_value, obj_name)
            },
            None => {
                proof {
                    assert(g_candidate(gv0.target_variables, view_callee(n.callee)) is None);
                }
                let callee2: Callee = match n.callee {
                    Callee::Expr(ce) => {
                        let ce2 = self.visit_mut_expr(*ce);
                        let c2 = Callee::Expr(Box::new(ce2));
                        proof {
                            assert(view_callee(c2) == GCallee::Expr(Box::new(view_expr(ce2))));
                        }
                        c2
                    },
                    Callee::Other => Callee::Other,
                };
                let args2 = self.visit_mut_args(n.args, Ghost(n.span.view()));
                let r0 = CallExpr { span: n.span, callee: callee2, args: args2 };
                proof {
                    assert(view_call(r0) == g_visit_expr(gv0, ge).1);
                }
                r0
            },
        }
    }

    /// Visit each argument of a non-assertion call.
    fn visit_mut_args(&mut self, args: Vec<ExprOrSpread>, Ghost(outer): Ghost<GSpan>) -> (r: Vec<
        ExprOrSpread,
    >)
        requires
            old(self).inv(),
            g_args_site_ok(
                view_args(args@),
                outer,
                old(self).span_offset as int + 1,
                old(self).code@,
            ),
            old(self).powered_var_cnt + size_args(view_args(args@)) <= usize::MAX,
            old(self).argrec_var_cnt + size_args(view_args(args@)) <= usize::MAX,
        ensures
            ({
                let o = g_visit_args(old(self).view(), view_args(args@));
                final(self).view() == o.0 && view_args(r@) == o.1
            }),
            final(self).inv(),
            final(self).span_offset == old(self).span_offset,
            final(self).code == old(self).code,
            final(self).powered_var_cnt <= old(self).powered_var_cnt + size_args(view_args(args@)),
            final(self).argrec_var_cnt <= old(self).argrec_var_cnt + size_args(view_args(args@)),
        decreases size_args(view_args(args@)), 0nat,
    {
        let ghost gv0 = self.view();
        let ghost gs = view_args(args@);
        let mut rest = args;
        if rest.len() == 0 {
            proof {
                assert(gs.len() == 0);
            }
            return rest;
        }
        let ghost v0 = rest@;
        proof {
            assert(gs == seq![view_arg(v0[0])] + view_args(v0.drop_first()));
            assert(gs[0] == view_arg(v0[0]));
            assert(gs.drop_first() =~= view_args(v0.drop_first()));
        }
        let first = rest.remove(0);
        let spread = first.spread;
        let fe = self.visit_mut_expr(*first.expr);
        let tail = self.visit_mut_args(rest, Ghost(outer));
        let ghost tail0 = tail@;
        let mut out = tail;
        let new_first = ExprOrSpread { spread, expr: Box::new(fe) };
        out.insert(0, new_first);
        proof {
            assert(out@[0] == new_first);
            assert(out@.drop_first() =~= tail0);
            assert(view_args(out@) == seq![view_arg(out@[0])] + view_args(out@.drop_first()));
            assert(view_args(out@) =~= g_visit_args(gv0, gs).1);
        }
        out
    }

    /// Visit each operand of a comma expression.
    fn visit_mut_exprs(&mut self, v: Vec<Expr>, Ghost(outer): Ghost<GSpan>) -> (r: Vec<Expr>)
        requires
            old(self).inv(),
            g_exprs_site_ok(
                view_exprs(v@),
                outer,
                old(self).span_offset as int + 1,
                old(self).code@,
            ),
            old(self).powered_var_cnt + size_exprs(view_exprs(v@)) <= usize::MAX,
            old(self).argrec_var_cnt + size_exprs(view_exprs(v@)) <= usize::MAX,
        ensures
            ({
                let o = g_visit_exprs(old(self).view(), view_exprs(v@));
                final(self).view() == o.0 && view_exprs(r@) == o.1
            }),
            final(self).inv(),
            final(self).span_offset == old(self).span_offset,
            final(self).code == old(self).code,
            final(self).powered_var_cnt <= old(self).powered_var_cnt + size_exprs(view_exprs(v@)),
            final(self).argrec_var_cnt <= old(self).argrec_var_cnt + size_exprs(view_exprs(v@)),
        decreases size_exprs(view_exprs(v@)), 0nat,
    {
        let ghost gv0 = self.view();
        let ghost gs = view_exprs(v@);
        let mut rest = v;
        if rest.len() == 0 {
            proof {
                assert(gs.len() == 0);
            }
            return rest;
        }
        let ghost v0 = rest@;
        proof {
            assert(gs == seq![view_expr(v0[0])] + view_exprs(v0.drop_first()));
            assert(gs[0] == view_expr(v0[0]));
            assert(gs.drop_first() =~= view_exprs(v0.drop_first()));
        }
        let first = rest.remove(0);
        let fe = self.visit_mut_expr(first);
        let tail = self.visit_mut_exprs(rest, Ghost(outer));
        let ghost tail0 = tail@;
        let mut out = tail;
        out.insert(0, fe);
        proof {
            assert(out@[0] == fe);
            assert(out@.drop_first() =~= tail0);
            assert(view_exprs(out@) == seq![view_expr(out@[0])] + view_exprs(out@.drop_first()));
            assert(view_exprs(out@) =~= g_visit_exprs(gv0, gs).1);
        }
        out
    }

    /// Visit each property value of an object literal.
    fn visit_mut_props(
        &mut self,
        v: Vec<crate::ast::KeyValueProp>,
        Ghost(outer): Ghost<GSpan>,
    ) -> (r: Vec<crate::ast::KeyValueProp>)
        requires
            old(self).inv(),
            g_props_site_ok(
                view_props(v@),
                outer,
                old(self).span_offset as int + 1,
                old(self).code@,
            ),
            old(self).powered_var_cnt + size_props(view_props(v@)) <= usize::MAX,
            old(self).argrec_var_cnt + size_props(view_props(v@)) <= usize::MAX,
        ensures
            ({
                let o = g_visit_props(old(self).view(), view_props(v@));
                final(self).view() == o.0 && view_props(r@) == o.1
            }),
            final(self).inv(),
            final(self).span_offset == old(self).span_offset,
            final(self).code == old(self).code,
            final(self).powered_var_cnt <= old(self).powered_var_cnt + size_props(view_props(v@)),
            final(self).argrec_var_cnt <= old(self).argrec_var_cnt + size_props(view_props(v@)),
        decreases size_props(view_props(v@)), 0nat,
    {
        let ghost gv0 = self.view();
        let ghost gs = view_props(v@);
        let mut rest = v;
        if rest.len() == 0 {
            proof {
                assert(gs.len() == 0);
            }
            return rest;
        }
        let ghost v0 = rest@;
        proof {
            assert(gs == seq![view_prop(v0[0])] + view_props(v0.drop_first()));
            assert(gs[0] == view_prop(v0[0]));
            assert(gs.drop_first() =~= view_props(v0.drop_first()));
        }
        let first = rest.remove(0);
        let key = first.key;
        let fe = self.visit_mut_expr(*first.value);
        let tail = self.visit_mut_props(rest, Ghost(outer));
        let ghost tail0 = tail@;
        let mut out = tail;
        let new_first = crate::ast::KeyValueProp { key, value: Box::new(fe) };
        out.insert(0, new_first);
        proof {
            assert(out@[0] == new_first);
            assert(out@.drop_first() =~= tail0);
            assert(view_props(out@) == seq![view_prop(out@[0])] + view_props(out@.drop_first()));
            assert(view_prop(new_first) == (GProp { key: v0[0].key@, value: view_expr(fe) }));
            assert(view_props(out@) =~= g_visit_props(gv0, gs).1);
        }
        out
    }
}

impl TransformVisitor {
    /// Visit one statement.
    pub fn visit_mut_stmt(&mut self, s: Stmt) -> (r: Stmt)
        requires
            old(self).inv(),
            g_stmt_site_ok(view_stmt(s), old(self).span_offset as int + 1, old(self).code@),
            old(self).powered_var_cnt + size_stmt(view_stmt(s)) <= usize::MAX,
            old(self).argrec_var_cnt + size_stmt(view_stmt(s)) <= usize::MAX,
        ensures
            ({
                let o = g_visit_stmt(old(self).view(), view_stmt(s));
                final(self).view() == o.0 && view_stmt(r) == o.1
            }),
            final(self).inv(),
            final(self).span_offset == old(self).span_offset,
            final(self).code == old(self).code,
            final(self).powered_var_cnt <= old(self).powered_var_cnt + size_stmt(view_stmt(s)),
            final(self).argrec_var_cnt <= old(self).argrec_var_cnt + size_stmt(view_stmt(s)),
        decreases size_stmt(view_stmt(s)), 2nat,
    {
        let ghost gv0 = self.view();
        let ghost gs = view_stmt(s);
        match s {
            Stmt::Expr(es) => {
                proof {
                    assert(gs == GStmt::Expr {
                        span: es.span.view(),
                        expr: Box::new(view_expr(*es.expr)),
                    });
                }
                let e2 = self.visit_mut_expr(*es.expr);
                let r0 = Stmt::Expr(ExprStmt { span: es.span, expr: Box::new(e2) });
                proof {
                    assert(view_stmt(r0) == g_visit_stmt(gv0, gs).1);
                }
                r0
            },
            Stmt::VarDecl(vd) => {
                proof {
                    assert(gs == GStmt::VarDecl(GVarDecl {
                        span: vd.span.view(),
                        kind: vd.kind,
                        decls: view_declarators(vd.decls@),
                    }));
                }
                let decls2 = self.visit_mut_declarators(vd.decls, Ghost(vd.span.view()));
                let r0 = Stmt::VarDecl(VarDecl { span: vd.span, kind: vd.kind, decls: decls2 });
                proof {
                    assert(view_stmt(r0) == g_visit_stmt(gv0, gs).1);
                }
                r0
            },
            Stmt::FnDecl(fd) => {
                proof {
                    assert(gs == GStmt::FnDecl {
                        span: fd.span.view(),
                        ident: fd.ident.view(),
                        body: view_stmts(fd.body@),
                    });
                }
                let body2 = self.visit_mut_stmts(fd.body, Ghost(fd.span.view()));
                let r0 = Stmt::FnDecl(
                    crate::ast::FnDecl { span: fd.span, ident: fd.ident, body: body2 },
                );
                proof {
                    assert(view_stmt(r0) == g_visit_stmt(gv0, gs).1);
                }
                r0
            },
            Stmt::Block(b) => {
                proof {
                    assert(gs == GStmt::Block {
                        span: b.span.view(),
                        stmts: view_stmts(b.stmts@),
                    });
                }
                let stmts2 = self.visit_mut_stmts(b.stmts, Ghost(b.span.view()));
                let r0 = Stmt::Block(BlockStmt { span: b.span, stmts: stmts2 });
                proof {
                    assert(view_stmt(r0) == g_visit_stmt(gv0, gs).1);
                }
                r0
            },
        }
    }

    /// Visit each declarator's initializer.
    fn visit_mut_declarators(
        &mut self,
        v: Vec<VarDeclarator>,
        Ghost(outer): Ghost<GSpan>,
    ) -> (r: Vec<VarDeclarator>)
        requires
            old(self).inv(),
            g_declarators_site_ok(
                view_declarators(v@),
                outer,
                old(self).span_offset as int + 1,
                old(self).code@,
            ),
            old(self).powered_var_cnt + size_declarators(view_declarators(v@)) <= usize::MAX,
            old(self).argrec_var_cnt + size_declarators(view_declarators(v@)) <= usize::MAX,
        ensures
            ({
                let o = g_visit_declarators(old(self).view(), view_declarators(v@));
                final(self).view() == o.0 && view_declarators(r@) == o.1
            }),
            final(self).inv(),
            final(self).span_offset == old(self).span_offset,
            final(self).code == old(self).code,
            final(self).powered_var_cnt <= old(self).powered_var_cnt + size_declarators(
                view_declarators(v@),
            ),
            final(self).argrec_var_cnt <= old(self).argrec_var_cnt + size_declarators(
                view_declarators(v@),
            ),
        decreases size_declarators(view_declarators(v@)), 0nat,
    {
        let ghost gv0 = self.view();
        let ghost gs = view_declarators(v@);
        let mut rest = v;
        if rest.len() == 0 {
            proof {
                assert(gs.len() == 0);
            }
            return rest;
        }
        let ghost v0 = rest@;
        proof {
            assert(gs == seq![view_declarator(v0[0])] + view_declarators(v0.drop_first()));
            assert(gs[0] == view_declarator(v0[0]));
            assert(gs.drop_first() =~= view_declarators(v0.drop_first()));
        }
        let first = rest.remove(0);
        let first2 = match first.init {
            Some(e) => {
                let e2 = self.visit_mut_expr(*e);
                VarDeclarator { span: first.span, name: first.name, init: Some(Box::new(e2)) }
            },
            None => VarDeclarator { span: first.span, name: first.name, init: None },
        };
        let tail = self.visit_mut_declarators(rest, Ghost(outer));
        let ghost tail0 = tail@;
        let mut out = tail;
        out.insert(0, first2);
        proof {
            assert(out@[0] == first2);
            assert(out@.drop_first() =~= tail0);
            assert(view_declarators(out@) == seq![view_declarator(out@[0])] + view_declarators(
                out@.drop_first(),
            ));
            assert(view_declarators(out@) =~= g_visit_declarators(gv0, gs).1);
        }
        out
    }

    /// Visit each statement of a list, threading the accumulated records.
    fn visit_stmt_list(&mut self, v: Vec<Stmt>, Ghost(outer): Ghost<GSpan>) -> (r: Vec<Stmt>)
        requires
            old(self).inv(),
            g_stmts_site_ok(
                view_stmts(v@),
                outer,
                old(self).span_offset as int + 1,
                old(self).code@,
            ),
            old(self).powered_var_cnt + size_stmts(view_stmts(v@)) <= usize::MAX,
            old(self).argrec_var_cnt + size_stmts(view_stmts(v@)) <= usize::MAX,
        ensures
            ({
                let o = g_visit_stmt_list(old(self).view(), view_stmts(v@));
                final(self).view() == o.0 && view_stmts(r@) == o.1
            }),
            final(self).inv(),
            final(self).span_offset == old(self).span_offset,
            final(self).code == old(self).code,
            final(self).powered_var_cnt <= old(self).powered_var_cnt + size_stmts(view_stmts(v@)),
            final(self).argrec_var_cnt <= old(self).argrec_var_cnt + size_stmts(view_stmts(v@)),
        decreases size_stmts(view_stmts(v@)), 0nat,
    {
        let ghost gv0 = self.view();
        let ghost gs = view_stmts(v@);
        let mut rest = v;
        if rest.len() == 0 {
            proof {
                assert(gs.len() == 0);
            }
            return rest;
        }
        let ghost v0 = rest@;
        proof {
            assert(gs == seq![view_stmt(v0[0])] + view_stmts(v0.drop_first()));
            assert(gs[0] == view_stmt(v0[0]));
            assert(gs.drop_first() =~= view_stmts(v0.drop_first()));
        }
        let first = rest.remove(0);
        let first2 = self.visit_mut_stmt(first);
        let tail = self.visit_stmt_list(rest, Ghost(outer));
        let ghost tail0 = tail@;
        let mut out = tail;
        out.insert(0, first2);
        proof {
            assert(out@[0] == first2);
            assert(out@.drop_first() =~= tail0);
            assert(view_stmts(out@) == seq![view_stmt(out@[0])] + view_stmts(out@.drop_first()));
            assert(view_stmts(out@) =~= g_visit_stmt_list(gv0, gs).1);
        }
        out
    }

    /// Build the runner declarations for the accumulated sites, from index
    /// `i` on.
    fn runner_decl_stmts_from(metas: &Vec<AssertionMetadata>, i: usize) -> (r: Vec<Stmt>)
        requires
            i <= metas@.len(),
        ensures
            view_stmts(r@) == g_runner_decl_stmts(
                metas@.map_values(|m: AssertionMetadata| m.view()).skip(i as int),
            ),
        decreases metas@.len() - i,
    {
        let ghost gm = metas@.map_values(|m: AssertionMetadata| m.view());
        if i == metas.len() {
            let r: Vec<Stmt> = Vec::new();
            proof {
                assert(gm.skip(i as int) =~= Seq::<GAssertionMeta>::empty());
                assert(view_stmts(r@) =~= Seq::<GStmt>::empty());
            }
            return r;
        }
        let first = crate::synth::create_powered_runner_decl(&metas[i]);
        let tail = Self::runner_decl_stmts_from(metas, i + 1);
        let ghost tail0 = tail@;
        let mut out = tail;
        out.insert(0, first);
        proof {
            let rest = gm.skip(i as int);
            assert(rest[0] == gm[i as int]);
            assert(rest.drop_first() =~= gm.skip(i as int + 1));
            assert(out@[0] == first);
            assert(out@.drop_first() =~= tail0);
            assert(view_stmts(out@) == seq![view_stmt(out@[0])] + view_stmts(out@.drop_first()));
            assert(view_stmts(out@) =~= g_runner_decl_stmts(rest));
        }
        out
    }

    /// Build the recorder declarations for the accumulated slots, from index
    /// `i` on.
    fn argrec_decl_stmts_from(metas: &Vec<ArgumentMetadata>, i: usize) -> (r: Vec<Stmt>)
        requires
            i <= metas@.len(),
        ensures
            view_stmts(r@) == g_argrec_decl_stmts(
                metas@.map_values(|m: ArgumentMetadata| m.view()).skip(i as int),
            ),
        decreases metas@.len() - i,
    {
        let ghost gm = metas@.map_values(|m: ArgumentMetadata| m.view());
        if i == metas.len() {
            let r: Vec<Stmt> = Vec::new();
            proof {
                assert(gm.skip(i as int) =~= Seq::<GArgMeta>::empty());
                assert(view_stmts(r@) =~= Seq::<GStmt>::empty());
            }
            return r;
        }
        let first = crate::synth::create_argrec_decl(&metas[i]);
        let tail = Self::argrec_decl_stmts_from(metas, i + 1);
        let ghost tail0 = tail@;
        let mut out = tail;
        out.insert(0, first);
        proof {
            let rest = gm.skip(i as int);
            assert(rest[0] == gm[i as int]);
            assert(rest.drop_first() =~= gm.skip(i as int + 1));
            assert(out@[0] == first);
            assert(out@.drop_first() =~= tail0);
            assert(view_stmts(out@) == seq![view_stmt(out@[0])] + view_stmts(out@.drop_first()));
            assert(view_stmts(out@) =~= g_argrec_decl_stmts(rest));
        }
        out
    }

    /// Visit a statement list that forms a lexical scope, then splice the
    /// accumulated runner and recorder declarations at its very start.
    #[verifier::rlimit(60)]
    pub fn visit_mut_stmts(&mut self, v: Vec<Stmt>, Ghost(outer): Ghost<GSpan>) -> (r: Vec<Stmt>)
        requires
            old(self).inv(),
            g_stmts_site_ok(
                view_stmts(v@),
                outer,
                old(self).span_offset as int + 1,
                old(self).code@,
            ),
            old(self).powered_var_cnt + size_stmts(view_stmts(v@)) <= usize::MAX,
            old(self).argrec_var_cnt + size_stmts(view_stmts(v@)) <= usize::MAX,
        ensures
            ({
                let o = g_visit_stmts(old(self).view(), view_stmts(v@));
                final(self).view() == o.0 && view_stmts(r@) == o.1
            }),
            final(self).inv(),
            final(self).span_offset == old(self).span_offset,
            final(self).code == old(self).code,
            final(self).powered_var_cnt <= old(self).powered_var_cnt + size_stmts(view_stmts(v@)),
            final(self).argrec_var_cnt <= old(self).argrec_var_cnt + size_stmts(view_stmts(v@)),
        decreases size_stmts(view_stmts(v@)), 1nat,
    {
        let ghost gv0 = self.view();
        let ghost gs = view_stmts(v@);
        let visited = self.visit_stmt_list(v, Ghost(outer));
        if !self.has_declarations_to_be_inserted() {
            return visited;
        }
        let ghost v1 = self.view();
        let ghost visited0 = visited@;
        let mut new_items = Self::runner_decl_stmts_from(&self.assertion_metadata_vec, 0);
        let mut arg_items = Self::argrec_decl_stmts_from(&self.argument_metadata_vec, 0);
        let ghost runner0 = new_items@;
        let ghost argrec0 = arg_items@;
        proof {
            assert(v1.assertion_metadata_vec.skip(0) =~= v1.assertion_metadata_vec);
            assert(v1.argument_metadata_vec.skip(0) =~= v1.argument_metadata_vec);
        }
        new_items.append(&mut arg_items);
        let ghost decls0 = new_items@;
        let mut visited_tail = visited;
        new_items.append(&mut visited_tail);
        self.clear_transformations();
        proof {
            assert(decls0 =~= runner0 + argrec0);
            lemma_view_stmts_concat(runner0, argrec0);
            assert(new_items@ =~= decls0 + visited0);
            lemma_view_stmts_concat(decls0, visited0);
            assert(view_stmts(decls0) =~= g_flush_decls(v1));
            assert(view_stmts(new_items@) =~= g_visit_stmts(gv0, gs).1);
            assert(self.view() =~= g_visit_stmts(gv0, gs).0);
            assert(self.assertion_metadata_vec@.map_values(|m: AssertionMetadata| m.view())
                =~= Seq::<GAssertionMeta>::empty());
            assert(self.argument_metadata_vec@.map_values(|m: ArgumentMetadata| m.view())
                =~= Seq::<GArgMeta>::empty());
        }
        new_items
    }
}

/// Convert synthesized statements to module items.
fn stmts_to_items(v: Vec<Stmt>) -> (r: Vec<ModuleItem>)
    ensures
        view_items(r@) == g_stmts_as_items(view_stmts(v@)),
    decreases v@.len(),
{
    let ghost gs = view_stmts(v@);
    let mut rest = v;
    if rest.len() == 0 {
        let r: Vec<ModuleItem> = Vec::new();
        proof {
            assert(gs.len() == 0);
            assert(view_items(r@) =~= Seq::<GModuleItem>::empty());
        }
        return r;
    }
    let ghost v0 = rest@;
    proof {
        assert(gs == seq![view_stmt(v0[0])] + view_stmts(v0.drop_first()));
        assert(gs[0] == view_stmt(v0[0]));
        assert(gs.drop_first() =~= view_stmts(v0.drop_first()));
    }
    let first = rest.remove(0);
    let tail = stmts_to_items(rest);
    let ghost tail0 = tail@;
    let mut out = tail;
    let first_item = ModuleItem::Stmt(first);
    out.insert(0, first_item);
    proof {
        assert(out@[0] == first_item);
        assert(out@.drop_first() =~= tail0);
        assert(view_items(out@) == seq![view_item(out@[0])] + view_items(out@.drop_first()));
        assert(view_items(out@) =~= g_stmts_as_items(gs));
    }
    out
}

/// Index of the first item after the leading imports, or zero when every item
/// is an import.
fn end_of_imports(items: &Vec<ModuleItem>) -> (r: usize)
    ensures
        r == g_end_of_imports(view_items(items@)),
{
    proof {
        lemma_view_items_index(items@);
    }
    let n = items.len();
    let mut i: usize = 0;
    while i < n
        invariant
            0 <= i <= n,
            n == items@.len(),
            view_items(items@).len() == items@.len(),
            forall|j: int|
                0 <= j < items@.len() ==> view_items(items@)[j] == view_item(items@[j]),
            g_first_non_import(view_items(items@), 0) == g_first_non_import(
                view_items(items@),
                i as int,
            ),
        decreases n - i,
    {
        let is_import = match &items[i] {
            ModuleItem::Import(_) => true,
            ModuleItem::Stmt(_) => false,
        };
        proof {
            assert((view_items(items@)[i as int] is Import) == is_import);
        }
        if !is_import {
            proof {
                assert(g_first_non_import(view_items(items@), i as int) == Option::Some(i as int));
            }
            return i;
        }
        i = i + 1;
    }
    proof {
        assert(g_first_non_import(view_items(items@), i as int) is None);
    }
    0
}

impl TransformVisitor {
    /// Visit one module item: scan imports for target bindings, visit
    /// statements.
    pub fn visit_mut_item(&mut self, it: ModuleItem) -> (r: ModuleItem)
        requires
            old(self).inv(),
            crate::pos::g_item_site_ok(
                view_item(it),
                old(self).span_offset as int + 1,
                old(self).code@,
            ),
            old(self).powered_var_cnt + size_item(view_item(it)) <= usize::MAX,
            old(self).argrec_var_cnt + size_item(view_item(it)) <= usize::MAX,
        ensures
            ({
                let o = g_visit_item(old(self).view(), view_item(it));
                final(self).view() == o.0 && view_item(r) == o.1
            }),
            final(self).inv(),
            final(self).span_offset == old(self).span_offset,
            final(self).code == old(self).code,
            final(self).powered_var_cnt <= old(self).powered_var_cnt + size_item(view_item(it)),
            final(self).argrec_var_cnt <= old(self).argrec_var_cnt + size_item(view_item(it)),
        decreases size_item(view_item(it)), 3nat,
    {
        let ghost gv0 = self.view();
        let ghost git = view_item(it);
        match it {
            ModuleItem::Import(d) => {
                proof {
                    assert(git == GModuleItem::Import(d.view()));
                }
                self.visit_mut_import_decl(&d);
                proof {
                    assert(self.view() =~= g_visit_item(gv0, git).0);
                }
                ModuleItem::Import(d)
            },
            ModuleItem::Stmt(st) => {
                proof {
                    assert(git == GModuleItem::Stmt(view_stmt(st)));
                }
                let st2 = self.visit_mut_stmt(st);
                ModuleItem::Stmt(st2)
            },
        }
    }

    /// Visit each module item in order.
    fn visit_item_list(&mut self, v: Vec<ModuleItem>) -> (r: Vec<ModuleItem>)
        requires
            old(self).inv(),
            crate::pos::g_items_site_ok(
                view_items(v@),
                old(self).span_offset as int + 1,
                old(self).code@,
            ),
            old(self).powered_var_cnt + size_items(view_items(v@)) <= usize::MAX,
            old(self).argrec_var_cnt + size_items(view_items(v@)) <= usize::MAX,
        ensures
            ({
                let o = g_visit_item_list(old(self).view(), view_items(v@));
                final(self).view() == o.0 && view_items(r@) == o.1
            }),
            final(self).inv(),
            final(self).span_offset == old(self).span_offset,
            final(self).code == old(self).code,
            final(self).powered_var_cnt <= old(self).powered_var_cnt + size_items(view_items(v@)),
            final(self).argrec_var_cnt <= old(self).argrec_var_cnt + size_items(view_items(v@)),
        decreases size_items(view_items(v@)), 0nat,
    {
        let ghost gv0 = self.view();
        let ghost gs = view_items(v@);
        let mut rest = v;
        if rest.len() == 0 {
            proof {
                assert(gs.len() == 0);
            }
            return rest;
        }
        let ghost v0 = rest@;
        proof {
            assert(gs == seq![view_item(v0[0])] + view_items(v0.drop_first()));
            assert(gs[0] == view_item(v0[0]));
            assert(gs.drop_first() =~= view_items(v0.drop_first()));
        }
        let first = rest.remove(0);
        let first2 = self.visit_mut_item(first);
        let tail = self.visit_item_list(rest);
        let ghost tail0 = tail@;
        let mut out = tail;
        out.insert(0, first2);
        proof {
            assert(out@[0] == first2);
            assert(out@.drop_first() =~= tail0);
            assert(view_items(out@) == seq![view_item(out@[0])] + view_items(out@.drop_first()));
            assert(view_items(out@) =~= g_visit_item_list(gv0, gs).1);
        }
        out
    }

    /// Visit the module's items, then splice the one-time runtime import and
    /// the accumulated declarations right after the leading imports.
    #[verifier::rlimit(100)]
    #[verifier::spinoff_prover]
    pub fn visit_mut_module_items(&mut self, v: Vec<ModuleItem>) -> (r: Vec<ModuleItem>)
        requires
            old(self).inv(),
            crate::pos::g_items_site_ok(
                view_items(v@),
                old(self).span_offset as int + 1,
                old(self).code@,
            ),
            old(self).powered_var_cnt + size_items(view_items(v@)) <= usize::MAX,
            old(self).argrec_var_cnt + size_items(view_items(v@)) <= usize::MAX,
        ensures
            ({
                let o = g_visit_module_items(old(self).view(), view_items(v@));
                final(self).view() == o.0 && view_items(r@) == o.1
            }),
            final(self).inv(),
            final(self).span_offset == old(self).span_offset,
            final(self).code == old(self).code,
    {
        let ghost gv0 = self.view();
        let ghost gs = view_items(v@);
        let visited = self.visit_item_list(v);
        if !self.has_declarations_and_imports_to_be_inserted() {
            return visited;
        }
        let ghost v1 = self.view();
        let ghost visited0 = visited@;
        let import_item = crate::synth::create_power_assert_runtime_import_decl();
        self.is_runtime_imported = true;
        let runner_stmts = Self::runner_decl_stmts_from(&self.assertion_metadata_vec, 0);
        let argrec_stmts = Self::argrec_decl_stmts_from(&self.argument_metadata_vec, 0);
        proof {
            assert(v1.assertion_metadata_vec.skip(0) =~= v1.assertion_metadata_vec);
            assert(v1.argument_metadata_vec.skip(0) =~= v1.argument_metadata_vec);
        }
        let ghost runner_s = runner_stmts@;
        let ghost argrec_s = argrec_stmts@;
        let mut runner_items = stmts_to_items(runner_stmts);
        let mut argrec_items = stmts_to_items(argrec_stmts);
        let ghost ri0 = runner_items@;
        let ghost ai0 = argrec_items@;
        let mut new_items: Vec<ModuleItem> = Vec::new();
        new_items.push(import_item);
        let ghost ni1 = new_items@;
        new_items.append(&mut runner_items);
        let ghost ni2 = new_items@;
        new_items.append(&mut argrec_items);
        let ghost ni3 = new_items@;
        proof {
            assert(ni1.len() == 1);
            assert(ni1[0] == import_item);
            assert(view_items(ni1) == seq![view_item(ni1[0])] + view_items(ni1.drop_first()));
            assert(ni1.drop_first() =~= Seq::<ModuleItem>::empty());
            assert(view_items(ni1) =~= seq![g_runtime_import()]);
            assert(ni2 =~= ni1 + ri0);
            lemma_view_items_concat(ni1, ri0);
            assert(ni3 =~= ni2 + ai0);
            lemma_view_items_concat(ni2, ai0);
            lemma_stmts_as_items_concat(view_stmts(runner_s), view_stmts(argrec_s));
            assert(view_stmts(runner_s) + view_stmts(argrec_s) =~= g_flush_decls(v1));
            assert(view_items(ni3) =~= seq![g_runtime_import()] + g_stmts_as_items(
                g_flush_decls(v1),
            ));
        }
        let idx = end_of_imports(&visited);
        let mut tail = visited;
        let mut out: Vec<ModuleItem> = Vec::new();
        let mut k: usize = 0;
        proof {
            assert(out@ =~= visited0.take(0));
            assert(tail@ =~= visited0.skip(0));
            crate::ast::lemma_view_items_index(visited0);
            assert(idx as int == g_end_of_imports(view_items(visited0)));
            assert(g_end_of_imports(view_items(visited0)) <= view_items(visited0).len()) by {
                lemma_first_non_import_bounds(view_items(visited0), 0);
            }
        }
        while k < idx
            invariant
                0 <= k <= idx,
                idx <= visited0.len(),
                out@ == visited0.take(k as int),
                tail@ == visited0.skip(k as int),
            decreases idx - k,
        {
            proof {
                assert(tail@[0] == visited0[k as int]);
            }
            let item = tail.remove(0);
            out.push(item);
            proof {
                assert(out@ =~= visited0.take(k as int + 1));
                assert(tail@ =~= visited0.skip(k as int + 1));
            }
            k = k + 1;
        }
        let ghost head0 = out@;
        out.append(&mut new_items);
        let ghost mid0 = out@;
        out.append(&mut tail);
        self.clear_transformations();
        proof {
            assert(mid0 =~= head0 + ni3);
            assert(out@ =~= mid0 + visited0.skip(idx as int));
            lemma_view_items_concat(head0, ni3);
            lemma_view_items_concat(mid0, visited0.skip(idx as int));
            assert(view_items(head0) =~= view_items(visited0).take(idx as int)) by {
                crate::ast::lemma_view_items_index(visited0);
                crate::ast::lemma_view_items_index(head0);
            }
            assert(view_items(visited0.skip(idx as int)) =~= view_items(visited0).skip(
                idx as int,
            )) by {
                crate::ast::lemma_view_items_index(visited0);
                crate::ast::lemma_view_items_index(visited0.skip(idx as int));
            }
            assert(view_items(out@) =~= g_visit_module_items(gv0, gs).1);
            assert(self.view() =~= g_visit_module_items(gv0, gs).0);
            assert(self.assertion_metadata_vec@.map_values(|m: AssertionMetadata| m.view())
                =~= Seq::<GAssertionMeta>::empty());
            assert(self.argument_metadata_vec@.map_values(|m: ArgumentMetadata| m.view())
                =~= Seq::<GArgMeta>::empty());
        }
        out
    }

    /// Transform one module: record the unit's span offset, then rewrite its
    /// items.
    pub fn visit_mut_module(&mut self, n: Module) -> (r: Module)
        requires
            old(self).inv(),
            crate::pos::g_module_site_ok(n.view(), old(self).code@),
            old(self).powered_var_cnt + size_items(view_items(n.items@)) <= usize::MAX,
            old(self).argrec_var_cnt + size_items(view_items(n.items@)) <= usize::MAX,
        ensures
            ({
                let o = g_visit_module(old(self).view(), n.view());
                final(self).view() == o.0 && r.view() == o.1
            }),
            final(self).inv(),
    {
        self.span_offset = n.span.lo - 1;
        let items2 = self.visit_mut_module_items(n.items);
        Module { span: n.span, items: items2 }
    }
}

/// Converting statements to items distributes over concatenation.
pub proof fn lemma_stmts_as_items_concat(a: Seq<GStmt>, b: Seq<GStmt>)
    ensures
        g_stmts_as_items(a + b) == g_stmts_as_items(a) + g_stmts_as_items(b),
    decreases a,
{
    if a.len() == 0 {
        assert(a + b =~= b);
        assert(g_stmts_as_items(a) + g_stmts_as_items(b) =~= g_stmts_as_items(b));
    } else {
        assert((a + b)[0] == a[0]);
        assert((a + b).drop_first() =~= a.drop_first() + b);
        lemma_stmts_as_items_concat(a.drop_first(), b);
        assert(g_stmts_as_items(a + b) =~= g_stmts_as_items(a) + g_stmts_as_items(b));
    }
}

/// The splice position never exceeds the item count.
pub proof fn lemma_first_non_import_bounds(items: Seq<GModuleItem>, i: int)
    requires
        0 <= i,
    ensures
        match g_first_non_import(items, i) {
            Option::Some(k) => i <= k < items.len(),
            Option::None => true,
        },
    decreases items.len() - i + 1,
{
    if i < items.len() && items[i] is Import {
        lemma_first_non_import_bounds(items, i + 1);
    }
}

} // verus!
