//! Target binding resolution: the configurable table of assertion modules and
//! the set of scope-qualified bindings that resolve to assertion entry points.

use vstd::prelude::*;
use crate::ast::{GIdent, GImportDecl, GImportSpecifier, GModuleExportName};
use crate::text::str_eq;

verus! {

/// A scope-qualified binding identity.
#[derive(Debug, PartialEq)]
pub struct Id {
    pub sym: String,
    pub ctxt: u32,
}

impl Id {
    pub open spec fn view(&self) -> (Seq<char>, int) {
        (self.sym@, self.ctxt as int)
    }
}

/// The bindings of a sequence of identities.
pub open spec fn g_ids(s: Seq<Id>) -> Seq<(Seq<char>, int)> {
    s.map_values(|x: Id| x.view())
}

/// One configured assertion module: its specifier and the export names that
/// count as assertion entry points (empty: every export counts).
#[derive(Debug, PartialEq)]
pub struct ModuleEntry {
    pub name: String,
    pub allow: Vec<String>,
}

impl ModuleEntry {
    pub open spec fn view(&self) -> (Seq<char>, Seq<Seq<char>>) {
        (self.name@, self.allow.deep_view())
    }
}

/// The module-specifier to allowed-export-names table.
#[derive(Debug, PartialEq)]
pub struct TargetModules {
    pub entries: Vec<ModuleEntry>,
}

impl TargetModules {
    pub open spec fn view(&self) -> Seq<(Seq<char>, Seq<Seq<char>>)> {
        self.entries@.map_values(|x: ModuleEntry| x.view())
    }
}

/// The allow-set configured for a module specifier, if any: first match wins.
pub open spec fn g_lookup(
    cfg: Seq<(Seq<char>, Seq<Seq<char>>)>,
    name: Seq<char>,
) -> Option<Seq<Seq<char>>>
    decreases cfg,
{
    if cfg.len() == 0 {
        Option::None
    } else if cfg[0].0 == name {
        Option::Some(cfg[0].1)
    } else {
        g_lookup(cfg.drop_first(), name)
    }
}

/// Does one import specifier bind an assertion entry point, given the
/// configured allow-set of its module?
pub open spec fn g_specifier_targeted(allow: Seq<Seq<char>>, sp: GImportSpecifier) -> bool {
    match sp {
        GImportSpecifier::Default { local } => true,
        GImportSpecifier::Namespace { local } => true,
        GImportSpecifier::Named { local, imported } => match imported {
            Option::Some(GModuleExportName::Ident(n)) => allow.len() == 0 || allow.contains(n),
            Option::Some(GModuleExportName::Str(n)) => allow.len() == 0 || allow.contains(n),
            Option::None => allow.len() == 0 || allow.contains(local.sym),
        },
    }
}

pub open spec fn g_specifier_local(sp: GImportSpecifier) -> (Seq<char>, int) {
    match sp {
        GImportSpecifier::Default { local } => (local.sym, local.ctxt),
        GImportSpecifier::Namespace { local } => (local.sym, local.ctxt),
        GImportSpecifier::Named { local, imported } => (local.sym, local.ctxt),
    }
}

/// The bindings an import declaration adds, in specifier order.
pub open spec fn g_collect_specifiers(
    allow: Seq<Seq<char>>,
    sps: Seq<GImportSpecifier>,
) -> Seq<(Seq<char>, int)>
    decreases sps,
{
    if sps.len() == 0 {
        Seq::empty()
    } else {
        (if g_specifier_targeted(allow, sps[0]) {
            seq![g_specifier_local(sps[0])]
        } else {
            Seq::empty()
        }) + g_collect_specifiers(allow, sps.drop_first())
    }
}

/// The target set after scanning one import declaration: unchanged for an
/// unconfigured module, extended with every qualifying local binding otherwise.
pub open spec fn g_import_targets(
    cfg: Seq<(Seq<char>, Seq<Seq<char>>)>,
    targets: Seq<(Seq<char>, int)>,
    imp: GImportDecl,
) -> Seq<(Seq<char>, int)> {
    match g_lookup(cfg, imp.src) {
        Option::None => targets,
        Option::Some(allow) => targets + g_collect_specifiers(allow, imp.specifiers),
    }
}

/// An import from an unconfigured module never adds a target binding.
pub proof fn lemma_unconfigured_module_no_targets(
    cfg: Seq<(Seq<char>, Seq<Seq<char>>)>,
    targets: Seq<(Seq<char>, int)>,
    imp: GImportDecl,
)
    requires
        g_lookup(cfg, imp.src) is None,
    ensures
        g_import_targets(cfg, targets, imp) == targets,
{
}

// ---------------------------------------------------------------------------
// Executable layer
// ---------------------------------------------------------------------------

/// Is the binding `(sym, ctxt)` in the target set?
pub fn targets_contain(ts: &Vec<Id>, sym: &str, ctxt: u32) -> (r: bool)
    ensures
        r == g_ids(ts@).contains((sym@, ctxt as int)),
{
    let n = ts.len();
    let mut i: usize = 0;
    while i < n
        invariant
            0 <= i <= n,
            n == ts@.len(),
            forall|j: int| 0 <= j < i ==> g_ids(ts@)[j] != (sym@, ctxt as int),
        decreases n - i,
    {
        let same_sym = str_eq(ts[i].sym.as_str(), sym);
        if same_sym && ts[i].ctxt == ctxt {
            proof {
                assert(g_ids(ts@)[i as int] == (sym@, ctxt as int));
            }
            return true;
        }
        proof {
            assert(g_ids(ts@)[i as int] == (ts@[i as int].sym@, ts@[i as int].ctxt as int));
        }
        i = i + 1;
    }
    proof {
        if g_ids(ts@).contains((sym@, ctxt as int)) {
            let j = choose|j: int| 0 <= j < g_ids(ts@).len() && g_ids(ts@)[j] == (sym@, ctxt as int);
            assert(g_ids(ts@)[j] != (sym@, ctxt as int));
        }
    }
    false
}

/// Does the allow-set contain the export name?
pub fn allow_contains(v: &Vec<String>, x: &str) -> (r: bool)
    ensures
        r == v.deep_view().contains(x@),
{
    let n = v.len();
    let mut i: usize = 0;
    while i < n
        invariant
            0 <= i <= n,
            n == v@.len(),
            forall|j: int| 0 <= j < i ==> v.deep_view()[j] != x@,
        decreases n - i,
    {
        if str_eq(v[i].as_str(), x) {
            proof {
                assert(v.deep_view()[i as int] == x@);
            }
            return true;
        }
        proof {
            assert(v.deep_view()[i as int] == v@[i as int]@);
        }
        i = i + 1;
    }
    proof {
        if v.deep_view().contains(x@) {
            let j = choose|j: int| 0 <= j < v.deep_view().len() && v.deep_view()[j] == x@;
            assert(v.deep_view()[j] != x@);
        }
    }
    false
}

impl TargetModules {
    /// The allow-set configured for `name`, if any.
    pub fn lookup<'a>(&'a self, name: &str) -> (r: Option<&'a Vec<String>>)
        ensures
            match r {
                Option::Some(v) => g_lookup(self.view(), name@) == Option::Some(v.deep_view()),
                Option::None => g_lookup(self.view(), name@) is None,
            },
    {
        let n = self.entries.len();
        let mut i: usize = 0;
        proof {
            assert(self.view().skip(0) =~= self.view());
        }
        while i < n
            invariant
                0 <= i <= n,
                n == self.entries@.len(),
                g_lookup(self.view(), name@) == g_lookup(self.view().skip(i as int), name@),
            decreases n - i,
        {
            let ghost rest = self.view().skip(i as int);
            proof {
                assert(rest.len() != 0);
                assert(rest[0] == self.view()[i as int]);
                assert(rest.drop_first() =~= self.view().skip(i as int + 1));
            }
            if str_eq(self.entries[i].name.as_str(), name) {
                return Some(&self.entries[i].allow);
            }
            i = i + 1;
        }
        proof {
            assert(self.view().skip(i as int) =~= Seq::<(Seq<char>, Seq<Seq<char>>)>::empty());
        }
        None
    }
}

} // verus!
