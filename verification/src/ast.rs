//! Syntax-tree model: an ECMAScript expression/statement tree carrying
//! byte-offset spans into the original source text, together with its ghost
//! mirror used throughout the specifications.
//!
//! Spans follow the parser's convention: positions are 1-based UTF-8 byte
//! offsets into the compilation unit, shifted by a per-unit offset, so the
//! byte range of a node in the source text is `lo - offset - 1 .. hi - offset - 1`.

use vstd::prelude::*;

verus! {

/// Byte-offset span of a node. Synthesized nodes carry `lo == hi == 0`.
#[derive(Debug, Clone, Copy, PartialEq, Eq)]
pub struct Span {
    pub lo: u32,
    pub hi: u32,
}

/// An identifier; `ctxt` is the scope qualifier the parser assigns, so that
/// two same-named bindings from different scopes stay distinct.
#[derive(Debug, PartialEq)]
pub struct Ident {
    pub sym: String,
    pub ctxt: u32,
    pub span: Span,
}

/// A property name in a member access (no scope qualifier).
#[derive(Debug, PartialEq)]
pub struct IdentName {
    pub sym: String,
    pub span: Span,
}

#[derive(Debug, PartialEq)]
pub enum MemberProp {
    Ident(IdentName),
    /// A computed property `obj[expr]`; the span covers the brackets.
    Computed(ComputedPropName),
}

#[derive(Debug, PartialEq)]
pub struct ComputedPropName {
    pub span: Span,
    pub expr: Box<Expr>,
}

#[derive(Debug, PartialEq)]
pub struct MemberExpr {
    pub span: Span,
    pub obj: Box<Expr>,
    pub prop: MemberProp,
}

#[derive(Debug, PartialEq)]
pub enum Callee {
    Expr(Box<Expr>),
    /// `super` or `import` callees, which the engine never rewrites.
    Other,
}

/// One call argument; `spread` marks `...arg`.
#[derive(Debug, PartialEq)]
pub struct ExprOrSpread {
    pub spread: bool,
    pub expr: Box<Expr>,
}

#[derive(Debug, PartialEq)]
pub struct CallExpr {
    pub span: Span,
    pub callee: Callee,
    pub args: Vec<ExprOrSpread>,
}

#[derive(Debug, PartialEq)]
pub struct NewExpr {
    pub span: Span,
    pub callee: Box<Expr>,
    pub args: Vec<ExprOrSpread>,
}

/// Binary and logical operators both take this shape; `op` is the operator's
/// source text (`"==="`, `"&&"`, `"+"`, ...).
#[derive(Debug, PartialEq)]
pub struct BinExpr {
    pub span: Span,
    pub op: String,
    pub left: Box<Expr>,
    pub right: Box<Expr>,
}

#[derive(Debug, PartialEq)]
pub struct AssignExpr {
    pub span: Span,
    pub op: String,
    pub left: Box<Expr>,
    pub right: Box<Expr>,
}

#[derive(Debug, PartialEq)]
pub struct CondExpr {
    pub span: Span,
    pub test: Box<Expr>,
    pub cons: Box<Expr>,
    pub alt: Box<Expr>,
}

#[derive(Debug, Clone, Copy, PartialEq, Eq, Structural)]
pub enum UnaryOp {
    TypeOf,
    Delete,
    Void,
    Minus,
    Plus,
    Bang,
    Tilde,
}

#[derive(Debug, PartialEq)]
pub struct UnaryExpr {
    pub span: Span,
    pub op: UnaryOp,
    pub arg: Box<Expr>,
}

/// `++x`, `x--`, ...; `op` is the operator's source text.
#[derive(Debug, PartialEq)]
pub struct UpdateExpr {
    pub span: Span,
    pub op: String,
    pub prefix: bool,
    pub arg: Box<Expr>,
}

#[derive(Debug, PartialEq)]
pub struct AwaitExpr {
    pub span: Span,
    pub arg: Box<Expr>,
}

/// A comma expression `(a, b, c)`.
#[derive(Debug, PartialEq)]
pub struct SequenceExpr {
    pub span: Span,
    pub exprs: Vec<Expr>,
}

#[derive(Debug, PartialEq)]
pub struct ParenExpr {
    pub span: Span,
    pub expr: Box<Expr>,
}

/// A function literal; only its body matters to the engine.
#[derive(Debug, PartialEq)]
pub struct FnExpr {
    pub span: Span,
    pub body: Vec<Stmt>,
}

#[derive(Debug, PartialEq)]
pub struct KeyValueProp {
    pub key: String,
    pub value: Box<Expr>,
}

#[derive(Debug, PartialEq)]
pub struct ObjectLit {
    pub span: Span,
    pub props: Vec<KeyValueProp>,
}

#[derive(Debug, PartialEq)]
pub struct StrLit {
    pub span: Span,
    pub value: String,
}

#[derive(Debug, PartialEq)]
pub struct NumLit {
    pub span: Span,
    pub value: u64,
}

#[derive(Debug, PartialEq)]
pub enum Lit {
    Str(StrLit),
    Num(NumLit),
    Null(Span),
}

#[derive(Debug, PartialEq)]
pub enum Expr {
    Ident(Ident),
    Member(MemberExpr),
    Call(CallExpr),
    New(NewExpr),
    Bin(BinExpr),
    Assign(AssignExpr),
    Cond(CondExpr),
    Unary(UnaryExpr),
    Update(UpdateExpr),
    Await(AwaitExpr),
    Sequence(SequenceExpr),
    Paren(ParenExpr),
    Func(FnExpr),
    Object(ObjectLit),
    Lit(Lit),
}

#[derive(Debug, Clone, Copy, PartialEq, Eq, Structural)]
pub enum VarDeclKind {
    Var,
    Let,
    Const,
}

#[derive(Debug, PartialEq)]
pub struct VarDeclarator {
    pub span: Span,
    pub name: Ident,
    pub init: Option<Box<Expr>>,
}

#[derive(Debug, PartialEq)]
pub struct VarDecl {
    pub span: Span,
    pub kind: VarDeclKind,
    pub decls: Vec<VarDeclarator>,
}

#[derive(Debug, PartialEq)]
pub struct FnDecl {
    pub span: Span,
    pub ident: Ident,
    pub body: Vec<Stmt>,
}

#[derive(Debug, PartialEq)]
pub struct ExprStmt {
    pub span: Span,
    pub expr: Box<Expr>,
}

#[derive(Debug, PartialEq)]
pub struct BlockStmt {
    pub span: Span,
    pub stmts: Vec<Stmt>,
}

#[derive(Debug, PartialEq)]
pub enum Stmt {
    Expr(ExprStmt),
    VarDecl(VarDecl),
    FnDecl(FnDecl),
    Block(BlockStmt),
}

#[derive(Debug, PartialEq)]
pub enum ModuleExportName {
    Ident(String),
    Str(String),
}

#[derive(Debug, PartialEq)]
pub enum ImportSpecifier {
    Default { local: Ident },
    Namespace { local: Ident },
    Named { local: Ident, imported: Option<ModuleExportName> },
}

#[derive(Debug, PartialEq)]
pub struct ImportDecl {
    pub span: Span,
    pub src: String,
    pub specifiers: Vec<ImportSpecifier>,
}

#[derive(Debug, PartialEq)]
pub enum ModuleItem {
    Import(ImportDecl),
    Stmt(Stmt),
}

#[derive(Debug, PartialEq)]
pub struct Module {
    pub span: Span,
    pub items: Vec<ModuleItem>,
}

// ---------------------------------------------------------------------------
// Ghost mirror
// ---------------------------------------------------------------------------

pub ghost struct GSpan {
    pub lo: int,
    pub hi: int,
}

pub ghost struct GIdent {
    pub sym: Seq<char>,
    pub ctxt: int,
    pub span: GSpan,
}

pub ghost enum GMemberProp {
    Ident { sym: Seq<char>, span: GSpan },
    Computed { span: GSpan, expr: Box<GExpr> },
}

pub ghost enum GCallee {
    Expr(Box<GExpr>),
    Other,
}

pub ghost struct GArg {
    pub spread: bool,
    pub expr: GExpr,
}

pub ghost struct GProp {
    pub key: Seq<char>,
    pub value: GExpr,
}

pub ghost enum GLit {
    Str { span: GSpan, value: Seq<char> },
    Num { span: GSpan, value: int },
    Null { span: GSpan },
}

pub ghost enum GExpr {
    Ident(GIdent),
    Member { span: GSpan, obj: Box<GExpr>, prop: GMemberProp },
    Call { span: GSpan, callee: GCallee, args: Seq<GArg> },
    New { span: GSpan, callee: Box<GExpr>, args: Seq<GArg> },
    Bin { span: GSpan, op: Seq<char>, left: Box<GExpr>, right: Box<GExpr> },
    Assign { span: GSpan, op: Seq<char>, left: Box<GExpr>, right: Box<GExpr> },
    Cond { span: GSpan, test: Box<GExpr>, cons: Box<GExpr>, alt: Box<GExpr> },
    Unary { span: GSpan, op: UnaryOp, arg: Box<GExpr> },
    Update { span: GSpan, op: Seq<char>, prefix: bool, arg: Box<GExpr> },
    Await { span: GSpan, arg: Box<GExpr> },
    Sequence { span: GSpan, exprs: Seq<GExpr> },
    Paren { span: GSpan, expr: Box<GExpr> },
    Func { span: GSpan, body: Seq<GStmt> },
    Object { span: GSpan, props: Seq<GProp> },
    Lit(GLit),
}

pub ghost struct GVarDeclarator {
    pub span: GSpan,
    pub name: GIdent,
    pub init: Option<GExpr>,
}

pub ghost struct GVarDecl {
    pub span: GSpan,
    pub kind: VarDeclKind,
    pub decls: Seq<GVarDeclarator>,
}

pub ghost enum GStmt {
    Expr { span: GSpan, expr: Box<GExpr> },
    VarDecl(GVarDecl),
    FnDecl { span: GSpan, ident: GIdent, body: Seq<GStmt> },
    Block { span: GSpan, stmts: Seq<GStmt> },
}

pub ghost enum GModuleExportName {
    Ident(Seq<char>),
    Str(Seq<char>),
}

pub ghost enum GImportSpecifier {
    Default { local: GIdent },
    Namespace { local: GIdent },
    Named { local: GIdent, imported: Option<GModuleExportName> },
}

pub ghost struct GImportDecl {
    pub span: GSpan,
    pub src: Seq<char>,
    pub specifiers: Seq<GImportSpecifier>,
}

pub ghost enum GModuleItem {
    Import(GImportDecl),
    Stmt(GStmt),
}

pub ghost struct GModule {
    pub span: GSpan,
    pub items: Seq<GModuleItem>,
}

// ---------------------------------------------------------------------------
// Views
// ---------------------------------------------------------------------------

impl Span {
    pub open spec fn view(self) -> GSpan {
        GSpan { lo: self.lo as int, hi: self.hi as int }
    }
}

impl Ident {
    pub open spec fn view(self) -> GIdent {
        GIdent { sym: self.sym@, ctxt: self.ctxt as int, span: self.span.view() }
    }
}

pub open spec fn view_lit(l: Lit) -> GLit {
    match l {
        Lit::Str(s) => GLit::Str { span: s.span.view(), value: s.value@ },
        Lit::Num(n) => GLit::Num { span: n.span.view(), value: n.value as int },
        Lit::Null(sp) => GLit::Null { span: sp.view() },
    }
}

pub open spec fn view_expr(e: Expr) -> GExpr
    decreases e,
{
    match e {
        Expr::Ident(i) => GExpr::Ident(i.view()),
        Expr::Member(m) => GExpr::Member {
            span: m.span.view(),
            obj: Box::new(view_expr(*m.obj)),
            prop: match m.prop {
                MemberProp::Ident(n) => GMemberProp::Ident { sym: n.sym@, span: n.span.view() },
                MemberProp::Computed(c) => GMemberProp::Computed {
                    span: c.span.view(),
                    expr: Box::new(view_expr(*c.expr)),
                },
            },
        },
        Expr::Call(c) => GExpr::Call {
            span: c.span.view(),
            callee: view_callee(c.callee),
            args: view_args(c.args@),
        },
        Expr::New(n) => GExpr::New {
            span: n.span.view(),
            callee: Box::new(view_expr(*n.callee)),
            args: view_args(n.args@),
        },
        Expr::Bin(b) => GExpr::Bin {
            span: b.span.view(),
            op: b.op@,
            left: Box::new(view_expr(*b.left)),
            right: Box::new(view_expr(*b.right)),
        },
        Expr::Assign(a) => GExpr::Assign {
            span: a.span.view(),
            op: a.op@,
            left: Box::new(view_expr(*a.left)),
            right: Box::new(view_expr(*a.right)),
        },
        Expr::Cond(c) => GExpr::Cond {
            span: c.span.view(),
            test: Box::new(view_expr(*c.test)),
            cons: Box::new(view_expr(*c.cons)),
            alt: Box::new(view_expr(*c.alt)),
        },
        Expr::Unary(u) => GExpr::Unary {
            span: u.span.view(),
            op: u.op,
            arg: Box::new(view_expr(*u.arg)),
        },
        Expr::Update(u) => GExpr::Update {
            span: u.span.view(),
            op: u.op@,
            prefix: u.prefix,
            arg: Box::new(view_expr(*u.arg)),
        },
        Expr::Await(a) => GExpr::Await { span: a.span.view(), arg: Box::new(view_expr(*a.arg)) },
        Expr::Sequence(s) => GExpr::Sequence { span: s.span.view(), exprs: view_exprs(s.exprs@) },
        Expr::Paren(p) => GExpr::Paren { span: p.span.view(), expr: Box::new(view_expr(*p.expr)) },
        Expr::Func(f) => GExpr::Func { span: f.span.view(), body: view_stmts(f.body@) },
        Expr::Object(o) => GExpr::Object { span: o.span.view(), props: view_props(o.props@) },
        Expr::Lit(l) => GExpr::Lit(view_lit(l)),
    }
}

pub open spec fn view_callee(c: Callee) -> GCallee
    decreases c,
{
    match c {
        Callee::Expr(ce) => GCallee::Expr(Box::new(view_expr(*ce))),
        Callee::Other => GCallee::Other,
    }
}

pub open spec fn view_arg(a: ExprOrSpread) -> GArg
    decreases a,
{
    GArg { spread: a.spread, expr: view_expr(*a.expr) }
}

pub open spec fn view_prop(p: KeyValueProp) -> GProp
    decreases p,
{
    GProp { key: p.key@, value: view_expr(*p.value) }
}

pub open spec fn view_declarator(d: VarDeclarator) -> GVarDeclarator
    decreases d,
{
    GVarDeclarator {
        span: d.span.view(),
        name: d.name.view(),
        init: match d.init {
            Option::Some(e) => Option::Some(view_expr(*e)),
            Option::None => Option::None,
        },
    }
}

pub open spec fn view_exprs(s: Seq<Expr>) -> Seq<GExpr>
    decreases s,
{
    if s.len() == 0 {
        Seq::empty()
    } else {
        seq![view_expr(s[0])] + view_exprs(s.drop_first())
    }
}

pub open spec fn view_args(s: Seq<ExprOrSpread>) -> Seq<GArg>
    decreases s,
{
    if s.len() == 0 {
        Seq::empty()
    } else {
        seq![view_arg(s[0])] + view_args(s.drop_first())
    }
}

pub open spec fn view_props(s: Seq<KeyValueProp>) -> Seq<GProp>
    decreases s,
{
    if s.len() == 0 {
        Seq::empty()
    } else {
        seq![view_prop(s[0])] + view_props(s.drop_first())
    }
}

pub open spec fn view_stmt(s: Stmt) -> GStmt
    decreases s,
{
    match s {
        Stmt::Expr(es) => GStmt::Expr { span: es.span.view(), expr: Box::new(view_expr(*es.expr)) },
        Stmt::VarDecl(vd) => GStmt::VarDecl(
            GVarDecl { span: vd.span.view(), kind: vd.kind, decls: view_declarators(vd.decls@) },
        ),
        Stmt::FnDecl(fd) => GStmt::FnDecl {
            span: fd.span.view(),
            ident: fd.ident.view(),
            body: view_stmts(fd.body@),
        },
        Stmt::Block(b) => GStmt::Block { span: b.span.view(), stmts: view_stmts(b.stmts@) },
    }
}

pub open spec fn view_declarators(s: Seq<VarDeclarator>) -> Seq<GVarDeclarator>
    decreases s,
{
    if s.len() == 0 {
        Seq::empty()
    } else {
        seq![view_declarator(s[0])] + view_declarators(s.drop_first())
    }
}

pub open spec fn view_stmts(s: Seq<Stmt>) -> Seq<GStmt>
    decreases s,
{
    if s.len() == 0 {
        Seq::empty()
    } else {
        seq![view_stmt(s[0])] + view_stmts(s.drop_first())
    }
}

pub open spec fn view_export_name(n: ModuleExportName) -> GModuleExportName {
    match n {
        ModuleExportName::Ident(s) => GModuleExportName::Ident(s@),
        ModuleExportName::Str(s) => GModuleExportName::Str(s@),
    }
}

pub open spec fn view_specifier(s: ImportSpecifier) -> GImportSpecifier {
    match s {
        ImportSpecifier::Default { local } => GImportSpecifier::Default { local: local.view() },
        ImportSpecifier::Namespace { local } => GImportSpecifier::Namespace { local: local.view() },
        ImportSpecifier::Named { local, imported } => GImportSpecifier::Named {
            local: local.view(),
            imported: match imported {
                Option::Some(n) => Option::Some(view_export_name(n)),
                Option::None => Option::None,
            },
        },
    }
}

pub open spec fn view_specifiers(s: Seq<ImportSpecifier>) -> Seq<GImportSpecifier>
    decreases s,
{
    if s.len() == 0 {
        Seq::empty()
    } else {
        seq![view_specifier(s[0])] + view_specifiers(s.drop_first())
    }
}

impl ImportDecl {
    pub open spec fn view(self) -> GImportDecl {
        GImportDecl {
            span: self.span.view(),
            src: self.src@,
            specifiers: view_specifiers(self.specifiers@),
        }
    }
}

pub open spec fn view_item(it: ModuleItem) -> GModuleItem
    decreases it,
{
    match it {
        ModuleItem::Import(d) => GModuleItem::Import(d.view()),
        ModuleItem::Stmt(s) => GModuleItem::Stmt(view_stmt(s)),
    }
}

pub open spec fn view_items(s: Seq<ModuleItem>) -> Seq<GModuleItem>
    decreases s,
{
    if s.len() == 0 {
        Seq::empty()
    } else {
        seq![view_item(s[0])] + view_items(s.drop_first())
    }
}

impl Module {
    pub open spec fn view(self) -> GModule {
        GModule { span: self.span.view(), items: view_items(self.items@) }
    }
}

// ---------------------------------------------------------------------------
// Structural sizes (recursion measures)
// ---------------------------------------------------------------------------

pub open spec fn size_expr(e: GExpr) -> nat
    decreases e,
{
    match e {
        GExpr::Ident(_) => 1,
        GExpr::Member { span, obj, prop } => 1 + size_expr(*obj) + (match prop {
            GMemberProp::Ident { .. } => 0nat,
            GMemberProp::Computed { span: _, expr } => size_expr(*expr),
        }),
        GExpr::Call { span, callee, args } => 1 + (match callee {
            GCallee::Expr(ce) => size_expr(*ce),
            GCallee::Other => 0nat,
        }) + size_args(args),
        GExpr::New { span, callee, args } => 1 + size_expr(*callee) + size_args(args),
        GExpr::Bin { span, op, left, right } => 1 + size_expr(*left) + size_expr(*right),
        GExpr::Assign { span, op, left, right } => 1 + size_expr(*left) + size_expr(*right),
        GExpr::Cond { span, test, cons, alt } => 1 + size_expr(*test) + size_expr(*cons)
            + size_expr(*alt),
        GExpr::Unary { span, op, arg } => 1 + size_expr(*arg),
        GExpr::Update { span, op, prefix, arg } => 1 + size_expr(*arg),
        GExpr::Await { span, arg } => 1 + size_expr(*arg),
        GExpr::Sequence { span, exprs } => 1 + size_exprs(exprs),
        GExpr::Paren { span, expr } => 1 + size_expr(*expr),
        GExpr::Func { span, body } => 1 + size_stmts(body),
        GExpr::Object { span, props } => 1 + size_props(props),
        GExpr::Lit(_) => 1,
    }
}

pub open spec fn size_exprs(s: Seq<GExpr>) -> nat
    decreases s,
{
    if s.len() == 0 {
        0
    } else {
        1 + size_expr(s[0]) + size_exprs(s.drop_first())
    }
}

pub open spec fn size_args(s: Seq<GArg>) -> nat
    decreases s,
{
    if s.len() == 0 {
        0
    } else {
        1 + size_expr(s[0].expr) + size_args(s.drop_first())
    }
}

pub open spec fn size_props(s: Seq<GProp>) -> nat
    decreases s,
{
    if s.len() == 0 {
        0
    } else {
        1 + size_expr(s[0].value) + size_props(s.drop_first())
    }
}

pub open spec fn size_stmt(s: GStmt) -> nat
    decreases s,
{
    match s {
        GStmt::Expr { span, expr } => 1 + size_expr(*expr),
        GStmt::VarDecl(vd) => 1 + size_declarators(vd.decls),
        GStmt::FnDecl { span, ident, body } => 1 + size_stmts(body),
        GStmt::Block { span, stmts } => 1 + size_stmts(stmts),
    }
}

pub open spec fn size_declarators(s: Seq<GVarDeclarator>) -> nat
    decreases s,
{
    if s.len() == 0 {
        0
    } else {
        1 + (match s[0].init {
            Option::Some(e) => size_expr(e),
            Option::None => 0nat,
        }) + size_declarators(s.drop_first())
    }
}

pub open spec fn size_stmts(s: Seq<GStmt>) -> nat
    decreases s,
{
    if s.len() == 0 {
        0
    } else {
        1 + size_stmt(s[0]) + size_stmts(s.drop_first())
    }
}

pub open spec fn size_item(it: GModuleItem) -> nat {
    match it {
        GModuleItem::Import(_) => 1,
        GModuleItem::Stmt(s) => 1 + size_stmt(s),
    }
}

pub open spec fn size_items(s: Seq<GModuleItem>) -> nat
    decreases s,
{
    if s.len() == 0 {
        0
    } else {
        1 + size_item(s[0]) + size_items(s.drop_first())
    }
}

} // verus!

// The check reads the file as two blocks; reopening the macro keeps additions
// grouped with their subject.
use vstd::prelude::verus;

verus! {

// ---------------------------------------------------------------------------
// Snoc lemmas for the list views
// ---------------------------------------------------------------------------

pub proof fn lemma_view_exprs_push(s: Seq<Expr>, x: Expr)
    ensures
        view_exprs(s.push(x)) == view_exprs(s) + seq![view_expr(x)],
    decreases s,
{
    if s.len() == 0 {
        assert(s.push(x)[0] == x);
        assert(s.push(x).drop_first() =~= Seq::<Expr>::empty());
        assert(view_exprs(Seq::<Expr>::empty()) == Seq::<GExpr>::empty());
        assert(view_exprs(s.push(x)) =~= view_exprs(s) + seq![view_expr(x)]);
    } else {
        assert(s.push(x)[0] == s[0]);
        assert(s.push(x).drop_first() =~= s.drop_first().push(x));
        lemma_view_exprs_push(s.drop_first(), x);
        assert(view_exprs(s.push(x)) =~= view_exprs(s) + seq![view_expr(x)]);
    }
}

pub proof fn lemma_view_args_push(s: Seq<ExprOrSpread>, x: ExprOrSpread)
    ensures
        view_args(s.push(x)) == view_args(s) + seq![view_arg(x)],
    decreases s,
{
    if s.len() == 0 {
        assert(s.push(x)[0] == x);
        assert(s.push(x).drop_first() =~= Seq::<ExprOrSpread>::empty());
        assert(view_args(Seq::<ExprOrSpread>::empty()) == Seq::<GArg>::empty());
        assert(view_args(s.push(x)) =~= view_args(s) + seq![view_arg(x)]);
    } else {
        assert(s.push(x)[0] == s[0]);
        assert(s.push(x).drop_first() =~= s.drop_first().push(x));
        lemma_view_args_push(s.drop_first(), x);
        assert(view_args(s.push(x)) =~= view_args(s) + seq![view_arg(x)]);
    }
}

pub proof fn lemma_view_props_push(s: Seq<KeyValueProp>, x: KeyValueProp)
    ensures
        view_props(s.push(x)) == view_props(s) + seq![view_prop(x)],
    decreases s,
{
    if s.len() == 0 {
        assert(s.push(x)[0] == x);
        assert(s.push(x).drop_first() =~= Seq::<KeyValueProp>::empty());
        assert(view_props(Seq::<KeyValueProp>::empty()) == Seq::<GProp>::empty());
        assert(view_props(s.push(x)) =~= view_props(s) + seq![view_prop(x)]);
    } else {
        assert(s.push(x)[0] == s[0]);
        assert(s.push(x).drop_first() =~= s.drop_first().push(x));
        lemma_view_props_push(s.drop_first(), x);
        assert(view_props(s.push(x)) =~= view_props(s) + seq![view_prop(x)]);
    }
}

pub proof fn lemma_view_stmts_push(s: Seq<Stmt>, x: Stmt)
    ensures
        view_stmts(s.push(x)) == view_stmts(s) + seq![view_stmt(x)],
    decreases s,
{
    if s.len() == 0 {
        assert(s.push(x)[0] == x);
        assert(s.push(x).drop_first() =~= Seq::<Stmt>::empty());
        assert(view_stmts(Seq::<Stmt>::empty()) == Seq::<GStmt>::empty());
        assert(view_stmts(s.push(x)) =~= view_stmts(s) + seq![view_stmt(x)]);
    } else {
        assert(s.push(x)[0] == s[0]);
        assert(s.push(x).drop_first() =~= s.drop_first().push(x));
        lemma_view_stmts_push(s.drop_first(), x);
        assert(view_stmts(s.push(x)) =~= view_stmts(s) + seq![view_stmt(x)]);
    }
}

pub proof fn lemma_view_declarators_push(s: Seq<VarDeclarator>, x: VarDeclarator)
    ensures
        view_declarators(s.push(x)) == view_declarators(s) + seq![view_declarator(x)],
    decreases s,
{
    if s.len() == 0 {
        assert(s.push(x)[0] == x);
        assert(s.push(x).drop_first() =~= Seq::<VarDeclarator>::empty());
        assert(view_declarators(Seq::<VarDeclarator>::empty()) == Seq::<GVarDeclarator>::empty());
        assert(view_declarators(s.push(x)) =~= view_declarators(s) + seq![view_declarator(x)]);
    } else {
        assert(s.push(x)[0] == s[0]);
        assert(s.push(x).drop_first() =~= s.drop_first().push(x));
        lemma_view_declarators_push(s.drop_first(), x);
        assert(view_declarators(s.push(x)) =~= view_declarators(s) + seq![view_declarator(x)]);
    }
}

pub proof fn lemma_view_specifiers_push(s: Seq<ImportSpecifier>, x: ImportSpecifier)
    ensures
        view_specifiers(s.push(x)) == view_specifiers(s) + seq![view_specifier(x)],
    decreases s,
{
    if s.len() == 0 {
        assert(s.push(x)[0] == x);
        assert(s.push(x).drop_first() =~= Seq::<ImportSpecifier>::empty());
        assert(view_specifiers(Seq::<ImportSpecifier>::empty())
            == Seq::<GImportSpecifier>::empty());
        assert(view_specifiers(s.push(x)) =~= view_specifiers(s) + seq![view_specifier(x)]);
    } else {
        assert(s.push(x)[0] == s[0]);
        assert(s.push(x).drop_first() =~= s.drop_first().push(x));
        lemma_view_specifiers_push(s.drop_first(), x);
        assert(view_specifiers(s.push(x)) =~= view_specifiers(s) + seq![view_specifier(x)]);
    }
}

pub proof fn lemma_view_items_push(s: Seq<ModuleItem>, x: ModuleItem)
    ensures
        view_items(s.push(x)) == view_items(s) + seq![view_item(x)],
    decreases s,
{
    if s.len() == 0 {
        assert(s.push(x)[0] == x);
        assert(s.push(x).drop_first() =~= Seq::<ModuleItem>::empty());
        assert(view_items(Seq::<ModuleItem>::empty()) == Seq::<GModuleItem>::empty());
        assert(view_items(s.push(x)) =~= view_items(s) + seq![view_item(x)]);
    } else {
        assert(s.push(x)[0] == s[0]);
        assert(s.push(x).drop_first() =~= s.drop_first().push(x));
        lemma_view_items_push(s.drop_first(), x);
        assert(view_items(s.push(x)) =~= view_items(s) + seq![view_item(x)]);
    }
}


// ---------------------------------------------------------------------------
// Index lemmas for the list views
// ---------------------------------------------------------------------------

pub proof fn lemma_view_exprs_index(s: Seq<Expr>)
    ensures
        view_exprs(s).len() == s.len(),
        forall|i: int| 0 <= i < s.len() ==> view_exprs(s)[i] == view_expr(s[i]),
    decreases s,
{
    if s.len() != 0 {
        lemma_view_exprs_index(s.drop_first());
        assert forall|i: int| 0 <= i < s.len() implies view_exprs(s)[i] == view_expr(s[i]) by {
            if i > 0 {
                assert(s.drop_first()[i - 1] == s[i]);
                assert(view_exprs(s)[i] == view_exprs(s.drop_first())[i - 1]);
            }
        }
    }
}

pub proof fn lemma_view_args_index(s: Seq<ExprOrSpread>)
    ensures
        view_args(s).len() == s.len(),
        forall|i: int| 0 <= i < s.len() ==> view_args(s)[i] == view_arg(s[i]),
    decreases s,
{
    if s.len() != 0 {
        lemma_view_args_index(s.drop_first());
        assert forall|i: int| 0 <= i < s.len() implies view_args(s)[i] == view_arg(s[i]) by {
            if i > 0 {
                assert(s.drop_first()[i - 1] == s[i]);
                assert(view_args(s)[i] == view_args(s.drop_first())[i - 1]);
            }
        }
    }
}

pub proof fn lemma_view_props_index(s: Seq<KeyValueProp>)
    ensures
        view_props(s).len() == s.len(),
        forall|i: int| 0 <= i < s.len() ==> view_props(s)[i] == view_prop(s[i]),
    decreases s,
{
    if s.len() != 0 {
        lemma_view_props_index(s.drop_first());
        assert forall|i: int| 0 <= i < s.len() implies view_props(s)[i] == view_prop(s[i]) by {
            if i > 0 {
                assert(s.drop_first()[i - 1] == s[i]);
                assert(view_props(s)[i] == view_props(s.drop_first())[i - 1]);
            }
        }
    }
}

pub proof fn lemma_view_stmts_index(s: Seq<Stmt>)
    ensures
        view_stmts(s).len() == s.len(),
        forall|i: int| 0 <= i < s.len() ==> view_stmts(s)[i] == view_stmt(s[i]),
    decreases s,
{
    if s.len() != 0 {
        lemma_view_stmts_index(s.drop_first());
        assert forall|i: int| 0 <= i < s.len() implies view_stmts(s)[i] == view_stmt(s[i]) by {
            if i > 0 {
                assert(s.drop_first()[i - 1] == s[i]);
                assert(view_stmts(s)[i] == view_stmts(s.drop_first())[i - 1]);
            }
        }
    }
}

pub proof fn lemma_view_declarators_index(s: Seq<VarDeclarator>)
    ensures
        view_declarators(s).len() == s.len(),
        forall|i: int| 0 <= i < s.len() ==> view_declarators(s)[i] == view_declarator(s[i]),
    decreases s,
{
    if s.len() != 0 {
        lemma_view_declarators_index(s.drop_first());
        assert forall|i: int| 0 <= i < s.len() implies view_declarators(s)[i] == view_declarator(
            s[i],
        ) by {
            if i > 0 {
                assert(s.drop_first()[i - 1] == s[i]);
                assert(view_declarators(s)[i] == view_declarators(s.drop_first())[i - 1]);
            }
        }
    }
}

pub proof fn lemma_view_specifiers_index(s: Seq<ImportSpecifier>)
    ensures
        view_specifiers(s).len() == s.len(),
        forall|i: int| 0 <= i < s.len() ==> view_specifiers(s)[i] == view_specifier(s[i]),
    decreases s,
{
    if s.len() != 0 {
        lemma_view_specifiers_index(s.drop_first());
        assert forall|i: int| 0 <= i < s.len() implies view_specifiers(s)[i] == view_specifier(
            s[i],
        ) by {
            if i > 0 {
                assert(s.drop_first()[i - 1] == s[i]);
                assert(view_specifiers(s)[i] == view_specifiers(s.drop_first())[i - 1]);
            }
        }
    }
}

pub proof fn lemma_view_items_index(s: Seq<ModuleItem>)
    ensures
        view_items(s).len() == s.len(),
        forall|i: int| 0 <= i < s.len() ==> view_items(s)[i] == view_item(s[i]),
    decreases s,
{
    if s.len() != 0 {
        lemma_view_items_index(s.drop_first());
        assert forall|i: int| 0 <= i < s.len() implies view_items(s)[i] == view_item(s[i]) by {
            if i > 0 {
                assert(s.drop_first()[i - 1] == s[i]);
                assert(view_items(s)[i] == view_items(s.drop_first())[i - 1]);
            }
        }
    }
}

/// Concatenation lemmas used when scopes splice synthesized declarations.
pub proof fn lemma_view_stmts_concat(a: Seq<Stmt>, b: Seq<Stmt>)
    ensures
        view_stmts(a + b) == view_stmts(a) + view_stmts(b),
    decreases a,
{
    if a.len() == 0 {
        assert(a + b =~= b);
        assert(view_stmts(a) + view_stmts(b) =~= view_stmts(b));
    } else {
        assert((a + b)[0] == a[0]);
        assert((a + b).drop_first() =~= a.drop_first() + b);
        lemma_view_stmts_concat(a.drop_first(), b);
        assert(view_stmts(a + b) =~= view_stmts(a) + view_stmts(b));
    }
}

pub proof fn lemma_view_items_concat(a: Seq<ModuleItem>, b: Seq<ModuleItem>)
    ensures
        view_items(a + b) == view_items(a) + view_items(b),
    decreases a,
{
    if a.len() == 0 {
        assert(a + b =~= b);
        assert(view_items(a) + view_items(b) =~= view_items(b));
    } else {
        assert((a + b)[0] == a[0]);
        assert((a + b).drop_first() =~= a.drop_first() + b);
        lemma_view_items_concat(a.drop_first(), b);
        assert(view_items(a + b) =~= view_items(a) + view_items(b));
    }
}

} // verus!