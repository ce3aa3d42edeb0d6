//! The symbol tables: what is declared, in which scope, and in which
//! function. The tables, the current scope and the current function form
//! one context that the caller owns and hands to each function.

use crate::ast::types::{
    decls_view, fold_decl, nodes_view, same_type, ASTNode, DeclV, Tree, Type, TypeV, VarDec,
};
use crate::lexer::lexer::{debug_quoted, quoted, Token, TokenV};
use crate::text::{nat_text, push_nat, push_text};
use crate::utils::helper::literal_kind;
use crate::utils::types::PhraseType;
use vstd::prelude::*;

verus! {

/// The offset that every symbol is entered with.
pub const DEFAULT_OFFSET: usize = 0;

/// What a table holds of a symbol: its declaration, its scope, the formal
/// parameters where it is a function, and its offset.
#[derive(Debug)]
pub struct SymbolInfo(pub VarDec, pub usize, pub Option<Vec<VarDec>>, pub usize);

/// The value of what a table holds of a symbol.
pub ghost struct InfoV {
    pub decl: DeclV,
    pub scope: nat,
    pub params: Option<Seq<DeclV>>,
    pub offset: nat,
}

impl View for SymbolInfo {
    type V = InfoV;

    open spec fn view(&self) -> InfoV {
        InfoV {
            decl: self.0@,
            scope: self.1 as nat,
            params: match self.2 {
                Some(p) => Some(decls_view(p@)),
                None => None,
            },
            offset: self.3 as nat,
        }
    }
}

fn copy_params(params: &Option<Vec<VarDec>>) -> (r: Option<Vec<VarDec>>)
    ensures
        r is Some <==> params is Some,
        r is Some ==> decls_view(r->0@) == decls_view(params->0@),
{
    match params {
        Some(p) => {
            let mut out: Vec<VarDec> = Vec::new();
            let mut i: usize = 0;
            while i < p.len()
                invariant
                    i <= p.len(),
                    out.len() == i,
                    forall|k: int| 0 <= k < i ==> out[k]@ == p[k]@,
                decreases p.len() - i,
            {
                out.push(p[i].clone());
                i += 1;
            }
            assert(decls_view(out@) =~= decls_view(p@));
            Some(out)
        },
        None => None,
    }
}

impl Clone for SymbolInfo {
    fn clone(&self) -> (r: Self)
        ensures
            r@ == self@,
    {
        SymbolInfo(self.0.clone(), self.1, copy_params(&self.2), self.3)
    }
}

/// A table: a map from a name and a scope to what is known of the symbol.
pub type TableV = Map<(Seq<char>, nat), InfoV>;

/// One entry of a table.
#[derive(Debug)]
pub struct Symbol {
    pub name: String,
    pub scope: usize,
    pub info: SymbolInfo,
}

/// The table that a list of entries stands for: a later entry for a
/// name and a scope overrides an earlier one.
pub open spec fn table_of(entries: Seq<Symbol>) -> TableV
    decreases entries.len(),
{
    if entries.len() == 0 {
        Map::empty()
    } else {
        table_of(entries.drop_last()).insert(
            (entries.last().name@, entries.last().scope as nat),
            entries.last().info@,
        )
    }
}

/// The tables of all functions in one: a map from a function, a name
/// and a scope to what is known of the symbol.
pub type LocalsV = Map<(Seq<char>, Seq<char>, nat), InfoV>;

/// One entry of the table of a function.
#[derive(Debug)]
pub struct LocalSymbol {
    pub func: String,
    pub name: String,
    pub scope: usize,
    pub info: SymbolInfo,
}

/// The tables that a list of entries stands for: a later entry for a
/// function, a name and a scope overrides an earlier one.
pub open spec fn locals_of(entries: Seq<LocalSymbol>) -> LocalsV
    decreases entries.len(),
{
    if entries.len() == 0 {
        Map::empty()
    } else {
        locals_of(entries.drop_last()).insert(
            (entries.last().func@, entries.last().name@, entries.last().scope as nat),
            entries.last().info@,
        )
    }
}

/// The context of the front end: the table of the symbols outside every
/// function, one table for each function, the current scope and the name
/// of the current function.
pub struct Context {
    table: Vec<Symbol>,
    func_table: Vec<LocalSymbol>,
    scope: usize,
    current_func: String,
}

/// The value of a context.
pub ghost struct CtxV {
    pub globals: TableV,
    pub locals: LocalsV,
    pub scope: nat,
    pub current: Seq<char>,
}

impl View for Context {
    type V = CtxV;

    open spec fn view(&self) -> CtxV {
        CtxV {
            globals: self.globals(),
            locals: self.locals(),
            scope: self.scope(),
            current: self.current(),
        }
    }
}

fn find(entries: &Vec<Symbol>, name: &str, scope: usize) -> (r: Option<usize>)
    ensures
        r is Some <==> table_of(entries@).contains_key((name@, scope as nat)),
        r is Some ==> r->0 < entries.len() && entries[r->0 as int].info@ == table_of(entries@)[(
            name@,
            scope as nat,
        )],
{
    let mut i: usize = entries.len();
    assert(entries@.take(i as int) == entries@);
    while i > 0
        invariant
            i <= entries.len(),
            table_of(entries@).contains_key((name@, scope as nat)) <==> table_of(
                entries@.take(i as int),
            ).contains_key((name@, scope as nat)),
            table_of(entries@).contains_key((name@, scope as nat)) ==> table_of(entries@)[(
                name@,
                scope as nat,
            )] == table_of(entries@.take(i as int))[(name@, scope as nat)],
        decreases i,
    {
        proof {
            assert(entries@.take(i as int).drop_last() == entries@.take(i - 1));
            assert(entries@.take(i as int).last() == entries@[i - 1]);
        }
        i -= 1;
        if *entries[i].name.as_str() == *name && entries[i].scope == scope {
            return Some(i);
        }
    }
    assert(entries@.take(0).len() == 0);
    None
}

fn find_local(entries: &Vec<LocalSymbol>, func: &str, name: &str, scope: usize) -> (r: Option<
    usize,
>)
    ensures
        r is Some <==> locals_of(entries@).contains_key((func@, name@, scope as nat)),
        r is Some ==> r->0 < entries.len() && entries[r->0 as int].info@ == locals_of(entries@)[(
            func@,
            name@,
            scope as nat,
        )],
{
    let mut i: usize = entries.len();
    assert(entries@.take(i as int) == entries@);
    while i > 0
        invariant
            i <= entries.len(),
            locals_of(entries@).contains_key((func@, name@, scope as nat)) <==> locals_of(
                entries@.take(i as int),
            ).contains_key((func@, name@, scope as nat)),
            locals_of(entries@).contains_key((func@, name@, scope as nat)) ==> locals_of(
                entries@,
            )[(func@, name@, scope as nat)] == locals_of(entries@.take(i as int))[(
                func@,
                name@,
                scope as nat,
            )],
        decreases i,
    {
        proof {
            assert(entries@.take(i as int).drop_last() == entries@.take(i - 1));
            assert(entries@.take(i as int).last() == entries@[i - 1]);
        }
        i -= 1;
        if *entries[i].func.as_str() == *func && *entries[i].name.as_str() == *name
            && entries[i].scope == scope {
            return Some(i);
        }
    }
    assert(entries@.take(0).len() == 0);
    None
}

impl Context {
    /// The table of the symbols outside every function.
    pub closed spec fn globals(&self) -> TableV {
        table_of(self.table@)
    }

    /// The tables of the functions.
    pub closed spec fn locals(&self) -> LocalsV {
        locals_of(self.func_table@)
    }

    /// The current scope.
    pub closed spec fn scope(&self) -> nat {
        self.scope as nat
    }

    /// The name of the current function.
    pub closed spec fn current(&self) -> Seq<char> {
        self.current_func@
    }

    /// The entries that stand for the table outside every function, in
    /// the order in which they were entered.
    pub fn global_symbols(&self) -> (r: &Vec<Symbol>)
        ensures
            table_of(r@) == self.globals(),
    {
        &self.table
    }

    /// The entries that stand for the tables of the functions, in the
    /// order in which they were entered.
    pub fn local_symbols(&self) -> (r: &Vec<LocalSymbol>)
        ensures
            locals_of(r@) == self.locals(),
    {
        &self.func_table
    }

    /// The context in which nothing is declared: scope 0, no function.
    pub fn new() -> (r: Context)
        ensures
            r.globals() == TableV::empty(),
            r.locals() == LocalsV::empty(),
            r.scope() == 0,
            r.current() == Seq::<char>::empty(),
    {
        Context { table: Vec::new(), func_table: Vec::new(), scope: 0, current_func: String::new() }
    }
}

/// What the table of `func_name` holds of `var_name` in `scope`.
pub fn look_up_func_symbol_table(
    ctx: &Context,
    var_name: String,
    scope: usize,
    func_name: String,
) -> (r: Option<SymbolInfo>)
    ensures
        r is Some <==> ctx.locals().contains_key((func_name@, var_name@, scope as nat)),
        r is Some ==> r->0@ == ctx.locals()[(func_name@, var_name@, scope as nat)],
{
    match find_local(&ctx.func_table, func_name.as_str(), var_name.as_str(), scope) {
        Some(i) => Some(ctx.func_table[i].info.clone()),
        None => None,
    }
}

/// What the table outside every function holds of `var_name` in `scope`.
pub fn look_up_symbol_table(ctx: &Context, var_name: String, scope: usize) -> (r: Option<
    SymbolInfo,
>)
    ensures
        r is Some <==> ctx.globals().contains_key((var_name@, scope as nat)),
        r is Some ==> r->0@ == ctx.globals()[(var_name@, scope as nat)],
{
    match find(&ctx.table, var_name.as_str(), scope) {
        Some(i) => Some(ctx.table[i].info.clone()),
        None => None,
    }
}

/// The innermost scope from `scope` outwards in which `table` holds
/// `name`, if there is one.
pub open spec fn innermost(table: TableV, name: Seq<char>, scope: nat) -> Option<nat>
    decreases scope,
{
    if table.contains_key((name, scope)) {
        Some(scope)
    } else if scope == 0 {
        None
    } else {
        innermost(table, name, (scope - 1) as nat)
    }
}

/// The innermost scope from `scope` outwards in which the table of
/// `func` holds `name`, if there is one.
pub open spec fn innermost_local(locals: LocalsV, func: Seq<char>, name: Seq<char>, scope: nat) -> Option<nat>
    decreases scope,
{
    if locals.contains_key((func, name, scope)) {
        Some(scope)
    } else if scope == 0 {
        None
    } else {
        innermost_local(locals, func, name, (scope - 1) as nat)
    }
}

/// What is visible of `name` from `scope` inside `func`: the symbol of
/// the innermost scope outside every function, or, where there is none,
/// that of the innermost scope in the table of `func`.
pub open spec fn visible(
    globals: TableV,
    locals: LocalsV,
    name: Seq<char>,
    scope: nat,
    func: Seq<char>,
) -> Option<InfoV> {
    match innermost(globals, name, scope) {
        Some(s) => Some(globals[(name, s)]),
        None => match innermost_local(locals, func, name, scope) {
            Some(s) => Some(locals[(func, name, s)]),
            None => None,
        },
    }
}

fn find_innermost(entries: &Vec<Symbol>, name: &str, scope: usize) -> (r: Option<usize>)
    ensures
        r is Some <==> innermost(table_of(entries@), name@, scope as nat) is Some,
        r is Some ==> r->0 < entries.len() && entries[r->0 as int].info@ == table_of(entries@)[(
            name@,
            innermost(table_of(entries@), name@, scope as nat)->0,
        )],
{
    let mut s: usize = scope;
    loop
        invariant
            s <= scope,
            innermost(table_of(entries@), name@, scope as nat) == innermost(
                table_of(entries@),
                name@,
                s as nat,
            ),
        decreases s,
    {
        let found = find(entries, name, s);
        if found.is_some() {
            return found;
        }
        if s == 0 {
            return None;
        }
        s -= 1;
    }
}

fn find_innermost_local(entries: &Vec<LocalSymbol>, func: &str, name: &str, scope: usize) -> (r:
    Option<usize>)
    ensures
        r is Some <==> innermost_local(locals_of(entries@), func@, name@, scope as nat) is Some,
        r is Some ==> r->0 < entries.len() && entries[r->0 as int].info@ == locals_of(entries@)[(
            func@,
            name@,
            innermost_local(locals_of(entries@), func@, name@, scope as nat)->0,
        )],
{
    let mut s: usize = scope;
    loop
        invariant
            s <= scope,
            innermost_local(locals_of(entries@), func@, name@, scope as nat) == innermost_local(
                locals_of(entries@),
                func@,
                name@,
                s as nat,
            ),
        decreases s,
    {
        let found = find_local(entries, func, name, s);
        if found.is_some() {
            return found;
        }
        if s == 0 {
            return None;
        }
        s -= 1;
    }
}

/// What is visible of `var_name` from `scope` inside `func_name`.
pub fn travel_symbol_table(ctx: &Context, var_name: &String, scope: usize, func_name: String) -> (r:
    Option<SymbolInfo>)
    ensures
        r is Some <==> visible(ctx.globals(), ctx.locals(), var_name@, scope as nat, func_name@)
            is Some,
        r is Some ==> r->0@ == visible(
            ctx.globals(),
            ctx.locals(),
            var_name@,
            scope as nat,
            func_name@,
        )->0,
{
    match find_innermost(&ctx.table, var_name.as_str(), scope) {
        Some(i) => Some(ctx.table[i].info.clone()),
        None => match find_innermost_local(
            &ctx.func_table,
            func_name.as_str(),
            var_name.as_str(),
            scope,
        ) {
            Some(i) => Some(ctx.func_table[i].info.clone()),
            None => None,
        },
    }
}

/// The current scope.
pub fn get_current_scope_num(ctx: &Context) -> (r: usize)
    ensures
        r == ctx.scope(),
{
    ctx.scope
}

/// Makes `next` the current scope.
pub fn update_current_scope_num(ctx: &mut Context, next: usize)
    ensures
        final(ctx).scope() == next,
        final(ctx).globals() == old(ctx).globals(),
        final(ctx).locals() == old(ctx).locals(),
        final(ctx).current() == old(ctx).current(),
{
    ctx.scope = next;
}

/// Makes `func_name` the current function.
pub fn set_current_func(ctx: &mut Context, func_name: String)
    ensures
        final(ctx).current() == func_name@,
        final(ctx).globals() == old(ctx).globals(),
        final(ctx).locals() == old(ctx).locals(),
        final(ctx).scope() == old(ctx).scope(),
{
    ctx.current_func = func_name;
}

/// The name of the current function.
pub fn get_current_func(ctx: &Context) -> (r: String)
    ensures
        r@ == ctx.current(),
{
    ctx.current_func.clone()
}

/// Whether a symbol `main` is declared outside every function in scope 0.
pub fn check_entry_func(ctx: &Context) -> (r: bool)
    ensures
        r == ctx.globals().contains_key(("main"@, 0nat)),
{
    find(&ctx.table, "main", 0).is_some()
}

/// Enters `symbol`, with its initialiser folded, for `scope`: into the
/// table outside every function where `func_name` is empty or `params`
/// are given, else into the table of `func_name`. Returns whether it was
/// entered: a symbol that the table already holds for that scope is not
/// entered again, and nothing changes.
pub fn build_symbol_table(
    ctx: &mut Context,
    func_name: String,
    symbol: &VarDec,
    scope: usize,
    params: Option<Vec<VarDec>>,
) -> (entered: bool)
    ensures
        final(ctx).scope() == old(ctx).scope(),
        final(ctx).current() == old(ctx).current(),
        ({
            let info = InfoV {
                decl: fold_decl(symbol@),
                scope: scope as nat,
                params: match params {
                    Some(p) => Some(decls_view(p@)),
                    None => None,
                },
                offset: 0,
            };
            if func_name@.len() == 0 || params is Some {
                &&& entered == !old(ctx).globals().contains_key((symbol.var_name@, scope as nat))
                &&& final(ctx).locals() == old(ctx).locals()
                &&& final(ctx).globals() == (if entered {
                    old(ctx).globals().insert((symbol.var_name@, scope as nat), info)
                } else {
                    old(ctx).globals()
                })
            } else {
                &&& entered == !old(ctx).locals().contains_key(
                    (func_name@, symbol.var_name@, scope as nat),
                )
                &&& final(ctx).globals() == old(ctx).globals()
                &&& final(ctx).locals() == (if entered {
                    old(ctx).locals().insert((func_name@, symbol.var_name@, scope as nat), info)
                } else {
                    old(ctx).locals()
                })
            }
        }),
{
    let folded = VarDec {
        var_type: symbol.var_type.clone(),
        var_name: symbol.var_name.clone(),
        init: match &symbol.init {
            Some(e) => Some(e.clone().optimal()),
            None => None,
        },
    };
    assert(folded@ == fold_decl(symbol@));
    let global = func_name.as_str().unicode_len() == 0 || params.is_some();
    let info = SymbolInfo(folded, scope, params, DEFAULT_OFFSET);
    if global {
        if find(&ctx.table, symbol.var_name.as_str(), scope).is_some() {
            return false;
        }
        ctx.table.push(Symbol { name: symbol.var_name.clone(), scope, info });
        assert(ctx.table@.drop_last() == old(ctx).table@);
        true
    } else {
        if find_local(&ctx.func_table, func_name.as_str(), symbol.var_name.as_str(), scope).is_some() {
            return false;
        }
        ctx.func_table.push(
            LocalSymbol { func: func_name, name: symbol.var_name.clone(), scope, info },
        );
        assert(ctx.func_table@.drop_last() == old(ctx).func_table@);
        true
    }
}

// ---------------------------------------------------------------------
// Types of expressions
// ---------------------------------------------------------------------

/// The base type of the given name.
pub open spec fn base_type(name: Seq<char>) -> TypeV {
    TypeV::BaseType(name)
}

/// The type of a literal of kind `kind`.
pub open spec fn literal_type(kind: PhraseType) -> TypeV {
    if kind == PhraseType::Bool {
        base_type("bool"@)
    } else if kind == PhraseType::String {
        base_type("string"@)
    } else if kind == PhraseType::Float {
        base_type("float"@)
    } else if kind == PhraseType::Char {
        base_type("char"@)
    } else {
        base_type("int"@)
    }
}

/// The expression `t` can be typed in the context: each identifier that
/// decides its type is visible, and each literal that does is of a kind
/// of literal. The type of an operation is decided by its first operand.
pub open spec fn typable(
    globals: TableV,
    locals: LocalsV,
    scope: nat,
    func: Seq<char>,
    t: Tree,
) -> bool
    decreases t,
{
    match t {
        Tree::Ident(tok) => visible(globals, locals, tok.value, scope, func) is Some,
        Tree::Literal(tok) => literal_kind(tok.types),
        Tree::BinaryOp { op, lhs, rhs } => typable(globals, locals, scope, func, *lhs),
        Tree::UnaryOp { op, expr } => typable(globals, locals, scope, func, *expr),
        _ => true,
    }
}

/// The type of the expression `t` in the context: that of the visible
/// declaration for an identifier, that of its kind for a literal, that of
/// the first operand for an operation; any other tree has none.
pub open spec fn type_of(
    globals: TableV,
    locals: LocalsV,
    scope: nat,
    func: Seq<char>,
    t: Tree,
) -> Option<TypeV>
    decreases t,
{
    match t {
        Tree::Ident(tok) => match visible(globals, locals, tok.value, scope, func) {
            Some(info) => Some(info.decl.var_type),
            None => None,
        },
        Tree::Literal(tok) => Some(literal_type(tok.types)),
        Tree::BinaryOp { op, lhs, rhs } => type_of(globals, locals, scope, func, *lhs),
        Tree::UnaryOp { op, expr } => type_of(globals, locals, scope, func, *expr),
        _ => None,
    }
}

impl Context {
    /// `t` can be typed in this context.
    pub open spec fn types(&self, t: Tree) -> bool {
        typable(self.globals(), self.locals(), self.scope(), self.current(), t)
    }

    /// The type of `t` in this context.
    pub open spec fn type_of(&self, t: Tree) -> Option<TypeV> {
        type_of(self.globals(), self.locals(), self.scope(), self.current(), t)
    }
}

/// Whether `node` can be typed in the context.
pub fn can_type(ctx: &Context, node: &ASTNode) -> (r: bool)
    ensures
        r == ctx.types(node@),
    decreases node,
{
    match node {
        ASTNode::Ident(id) => travel_symbol_table(
            ctx,
            &id.value,
            ctx.scope,
            ctx.current_func.clone(),
        ).is_some(),
        ASTNode::Literal(literal) => match literal.types {
            PhraseType::Bool | PhraseType::String | PhraseType::Oct | PhraseType::Dec
            | PhraseType::Hex | PhraseType::Float | PhraseType::Char => true,
            _ => false,
        },
        ASTNode::BinaryOp { lhs, .. } => can_type(ctx, lhs),
        ASTNode::UnaryOp { expr, .. } => can_type(ctx, expr),
        _ => true,
    }
}

impl ASTNode {
    /// The type of the expression `node` in the context, if it has one.
    pub fn get_ast_type(ctx: &Context, node: &ASTNode) -> (r: Option<Type>)
        requires
            ctx.types(node@),
        ensures
            r is Some <==> ctx.type_of(node@) is Some,
            r is Some ==> r->0@ == ctx.type_of(node@)->0,
        decreases node,
    {
        match node {
            ASTNode::Ident(id) => {
                match travel_symbol_table(ctx, &id.value, ctx.scope, ctx.current_func.clone()) {
                    Some(info) => Some(info.0.var_type),
                    None => None,
                }
            },
            ASTNode::Literal(literal) => match literal.types {
                PhraseType::Bool => Some(Type::BaseType("bool".to_owned())),
                PhraseType::String => Some(Type::BaseType("string".to_owned())),
                PhraseType::Float => Some(Type::BaseType("float".to_owned())),
                PhraseType::Char => Some(Type::BaseType("char".to_owned())),
                _ => Some(Type::BaseType("int".to_owned())),
            },
            ASTNode::BinaryOp { lhs, .. } => ASTNode::get_ast_type(ctx, lhs),
            ASTNode::UnaryOp { expr, .. } => ASTNode::get_ast_type(ctx, expr),
            _ => None,
        }
    }
}

/// Whether `lhs` and `rhs` have the same type in the context, or both
/// have none.
pub fn check_types(ctx: &Context, lhs: &ASTNode, rhs: &ASTNode) -> (r: bool)
    requires
        ctx.types(lhs@),
        ctx.types(rhs@),
    ensures
        r == (ctx.type_of(lhs@) == ctx.type_of(rhs@)),
{
    let lhs_type = ASTNode::get_ast_type(ctx, lhs);
    let rhs_type = ASTNode::get_ast_type(ctx, rhs);
    match lhs_type {
        Some(l) => match rhs_type {
            Some(r) => same_type(&l, &r),
            None => false,
        },
        None => rhs_type.is_none(),
    }
}

// ---------------------------------------------------------------------
// The tree as text
// ---------------------------------------------------------------------

/// Two spaces for each level of indentation.
pub open spec fn spaces(depth: nat) -> Seq<char>
    decreases depth,
{
    if depth == 0 {
        Seq::empty()
    } else {
        spaces((depth - 1) as nat) + "  "@
    }
}

/// The name of a kind of token.
pub open spec fn kind_name(kind: PhraseType) -> Seq<char> {
    match kind {
        PhraseType::Hex => "Hex"@,
        PhraseType::Dec => "Dec"@,
        PhraseType::Oct => "Oct"@,
        PhraseType::Keyword => "Keyword"@,
        PhraseType::Bool => "Bool"@,
        PhraseType::Identifier => "Identifier"@,
        PhraseType::Operator => "Operator"@,
        PhraseType::Separator => "Separator"@,
        PhraseType::Unknown => "Unknown"@,
        PhraseType::String => "String"@,
        PhraseType::Float => "Float"@,
        PhraseType::Char => "Char"@,
    }
}

/// A token as text: its three fields by name, the text between quotes.
pub open spec fn token_text(tok: TokenV) -> Seq<char> {
    "Token { pos: "@ + nat_text(tok.pos) + ", types: "@ + kind_name(tok.types) + ", value: "@
        + quoted(tok.value) + " }"@
}

/// A type as text: the name of a base type; for a structure its name and,
/// between braces, its fields, one to a line.
pub open spec fn type_text(ty: TypeV) -> Seq<char>
    decreases ty, 1nat,
{
    match ty {
        TypeV::BaseType(name) => name,
        TypeV::CustomizedType(st) => "struct "@ + st.id + " {\n  "@ + decl_lines(
            st.field,
            Seq::empty(),
            "\n  "@,
        ) + "\n}"@,
    }
}

/// A declared variable as text: name, type, and the initialiser if there
/// is one.
pub open spec fn decl_text(d: DeclV) -> Seq<char>
    decreases d, 1nat,
{
    d.var_name + ": "@ + type_text(d.var_type) + (match d.init {
        Some(init) => " = "@ + tree_text(init, 0),
        None => Seq::empty(),
    })
}

/// The declarations `ds` as text, each behind `lead`, with `sep` between
/// them.
pub open spec fn decl_lines(ds: Seq<DeclV>, lead: Seq<char>, sep: Seq<char>) -> Seq<char>
    decreases ds, 0nat,
{
    if ds.len() == 0 {
        Seq::empty()
    } else if ds.len() == 1 {
        lead + decl_text(ds[0])
    } else {
        decl_lines(ds.drop_last(), lead, sep) + sep + lead + decl_text(ds.last())
    }
}

/// The trees `ts` as text at depth `depth`, one under the other.
pub open spec fn tree_lines(ts: Seq<Tree>, depth: nat) -> Seq<char>
    decreases ts, 0nat,
{
    if ts.len() == 0 {
        Seq::empty()
    } else if ts.len() == 1 {
        tree_text(ts[0], depth)
    } else {
        tree_lines(ts.drop_last(), depth) + "\n"@ + tree_text(ts.last(), depth)
    }
}

/// The tree `t` as text, indented by two spaces for each level of
/// `depth`: on the first line the kind of the node and what it holds
/// itself, below it its parts, one level or two further in.
pub open spec fn tree_text(t: Tree, depth: nat) -> Seq<char>
    decreases t, 1nat,
{
    let pad = spaces(depth);
    match t {
        Tree::Specifier(ty) => pad + "Specifier: "@ + type_text(ty),
        Tree::Program { items } => pad + "Program:\n"@ + tree_lines(items, depth + 1),
        Tree::FuncDef { name, params, ret_type, body } => pad + "FuncDef: "@ + name + "\n"@ + pad
            + "  ReturnType: "@ + type_text(ret_type) + "\n"@ + pad + "  Parameters:\n"@
            + decl_lines(params, pad + "  "@, "\n"@) + "\n"@ + pad + "  Body:\n"@ + tree_text(
            *body,
            depth + 1,
        ),
        Tree::VarDecl(vars) => pad + "VarDecl:\n"@ + decl_lines(vars, pad + "  "@, "\n"@),
        Tree::Block { stmts } => pad + "Block:\n"@ + tree_lines(stmts, depth + 1),
        Tree::If { cond, then_br, else_br } => pad + "If:\n"@ + pad + "  Condition:\n"@
            + tree_text(*cond, depth + 2) + "\n"@ + pad + "  Then:\n"@ + tree_text(
            *then_br,
            depth + 2,
        ) + (match else_br {
            Some(e) => "\n"@ + pad + "  Else:\n"@ + tree_text(*e, depth + 2),
            None => Seq::empty(),
        }),
        Tree::While { cond, body } => pad + "While:\n"@ + pad + "  Condition:\n"@ + tree_text(
            *cond,
            depth + 2,
        ) + "\n"@ + pad + "  Body:\n"@ + tree_text(*body, depth + 2),
        Tree::Return { expr } => match expr {
            Some(e) => pad + "Return:\n"@ + tree_text(*e, depth + 1),
            None => pad + "Return: None"@,
        },
        Tree::ExprStmt { expr } => pad + "ExprStmt:\n"@ + tree_text(*expr, depth + 1),
        Tree::BinaryOp { op, lhs, rhs } => pad + "BinaryOp: "@ + (match op {
            Some(o) => o,
            None => "None"@,
        }) + "\n"@ + pad + "  Left:\n"@ + tree_text(*lhs, depth + 2) + "\n"@ + pad + "  Right:\n"@
            + (match rhs {
            Some(r) => tree_text(*r, depth + 2),
            None => pad + "  None"@,
        }),
        Tree::UnaryOp { op, expr } => pad + "UnaryOp: "@ + op + "\n"@ + tree_text(
            *expr,
            depth + 1,
        ),
        Tree::Call { func, args } => pad + "Call: "@ + func + "\n"@ + pad + "  Arguments:\n"@
            + tree_lines(args, depth + 2),
        Tree::Args { args } => pad + "Args:\n"@ + tree_lines(args, depth + 1),
        Tree::Literal(tok) => pad + "Literal: "@ + token_text(tok),
        Tree::Ident(tok) => pad + "Ident: "@ + token_text(tok),
    }
}

fn kind_str(kind: PhraseType) -> (r: &'static str)
    ensures
        r@ == kind_name(kind),
{
    match kind {
        PhraseType::Hex => "Hex",
        PhraseType::Dec => "Dec",
        PhraseType::Oct => "Oct",
        PhraseType::Keyword => "Keyword",
        PhraseType::Bool => "Bool",
        PhraseType::Identifier => "Identifier",
        PhraseType::Operator => "Operator",
        PhraseType::Separator => "Separator",
        PhraseType::Unknown => "Unknown",
        PhraseType::String => "String",
        PhraseType::Float => "Float",
        PhraseType::Char => "Char",
    }
}

fn started(first: &str) -> (r: String)
    ensures
        r@ == first@,
{
    let mut out = String::new();
    push_text(&mut out, first);
    assert(out@ =~= first@);
    out
}

fn token_string(tok: &Token) -> (r: String)
    ensures
        r@ == token_text(tok@),
{
    let mut out = started("Token { pos: ");
    push_nat(&mut out, tok.pos as u128);
    push_text(&mut out, ", types: ");
    push_text(&mut out, kind_str(tok.types));
    push_text(&mut out, ", value: ");
    let shown = debug_quoted(tok.value.as_str());
    push_text(&mut out, shown.as_str());
    push_text(&mut out, " }");
    out
}

fn type_string(ty: &Type) -> (r: String)
    ensures
        r@ == type_text(ty@),
    decreases ty, 1nat,
{
    match ty {
        Type::BaseType(name) => name.clone(),
        Type::CustomizedType(st) => {
            let mut out = started("struct ");
            push_text(&mut out, st.id.as_str());
            push_text(&mut out, " {\n  ");
            let empty = String::new();
            let fields = decl_lines_string(&st.field, empty.as_str(), "\n  ");
            push_text(&mut out, fields.as_str());
            push_text(&mut out, "\n}");
            out
        },
    }
}

fn decl_string(d: &VarDec) -> (r: String)
    ensures
        r@ == decl_text(d@),
    decreases d, 1nat,
{
    let mut out = started(d.var_name.as_str());
    push_text(&mut out, ": ");
    let ty = type_string(&d.var_type);
    push_text(&mut out, ty.as_str());
    let tail = match &d.init {
        Some(init) => {
            let mut t = started(" = ");
            let empty = String::new();
            let text = tree_string(init, empty.as_str(), Ghost(0));
            push_text(&mut t, text.as_str());
            t
        },
        None => String::new(),
    };
    push_text(&mut out, tail.as_str());
    out
}

fn decl_lines_string(ds: &Vec<VarDec>, lead: &str, sep: &str) -> (r: String)
    ensures
        r@ == decl_lines(decls_view(ds@), lead@, sep@),
    decreases ds, 0nat,
{
    let ghost all = decls_view(ds@);
    let mut out = String::new();
    let mut i: usize = 0;
    assert(all.take(0).len() == 0);
    while i < ds.len()
        invariant
            i <= ds.len(),
            all == decls_view(ds@),
            all.len() == ds.len(),
            out@ == decl_lines(all.take(i as int), lead@, sep@),
        decreases ds.len() - i,
    {
        proof {
            assert(all.take(i + 1).drop_last() == all.take(i as int));
            assert(all.take(i + 1).last() == ds[i as int]@);
            assert(all.take(i + 1)[0] == all[0]);
        }
        let text = decl_string(&ds[i]);
        if i > 0 {
            push_text(&mut out, sep);
            push_text(&mut out, lead);
        } else {
            out = started(lead);
        }
        push_text(&mut out, text.as_str());
        i += 1;
    }
    assert(all.take(ds.len() as int) == all);
    out
}

fn tree_lines_string(ts: &Vec<ASTNode>, indent: &str, Ghost(depth): Ghost<nat>) -> (r: String)
    requires
        indent@ == spaces(depth),
    ensures
        r@ == tree_lines(nodes_view(ts@), depth),
    decreases ts, 0nat,
{
    let ghost all = nodes_view(ts@);
    let mut out = String::new();
    let mut i: usize = 0;
    assert(all.take(0).len() == 0);
    while i < ts.len()
        invariant
            i <= ts.len(),
            all == nodes_view(ts@),
            all.len() == ts.len(),
            indent@ == spaces(depth),
            out@ == tree_lines(all.take(i as int), depth),
        decreases ts.len() - i,
    {
        proof {
            assert(all.take(i + 1).drop_last() == all.take(i as int));
            assert(all.take(i + 1).last() == ts[i as int]@);
            assert(all.take(i + 1)[0] == all[0]);
        }
        let text = tree_string(&ts[i], indent, Ghost(depth));
        if i > 0 {
            push_text(&mut out, "\n");
            push_text(&mut out, text.as_str());
        } else {
            out = text;
        }
        i += 1;
    }
    assert(all.take(ts.len() as int) == all);
    out
}

fn boxed_lines_string(ts: &Vec<Box<ASTNode>>, indent: &str, Ghost(depth): Ghost<nat>) -> (r: String)
    requires
        indent@ == spaces(depth),
    ensures
        r@ == tree_lines(crate::ast::types::boxed_view(ts@), depth),
    decreases ts, 0nat,
{
    let ghost all = crate::ast::types::boxed_view(ts@);
    let mut out = String::new();
    let mut i: usize = 0;
    assert(all.take(0).len() == 0);
    while i < ts.len()
        invariant
            i <= ts.len(),
            all == crate::ast::types::boxed_view(ts@),
            all.len() == ts.len(),
            indent@ == spaces(depth),
            out@ == tree_lines(all.take(i as int), depth),
        decreases ts.len() - i,
    {
        proof {
            assert(all.take(i + 1).drop_last() == all.take(i as int));
            assert(all.take(i + 1).last() == (*ts[i as int])@);
            assert(all.take(i + 1)[0] == all[0]);
        }
        let text = tree_string(&ts[i], indent, Ghost(depth));
        if i > 0 {
            push_text(&mut out, "\n");
            push_text(&mut out, text.as_str());
        } else {
            out = text;
        }
        i += 1;
    }
    assert(all.take(ts.len() as int) == all);
    out
}

fn deeper(indent: &str, Ghost(depth): Ghost<nat>) -> (r: String)
    requires
        indent@ == spaces(depth),
    ensures
        r@ == spaces(depth + 1),
        r@ == indent@ + "  "@,
{
    let mut out = started(indent);
    push_text(&mut out, "  ");
    out
}

fn funcdef_string(node: &ASTNode, indent: &str, Ghost(depth): Ghost<nat>) -> (r: String)
    requires
        indent@ == spaces(depth),
        node is FuncDef,
    ensures
        r@ == tree_text(node@, depth),
    decreases node, 0nat,
{
    let one = deeper(indent, Ghost(depth));
    match node {
        ASTNode::FuncDef { name, params, ret_type, body } => {
            let mut out = started(indent);
            push_text(&mut out, "FuncDef: ");
            push_text(&mut out, name.as_str());
            push_text(&mut out, "\n");
            push_text(&mut out, indent);
            push_text(&mut out, "  ReturnType: ");
            let ret = type_string(ret_type);
            push_text(&mut out, ret.as_str());
            push_text(&mut out, "\n");
            push_text(&mut out, indent);
            push_text(&mut out, "  Parameters:\n");
            let ps = decl_lines_string(params, one.as_str(), "\n");
            push_text(&mut out, ps.as_str());
            push_text(&mut out, "\n");
            push_text(&mut out, indent);
            push_text(&mut out, "  Body:\n");
            let b = tree_string(body, one.as_str(), Ghost(depth + 1));
            push_text(&mut out, b.as_str());
            out
        },
        _ => String::new(),
    }
}

fn if_string(node: &ASTNode, indent: &str, Ghost(depth): Ghost<nat>) -> (r: String)
    requires
        indent@ == spaces(depth),
        node is If,
    ensures
        r@ == tree_text(node@, depth),
    decreases node, 0nat,
{
    let one = deeper(indent, Ghost(depth));
    let two = deeper(one.as_str(), Ghost(depth + 1));
    match node {
        ASTNode::If { cond, then_br, else_br } => {
            let mut out = started(indent);
            push_text(&mut out, "If:\n");
            push_text(&mut out, indent);
            push_text(&mut out, "  Condition:\n");
            let c = tree_string(cond, two.as_str(), Ghost(depth + 2));
            push_text(&mut out, c.as_str());
            push_text(&mut out, "\n");
            push_text(&mut out, indent);
            push_text(&mut out, "  Then:\n");
            let t = tree_string(then_br, two.as_str(), Ghost(depth + 2));
            push_text(&mut out, t.as_str());
            let tail = match else_br {
                Some(e) => {
                    let mut x = started("\n");
                    push_text(&mut x, indent);
                    push_text(&mut x, "  Else:\n");
                    let et = tree_string(e, two.as_str(), Ghost(depth + 2));
                    push_text(&mut x, et.as_str());
                    x
                },
                None => String::new(),
            };
            push_text(&mut out, tail.as_str());
            out
        },
        _ => String::new(),
    }
}

fn while_string(node: &ASTNode, indent: &str, Ghost(depth): Ghost<nat>) -> (r: String)
    requires
        indent@ == spaces(depth),
        node is While,
    ensures
        r@ == tree_text(node@, depth),
    decreases node, 0nat,
{
    let one = deeper(indent, Ghost(depth));
    let two = deeper(one.as_str(), Ghost(depth + 1));
    match node {
        ASTNode::While { cond, body } => {
            let mut out = started(indent);
            push_text(&mut out, "While:\n");
            push_text(&mut out, indent);
            push_text(&mut out, "  Condition:\n");
            let c = tree_string(cond, two.as_str(), Ghost(depth + 2));
            push_text(&mut out, c.as_str());
            push_text(&mut out, "\n");
            push_text(&mut out, indent);
            push_text(&mut out, "  Body:\n");
            let b = tree_string(body, two.as_str(), Ghost(depth + 2));
            push_text(&mut out, b.as_str());
            out
        },
        _ => String::new(),
    }
}

fn binary_string(node: &ASTNode, indent: &str, Ghost(depth): Ghost<nat>) -> (r: String)
    requires
        indent@ == spaces(depth),
        node is BinaryOp,
    ensures
        r@ == tree_text(node@, depth),
    decreases node, 0nat,
{
    let one = deeper(indent, Ghost(depth));
    let two = deeper(one.as_str(), Ghost(depth + 1));
    match node {
        ASTNode::BinaryOp { op, lhs, rhs } => {
            let mut out = started(indent);
            push_text(&mut out, "BinaryOp: ");
            let op_text = match op {
                Some(o) => o.clone(),
                None => "None".to_owned(),
            };
            push_text(&mut out, op_text.as_str());
            push_text(&mut out, "\n");
            push_text(&mut out, indent);
            push_text(&mut out, "  Left:\n");
            let l = tree_string(lhs, two.as_str(), Ghost(depth + 2));
            push_text(&mut out, l.as_str());
            push_text(&mut out, "\n");
            push_text(&mut out, indent);
            push_text(&mut out, "  Right:\n");
            let right = match rhs {
                Some(r) => tree_string(r, two.as_str(), Ghost(depth + 2)),
                None => {
                    let mut x = started(indent);
                    push_text(&mut x, "  None");
                    x
                },
            };
            push_text(&mut out, right.as_str());
            out
        },
        _ => String::new(),
    }
}

fn tree_string(node: &ASTNode, indent: &str, Ghost(depth): Ghost<nat>) -> (r: String)
    requires
        indent@ == spaces(depth),
    ensures
        r@ == tree_text(node@, depth),
    decreases node, 1nat,
{
    match node {
        ASTNode::Specifier(ty) => {
            let mut out = started(indent);
            push_text(&mut out, "Specifier: ");
            let t = type_string(ty);
            push_text(&mut out, t.as_str());
            out
        },
        ASTNode::Program { items } => {
            let one = deeper(indent, Ghost(depth));
            let mut out = started(indent);
            push_text(&mut out, "Program:\n");
            let lines = tree_lines_string(items, one.as_str(), Ghost(depth + 1));
            push_text(&mut out, lines.as_str());
            out
        },
        ASTNode::VarDecl(vars) => {
            let one = deeper(indent, Ghost(depth));
            let mut out = started(indent);
            push_text(&mut out, "VarDecl:\n");
            let lines = decl_lines_string(vars, one.as_str(), "\n");
            push_text(&mut out, lines.as_str());
            out
        },
        ASTNode::Block { stmts } => {
            let one = deeper(indent, Ghost(depth));
            let mut out = started(indent);
            push_text(&mut out, "Block:\n");
            let lines = tree_lines_string(stmts, one.as_str(), Ghost(depth + 1));
            push_text(&mut out, lines.as_str());
            out
        },
        ASTNode::ExprStmt { expr } => {
            let one = deeper(indent, Ghost(depth));
            let mut out = started(indent);
            push_text(&mut out, "ExprStmt:\n");
            let e = tree_string(expr, one.as_str(), Ghost(depth + 1));
            push_text(&mut out, e.as_str());
            out
        },
        ASTNode::Args { args } => {
            let one = deeper(indent, Ghost(depth));
            let mut out = started(indent);
            push_text(&mut out, "Args:\n");
            let lines = boxed_lines_string(args, one.as_str(), Ghost(depth + 1));
            push_text(&mut out, lines.as_str());
            out
        },
        ASTNode::Return { expr } => {
            let one = deeper(indent, Ghost(depth));
            let mut out = started(indent);
            match expr {
                Some(e) => {
                    push_text(&mut out, "Return:\n");
                    let t = tree_string(e, one.as_str(), Ghost(depth + 1));
                    push_text(&mut out, t.as_str());
                },
                None => {
                    push_text(&mut out, "Return: None");
                },
            }
            out
        },
        ASTNode::UnaryOp { op, expr } => {
            let one = deeper(indent, Ghost(depth));
            let mut out = started(indent);
            push_text(&mut out, "UnaryOp: ");
            push_text(&mut out, op.as_str());
            push_text(&mut out, "\n");
            let e = tree_string(expr, one.as_str(), Ghost(depth + 1));
            push_text(&mut out, e.as_str());
            out
        },
        ASTNode::Call { func, args } => {
            let one = deeper(indent, Ghost(depth));
            let two = deeper(one.as_str(), Ghost(depth + 1));
            let mut out = started(indent);
            push_text(&mut out, "Call: ");
            push_text(&mut out, func.as_str());
            push_text(&mut out, "\n");
            push_text(&mut out, indent);
            push_text(&mut out, "  Arguments:\n");
            let lines = tree_lines_string(args, two.as_str(), Ghost(depth + 2));
            push_text(&mut out, lines.as_str());
            out
        },
        ASTNode::Literal(value) => {
            let mut out = started(indent);
            push_text(&mut out, "Literal: ");
            let t = token_string(value);
            push_text(&mut out, t.as_str());
            out
        },
        ASTNode::Ident(name) => {
            let mut out = started(indent);
            push_text(&mut out, "Ident: ");
            let t = token_string(name);
            push_text(&mut out, t.as_str());
            out
        },
        ASTNode::FuncDef { .. } => funcdef_string(node, indent, Ghost(depth)),
        ASTNode::If { .. } => if_string(node, indent, Ghost(depth)),
        ASTNode::While { .. } => while_string(node, indent, Ghost(depth)),
        ASTNode::BinaryOp { .. } => binary_string(node, indent, Ghost(depth)),
    }
}

impl ASTNode {
    /// The tree as text, indented by two spaces for each level of `indent`.
    pub fn print_tree(&self, indent: usize) -> (r: String)
        ensures
            r@ == tree_text(self@, indent as nat),
    {
        let mut pad = String::new();
        let mut k: usize = 0;
        while k < indent
            invariant
                k <= indent,
                pad@ == spaces(k as nat),
            decreases indent - k,
        {
            push_text(&mut pad, "  ");
            k += 1;
        }
        tree_string(self, pad.as_str(), Ghost(indent as nat))
    }

    /// A type as text.
    pub fn print_type(ty: &Type) -> (r: String)
        ensures
            r@ == type_text(ty@),
    {
        type_string(ty)
    }

    /// A declared variable as text.
    pub fn print_vardec(var: &VarDec) -> (r: String)
        ensures
            r@ == decl_text(var@),
    {
        decl_string(var)
    }
}

} // verus!
