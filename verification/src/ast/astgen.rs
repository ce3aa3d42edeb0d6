//! The builder of the abstract syntax tree: from the concrete tree that
//! the parser made to the tree that lowering reads.
//!
//! The builder walks the concrete tree once. On its way it enters each
//! function, parameter and local variable into the symbol tables, and it
//! checks at each binary operation that both sides have the same type.
//! It fails where the concrete tree is not of the shape that the grammar
//! gives it, where a symbol is declared twice, and where the types
//! disagree.

use crate::ast::helper::{
    build_symbol_table, can_type, check_entry_func, check_types, get_current_func,
    get_current_scope_num, set_current_func, type_of, typable, update_current_scope_num, Context,
    CtxV, InfoV,
};
use crate::ast::types::{
    copy_decls, decls_view, fold_decl, fold_tree, nodes_view, ASTNode, DeclV,
    StructType, StructV, Tree, Type, TypeV, VarDec,
};
use crate::parser::parse::{CSTNode, CstV};
use crate::text::{decimal_u32, nat_text, parse_u32, push_nat, push_text};
use crate::utils::helper::{literal_kind, symbol_is_literal};
use crate::utils::types::PhraseType;
use vstd::prelude::*;

verus! {

// ---------------------------------------------------------------------
// What the builder makes
// ---------------------------------------------------------------------

/// `c` with `scope` as the current scope.
pub open spec fn with_scope(c: CtxV, scope: nat) -> CtxV {
    CtxV { scope, ..c }
}

/// `c` with `func` as the current function.
pub open spec fn with_current(c: CtxV, func: Seq<char>) -> CtxV {
    CtxV { current: func, ..c }
}

/// `c` with `decl`, its initialiser folded, entered for `scope`: outside
/// every function where `func` is empty or `params` are given, else in
/// the table of `func`. `None` where the symbol is entered already.
pub open spec fn declare(
    c: CtxV,
    func: Seq<char>,
    decl: DeclV,
    scope: nat,
    params: Option<Seq<DeclV>>,
) -> Option<CtxV> {
    let info = InfoV { decl: fold_decl(decl), scope, params, offset: 0 };
    if func.len() == 0 || params is Some {
        if c.globals.contains_key((decl.var_name, scope)) {
            None
        } else {
            Some(CtxV { globals: c.globals.insert((decl.var_name, scope), info), ..c })
        }
    } else {
        if c.locals.contains_key((func, decl.var_name, scope)) {
            None
        } else {
            Some(CtxV { locals: c.locals.insert((func, decl.var_name, scope), info), ..c })
        }
    }
}

/// Both `l` and `r` can be typed in `c`, and their types are the same.
pub open spec fn agree(c: CtxV, l: Tree, r: Tree) -> bool {
    &&& typable(c.globals, c.locals, c.scope, c.current, l)
    &&& typable(c.globals, c.locals, c.scope, c.current, r)
    &&& type_of(c.globals, c.locals, c.scope, c.current, l) == type_of(
        c.globals,
        c.locals,
        c.scope,
        c.current,
        r,
    )
}

/// What a successful step of the builder made.
pub open spec fn value_of<T>(built: Option<(T, CtxV)>) -> T {
    (built->0).0
}

/// The context after a successful step of the builder.
pub open spec fn ctx_of<T>(built: Option<(T, CtxV)>) -> CtxV {
    (built->0).1
}

/// An executable step that gave `value` and left the context `ctx`
/// where it succeeded (`ok`) did what `spec` says.
pub open spec fn built_as<T>(spec: Option<(T, CtxV)>, ok: bool, value: T, ctx: CtxV) -> bool {
    match spec {
        Some((v, c)) => ok && value == v && ctx == c,
        None => !ok,
    }
}

/// An executable step that made the list `after` of the list `before`
/// and left the context `ctx` where it succeeded (`ok`) appended what
/// `spec` says.
pub open spec fn appended_as<T>(
    spec: Option<(Seq<T>, CtxV)>,
    ok: bool,
    before: Seq<T>,
    after: Seq<T>,
    ctx: CtxV,
) -> bool {
    match spec {
        Some((v, c)) => ok && after == before + v && ctx == c,
        None => !ok,
    }
}

/// The text, or the empty text where there is none.
pub open spec fn text_or_empty(t: Option<Seq<char>>) -> Seq<char> {
    match t {
        Some(s) => s,
        None => Seq::empty(),
    }
}

/// The levels of binary operators that associate to the left, from the
/// loosest to the tightest.
#[derive(Debug, Clone, Copy, PartialEq, Eq, Structural)]
pub enum Level {
    LogicalOr,
    LogicalAnd,
    Equality,
    Comparison,
    Term,
    Factor,
}

/// The tail of a chain of operators: the operator, its right operand,
/// and the rest of the chain.
pub ghost struct Tail {
    pub op: Seq<char>,
    pub operand: CstV,
    pub next: Option<Box<CstV>>,
}

/// The parts of `node` as the tail of a chain of level `level`; `None`
/// where `node` is no such tail.
pub open spec fn tail_of(level: Level, node: CstV) -> Option<Tail> {
    match (level, node) {
        (Level::LogicalOr, CstV::LogicalOrPrime { op, logical_and, logical_or_prime }) => Some(
            Tail { op, operand: *logical_and, next: logical_or_prime },
        ),
        (Level::LogicalAnd, CstV::LogicalAndPrime { op, equality, logical_and_prime }) => Some(
            Tail { op, operand: *equality, next: logical_and_prime },
        ),
        (Level::Equality, CstV::EqualityPrime { op, comparison, equality_prime }) => Some(
            Tail { op, operand: *comparison, next: equality_prime },
        ),
        (Level::Comparison, CstV::ComparisonPrime { op, term, comparison_prime }) => Some(
            Tail { op, operand: *term, next: comparison_prime },
        ),
        (Level::Term, CstV::TermPrime { op, factor, term_prime }) => Some(
            Tail { op, operand: *factor, next: term_prime },
        ),
        (Level::Factor, CstV::FactorPrime { op, unary, factor_prime }) => Some(
            Tail { op, operand: *unary, next: factor_prime },
        ),
        _ => None,
    }
}

/// The head of a chain of operators: its first operand, the tail if
/// there is one, and the level.
pub ghost struct Head {
    pub first: CstV,
    pub tail: Option<Box<CstV>>,
    pub level: Level,
}

/// The parts of `node` as the head of a chain; `None` where it is none.
pub open spec fn head_of(node: CstV) -> Option<Head> {
    match node {
        CstV::LogicalOr { logical_and, logical_or_prime } => Some(
            Head { first: *logical_and, tail: logical_or_prime, level: Level::LogicalOr },
        ),
        CstV::LogicalAnd { equality, logical_and_prime } => Some(
            Head { first: *equality, tail: logical_and_prime, level: Level::LogicalAnd },
        ),
        CstV::Equality { comparison, equality_prime } => Some(
            Head { first: *comparison, tail: equality_prime, level: Level::Equality },
        ),
        CstV::Comparison { term, comparison_prime } => Some(
            Head { first: *term, tail: comparison_prime, level: Level::Comparison },
        ),
        CstV::Term { factor, term_prime } => Some(
            Head { first: *factor, tail: term_prime, level: Level::Term },
        ),
        CstV::Factor { unary, factor_prime } => Some(
            Head { first: *unary, tail: factor_prime, level: Level::Factor },
        ),
        _ => None,
    }
}

/// A binary node without operator and right side, around `lhs`.
pub open spec fn wrapped(lhs: Tree) -> Tree {
    Tree::BinaryOp { op: None, lhs: Box::new(lhs), rhs: None }
}

/// The binary operation `op` on `lhs` and `rhs`.
pub open spec fn binary(op: Seq<char>, lhs: Tree, rhs: Tree) -> Tree {
    Tree::BinaryOp { op: Some(op), lhs: Box::new(lhs), rhs: Some(Box::new(rhs)) }
}

/// The name that a declarator declares: the identifier, and behind it
/// the bracketed length of each array dimension, which must read as an
/// unsigned 32-bit number.
pub open spec fn vardec_name(node: CstV) -> Option<Seq<char>>
    decreases node,
{
    match node {
        CstV::VarDec { id, var_dec, lt, rt, literal } => match id {
            Some(name) => Some(name),
            None => match var_dec {
                Some(inner) => match vardec_name(*inner) {
                    Some(name) => match decimal_u32(text_or_empty(literal)) {
                        Some(n) => Some(
                            name + text_or_empty(lt) + nat_text(n as nat) + text_or_empty(rt),
                        ),
                        None => None,
                    },
                    None => None,
                },
                None => None,
            },
        },
        _ => None,
    }
}

/// The tree of an optional node, with the context afterwards. The outer
/// `None` is a failure.
pub open spec fn convert_opt(node: Option<Box<CstV>>, c: CtxV) -> Option<(Option<Tree>, CtxV)>
    decreases node, 0nat,
{
    match node {
        Some(n) => match convert(*n, c) {
            Some((t, c1)) => Some((Some(t), c1)),
            None => None,
        },
        None => Some((None, c)),
    }
}

/// The tree of a chain of left-associative operators, continued from
/// `lhs` with the tail `node`: each operator is applied to what stands
/// left of it, after its two sides were found to agree in type.
pub open spec fn convert_tail(level: Level, lhs: Tree, node: CstV, c: CtxV) -> Option<(Tree, CtxV)>
    decreases node, 1nat,
{
    match tail_of(level, node) {
        Some(tail) => match convert(tail.operand, c) {
            Some((rhs, c1)) => if agree(c1, lhs, rhs) {
                match tail.next {
                    Some(next) => convert_tail(level, binary(tail.op, lhs, rhs), *next, c1),
                    None => Some((binary(tail.op, lhs, rhs), c1)),
                }
            } else {
                None
            },
            None => None,
        },
        None => None,
    }
}

/// The tree of an assignment of `lhs`, continued with the tail `node`.
/// Assignment associates to the right: what stands right of the operator
/// is built first, then checked against `lhs`.
pub open spec fn convert_assign(lhs: Tree, node: CstV, c: CtxV) -> Option<(Tree, CtxV)>
    decreases node, 1nat,
{
    match node {
        CstV::AssignPrime { op, logical_or, assign_prime } => match convert(*logical_or, c) {
            Some((first, c1)) => {
                let whole = match assign_prime {
                    Some(next) => convert_assign(first, *next, c1),
                    None => Some((first, c1)),
                };
                match whole {
                    Some((rhs, c2)) => if agree(c2, lhs, rhs) {
                        Some((binary(op, lhs, rhs), c2))
                    } else {
                        None
                    },
                    None => None,
                }
            },
            None => None,
        },
        _ => None,
    }
}

/// The type that a specifier names. The fields of a structure are
/// entered into the symbol tables as they are read.
pub open spec fn spec_type(node: CstV, c: CtxV) -> Option<(TypeV, CtxV)>
    decreases node, 1nat,
{
    match node {
        CstV::Specifier { specifier_type, struct_specifier } => match specifier_type {
            Some(name) => Some((TypeV::BaseType(name), c)),
            None => match struct_specifier {
                Some(st) => match struct_type(*st, c) {
                    Some((s, c1)) => Some((TypeV::CustomizedType(s), c1)),
                    None => None,
                },
                None => None,
            },
        },
        _ => None,
    }
}

/// The structure type that a structure specifier names.
pub open spec fn struct_type(node: CstV, c: CtxV) -> Option<(StructV, CtxV)>
    decreases node, 1nat,
{
    match node {
        CstV::StructSpecifier { struct_type, id, lc, rc, def_list } => match def_list {
            Some(list) => match defs(*list, c) {
                Some((field, c1)) => Some((StructV { id: text_or_empty(id), field }, c1)),
                None => None,
            },
            None => Some((StructV { id: text_or_empty(id), field: Seq::empty() }, c)),
        },
        _ => None,
    }
}

/// The declarations of a list of definitions, in order.
pub open spec fn defs(node: CstV, c: CtxV) -> Option<(Seq<DeclV>, CtxV)>
    decreases node, 1nat,
{
    match node {
        CstV::DefList { def, def_list } => match def_decls(*def, c) {
            Some((head, c1)) => match def_list {
                Some(list) => match defs(*list, c1) {
                    Some((rest, c2)) => Some((head + rest, c2)),
                    None => None,
                },
                None => Some((head, c1)),
            },
            None => None,
        },
        _ => None,
    }
}

/// The declarations of one definition: a type and its declarators.
pub open spec fn def_decls(node: CstV, c: CtxV) -> Option<(Seq<DeclV>, CtxV)>
    decreases node, 1nat,
{
    match node {
        CstV::Def { spec, dec_list, sepa } => match spec_type(*spec, c) {
            Some((ty, c1)) => decs(ty, *dec_list, c1),
            None => None,
        },
        _ => None,
    }
}

/// The declarations of a list of declarators of type `ty`. Each one is
/// entered for the current scope, in the table of the current function.
pub open spec fn decs(ty: TypeV, node: CstV, c: CtxV) -> Option<(Seq<DeclV>, CtxV)>
    decreases node, 1nat,
{
    match node {
        CstV::DecList { dec, sepa, dec_list } => match dec_decl(ty, *dec, c) {
            Some((d, c1)) => match declare(c1, c1.current, d, c1.scope, None) {
                Some(c2) => match dec_list {
                    Some(list) => match decs(ty, *list, c2) {
                        Some((rest, c3)) => Some((seq![d] + rest, c3)),
                        None => None,
                    },
                    None => Some((seq![d], c2)),
                },
                None => None,
            },
            None => None,
        },
        _ => None,
    }
}

/// The declaration of one declarator of type `ty`. A declarator with an
/// operator other than `=` declares nothing: an empty name of an empty
/// type.
pub open spec fn dec_decl(ty: TypeV, node: CstV, c: CtxV) -> Option<(DeclV, CtxV)>
    decreases node, 1nat,
{
    match node {
        CstV::Dec { var_dec, op, expression } => match vardec_name(*var_dec) {
            Some(name) => match op {
                Some(o) => if o == "="@ {
                    match expression {
                        Some(e) => match convert(*e, c) {
                            Some((init, c1)) => Some(
                                (DeclV { var_type: ty, var_name: name, init: Some(init) }, c1),
                            ),
                            None => None,
                        },
                        None => None,
                    }
                } else {
                    Some(
                        (
                            DeclV {
                                var_type: TypeV::BaseType(Seq::empty()),
                                var_name: Seq::empty(),
                                init: None,
                            },
                            c,
                        ),
                    )
                },
                None => Some((DeclV { var_type: ty, var_name: name, init: None }, c)),
            },
            None => None,
        },
        _ => None,
    }
}

/// The declarations of a list of external declarators. Its entries must
/// be of the shape of the declarators of a definition.
pub open spec fn extdecs(ty: TypeV, node: CstV, c: CtxV) -> Option<(Seq<DeclV>, CtxV)>
    decreases node, 1nat,
{
    match node {
        CstV::ExtDecList { var_dec, sepa, ext_dec_list } => match dec_decl(ty, *var_dec, c) {
            Some((d, c1)) => match ext_dec_list {
                Some(list) => match extdecs(ty, *list, c1) {
                    Some((rest, c2)) => Some((seq![d] + rest, c2)),
                    None => None,
                },
                None => Some((seq![d], c1)),
            },
            None => None,
        },
        _ => None,
    }
}

/// The formal parameters of a list. Each one is entered for the scope
/// inside the current one, in the table of the current function.
pub open spec fn params(node: CstV, c: CtxV) -> Option<(Seq<DeclV>, CtxV)>
    decreases node, 1nat,
{
    match node {
        CstV::VarList { para_dec, sepa, var_list } => match param(*para_dec, c) {
            Some((p, c1)) => if c1.scope + 1 > usize::MAX {
                None
            } else {
                match declare(c1, c1.current, p, c1.scope + 1, None) {
                    Some(c2) => match var_list {
                        Some(list) => match params(*list, c2) {
                            Some((rest, c3)) => Some((seq![p] + rest, c3)),
                            None => None,
                        },
                        None => Some((seq![p], c2)),
                    },
                    None => None,
                }
            },
            None => None,
        },
        _ => None,
    }
}

/// One formal parameter.
pub open spec fn param(node: CstV, c: CtxV) -> Option<(DeclV, CtxV)>
    decreases node, 1nat,
{
    match node {
        CstV::ParaDec { spec, var_dec } => match spec_type(*spec, c) {
            Some((ty, c1)) => match vardec_name(*var_dec) {
                Some(name) => Some((DeclV { var_type: ty, var_name: name, init: None }, c1)),
                None => None,
            },
            None => None,
        },
        _ => None,
    }
}

/// The name and the formal parameters of a function.
pub ghost struct Signature {
    pub name: Seq<char>,
    pub params: Seq<DeclV>,
}

/// The name and the formal parameters of a function declarator. The
/// function becomes the current function before its parameters are read.
pub open spec fn fundec(node: CstV, c: CtxV) -> Option<(Signature, CtxV)>
    decreases node, 1nat,
{
    match node {
        CstV::FunDec { id, lp, var_list, rp } => match var_list {
            Some(list) => match params(*list, with_current(c, id)) {
                Some((ps, c1)) => Some((Signature { name: id, params: ps }, c1)),
                None => None,
            },
            None => Some((Signature { name: id, params: Seq::empty() }, with_current(c, id))),
        },
        _ => None,
    }
}

/// The trees of a list of external definitions, in order.
pub open spec fn extdefs(node: CstV, c: CtxV) -> Option<(Seq<Tree>, CtxV)>
    decreases node, 1nat,
{
    match node {
        CstV::ExtDefList { ext_def, ext_def_list } => match convert(*ext_def, c) {
            Some((head, c1)) => match ext_def_list {
                Some(list) => match extdefs(*list, c1) {
                    Some((rest, c2)) => Some((seq![head] + rest, c2)),
                    None => None,
                },
                None => Some((seq![head], c1)),
            },
            None => None,
        },
        _ => None,
    }
}

/// The trees of a list of statements, in order.
pub open spec fn stmts(node: CstV, c: CtxV) -> Option<(Seq<Tree>, CtxV)>
    decreases node, 1nat,
{
    match node {
        CstV::StmtList { stmt, stmt_list } => match stmt_tree(*stmt, c) {
            Some((head, c1)) => match stmt_list {
                Some(list) => match stmts(*list, c1) {
                    Some((rest, c2)) => Some((seq![head] + rest, c2)),
                    None => None,
                },
                None => Some((seq![head], c1)),
            },
            None => None,
        },
        _ => None,
    }
}

/// The tree of a statement: that of its one alternative.
pub open spec fn stmt_tree(node: CstV, c: CtxV) -> Option<(Tree, CtxV)>
    decreases node, 1nat,
{
    match node {
        CstV::Stmt { unmatched_stmt, matched_stmt } => match (unmatched_stmt, matched_stmt) {
            (Some(s), None) => convert(*s, c),
            (None, Some(s)) => convert(*s, c),
            _ => None,
        },
        _ => None,
    }
}

/// The trees of the arguments of a call, in order.
pub open spec fn arguments(node: CstV, c: CtxV) -> Option<(Seq<Tree>, CtxV)>
    decreases node, 1nat,
{
    match node {
        CstV::Arguments { arguments_tail, expression } => match convert(*expression, c) {
            Some((head, c1)) => match arguments_tail {
                Some(tail) => match arguments(*tail, c1) {
                    Some((rest, c2)) => Some((seq![head] + rest, c2)),
                    None => None,
                },
                None => Some((seq![head], c1)),
            },
            None => None,
        },
        CstV::ArgumentsTail { separator, expression } => match convert(*expression, c) {
            Some((head, c1)) => Some((seq![head], c1)),
            None => None,
        },
        _ => None,
    }
}

/// The tree of a call.
pub open spec fn fcall(node: CstV, c: CtxV) -> Option<(Tree, CtxV)>
    decreases node, 1nat,
{
    match node {
        CstV::FunCall { id, lp, arguments: args, rp } => match args {
            Some(list) => match arguments(*list, c) {
                Some((trees, c1)) => Some((Tree::Call { func: id, args: trees }, c1)),
                None => None,
            },
            None => Some((Tree::Call { func: id, args: Seq::empty() }, c)),
        },
        _ => None,
    }
}

/// The tree of an external definition whose specifier gave `ret_type`: a
/// function with its body, a list of variables, or the bare type.
pub open spec fn extdef_tree(ret_type: TypeV, node: CstV, c: CtxV) -> Option<(Tree, CtxV)>
    decreases node, 1nat,
{
    match node {
        CstV::ExtDef { spec, ext_dec_list, fun_dec, compst, sepa } => match (
            fun_dec,
            compst,
            ext_dec_list,
        ) {
            (Some(func), Some(body), None) => match fundec(*func, c) {
                Some((sig, c1)) => match declare(
                    c1,
                    c1.current,
                    DeclV { var_type: ret_type, var_name: sig.name, init: None },
                    c1.scope,
                    Some(sig.params),
                ) {
                    Some(c2) => match convert(*body, c2) {
                        Some((b, c3)) => Some(
                            (
                                Tree::FuncDef {
                                    name: sig.name,
                                    params: sig.params,
                                    ret_type,
                                    body: Box::new(b),
                                },
                                c3,
                            ),
                        ),
                        None => None,
                    },
                    None => None,
                },
                None => None,
            },
            (None, None, Some(list)) => match extdecs(ret_type, *list, c) {
                Some((items, c1)) => Some((Tree::VarDecl(items), c1)),
                None => None,
            },
            (None, None, None) => Some((Tree::Specifier(ret_type), c)),
            _ => None,
        },
        _ => None,
    }
}

/// The tree of a compound statement: a block, read one scope further in;
/// its definitions, if any, become one declaration at its head.
pub open spec fn convert_compst(node: CstV, c: CtxV) -> Option<(Tree, CtxV)>
    decreases node, 1nat,
{
    match node {
        CstV::CompSt { lc, def_list, stmt_list, rc } => if c.scope + 1 > usize::MAX {
            None
        } else {
            let inner = with_scope(c, c.scope + 1);
            let head = match def_list {
                Some(list) => match defs(*list, inner) {
                    Some((ds, c1)) => Some((seq![Tree::VarDecl(ds)], c1)),
                    None => None,
                },
                None => Some((Seq::<Tree>::empty(), inner)),
            };
            match head {
                Some((first, c1)) => match stmts(*stmt_list, c1) {
                    Some((rest, c2)) => if c2.scope == 0 {
                        None
                    } else {
                        Some(
                            (
                                Tree::Block { stmts: first + rest },
                                with_scope(c2, (c2.scope - 1) as nat),
                            ),
                        )
                    },
                    None => None,
                },
                None => None,
            }
        },
        _ => None,
    }
}

/// The tree of a statement in which every `if` has its `else`.
pub open spec fn convert_matched(node: CstV, c: CtxV) -> Option<(Tree, CtxV)>
    decreases node, 1nat,
{
    match node {
        CstV::MatchedStmt {
            normal_stmt,
            while_stmt,
            if_stmt,
            else_stmt,
            lp,
            rp,
            expression,
            matched_stmt_fore,
            matched_stmt_back,
        } => match convert_opt(expression, c) {
            Some((cond, c1)) => match convert_opt(matched_stmt_fore, c1) {
                Some((then_br, c2)) => match convert_opt(matched_stmt_back, c2) {
                    Some((else_br, c3)) => match (if_stmt, while_stmt, normal_stmt) {
                        (Some(_), None, None) => match (cond, then_br) {
                            (Some(co), Some(th)) => Some(
                                (
                                    Tree::If {
                                        cond: Box::new(co),
                                        then_br: Box::new(th),
                                        else_br: match else_br {
                                            Some(e) => Some(Box::new(e)),
                                            None => None,
                                        },
                                    },
                                    c3,
                                ),
                            ),
                            _ => None,
                        },
                        (None, Some(_), None) => match (cond, then_br) {
                            (Some(co), Some(th)) => Some(
                                (Tree::While { cond: Box::new(co), body: Box::new(th) }, c3),
                            ),
                            _ => None,
                        },
                        (None, None, Some(stmt)) => convert(*stmt, c3),
                        _ => None,
                    },
                    None => None,
                },
                None => None,
            },
            None => None,
        },
        _ => None,
    }
}

/// The tree of a statement that ends in an `if` without `else`.
pub open spec fn convert_unmatched(node: CstV, c: CtxV) -> Option<(Tree, CtxV)>
    decreases node, 1nat,
{
    match node {
        CstV::UnMatchedStmt {
            while_stmt,
            if_stmt,
            else_stmt,
            lp,
            rp,
            expression,
            matched_stmt,
            unmatched_stmt,
            stmt,
        } => match convert_opt(expression, c) {
            Some((cond, c1)) => if while_stmt is Some {
                match convert_opt(unmatched_stmt, c1) {
                    Some((body, c2)) => match (cond, body) {
                        (Some(co), Some(b)) => Some(
                            (Tree::While { cond: Box::new(co), body: Box::new(b) }, c2),
                        ),
                        _ => None,
                    },
                    None => None,
                }
            } else if if_stmt is Some && else_stmt is Some {
                match convert_opt(matched_stmt, c1) {
                    Some((then_br, c2)) => match convert_opt(unmatched_stmt, c2) {
                        Some((else_br, c3)) => match (cond, then_br) {
                            (Some(co), Some(th)) => Some(
                                (
                                    Tree::If {
                                        cond: Box::new(co),
                                        then_br: Box::new(th),
                                        else_br: match else_br {
                                            Some(e) => Some(Box::new(e)),
                                            None => None,
                                        },
                                    },
                                    c3,
                                ),
                            ),
                            _ => None,
                        },
                        None => None,
                    },
                    None => None,
                }
            } else if if_stmt is Some {
                match convert_opt(stmt, c1) {
                    Some((then_br, c2)) => match (cond, then_br) {
                        (Some(co), Some(th)) => Some(
                            (
                                Tree::If { cond: Box::new(co), then_br: Box::new(th), else_br: None },
                                c2,
                            ),
                        ),
                        _ => None,
                    },
                    None => None,
                }
            } else {
                None
            },
            None => None,
        },
        _ => None,
    }
}

/// The tree of a simple statement: a `return`, an expression, or a block.
pub open spec fn convert_normal(node: CstV, c: CtxV) -> Option<(Tree, CtxV)>
    decreases node, 1nat,
{
    match node {
        CstV::NormalStmt { sepa, expression, compst, return_stmt } => if return_stmt is Some {
            match convert_opt(expression, c) {
                Some((expr, c1)) => Some(
                    (
                        Tree::Return {
                            expr: match expr {
                                Some(e) => Some(Box::new(e)),
                                None => None,
                            },
                        },
                        c1,
                    ),
                ),
                None => None,
            }
        } else {
            match expression {
                Some(e) => convert(*e, c),
                None => match compst {
                    Some(b) => convert(*b, c),
                    None => None,
                },
            }
        },
        _ => None,
    }
}

/// The tree of a primary expression: an identifier, a literal, or a call.
pub open spec fn convert_primary(node: CstV, c: CtxV) -> Option<(Tree, CtxV)>
    decreases node, 1nat,
{
    match node {
        CstV::Primary { symbol, lp, rp, expression, fun_call } => match symbol {
            Some(tok) => if tok.types == PhraseType::Identifier {
                Some((Tree::Ident(tok), c))
            } else if literal_kind(tok.types) {
                Some((Tree::Literal(tok), c))
            } else {
                None
            },
            None => match fun_call {
                Some(f) => fcall(*f, c),
                None => None,
            },
        },
        _ => None,
    }
}

/// The tree of an expression of one of the left-associative levels: a
/// binary node without operator around its one operand, or the chain of
/// its operators.
pub open spec fn convert_chain(node: CstV, c: CtxV) -> Option<(Tree, CtxV)>
    decreases node, 1nat,
{
    match head_of(node) {
        Some(head) => match convert(head.first, c) {
            Some((lhs, c1)) => match head.tail {
                Some(tail) => convert_tail(head.level, lhs, *tail, c1),
                None => Some((wrapped(lhs), c1)),
            },
            None => None,
        },
        None => None,
    }
}

/// The tree of the concrete node `node`, built in the context `c`, with
/// the context afterwards; `None` where the builder fails.
///
/// - A program: its external definitions.
/// - An external definition: see `extdef_tree`.
/// - A compound statement: a block, read one scope further in; its
///   definitions, if any, become one declaration at its head.
/// - `if` and `while` statements: condition and branches.
/// - A simple statement: a `return`, an expression, or a block.
/// - A definition: a declaration of its declarators.
/// - An expression of a level without a tail: a binary node without
///   operator around its one operand; with a tail: see `convert_tail`
///   and `convert_assign`.
/// - A unary expression: the operation on its operand, or the operand
///   where there is no operator.
/// - A primary expression: an identifier, a literal, or a call.
pub open spec fn convert(node: CstV, c: CtxV) -> Option<(Tree, CtxV)>
    decreases node, 2nat,
{
    match node {
        CstV::Program(inner) => match extdefs(*inner, c) {
            Some((items, c1)) => Some((Tree::Program { items }, c1)),
            None => None,
        },
        CstV::ExtDef { spec, ext_dec_list, fun_dec, compst, sepa } => match spec_type(*spec, c) {
            Some((ret_type, c1)) => extdef_tree(ret_type, node, c1),
            None => None,
        },
        CstV::CompSt { .. } => convert_compst(node, c),
        CstV::MatchedStmt { .. } => convert_matched(node, c),
        CstV::UnMatchedStmt { .. } => convert_unmatched(node, c),
        CstV::NormalStmt { .. } => convert_normal(node, c),
        CstV::Def { spec, dec_list, sepa } => match def_decls(node, c) {
            Some((ds, c1)) => Some((Tree::VarDecl(ds), c1)),
            None => None,
        },
        CstV::Assign { logical_or, assign_prime } => match convert(*logical_or, c) {
            Some((lhs, c1)) => match assign_prime {
                Some(tail) => convert_assign(lhs, *tail, c1),
                None => Some((wrapped(lhs), c1)),
            },
            None => None,
        },
        CstV::Unary { op, unary } => match convert(*unary, c) {
            Some((e, c1)) => match op {
                Some(o) => Some((Tree::UnaryOp { op: o, expr: Box::new(e) }, c1)),
                None => Some((e, c1)),
            },
            None => None,
        },
        CstV::Primary { .. } => convert_primary(node, c),
        CstV::Expression(inner) => convert(*inner, c),
        _ => convert_chain(node, c),
    }
}

/// The trees of a whole program: each concrete node built in turn and
/// folded. A program without a function `main` fails.
pub open spec fn program(cst: Seq<CstV>, c: CtxV) -> Option<(Seq<Tree>, CtxV)>
    decreases cst.len(),
{
    if cst.len() == 0 {
        Some((Seq::empty(), c))
    } else {
        match program(cst.drop_last(), c) {
            Some((trees, c1)) => match convert(cst.last(), c1) {
                Some((t, c2)) => Some((trees.push(fold_tree(t)), c2)),
                None => None,
            },
            None => None,
        }
    }
}

/// As `program`, with the check for the entry function.
pub open spec fn checked_program(cst: Seq<CstV>, c: CtxV) -> Option<(Seq<Tree>, CtxV)> {
    match program(cst, c) {
        Some((trees, c1)) => if c1.globals.contains_key(("main"@, 0nat)) {
            Some((trees, c1))
        } else {
            None
        },
        None => None,
    }
}

// ---------------------------------------------------------------------
// The builder
// ---------------------------------------------------------------------

fn enter(
    ctx: &mut Context,
    func: String,
    decl: &VarDec,
    scope: usize,
    params: Option<Vec<VarDec>>,
) -> (ok: bool)
    ensures
        ({
            let ps = match params {
                Some(p) => Some(decls_view(p@)),
                None => None,
            };
            let spec = declare(old(ctx)@, func@, decl@, scope as nat, ps);
            &&& ok == spec is Some
            &&& ok ==> final(ctx)@ == spec->0
        }),
{
    build_symbol_table(ctx, func, decl, scope, params)
}

fn agrees(ctx: &Context, lhs: &ASTNode, rhs: &ASTNode) -> (r: bool)
    ensures
        r == agree(ctx@, lhs@, rhs@),
{
    can_type(ctx, lhs) && can_type(ctx, rhs) && check_types(ctx, lhs, rhs)
}

fn binary_node(op: &String, lhs: &ASTNode, rhs: ASTNode) -> (r: ASTNode)
    ensures
        r@ == binary(op@, lhs@, rhs@),
{
    ASTNode::BinaryOp { op: Some(op.clone()), lhs: Box::new(lhs.clone()), rhs: Some(Box::new(rhs)) }
}

fn wrapped_node(lhs: ASTNode) -> (r: ASTNode)
    ensures
        r@ == wrapped(lhs@),
{
    ASTNode::BinaryOp { op: None, lhs: Box::new(lhs), rhs: None }
}

fn boxed(node: Option<ASTNode>) -> (r: Option<Box<ASTNode>>)
    ensures
        crate::ast::types::option_view(r) == (match node {
            Some(n) => Some(Box::new(n@)),
            None => None,
        }),
{
    match node {
        Some(n) => Some(Box::new(n)),
        None => None,
    }
}

fn push_decl(items: &mut Vec<VarDec>, decl: VarDec)
    ensures
        decls_view(final(items)@) == decls_view(old(items)@) + seq![decl@],
{
    items.push(decl);
    assert(decls_view(items@) =~= decls_view(old(items)@) + seq![decl@]);
}

fn push_tree(items: &mut Vec<ASTNode>, node: ASTNode)
    ensures
        nodes_view(final(items)@) == nodes_view(old(items)@) + seq![node@],
{
    items.push(node);
    assert(nodes_view(items@) =~= nodes_view(old(items)@) + seq![node@]);
}

fn extract_vardec(node: &CSTNode) -> (r: Option<String>)
    ensures
        r is Some <==> vardec_name(node@) is Some,
        r is Some ==> r->0@ == vardec_name(node@)->0,
    decreases node,
{
    match node {
        CSTNode::VarDec { id, var_dec, lt, rt, literal } => match id {
            Some(name) => Some(name.clone()),
            None => match var_dec {
                Some(inner) => match extract_vardec(inner) {
                    Some(name) => {
                        let empty = String::new();
                        let length = match literal {
                            Some(l) => l.as_str(),
                            None => empty.as_str(),
                        };
                        match parse_u32(length) {
                            Some(n) => {
                                let mut out = name;
                                push_text(
                                    &mut out,
                                    match lt {
                                        Some(t) => t.as_str(),
                                        None => empty.as_str(),
                                    },
                                );
                                push_nat(&mut out, n as u128);
                                push_text(
                                    &mut out,
                                    match rt {
                                        Some(t) => t.as_str(),
                                        None => empty.as_str(),
                                    },
                                );
                                Some(out)
                            },
                            None => None,
                        }
                    },
                    None => None,
                },
                None => None,
            },
        },
        _ => None,
    }
}

fn extract_spec(ctx: &mut Context, node: &CSTNode) -> (r: Option<Type>)
    ensures
        built_as(spec_type(node@, old(ctx)@), r is Some, r->0@, final(ctx)@),
    decreases node, 1nat,
{
    match node {
        CSTNode::Specifier { specifier_type, struct_specifier } => match specifier_type {
            Some(name) => Some(Type::BaseType(name.clone())),
            None => match struct_specifier {
                Some(st) => match extract_struct_sepc(ctx, st) {
                    Some(s) => Some(Type::CustomizedType(s)),
                    None => None,
                },
                None => None,
            },
        },
        _ => None,
    }
}

fn extract_struct_sepc(ctx: &mut Context, node: &CSTNode) -> (r: Option<StructType>)
    ensures
        built_as(struct_type(node@, old(ctx)@), r is Some, r->0@, final(ctx)@),
    decreases node, 1nat,
{
    match node {
        CSTNode::StructSpecifier { struct_type: _, id, lc: _, rc: _, def_list } => {
            let name = match id {
                Some(i) => i.clone(),
                None => String::new(),
            };
            let mut items: Vec<VarDec> = Vec::new();
            assert(decls_view(items@) =~= Seq::<DeclV>::empty());
            match def_list {
                Some(list) => {
                    if !collect_defs(ctx, list, &mut items) {
                        return None;
                    }
                    assert(Seq::<DeclV>::empty() + value_of(defs(list@, old(ctx)@)) =~= value_of(defs(
                        list@,
                        old(ctx)@,
                    )));
                },
                None => {},
            }
            Some(StructType { id: name, field: items })
        },
        _ => None,
    }
}

fn collect_defs(ctx: &mut Context, node: &CSTNode, items: &mut Vec<VarDec>) -> (ok: bool)
    ensures
        appended_as(
            defs(node@, old(ctx)@),
            ok,
            decls_view(old(items)@),
            decls_view(final(items)@),
            final(ctx)@,
        ),
    decreases node, 1nat,
{
    match node {
        CSTNode::DefList { def, def_list } => {
            if !extract_def(ctx, def, items) {
                return false;
            }
            let ghost head = value_of(def_decls(def@, old(ctx)@));
            match def_list {
                Some(list) => {
                    let ghost c1 = ctx@;
                    if !collect_defs(ctx, list, items) {
                        return false;
                    }
                    assert(decls_view(old(items)@) + (head + value_of(defs(list@, c1))) =~= decls_view(
                        old(items)@,
                    ) + head + value_of(defs(list@, c1)));
                    true
                },
                None => true,
            }
        },
        _ => false,
    }
}

fn extract_def(ctx: &mut Context, node: &CSTNode, items: &mut Vec<VarDec>) -> (ok: bool)
    ensures
        appended_as(
            def_decls(node@, old(ctx)@),
            ok,
            decls_view(old(items)@),
            decls_view(final(items)@),
            final(ctx)@,
        ),
    decreases node, 1nat,
{
    match node {
        CSTNode::Def { spec, dec_list, sepa: _ } => match extract_spec(ctx, spec) {
            Some(ty) => collect_decs(ctx, &ty, dec_list, items),
            None => false,
        },
        _ => false,
    }
}

fn collect_decs(ctx: &mut Context, var_type: &Type, node: &CSTNode, items: &mut Vec<VarDec>) -> (ok:
    bool)
    ensures
        appended_as(
            decs(var_type@, node@, old(ctx)@),
            ok,
            decls_view(old(items)@),
            decls_view(final(items)@),
            final(ctx)@,
        ),
    decreases node, 1nat,
{
    match node {
        CSTNode::DecList { dec, sepa: _, dec_list } => {
            let var_dec = match extract_dec(ctx, var_type, dec) {
                Some(d) => d,
                None => {
                    return false;
                },
            };
            let func = get_current_func(ctx);
            let scope = get_current_scope_num(ctx);
            if !enter(ctx, func, &var_dec, scope, None) {
                return false;
            }
            let ghost d = var_dec@;
            push_decl(items, var_dec);
            match dec_list {
                Some(list) => {
                    let ghost c2 = ctx@;
                    if !collect_decs(ctx, var_type, list, items) {
                        return false;
                    }
                    assert(decls_view(old(items)@) + (seq![d] + value_of(decs(var_type@, list@, c2)))
                        =~= decls_view(old(items)@) + seq![d] + value_of(decs(var_type@, list@, c2)));
                    true
                },
                None => true,
            }
        },
        _ => false,
    }
}

fn extract_dec(ctx: &mut Context, var_type: &Type, node: &CSTNode) -> (r: Option<VarDec>)
    ensures
        built_as(dec_decl(var_type@, node@, old(ctx)@), r is Some, r->0@, final(ctx)@),
    decreases node, 1nat,
{
    match node {
        CSTNode::Dec { var_dec, op, expression } => {
            let var_name = match extract_vardec(var_dec) {
                Some(n) => n,
                None => {
                    return None;
                },
            };
            match op {
                Some(value) => {
                    if *value.as_str() == *"=" {
                        match expression {
                            Some(e) => match ASTNode::try_from_cst(ctx, e) {
                                Some(init) => Some(
                                    VarDec { var_type: var_type.clone(), var_name, init: Some(init) },
                                ),
                                None => None,
                            },
                            None => None,
                        }
                    } else {
                        Some(
                            VarDec {
                                var_type: Type::BaseType(String::new()),
                                var_name: String::new(),
                                init: None,
                            },
                        )
                    }
                },
                None => Some(VarDec { var_type: var_type.clone(), var_name, init: None }),
            }
        },
        _ => None,
    }
}

fn collect_extdecs(ctx: &mut Context, var_type: &Type, node: &CSTNode, items: &mut Vec<VarDec>) -> (ok:
    bool)
    ensures
        appended_as(
            extdecs(var_type@, node@, old(ctx)@),
            ok,
            decls_view(old(items)@),
            decls_view(final(items)@),
            final(ctx)@,
        ),
    decreases node, 1nat,
{
    match node {
        CSTNode::ExtDecList { var_dec, sepa: _, ext_dec_list } => {
            let decl = match extract_dec(ctx, var_type, var_dec) {
                Some(d) => d,
                None => {
                    return false;
                },
            };
            let ghost d = decl@;
            push_decl(items, decl);
            match ext_dec_list {
                Some(list) => {
                    let ghost c1 = ctx@;
                    if !collect_extdecs(ctx, var_type, list, items) {
                        return false;
                    }
                    assert(decls_view(old(items)@) + (seq![d] + value_of(extdecs(var_type@, list@, c1)))
                        =~= decls_view(old(items)@) + seq![d] + value_of(extdecs(
                        var_type@,
                        list@,
                        c1,
                    )));
                    true
                },
                None => true,
            }
        },
        _ => false,
    }
}

fn collect_paradec(ctx: &mut Context, node: &CSTNode, items: &mut Vec<VarDec>) -> (ok: bool)
    ensures
        appended_as(
            params(node@, old(ctx)@),
            ok,
            decls_view(old(items)@),
            decls_view(final(items)@),
            final(ctx)@,
        ),
    decreases node, 1nat,
{
    match node {
        CSTNode::VarList { para_dec, sepa: _, var_list } => {
            let p = match extract_param(ctx, para_dec) {
                Some(p) => p,
                None => {
                    return false;
                },
            };
            let func = get_current_func(ctx);
            let scope = get_current_scope_num(ctx);
            if scope == usize::MAX {
                return false;
            }
            if !enter(ctx, func, &p, scope + 1, None) {
                return false;
            }
            let ghost d = p@;
            push_decl(items, p);
            match var_list {
                Some(list) => {
                    let ghost c2 = ctx@;
                    if !collect_paradec(ctx, list, items) {
                        return false;
                    }
                    assert(decls_view(old(items)@) + (seq![d] + value_of(params(list@, c2)))
                        =~= decls_view(old(items)@) + seq![d] + value_of(params(list@, c2)));
                    true
                },
                None => true,
            }
        },
        _ => false,
    }
}

fn extract_param(ctx: &mut Context, node: &CSTNode) -> (r: Option<VarDec>)
    ensures
        built_as(param(node@, old(ctx)@), r is Some, r->0@, final(ctx)@),
    decreases node, 1nat,
{
    match node {
        CSTNode::ParaDec { spec, var_dec } => match extract_spec(ctx, spec) {
            Some(var_type) => match extract_vardec(var_dec) {
                Some(var_name) => Some(VarDec { var_type, var_name, init: None }),
                None => None,
            },
            None => None,
        },
        _ => None,
    }
}

fn extract_fundec(ctx: &mut Context, node: &CSTNode) -> (r: Option<(String, Vec<VarDec>)>)
    ensures
        built_as(
            fundec(node@, old(ctx)@),
            r is Some,
            (Signature { name: (r->0).0@, params: decls_view((r->0).1@) }),
            final(ctx)@,
        ),
    decreases node, 1nat,
{
    match node {
        CSTNode::FunDec { id, lp: _, var_list, rp: _ } => {
            set_current_func(ctx, id.clone());
            let mut ps: Vec<VarDec> = Vec::new();
            assert(decls_view(ps@) =~= Seq::<DeclV>::empty());
            match var_list {
                Some(list) => {
                    let ghost c1 = ctx@;
                    if !collect_paradec(ctx, list, &mut ps) {
                        return None;
                    }
                    assert(Seq::<DeclV>::empty() + value_of(params(list@, c1)) =~= value_of(params(
                        list@,
                        c1,
                    )));
                },
                None => {},
            }
            Some((id.clone(), ps))
        },
        _ => None,
    }
}

fn collect_extdefs(ctx: &mut Context, node: &CSTNode, items: &mut Vec<ASTNode>) -> (ok: bool)
    ensures
        appended_as(
            extdefs(node@, old(ctx)@),
            ok,
            nodes_view(old(items)@),
            nodes_view(final(items)@),
            final(ctx)@,
        ),
    decreases node, 1nat,
{
    match node {
        CSTNode::ExtDefList { ext_def, ext_def_list } => {
            let head = match ASTNode::try_from_cst(ctx, ext_def) {
                Some(h) => h,
                None => {
                    return false;
                },
            };
            let ghost h = head@;
            push_tree(items, head);
            match ext_def_list {
                Some(list) => {
                    let ghost c1 = ctx@;
                    if !collect_extdefs(ctx, list, items) {
                        return false;
                    }
                    assert(nodes_view(old(items)@) + (seq![h] + value_of(extdefs(list@, c1)))
                        =~= nodes_view(old(items)@) + seq![h] + value_of(extdefs(list@, c1)));
                    true
                },
                None => true,
            }
        },
        _ => false,
    }
}

fn collect_stmts(ctx: &mut Context, node: &CSTNode, items: &mut Vec<ASTNode>) -> (ok: bool)
    ensures
        appended_as(
            stmts(node@, old(ctx)@),
            ok,
            nodes_view(old(items)@),
            nodes_view(final(items)@),
            final(ctx)@,
        ),
    decreases node, 1nat,
{
    match node {
        CSTNode::StmtList { stmt, stmt_list } => {
            let head = match extract_stmt(ctx, stmt) {
                Some(h) => h,
                None => {
                    return false;
                },
            };
            let ghost h = head@;
            push_tree(items, head);
            match stmt_list {
                Some(list) => {
                    let ghost c1 = ctx@;
                    if !collect_stmts(ctx, list, items) {
                        return false;
                    }
                    assert(nodes_view(old(items)@) + (seq![h] + value_of(stmts(list@, c1)))
                        =~= nodes_view(old(items)@) + seq![h] + value_of(stmts(list@, c1)));
                    true
                },
                None => true,
            }
        },
        _ => false,
    }
}

fn extract_stmt(ctx: &mut Context, node: &CSTNode) -> (r: Option<ASTNode>)
    ensures
        built_as(stmt_tree(node@, old(ctx)@), r is Some, r->0@, final(ctx)@),
    decreases node, 1nat,
{
    match node {
        CSTNode::Stmt { unmatched_stmt, matched_stmt } => match unmatched_stmt {
            Some(s) => match matched_stmt {
                None => ASTNode::try_from_cst(ctx, s),
                Some(_) => None,
            },
            None => match matched_stmt {
                Some(s) => ASTNode::try_from_cst(ctx, s),
                None => None,
            },
        },
        _ => None,
    }
}

fn colloct_arguments(ctx: &mut Context, node: &CSTNode, items: &mut Vec<ASTNode>) -> (ok: bool)
    ensures
        appended_as(
            arguments(node@, old(ctx)@),
            ok,
            nodes_view(old(items)@),
            nodes_view(final(items)@),
            final(ctx)@,
        ),
    decreases node, 1nat,
{
    match node {
        CSTNode::Arguments { arguments_tail, expression } => {
            let head = match ASTNode::try_from_cst(ctx, expression) {
                Some(h) => h,
                None => {
                    return false;
                },
            };
            let ghost h = head@;
            push_tree(items, head);
            match arguments_tail {
                Some(tail) => {
                    let ghost c1 = ctx@;
                    if !colloct_arguments(ctx, tail, items) {
                        return false;
                    }
                    assert(nodes_view(old(items)@) + (seq![h] + value_of(arguments(tail@, c1)))
                        =~= nodes_view(old(items)@) + seq![h] + value_of(arguments(tail@, c1)));
                    true
                },
                None => true,
            }
        },
        CSTNode::ArgumentsTail { separator: _, expression } => {
            match ASTNode::try_from_cst(ctx, expression) {
                Some(h) => {
                    push_tree(items, h);
                    true
                },
                None => false,
            }
        },
        _ => false,
    }
}

fn extract_fcall(ctx: &mut Context, node: &CSTNode) -> (r: Option<ASTNode>)
    ensures
        built_as(fcall(node@, old(ctx)@), r is Some, r->0@, final(ctx)@),
    decreases node, 1nat,
{
    match node {
        CSTNode::FunCall { id, lp: _, arguments: list, rp: _ } => {
            let mut args: Vec<ASTNode> = Vec::new();
            assert(nodes_view(args@) =~= Seq::<Tree>::empty());
            match list {
                Some(l) => {
                    if !colloct_arguments(ctx, l, &mut args) {
                        return None;
                    }
                    assert(Seq::<Tree>::empty() + value_of(arguments(l@, old(ctx)@)) =~= value_of(arguments(
                        l@,
                        old(ctx)@,
                    )));
                },
                None => {},
            }
            Some(ASTNode::Call { func: id.clone(), args })
        },
        _ => None,
    }
}

fn extract_assign(ctx: &mut Context, lhs: &ASTNode, node: &CSTNode) -> (r: Option<ASTNode>)
    ensures
        built_as(convert_assign(lhs@, node@, old(ctx)@), r is Some, r->0@, final(ctx)@),
    decreases node, 1nat,
{
    match node {
        CSTNode::AssignPrime { op, logical_or, assign_prime } => {
            let first = match ASTNode::try_from_cst(ctx, logical_or) {
                Some(f) => f,
                None => {
                    return None;
                },
            };
            let rhs = match assign_prime {
                Some(next) => match extract_assign(ctx, &first, next) {
                    Some(r) => r,
                    None => {
                        return None;
                    },
                },
                None => first,
            };
            if !agrees(ctx, lhs, &rhs) {
                return None;
            }
            Some(binary_node(op, lhs, rhs))
        },
        _ => None,
    }
}

fn tail_parts(level: Level, node: &CSTNode) -> (r: Option<
    (&String, &CSTNode, &Option<Box<CSTNode>>),
>)
    ensures
        r is Some <==> tail_of(level, node@) is Some,
        r is Some ==> (r->0).0@ == tail_of(level, node@)->0.op && (r->0).1@ == tail_of(
            level,
            node@,
        )->0.operand && (match *(r->0).2 {
            Some(n) => Some(Box::new(n@)),
            None => None,
        }) == tail_of(level, node@)->0.next,
        r is Some ==> decreases_to!(node => (r->0).1) && ((r->0).2 is Some ==> decreases_to!(node => (r->0).2->0)),
{
    match level {
        Level::LogicalOr => match node {
            CSTNode::LogicalOrPrime { op, logical_and, logical_or_prime } => Some(
                (op, logical_and, logical_or_prime),
            ),
            _ => None,
        },
        Level::LogicalAnd => match node {
            CSTNode::LogicalAndPrime { op, equality, logical_and_prime } => Some(
                (op, equality, logical_and_prime),
            ),
            _ => None,
        },
        Level::Equality => match node {
            CSTNode::EqualityPrime { op, comparison, equality_prime } => Some(
                (op, comparison, equality_prime),
            ),
            _ => None,
        },
        Level::Comparison => match node {
            CSTNode::ComparisonPrime { op, term, comparison_prime } => Some(
                (op, term, comparison_prime),
            ),
            _ => None,
        },
        Level::Term => match node {
            CSTNode::TermPrime { op, factor, term_prime } => Some((op, factor, term_prime)),
            _ => None,
        },
        Level::Factor => match node {
            CSTNode::FactorPrime { op, unary, factor_prime } => Some((op, unary, factor_prime)),
            _ => None,
        },
    }
}

fn extract_chain(ctx: &mut Context, level: Level, lhs: &ASTNode, node: &CSTNode) -> (r: Option<
    ASTNode,
>)
    ensures
        built_as(convert_tail(level, lhs@, node@, old(ctx)@), r is Some, r->0@, final(ctx)@),
    decreases node, 1nat,
{
    match tail_parts(level, node) {
        Some((op, operand, next)) => {
            let rhs = match ASTNode::try_from_cst(ctx, operand) {
                Some(r) => r,
                None => {
                    return None;
                },
            };
            if !agrees(ctx, lhs, &rhs) {
                return None;
            }
            let joined = binary_node(op, lhs, rhs);
            match next {
                Some(n) => extract_chain(ctx, level, &joined, n),
                None => Some(joined),
            }
        },
        None => None,
    }
}

/// The value of an optional boxed concrete node.
pub open spec fn opt_cst(node: Option<Box<CSTNode>>) -> Option<Box<CstV>> {
    match node {
        Some(n) => Some(Box::new(n@)),
        None => None,
    }
}

/// The value of an optional tree.
pub open spec fn opt_tree(node: Option<ASTNode>) -> Option<Tree> {
    match node {
        Some(n) => Some(n@),
        None => None,
    }
}

fn from_opt(ctx: &mut Context, node: &Option<Box<CSTNode>>) -> (r: Option<Option<ASTNode>>)
    ensures
        built_as(convert_opt(opt_cst(*node), old(ctx)@), r is Some, opt_tree(r->0), final(ctx)@),
    decreases node, 0nat,
{
    match node {
        Some(n) => match ASTNode::try_from_cst(ctx, n) {
            Some(t) => Some(Some(t)),
            None => None,
        },
        None => Some(None),
    }
}

fn head_parts(node: &CSTNode) -> (r: Option<(&CSTNode, &Option<Box<CSTNode>>, Level)>)
    ensures
        r is Some <==> head_of(node@) is Some,
        r is Some ==> (r->0).0@ == head_of(node@)->0.first && opt_cst(*(r->0).1) == head_of(
            node@,
        )->0.tail && (r->0).2 == head_of(node@)->0.level,
        r is Some ==> decreases_to!(node => (r->0).0) && ((r->0).1 is Some ==> decreases_to!(node => (r->0).1->0)),
{
    match node {
        CSTNode::LogicalOr { logical_and, logical_or_prime } => Some(
            (logical_and, logical_or_prime, Level::LogicalOr),
        ),
        CSTNode::LogicalAnd { equality, logical_and_prime } => Some(
            (equality, logical_and_prime, Level::LogicalAnd),
        ),
        CSTNode::Equality { comparison, equality_prime } => Some(
            (comparison, equality_prime, Level::Equality),
        ),
        CSTNode::Comparison { term, comparison_prime } => Some(
            (term, comparison_prime, Level::Comparison),
        ),
        CSTNode::Term { factor, term_prime } => Some((factor, term_prime, Level::Term)),
        CSTNode::Factor { unary, factor_prime } => Some((unary, factor_prime, Level::Factor)),
        _ => None,
    }
}

fn build_chain(ctx: &mut Context, node: &CSTNode) -> (r: Option<ASTNode>)
    requires
        head_of(node@) is Some,
    ensures
        built_as(convert_chain(node@, old(ctx)@), r is Some, r->0@, final(ctx)@),
    decreases node, 1nat,
{
    match head_parts(node) {
        Some((first, tail, level)) => {
            let lhs = match ASTNode::try_from_cst(ctx, first) {
                Some(l) => l,
                None => {
                    return None;
                },
            };
            match tail {
                Some(t) => extract_chain(ctx, level, &lhs, t),
                None => Some(wrapped_node(lhs)),
            }
        },
        None => None,
    }
}

fn build_extdef(ctx: &mut Context, node: &CSTNode) -> (r: Option<ASTNode>)
    requires
        node is ExtDef,
    ensures
        built_as(convert(node@, old(ctx)@), r is Some, r->0@, final(ctx)@),
    decreases node, 1nat,
{
    match node {
        CSTNode::ExtDef { spec, ext_dec_list, fun_dec, compst, sepa: _ } => {
            let ret_type = match extract_spec(ctx, spec) {
                Some(t) => t,
                None => {
                    return None;
                },
            };
            let ghost c1 = ctx@;
            match fun_dec {
                Some(func) => match compst {
                    Some(body) => {
                        if ext_dec_list.is_some() {
                            return None;
                        }
                        let (name, ps) = match extract_fundec(ctx, func) {
                            Some(sig) => sig,
                            None => {
                                return None;
                            },
                        };
                        let var_info = VarDec {
                            var_type: ret_type.clone(),
                            var_name: name.clone(),
                            init: None,
                        };
                        let current = get_current_func(ctx);
                        let scope = get_current_scope_num(ctx);
                        if !enter(ctx, current, &var_info, scope, Some(copy_decls(&ps))) {
                            return None;
                        }
                        let b = match ASTNode::try_from_cst(ctx, body) {
                            Some(b) => b,
                            None => {
                                return None;
                            },
                        };
                        let r = ASTNode::FuncDef { name, params: ps, ret_type, body: Box::new(b) };
                        assert(r@ == value_of(extdef_tree(ret_type@, node@, c1)));
                        Some(r)
                    },
                    None => None,
                },
                None => {
                    if compst.is_some() {
                        return None;
                    }
                    match ext_dec_list {
                        Some(list) => {
                            let mut items: Vec<VarDec> = Vec::new();
                            assert(decls_view(items@) =~= Seq::<DeclV>::empty());
                            if !collect_extdecs(ctx, &ret_type, list, &mut items) {
                                return None;
                            }
                            assert(Seq::<DeclV>::empty() + value_of(
                                extdecs(ret_type@, list@, c1),
                            ) =~= value_of(extdecs(ret_type@, list@, c1)));
                            Some(ASTNode::VarDecl(items))
                        },
                        None => Some(ASTNode::Specifier(Box::new(ret_type))),
                    }
                },
            }
        },
        _ => None,
    }
}

fn build_compst(ctx: &mut Context, node: &CSTNode) -> (r: Option<ASTNode>)
    requires
        node is CompSt,
    ensures
        built_as(convert_compst(node@, old(ctx)@), r is Some, r->0@, final(ctx)@),
    decreases node, 1nat,
{
    match node {
        CSTNode::CompSt { lc: _, def_list, stmt_list, rc: _ } => {
            let scope = get_current_scope_num(ctx);
            if scope == usize::MAX {
                return None;
            }
            update_current_scope_num(ctx, scope + 1);
            let ghost inner = ctx@;
            let mut items: Vec<ASTNode> = Vec::new();
            assert(nodes_view(items@) =~= Seq::<Tree>::empty());
            match def_list {
                Some(defs_node) => {
                    let mut list: Vec<VarDec> = Vec::new();
                    assert(decls_view(list@) =~= Seq::<DeclV>::empty());
                    if !collect_defs(ctx, defs_node, &mut list) {
                        return None;
                    }
                    assert(Seq::<DeclV>::empty() + value_of(defs(defs_node@, inner)) =~= value_of(
                        defs(defs_node@, inner),
                    ));
                    push_tree(&mut items, ASTNode::VarDecl(list));
                    assert(nodes_view(items@) =~= seq![
                        Tree::VarDecl(value_of(defs(defs_node@, inner))),
                    ]);
                },
                None => {},
            }
            let ghost first = nodes_view(items@);
            if !collect_stmts(ctx, stmt_list, &mut items) {
                return None;
            }
            let after = get_current_scope_num(ctx);
            if after == 0 {
                return None;
            }
            update_current_scope_num(ctx, after - 1);
            Some(ASTNode::Block { stmts: items })
        },
        _ => None,
    }
}

fn build_matched(ctx: &mut Context, node: &CSTNode) -> (r: Option<ASTNode>)
    requires
        node is MatchedStmt,
    ensures
        built_as(convert_matched(node@, old(ctx)@), r is Some, r->0@, final(ctx)@),
    decreases node, 1nat,
{
    match node {
        CSTNode::MatchedStmt {
            normal_stmt,
            while_stmt,
            if_stmt,
            else_stmt: _,
            lp: _,
            rp: _,
            expression,
            matched_stmt_fore,
            matched_stmt_back,
        } => {
            let cond = match from_opt(ctx, expression) {
                Some(c) => c,
                None => {
                    return None;
                },
            };
            let then_br = match from_opt(ctx, matched_stmt_fore) {
                Some(t) => t,
                None => {
                    return None;
                },
            };
            let else_br = match from_opt(ctx, matched_stmt_back) {
                Some(e) => e,
                None => {
                    return None;
                },
            };
            if if_stmt.is_some() && while_stmt.is_none() && normal_stmt.is_none() {
                match cond {
                    Some(co) => match then_br {
                        Some(th) => Some(
                            ASTNode::If {
                                cond: Box::new(co),
                                then_br: Box::new(th),
                                else_br: boxed(else_br),
                            },
                        ),
                        None => None,
                    },
                    None => None,
                }
            } else if if_stmt.is_none() && while_stmt.is_some() && normal_stmt.is_none() {
                match cond {
                    Some(co) => match then_br {
                        Some(th) => Some(ASTNode::While { cond: Box::new(co), body: Box::new(th) }),
                        None => None,
                    },
                    None => None,
                }
            } else if if_stmt.is_none() && while_stmt.is_none() {
                match normal_stmt {
                    Some(stmt) => ASTNode::try_from_cst(ctx, stmt),
                    None => None,
                }
            } else {
                None
            }
        },
        _ => None,
    }
}

fn build_unmatched(ctx: &mut Context, node: &CSTNode) -> (r: Option<ASTNode>)
    requires
        node is UnMatchedStmt,
    ensures
        built_as(convert_unmatched(node@, old(ctx)@), r is Some, r->0@, final(ctx)@),
    decreases node, 1nat,
{
    match node {
        CSTNode::UnMatchedStmt {
            while_stmt,
            if_stmt,
            else_stmt,
            lp: _,
            rp: _,
            expression,
            matched_stmt,
            unmatched_stmt,
            stmt,
        } => {
            let cond = match from_opt(ctx, expression) {
                Some(c) => c,
                None => {
                    return None;
                },
            };
            if while_stmt.is_some() {
                let body = match from_opt(ctx, unmatched_stmt) {
                    Some(b) => b,
                    None => {
                        return None;
                    },
                };
                match cond {
                    Some(co) => match body {
                        Some(b) => Some(ASTNode::While { cond: Box::new(co), body: Box::new(b) }),
                        None => None,
                    },
                    None => None,
                }
            } else if if_stmt.is_some() && else_stmt.is_some() {
                let then_br = match from_opt(ctx, matched_stmt) {
                    Some(t) => t,
                    None => {
                        return None;
                    },
                };
                let else_br = match from_opt(ctx, unmatched_stmt) {
                    Some(e) => e,
                    None => {
                        return None;
                    },
                };
                match cond {
                    Some(co) => match then_br {
                        Some(th) => Some(
                            ASTNode::If {
                                cond: Box::new(co),
                                then_br: Box::new(th),
                                else_br: boxed(else_br),
                            },
                        ),
                        None => None,
                    },
                    None => None,
                }
            } else if if_stmt.is_some() {
                let then_br = match from_opt(ctx, stmt) {
                    Some(t) => t,
                    None => {
                        return None;
                    },
                };
                match cond {
                    Some(co) => match then_br {
                        Some(th) => Some(
                            ASTNode::If { cond: Box::new(co), then_br: Box::new(th), else_br: None },
                        ),
                        None => None,
                    },
                    None => None,
                }
            } else {
                None
            }
        },
        _ => None,
    }
}

fn build_normal(ctx: &mut Context, node: &CSTNode) -> (r: Option<ASTNode>)
    requires
        node is NormalStmt,
    ensures
        built_as(convert_normal(node@, old(ctx)@), r is Some, r->0@, final(ctx)@),
    decreases node, 1nat,
{
    match node {
        CSTNode::NormalStmt { sepa: _, expression, compst, return_stmt } => {
            if return_stmt.is_some() {
                match from_opt(ctx, expression) {
                    Some(expr) => Some(ASTNode::Return { expr: boxed(expr) }),
                    None => None,
                }
            } else {
                match expression {
                    Some(e) => ASTNode::try_from_cst(ctx, e),
                    None => match compst {
                        Some(b) => ASTNode::try_from_cst(ctx, b),
                        None => None,
                    },
                }
            }
        },
        _ => None,
    }
}

fn build_primary(ctx: &mut Context, node: &CSTNode) -> (r: Option<ASTNode>)
    requires
        node is Primary,
    ensures
        built_as(convert_primary(node@, old(ctx)@), r is Some, r->0@, final(ctx)@),
    decreases node, 1nat,
{
    match node {
        CSTNode::Primary { symbol, lp: _, rp: _, expression: _, fun_call } => match symbol {
            Some(tok) => {
                if tok.types == PhraseType::Identifier {
                    Some(ASTNode::Ident(tok.clone()))
                } else {
                    match tok.types {
                        PhraseType::Bool | PhraseType::String | PhraseType::Hex | PhraseType::Oct
                        | PhraseType::Dec | PhraseType::Float | PhraseType::Char => {
                            if symbol_is_literal(&tok.types) {
                                Some(ASTNode::Literal(tok.clone()))
                            } else {
                                None
                            }
                        },
                        _ => None,
                    }
                }
            },
            None => match fun_call {
                Some(f) => extract_fcall(ctx, f),
                None => None,
            },
        },
        _ => None,
    }
}

impl ASTNode {
    /// Builds the tree of the concrete node `node` in the context `ctx`.
    /// `None` exactly where `convert` has no result; the context is then
    /// left as far as the builder came.
    pub fn try_from_cst(ctx: &mut Context, node: &CSTNode) -> (r: Option<ASTNode>)
        ensures
            built_as(convert(node@, old(ctx)@), r is Some, r->0@, final(ctx)@),
        decreases node, 2nat,
    {
        match node {
            CSTNode::Program(inner) => {
                let mut items: Vec<ASTNode> = Vec::new();
                assert(nodes_view(items@) =~= Seq::<Tree>::empty());
                if !collect_extdefs(ctx, inner, &mut items) {
                    return None;
                }
                assert(Seq::<Tree>::empty() + value_of(extdefs(inner@, old(ctx)@)) =~= value_of(
                    extdefs(inner@, old(ctx)@),
                ));
                Some(ASTNode::Program { items })
            },
            CSTNode::ExtDef { .. } => build_extdef(ctx, node),
            CSTNode::CompSt { .. } => build_compst(ctx, node),
            CSTNode::MatchedStmt { .. } => build_matched(ctx, node),
            CSTNode::UnMatchedStmt { .. } => build_unmatched(ctx, node),
            CSTNode::NormalStmt { .. } => build_normal(ctx, node),
            CSTNode::Def { .. } => {
                let mut items: Vec<VarDec> = Vec::new();
                assert(decls_view(items@) =~= Seq::<DeclV>::empty());
                if !extract_def(ctx, node, &mut items) {
                    return None;
                }
                assert(Seq::<DeclV>::empty() + value_of(def_decls(node@, old(ctx)@)) =~= value_of(
                    def_decls(node@, old(ctx)@),
                ));
                Some(ASTNode::VarDecl(items))
            },
            CSTNode::Assign { logical_or, assign_prime } => {
                let lhs = match ASTNode::try_from_cst(ctx, logical_or) {
                    Some(l) => l,
                    None => {
                        return None;
                    },
                };
                match assign_prime {
                    Some(tail) => extract_assign(ctx, &lhs, tail),
                    None => Some(wrapped_node(lhs)),
                }
            },
            CSTNode::Unary { op, unary } => {
                let e = match ASTNode::try_from_cst(ctx, unary) {
                    Some(e) => e,
                    None => {
                        return None;
                    },
                };
                match op {
                    Some(o) => Some(ASTNode::UnaryOp { op: o.clone(), expr: Box::new(e) }),
                    None => Some(e),
                }
            },
            CSTNode::Primary { .. } => build_primary(ctx, node),
            CSTNode::Expression(inner) => ASTNode::try_from_cst(ctx, inner),
            CSTNode::LogicalOr { .. } | CSTNode::LogicalAnd { .. } | CSTNode::Equality { .. }
            | CSTNode::Comparison { .. } | CSTNode::Term { .. } | CSTNode::Factor { .. } => {
                build_chain(ctx, node)
            },
            _ => None,
        }
    }

    /// Builds the tree of the concrete node `node` in the context `ctx`,
    /// for a node and a context on which the builder does not fail.
    pub fn from_cst(ctx: &mut Context, node: &CSTNode) -> (r: ASTNode)
        requires
            convert(node@, old(ctx)@) is Some,
        ensures
            r@ == value_of(convert(node@, old(ctx)@)),
            final(ctx)@ == ctx_of(convert(node@, old(ctx)@)),
    {
        match ASTNode::try_from_cst(ctx, node) {
            Some(r) => r,
            None => vstd::pervasive::unreached(),
        }
    }
}

/// The values of a list of concrete nodes.
pub open spec fn cst_views(cst: Seq<CSTNode>) -> Seq<CstV> {
    cst.map_values(|n: CSTNode| n@)
}

/// Builds the trees of a whole program in the context `ctx`, each one
/// folded. `None` exactly where `checked_program` has no result: where
/// the builder fails on a node, or no function `main` was declared.
pub fn try_ast_gen(ctx: &mut Context, cst: &Vec<CSTNode>) -> (r: Option<Vec<ASTNode>>)
    ensures
        built_as(
            checked_program(cst_views(cst@), old(ctx)@),
            r is Some,
            nodes_view(r->0@),
            final(ctx)@,
        ),
{
    let ghost all = cst_views(cst@);
    let ghost c0 = ctx@;
    let mut ast: Vec<ASTNode> = Vec::new();
    let mut i: usize = 0;
    assert(all.take(0).len() == 0);
    assert(nodes_view(ast@) =~= Seq::<Tree>::empty());
    while i < cst.len()
        invariant
            i <= cst.len(),
            all == cst_views(cst@),
            c0 == old(ctx)@,
            program(all.take(i as int), c0) is Some,
            nodes_view(ast@) == value_of(program(all.take(i as int), c0)),
            ctx@ == ctx_of(program(all.take(i as int), c0)),
        decreases cst.len() - i,
    {
        proof {
            assert(all.take(i + 1).drop_last() == all.take(i as int));
            assert(all.take(i + 1).last() == cst[i as int]@);
        }
        let ghost before_ctx = ctx@;
        let node = match ASTNode::try_from_cst(ctx, &cst[i]) {
            Some(n) => n,
            None => {
                proof {
                    assert(convert(all.take(i + 1).last(), before_ctx) is None);
                    assert(program(all.take(i + 1), c0) is None);
                    lemma_program_fails(all, c0, i + 1);
                    assert(all.take(cst.len() as int) == all);
                }
                return None;
            },
        };
        let folded = node.optimal();
        let ghost before = nodes_view(ast@);
        ast.push(folded);
        assert(nodes_view(ast@) =~= before.push(folded@));
        i += 1;
    }
    assert(all.take(cst.len() as int) == all);
    if !check_entry_func(ctx) {
        return None;
    }
    Some(ast)
}

/// Where the builder fails on the first `k` nodes, it fails on all.
pub proof fn lemma_program_fails(cst: Seq<CstV>, c: CtxV, k: int)
    requires
        0 <= k <= cst.len(),
        program(cst.take(k), c) is None,
    ensures
        program(cst, c) is None,
    decreases cst.len() - k,
{
    if k < cst.len() {
        assert(cst.take(k + 1).drop_last() == cst.take(k));
        lemma_program_fails(cst, c, k + 1);
    } else {
        assert(cst.take(k) == cst);
    }
}

/// Builds the trees of a whole program in the context `ctx`, for a
/// program on which the builder does not fail.
pub fn ast_gen(ctx: &mut Context, cst: &Vec<CSTNode>) -> (r: Vec<ASTNode>)
    requires
        checked_program(cst_views(cst@), old(ctx)@) is Some,
    ensures
        nodes_view(r@) == value_of(checked_program(cst_views(cst@), old(ctx)@)),
        final(ctx)@ == ctx_of(checked_program(cst_views(cst@), old(ctx)@)),
{
    match try_ast_gen(ctx, cst) {
        Some(r) => r,
        None => vstd::pervasive::unreached(),
    }
}

} // verus!
