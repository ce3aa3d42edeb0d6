//! The nodes of the abstract syntax tree, and the trees of plain values
//! that they stand for.

use crate::lexer::lexer::{Token, TokenV};
use crate::text::{decimal_i32, i64_to_string, int_text, parse_i32, trunc_div};
use vstd::prelude::*;

verus! {

/// A structure type: its name and its fields.
#[derive(Debug, PartialEq)]
pub struct StructType {
    pub id: String,
    pub field: Vec<VarDec>,
}

/// A type of the source language.
#[derive(Debug, PartialEq)]
pub enum Type {
    BaseType(String),
    CustomizedType(StructType),
}

/// One declared variable, with its initialiser if it has one.
#[derive(Debug, PartialEq)]
pub struct VarDec {
    pub var_type: Type,
    pub var_name: String,
    pub init: Option<ASTNode>,
}

/// A node of the tree.
#[allow(inconsistent_fields)]
#[derive(Debug, PartialEq)]
pub enum ASTNode {
    Specifier(Box<Type>),
    Program { items: Vec<ASTNode> },
    FuncDef { name: String, params: Vec<VarDec>, ret_type: Type, body: Box<ASTNode> },
    VarDecl(Vec<VarDec>),
    Block { stmts: Vec<ASTNode> },
    If { cond: Box<ASTNode>, then_br: Box<ASTNode>, else_br: Option<Box<ASTNode>> },
    While { cond: Box<ASTNode>, body: Box<ASTNode> },
    Return { expr: Option<Box<ASTNode>> },
    ExprStmt { expr: Box<ASTNode> },
    BinaryOp { op: Option<String>, lhs: Box<ASTNode>, rhs: Option<Box<ASTNode>> },
    UnaryOp { op: String, expr: Box<ASTNode> },
    Call { func: String, args: Vec<ASTNode> },
    Args { args: Vec<Box<ASTNode>> },
    Literal(Token),
    Ident(Token),
}

/// The value of a type of the source language.
pub ghost enum TypeV {
    BaseType(Seq<char>),
    CustomizedType(StructV),
}

/// The value of a structure type.
pub ghost struct StructV {
    pub id: Seq<char>,
    pub field: Seq<DeclV>,
}

/// The value of a declared variable.
pub ghost struct DeclV {
    pub var_type: TypeV,
    pub var_name: Seq<char>,
    pub init: Option<Tree>,
}

/// The value of a node: the same tree, with sequences and texts in the
/// place of vectors and strings.
#[allow(inconsistent_fields)]
pub ghost enum Tree {
    Specifier(TypeV),
    Program { items: Seq<Tree> },
    FuncDef { name: Seq<char>, params: Seq<DeclV>, ret_type: TypeV, body: Box<Tree> },
    VarDecl(Seq<DeclV>),
    Block { stmts: Seq<Tree> },
    If { cond: Box<Tree>, then_br: Box<Tree>, else_br: Option<Box<Tree>> },
    While { cond: Box<Tree>, body: Box<Tree> },
    Return { expr: Option<Box<Tree>> },
    ExprStmt { expr: Box<Tree> },
    BinaryOp { op: Option<Seq<char>>, lhs: Box<Tree>, rhs: Option<Box<Tree>> },
    UnaryOp { op: Seq<char>, expr: Box<Tree> },
    Call { func: Seq<char>, args: Seq<Tree> },
    Args { args: Seq<Tree> },
    Literal(TokenV),
    Ident(TokenV),
}

/// The value of an optional text.
pub open spec fn text_view(s: Option<String>) -> Option<Seq<char>> {
    match s {
        Some(t) => Some(t@),
        None => None,
    }
}

/// The value of a type.
pub open spec fn type_view(ty: Type) -> TypeV
    decreases ty,
{
    match ty {
        Type::BaseType(name) => TypeV::BaseType(name@),
        Type::CustomizedType(st) => TypeV::CustomizedType(
            StructV { id: st.id@, field: decls_view(st.field@) },
        ),
    }
}

/// The value of a declared variable.
pub open spec fn decl_view(decl: VarDec) -> DeclV
    decreases decl,
{
    DeclV {
        var_type: type_view(decl.var_type),
        var_name: decl.var_name@,
        init: match decl.init {
            Some(node) => Some(node_view(node)),
            None => None,
        },
    }
}

/// The values of a list of declared variables.
pub open spec fn decls_view(decls: Seq<VarDec>) -> Seq<DeclV>
    decreases decls,
{
    Seq::new(
        decls.len(),
        |i: int|
            if 0 <= i < decls.len() {
                decl_view(decls[i])
            } else {
                arbitrary()
            },
    )
}

/// The values of a list of nodes.
pub open spec fn nodes_view(nodes: Seq<ASTNode>) -> Seq<Tree>
    decreases nodes,
{
    Seq::new(
        nodes.len(),
        |i: int|
            if 0 <= i < nodes.len() {
                node_view(nodes[i])
            } else {
                arbitrary()
            },
    )
}

/// The values of a list of boxed nodes.
pub open spec fn boxed_view(nodes: Seq<Box<ASTNode>>) -> Seq<Tree>
    decreases nodes,
{
    Seq::new(
        nodes.len(),
        |i: int|
            if 0 <= i < nodes.len() {
                node_view(*nodes[i])
            } else {
                arbitrary()
            },
    )
}

/// The value of a node.
pub open spec fn node_view(node: ASTNode) -> Tree
    decreases node,
{
    match node {
        ASTNode::Specifier(ty) => Tree::Specifier(type_view(*ty)),
        ASTNode::Program { items } => Tree::Program { items: nodes_view(items@) },
        ASTNode::FuncDef { name, params, ret_type, body } => Tree::FuncDef {
            name: name@,
            params: decls_view(params@),
            ret_type: type_view(ret_type),
            body: Box::new(node_view(*body)),
        },
        ASTNode::VarDecl(decls) => Tree::VarDecl(decls_view(decls@)),
        ASTNode::Block { stmts } => Tree::Block { stmts: nodes_view(stmts@) },
        ASTNode::If { cond, then_br, else_br } => Tree::If {
            cond: Box::new(node_view(*cond)),
            then_br: Box::new(node_view(*then_br)),
            else_br: match else_br {
                Some(e) => Some(Box::new(node_view(*e))),
                None => None,
            },
        },
        ASTNode::While { cond, body } => Tree::While {
            cond: Box::new(node_view(*cond)),
            body: Box::new(node_view(*body)),
        },
        ASTNode::Return { expr } => Tree::Return {
            expr: match expr {
                Some(e) => Some(Box::new(node_view(*e))),
                None => None,
            },
        },
        ASTNode::ExprStmt { expr } => Tree::ExprStmt { expr: Box::new(node_view(*expr)) },
        ASTNode::BinaryOp { op, lhs, rhs } => Tree::BinaryOp {
            op: text_view(op),
            lhs: Box::new(node_view(*lhs)),
            rhs: match rhs {
                Some(r) => Some(Box::new(node_view(*r))),
                None => None,
            },
        },
        ASTNode::UnaryOp { op, expr } => Tree::UnaryOp {
            op: op@,
            expr: Box::new(node_view(*expr)),
        },
        ASTNode::Call { func, args } => Tree::Call { func: func@, args: nodes_view(args@) },
        ASTNode::Args { args } => Tree::Args { args: boxed_view(args@) },
        ASTNode::Literal(tok) => Tree::Literal(tok@),
        ASTNode::Ident(tok) => Tree::Ident(tok@),
    }
}

/// The value of an optional boxed node.
pub open spec fn option_view(node: Option<Box<ASTNode>>) -> Option<Box<Tree>> {
    match node {
        Some(n) => Some(Box::new(node_view(*n))),
        None => None,
    }
}

impl View for Type {
    type V = TypeV;

    open spec fn view(&self) -> TypeV {
        type_view(*self)
    }
}

impl View for StructType {
    type V = StructV;

    open spec fn view(&self) -> StructV {
        StructV { id: self.id@, field: decls_view(self.field@) }
    }
}

impl View for VarDec {
    type V = DeclV;

    open spec fn view(&self) -> DeclV {
        decl_view(*self)
    }
}

impl View for ASTNode {
    type V = Tree;

    open spec fn view(&self) -> Tree {
        node_view(*self)
    }
}

fn copy_type(ty: &Type) -> (r: Type)
    ensures
        r@ == ty@,
    decreases ty,
{
    match ty {
        Type::BaseType(name) => Type::BaseType(name.clone()),
        Type::CustomizedType(st) => Type::CustomizedType(
            StructType { id: st.id.clone(), field: copy_decls(&st.field) },
        ),
    }
}

fn copy_decl(decl: &VarDec) -> (r: VarDec)
    ensures
        r@ == decl@,
    decreases decl,
{
    VarDec {
        var_type: copy_type(&decl.var_type),
        var_name: decl.var_name.clone(),
        init: match &decl.init {
            Some(node) => Some(copy_node(node)),
            None => None,
        },
    }
}

/// A copy of a list of declarations.
pub fn copy_decls(decls: &Vec<VarDec>) -> (r: Vec<VarDec>)
    ensures
        decls_view(r@) == decls_view(decls@),
    decreases decls,
{
    let mut out: Vec<VarDec> = Vec::new();
    let mut i: usize = 0;
    while i < decls.len()
        invariant
            i <= decls.len(),
            out.len() == i,
            forall|k: int| 0 <= k < i ==> decl_view(out[k]) == decl_view(decls[k]),
        decreases decls.len() - i,
    {
        out.push(copy_decl(&decls[i]));
        i += 1;
    }
    assert(decls_view(out@) =~= decls_view(decls@));
    out
}

fn copy_nodes(nodes: &Vec<ASTNode>) -> (r: Vec<ASTNode>)
    ensures
        nodes_view(r@) == nodes_view(nodes@),
    decreases nodes,
{
    let mut out: Vec<ASTNode> = Vec::new();
    let mut i: usize = 0;
    while i < nodes.len()
        invariant
            i <= nodes.len(),
            out.len() == i,
            forall|k: int| 0 <= k < i ==> node_view(out[k]) == node_view(nodes[k]),
        decreases nodes.len() - i,
    {
        out.push(copy_node(&nodes[i]));
        i += 1;
    }
    assert(nodes_view(out@) =~= nodes_view(nodes@));
    out
}

fn copy_boxed(nodes: &Vec<Box<ASTNode>>) -> (r: Vec<Box<ASTNode>>)
    ensures
        boxed_view(r@) == boxed_view(nodes@),
    decreases nodes,
{
    let mut out: Vec<Box<ASTNode>> = Vec::new();
    let mut i: usize = 0;
    while i < nodes.len()
        invariant
            i <= nodes.len(),
            out.len() == i,
            forall|k: int| 0 <= k < i ==> node_view(*out[k]) == node_view(*nodes[k]),
        decreases nodes.len() - i,
    {
        out.push(Box::new(copy_node(&nodes[i])));
        i += 1;
    }
    assert(boxed_view(out@) =~= boxed_view(nodes@));
    out
}

fn copy_node(node: &ASTNode) -> (r: ASTNode)
    ensures
        r@ == node@,
    decreases node,
{
    match node {
        ASTNode::Specifier(ty) => {
            let r = ASTNode::Specifier(Box::new(copy_type(ty)));
            assert(r@ == node@);
            r
        },
        ASTNode::Program { items } => {
            let r = ASTNode::Program { items: copy_nodes(items) };
            assert(r@ == node@);
            r
        },
        ASTNode::FuncDef { name, params, ret_type, body } => {
            let r = ASTNode::FuncDef {
                name: name.clone(),
                params: copy_decls(params),
                ret_type: copy_type(ret_type),
                body: Box::new(copy_node(body)),
            };
            assert(r@ == node@);
            r
        },
        ASTNode::VarDecl(decls) => {
            let r = ASTNode::VarDecl(copy_decls(decls));
            assert(r@ == node@);
            r
        },
        ASTNode::Block { stmts } => {
            let r = ASTNode::Block { stmts: copy_nodes(stmts) };
            assert(r@ == node@);
            r
        },
        ASTNode::If { cond, then_br, else_br } => {
            let r = ASTNode::If {
                cond: Box::new(copy_node(cond)),
                then_br: Box::new(copy_node(then_br)),
                else_br: copy_option(else_br),
            };
            assert(r@ == node@);
            r
        },
        ASTNode::While { cond, body } => {
            let r = ASTNode::While {
                cond: Box::new(copy_node(cond)),
                body: Box::new(copy_node(body)),
            };
            assert(r@ == node@);
            r
        },
        ASTNode::Return { expr } => {
            let r = ASTNode::Return { expr: copy_option(expr) };
            assert(r@ == node@);
            r
        },
        ASTNode::ExprStmt { expr } => {
            let r = ASTNode::ExprStmt { expr: Box::new(copy_node(expr)) };
            assert(r@ == node@);
            r
        },
        ASTNode::BinaryOp { op, lhs, rhs } => {
            let r = ASTNode::BinaryOp {
                op: match op {
                    Some(o) => Some(o.clone()),
                    None => None,
                },
                lhs: Box::new(copy_node(lhs)),
                rhs: copy_option(rhs),
            };
            assert(r@ == node@);
            r
        },
        ASTNode::UnaryOp { op, expr } => {
            let r = ASTNode::UnaryOp { op: op.clone(), expr: Box::new(copy_node(expr)) };
            assert(r@ == node@);
            r
        },
        ASTNode::Call { func, args } => {
            let r = ASTNode::Call { func: func.clone(), args: copy_nodes(args) };
            assert(r@ == node@);
            r
        },
        ASTNode::Args { args } => {
            let r = ASTNode::Args { args: copy_boxed(args) };
            assert(r@ == node@);
            r
        },
        ASTNode::Literal(tok) => {
            let r = ASTNode::Literal(tok.clone());
            assert(r@ == node@);
            r
        },
        ASTNode::Ident(tok) => {
            let r = ASTNode::Ident(tok.clone());
            assert(r@ == node@);
            r
        },
    }
}

fn copy_option(node: &Option<Box<ASTNode>>) -> (r: Option<Box<ASTNode>>)
    ensures
        option_view(r) == option_view(*node),
    decreases node,
{
    match node {
        Some(n) => Some(Box::new(copy_node(n))),
        None => None,
    }
}

impl Clone for StructType {
    fn clone(&self) -> (r: Self)
        ensures
            r@ == self@,
    {
        StructType { id: self.id.clone(), field: copy_decls(&self.field) }
    }
}

impl Clone for Type {
    fn clone(&self) -> (r: Self)
        ensures
            r@ == self@,
    {
        copy_type(self)
    }
}

impl Clone for VarDec {
    fn clone(&self) -> (r: Self)
        ensures
            r@ == self@,
    {
        copy_decl(self)
    }
}

impl Clone for ASTNode {
    fn clone(&self) -> (r: Self)
        ensures
            r@ == self@,
    {
        copy_node(self)
    }
}

// ---------------------------------------------------------------------
// Folding of constant expressions in the tree
// ---------------------------------------------------------------------

/// The value of the binary operator `op` on `a` and `b`, for the
/// operators that fold: the four arithmetic ones, and `>`, `<`, `==` and
/// `!=`, which give 1 or 0. A division by zero has no value.
pub open spec fn folded_value(op: Seq<char>, a: int, b: int) -> Option<int> {
    if op == "+"@ {
        Some(a + b)
    } else if op == "-"@ {
        Some(a - b)
    } else if op == "*"@ {
        Some(a * b)
    } else if op == "/"@ {
        if b == 0 {
            None
        } else {
            Some(trunc_div(a, b))
        }
    } else if op == ">"@ {
        Some(if a > b { 1int } else { 0int })
    } else if op == "<"@ {
        Some(if a < b { 1int } else { 0int })
    } else if op == "=="@ {
        Some(if a == b { 1int } else { 0int })
    } else if op == "!="@ {
        Some(if a != b { 1int } else { 0int })
    } else {
        None
    }
}

/// The literal that `op` on `l` and `r` folds to: there is one where
/// both are literals that read as 32-bit numbers, `op` folds, and the
/// value fits 32 bits. It stands where the left literal stood.
pub open spec fn folded_token(op: Seq<char>, l: Tree, r: Tree) -> Option<TokenV> {
    match (l, r) {
        (Tree::Literal(lt), Tree::Literal(rt)) => match (
            decimal_i32(lt.value),
            decimal_i32(rt.value),
        ) {
            (Some(a), Some(b)) => match folded_value(op, a as int, b as int) {
                Some(v) => if i32::MIN <= v <= i32::MAX {
                    Some(TokenV { pos: lt.pos, types: lt.types, value: int_text(v) })
                } else {
                    None
                },
                None => None,
            },
            _ => None,
        },
        _ => None,
    }
}

/// `d` with its initialiser folded.
pub open spec fn fold_decl(d: DeclV) -> DeclV
    decreases d,
{
    DeclV {
        var_type: d.var_type,
        var_name: d.var_name,
        init: match d.init {
            Some(n) => Some(fold_tree(n)),
            None => None,
        },
    }
}

/// Each declaration of `decls` with its initialiser folded.
pub open spec fn fold_decls(decls: Seq<DeclV>) -> Seq<DeclV>
    decreases decls,
{
    Seq::new(
        decls.len(),
        |i: int|
            if 0 <= i < decls.len() {
                fold_decl(decls[i])
            } else {
                arbitrary()
            },
    )
}

/// Each tree of `trees` folded.
pub open spec fn fold_trees(trees: Seq<Tree>) -> Seq<Tree>
    decreases trees,
{
    Seq::new(
        trees.len(),
        |i: int|
            if 0 <= i < trees.len() {
                fold_tree(trees[i])
            } else {
                arbitrary()
            },
    )
}

/// The tree `t` with its constant expressions folded, from the leaves
/// up: a binary node without operator and right side gives way to its
/// left side; a binary operation on two literals becomes the literal of
/// its value where `folded_token` has one; everything else keeps its
/// shape.
pub open spec fn fold_tree(t: Tree) -> Tree
    decreases t,
{
    match t {
        Tree::BinaryOp { op, lhs, rhs } => match (op, rhs) {
            (None, None) => fold_tree(*lhs),
            (Some(o), Some(r)) => {
                let l2 = fold_tree(*lhs);
                let r2 = fold_tree(*r);
                match folded_token(o, l2, r2) {
                    Some(tok) => Tree::Literal(tok),
                    None => Tree::BinaryOp {
                        op: Some(o),
                        lhs: Box::new(l2),
                        rhs: Some(Box::new(r2)),
                    },
                }
            },
            (None, Some(r)) => Tree::BinaryOp {
                op: None,
                lhs: Box::new(fold_tree(*lhs)),
                rhs: Some(Box::new(fold_tree(*r))),
            },
            (Some(o), None) => Tree::BinaryOp {
                op: Some(o),
                lhs: Box::new(fold_tree(*lhs)),
                rhs: None,
            },
        },
        Tree::UnaryOp { op, expr } => Tree::UnaryOp { op, expr: Box::new(fold_tree(*expr)) },
        Tree::VarDecl(decls) => Tree::VarDecl(fold_decls(decls)),
        Tree::Block { stmts } => Tree::Block { stmts: fold_trees(stmts) },
        Tree::If { cond, then_br, else_br } => Tree::If {
            cond: Box::new(fold_tree(*cond)),
            then_br: Box::new(fold_tree(*then_br)),
            else_br: match else_br {
                Some(e) => Some(Box::new(fold_tree(*e))),
                None => None,
            },
        },
        Tree::While { cond, body } => Tree::While {
            cond: Box::new(fold_tree(*cond)),
            body: Box::new(fold_tree(*body)),
        },
        Tree::Return { expr } => Tree::Return {
            expr: match expr {
                Some(e) => Some(Box::new(fold_tree(*e))),
                None => None,
            },
        },
        Tree::ExprStmt { expr } => Tree::ExprStmt { expr: Box::new(fold_tree(*expr)) },
        Tree::Call { func, args } => Tree::Call { func, args: fold_trees(args) },
        Tree::Args { args } => Tree::Args { args: fold_trees(args) },
        Tree::FuncDef { name, params, ret_type, body } => Tree::FuncDef {
            name,
            params: fold_decls(params),
            ret_type,
            body: Box::new(fold_tree(*body)),
        },
        Tree::Program { items } => Tree::Program { items: fold_trees(items) },
        Tree::Specifier(ty) => t,
        Tree::Literal(tok) => t,
        Tree::Ident(tok) => t,
    }
}

/// Folding the declarations of a list twice changes nothing.
pub proof fn lemma_folding_decls_twice(decls: Seq<DeclV>)
    ensures
        fold_decls(fold_decls(decls)) == fold_decls(decls),
    decreases decls, 0nat,
{
    assert forall|i: int| 0 <= i < decls.len() implies fold_decl(fold_decl(decls[i]))
        == fold_decl(decls[i]) by {
        match decls[i].init {
            Some(n) => {
                law_folding_twice_changes_nothing(n);
            },
            None => {},
        }
    }
    assert(fold_decls(fold_decls(decls)) =~= fold_decls(decls));
}

/// Folding the trees of a list twice changes nothing.
pub proof fn lemma_folding_trees_twice(trees: Seq<Tree>)
    ensures
        fold_trees(fold_trees(trees)) == fold_trees(trees),
    decreases trees, 0nat,
{
    assert forall|i: int| 0 <= i < trees.len() implies fold_tree(fold_tree(trees[i]))
        == fold_tree(trees[i]) by {
        law_folding_twice_changes_nothing(trees[i]);
    }
    assert(fold_trees(fold_trees(trees)) =~= fold_trees(trees));
}

/// A folded tree is folded: folding it again changes nothing.
pub proof fn law_folding_twice_changes_nothing(t: Tree)
    ensures
        fold_tree(fold_tree(t)) == fold_tree(t),
    decreases t, 1nat,
{
    match t {
        Tree::BinaryOp { op, lhs, rhs } => {
            law_folding_twice_changes_nothing(*lhs);
            match rhs {
                Some(r) => {
                    law_folding_twice_changes_nothing(*r);
                },
                None => {},
            }
        },
        Tree::UnaryOp { op, expr } => {
            law_folding_twice_changes_nothing(*expr);
        },
        Tree::VarDecl(decls) => {
            lemma_folding_decls_twice(decls);
        },
        Tree::Block { stmts } => {
            lemma_folding_trees_twice(stmts);
        },
        Tree::If { cond, then_br, else_br } => {
            law_folding_twice_changes_nothing(*cond);
            law_folding_twice_changes_nothing(*then_br);
            match else_br {
                Some(e) => {
                    law_folding_twice_changes_nothing(*e);
                },
                None => {},
            }
        },
        Tree::While { cond, body } => {
            law_folding_twice_changes_nothing(*cond);
            law_folding_twice_changes_nothing(*body);
        },
        Tree::Return { expr } => {
            match expr {
                Some(e) => {
                    law_folding_twice_changes_nothing(*e);
                },
                None => {},
            }
        },
        Tree::ExprStmt { expr } => {
            law_folding_twice_changes_nothing(*expr);
        },
        Tree::Call { func, args } => {
            lemma_folding_trees_twice(args);
        },
        Tree::Args { args } => {
            lemma_folding_trees_twice(args);
        },
        Tree::FuncDef { name, params, ret_type, body } => {
            lemma_folding_decls_twice(params);
            law_folding_twice_changes_nothing(*body);
        },
        Tree::Program { items } => {
            lemma_folding_trees_twice(items);
        },
        Tree::Specifier(ty) => {},
        Tree::Literal(tok) => {},
        Tree::Ident(tok) => {},
    }
}

fn fold_value(op: &str, a: i32, b: i32) -> (r: Option<i32>)
    ensures
        r is Some <==> folded_value(op@, a as int, b as int) is Some && i32::MIN <= folded_value(
            op@,
            a as int,
            b as int,
        )->0 <= i32::MAX,
        r is Some ==> r->0 == folded_value(op@, a as int, b as int)->0,
{
    if *op == *"+" {
        a.checked_add(b)
    } else if *op == *"-" {
        a.checked_sub(b)
    } else if *op == *"*" {
        a.checked_mul(b)
    } else if *op == *"/" {
        a.checked_div(b)
    } else if *op == *">" {
        Some(if a > b { 1 } else { 0 })
    } else if *op == *"<" {
        Some(if a < b { 1 } else { 0 })
    } else if *op == *"==" {
        Some(if a == b { 1 } else { 0 })
    } else if *op == *"!=" {
        Some(if a != b { 1 } else { 0 })
    } else {
        None
    }
}

fn fold_token(op: &str, l: &ASTNode, r: &ASTNode) -> (t: Option<Token>)
    ensures
        t is Some <==> folded_token(op@, l@, r@) is Some,
        t is Some ==> t->0@ == folded_token(op@, l@, r@)->0,
{
    match l {
        ASTNode::Literal(lt) => match r {
            ASTNode::Literal(rt) => {
                match parse_i32(lt.value.as_str()) {
                    Some(a) => match parse_i32(rt.value.as_str()) {
                        Some(b) => match fold_value(op, a, b) {
                            Some(v) => Some(
                                Token { types: lt.types, pos: lt.pos, value: i64_to_string(v as i64) },
                            ),
                            None => None,
                        },
                        None => None,
                    },
                    None => None,
                }
            },
            _ => None,
        },
        _ => None,
    }
}

fn fold_decl_of(decl: &VarDec) -> (r: VarDec)
    ensures
        r@ == fold_decl(decl@),
    decreases decl,
{
    VarDec {
        var_type: copy_type(&decl.var_type),
        var_name: decl.var_name.clone(),
        init: match &decl.init {
            Some(node) => Some(fold_node(node)),
            None => None,
        },
    }
}

fn fold_decls_of(decls: &Vec<VarDec>) -> (r: Vec<VarDec>)
    ensures
        decls_view(r@) == fold_decls(decls_view(decls@)),
    decreases decls,
{
    let mut out: Vec<VarDec> = Vec::new();
    let mut i: usize = 0;
    while i < decls.len()
        invariant
            i <= decls.len(),
            out.len() == i,
            forall|k: int| 0 <= k < i ==> decl_view(out[k]) == fold_decl(decl_view(decls[k])),
        decreases decls.len() - i,
    {
        out.push(fold_decl_of(&decls[i]));
        i += 1;
    }
    assert(decls_view(out@) =~= fold_decls(decls_view(decls@)));
    out
}

fn fold_nodes_of(nodes: &Vec<ASTNode>) -> (r: Vec<ASTNode>)
    ensures
        nodes_view(r@) == fold_trees(nodes_view(nodes@)),
    decreases nodes,
{
    let mut out: Vec<ASTNode> = Vec::new();
    let mut i: usize = 0;
    while i < nodes.len()
        invariant
            i <= nodes.len(),
            out.len() == i,
            forall|k: int| 0 <= k < i ==> node_view(out[k]) == fold_tree(node_view(nodes[k])),
        decreases nodes.len() - i,
    {
        out.push(fold_node(&nodes[i]));
        i += 1;
    }
    assert(nodes_view(out@) =~= fold_trees(nodes_view(nodes@)));
    out
}

fn fold_boxed_of(nodes: &Vec<Box<ASTNode>>) -> (r: Vec<Box<ASTNode>>)
    ensures
        boxed_view(r@) == fold_trees(boxed_view(nodes@)),
    decreases nodes,
{
    let mut out: Vec<Box<ASTNode>> = Vec::new();
    let mut i: usize = 0;
    while i < nodes.len()
        invariant
            i <= nodes.len(),
            out.len() == i,
            forall|k: int| 0 <= k < i ==> node_view(*out[k]) == fold_tree(node_view(*nodes[k])),
        decreases nodes.len() - i,
    {
        out.push(Box::new(fold_node(&nodes[i])));
        i += 1;
    }
    assert(boxed_view(out@) =~= fold_trees(boxed_view(nodes@)));
    out
}

fn fold_option_of(node: &Option<Box<ASTNode>>) -> (r: Option<Box<ASTNode>>)
    ensures
        option_view(r) == (match option_view(*node) {
            Some(e) => Some(Box::new(fold_tree(*e))),
            None => None,
        }),
    decreases node,
{
    match node {
        Some(n) => Some(Box::new(fold_node(n))),
        None => None,
    }
}

fn fold_binary(node: &ASTNode) -> (r: ASTNode)
    requires
        node is BinaryOp,
    ensures
        r@ == fold_tree(node@),
    decreases node, 0nat,
{
    match node {
        ASTNode::BinaryOp { op, lhs, rhs } => {
            match op {
                None => match rhs {
                    None => {
                        let r = fold_node(lhs);
                        assert(r@ == fold_tree(node@));
                        r
                    },
                    Some(right) => {
                        let r = ASTNode::BinaryOp {
                            op: None,
                            lhs: Box::new(fold_node(lhs)),
                            rhs: Some(Box::new(fold_node(right))),
                        };
                        assert(r@ == fold_tree(node@));
                        r
                    },
                },
                Some(o) => match rhs {
                    None => {
                        let r = ASTNode::BinaryOp {
                            op: Some(o.clone()),
                            lhs: Box::new(fold_node(lhs)),
                            rhs: None,
                        };
                        assert(r@ == fold_tree(node@));
                        r
                    },
                    Some(right) => {
                        let l2 = fold_node(lhs);
                        let r2 = fold_node(right);
                        match fold_token(o.as_str(), &l2, &r2) {
                            Some(tok) => {
                                let r = ASTNode::Literal(tok);
                                assert(r@ == fold_tree(node@));
                                r
                            },
                            None => {
                                let r = ASTNode::BinaryOp {
                                    op: Some(o.clone()),
                                    lhs: Box::new(l2),
                                    rhs: Some(Box::new(r2)),
                                };
                                assert(r@ == fold_tree(node@));
                                r
                            },
                        }
                    },
                },
            }
        },
        _ => copy_node(node),
    }
}

fn fold_node(node: &ASTNode) -> (r: ASTNode)
    ensures
        r@ == fold_tree(node@),
    decreases node, 1nat,
{
    match node {
        ASTNode::BinaryOp { .. } => fold_binary(node),
        ASTNode::UnaryOp { op, expr } => {
            let r = ASTNode::UnaryOp { op: op.clone(), expr: Box::new(fold_node(expr)) };
            assert(r@ == fold_tree(node@));
            r
        },
        ASTNode::VarDecl(decls) => {
            let r = ASTNode::VarDecl(fold_decls_of(decls));
            assert(r@ == fold_tree(node@));
            r
        },
        ASTNode::Block { stmts } => {
            let r = ASTNode::Block { stmts: fold_nodes_of(stmts) };
            assert(r@ == fold_tree(node@));
            r
        },
        ASTNode::If { cond, then_br, else_br } => {
            let r = ASTNode::If {
                cond: Box::new(fold_node(cond)),
                then_br: Box::new(fold_node(then_br)),
                else_br: fold_option_of(else_br),
            };
            assert(r@ == fold_tree(node@));
            r
        },
        ASTNode::While { cond, body } => {
            let r = ASTNode::While {
                cond: Box::new(fold_node(cond)),
                body: Box::new(fold_node(body)),
            };
            assert(r@ == fold_tree(node@));
            r
        },
        ASTNode::Return { expr } => {
            let r = ASTNode::Return { expr: fold_option_of(expr) };
            assert(r@ == fold_tree(node@));
            r
        },
        ASTNode::ExprStmt { expr } => {
            let r = ASTNode::ExprStmt { expr: Box::new(fold_node(expr)) };
            assert(r@ == fold_tree(node@));
            r
        },
        ASTNode::Call { func, args } => {
            let r = ASTNode::Call { func: func.clone(), args: fold_nodes_of(args) };
            assert(r@ == fold_tree(node@));
            r
        },
        ASTNode::Args { args } => {
            let r = ASTNode::Args { args: fold_boxed_of(args) };
            assert(r@ == fold_tree(node@));
            r
        },
        ASTNode::FuncDef { name, params, ret_type, body } => {
            let r = ASTNode::FuncDef {
                name: name.clone(),
                params: fold_decls_of(params),
                ret_type: copy_type(ret_type),
                body: Box::new(fold_node(body)),
            };
            assert(r@ == fold_tree(node@));
            r
        },
        ASTNode::Program { items } => {
            let r = ASTNode::Program { items: fold_nodes_of(items) };
            assert(r@ == fold_tree(node@));
            r
        },
        _ => copy_node(node),
    }
}

impl ASTNode {
    /// The tree with its constant expressions folded: see `fold_tree`.
    pub fn optimal(self) -> (r: ASTNode)
        ensures
            r@ == fold_tree(self@),
    {
        fold_node(&self)
    }
}

// ---------------------------------------------------------------------
// Equality of trees
// ---------------------------------------------------------------------

fn same_text(a: &Option<String>, b: &Option<String>) -> (r: bool)
    ensures
        r == (text_view(*a) == text_view(*b)),
{
    match a {
        Some(x) => match b {
            Some(y) => *x.as_str() == *y.as_str(),
            None => false,
        },
        None => b.is_none(),
    }
}

fn same_token(a: &Token, b: &Token) -> (r: bool)
    ensures
        r == (a@ == b@),
{
    a.pos == b.pos && a.types == b.types && *a.value.as_str() == *b.value.as_str()
}

/// Whether two types have the same value.
pub fn same_type(a: &Type, b: &Type) -> (r: bool)
    ensures
        r == (a@ == b@),
    decreases a,
{
    match a {
        Type::BaseType(x) => match b {
            Type::BaseType(y) => *x.as_str() == *y.as_str(),
            _ => false,
        },
        Type::CustomizedType(x) => match b {
            Type::CustomizedType(y) => *x.id.as_str() == *y.id.as_str() && same_decls(
                &x.field,
                &y.field,
            ),
            _ => false,
        },
    }
}

fn same_decl(a: &VarDec, b: &VarDec) -> (r: bool)
    ensures
        r == (a@ == b@),
    decreases a,
{
    same_type(&a.var_type, &b.var_type) && *a.var_name.as_str() == *b.var_name.as_str() && (
    match &a.init {
        Some(x) => match &b.init {
            Some(y) => same_node(x, y),
            None => false,
        },
        None => b.init.is_none(),
    })
}

fn same_decls(a: &Vec<VarDec>, b: &Vec<VarDec>) -> (r: bool)
    ensures
        r == (decls_view(a@) == decls_view(b@)),
    decreases a,
{
    if a.len() != b.len() {
        assert(decls_view(a@).len() != decls_view(b@).len());
        return false;
    }
    let mut i: usize = 0;
    while i < a.len()
        invariant
            i <= a.len(),
            a.len() == b.len(),
            forall|k: int| 0 <= k < i ==> decl_view(a[k]) == decl_view(b[k]),
        decreases a.len() - i,
    {
        if !same_decl(&a[i], &b[i]) {
            assert(decls_view(a@)[i as int] != decls_view(b@)[i as int]);
            return false;
        }
        i += 1;
    }
    assert(decls_view(a@) =~= decls_view(b@));
    true
}

fn same_nodes(a: &Vec<ASTNode>, b: &Vec<ASTNode>) -> (r: bool)
    ensures
        r == (nodes_view(a@) == nodes_view(b@)),
    decreases a,
{
    if a.len() != b.len() {
        assert(nodes_view(a@).len() != nodes_view(b@).len());
        return false;
    }
    let mut i: usize = 0;
    while i < a.len()
        invariant
            i <= a.len(),
            a.len() == b.len(),
            forall|k: int| 0 <= k < i ==> node_view(a[k]) == node_view(b[k]),
        decreases a.len() - i,
    {
        if !same_node(&a[i], &b[i]) {
            assert(nodes_view(a@)[i as int] != nodes_view(b@)[i as int]);
            return false;
        }
        i += 1;
    }
    assert(nodes_view(a@) =~= nodes_view(b@));
    true
}

fn same_boxed(a: &Vec<Box<ASTNode>>, b: &Vec<Box<ASTNode>>) -> (r: bool)
    ensures
        r == (boxed_view(a@) == boxed_view(b@)),
    decreases a,
{
    if a.len() != b.len() {
        assert(boxed_view(a@).len() != boxed_view(b@).len());
        return false;
    }
    let mut i: usize = 0;
    while i < a.len()
        invariant
            i <= a.len(),
            a.len() == b.len(),
            forall|k: int| 0 <= k < i ==> node_view(*a[k]) == node_view(*b[k]),
        decreases a.len() - i,
    {
        if !same_node(&a[i], &b[i]) {
            assert(boxed_view(a@)[i as int] != boxed_view(b@)[i as int]);
            return false;
        }
        i += 1;
    }
    assert(boxed_view(a@) =~= boxed_view(b@));
    true
}

fn same_option(a: &Option<Box<ASTNode>>, b: &Option<Box<ASTNode>>) -> (r: bool)
    ensures
        r == (option_view(*a) == option_view(*b)),
    decreases a,
{
    match a {
        Some(x) => match b {
            Some(y) => same_node(x, y),
            None => false,
        },
        None => b.is_none(),
    }
}

/// Whether two nodes have the same value.
pub fn same_node(a: &ASTNode, b: &ASTNode) -> (r: bool)
    ensures
        r == (a@ == b@),
    decreases a,
{
    match a {
        ASTNode::Specifier(x) => match b {
            ASTNode::Specifier(y) => same_type(x, y),
            _ => false,
        },
        ASTNode::Program { items: x } => match b {
            ASTNode::Program { items: y } => same_nodes(x, y),
            _ => false,
        },
        ASTNode::FuncDef { name: na, params: pa, ret_type: ta, body: ba } => match b {
            ASTNode::FuncDef { name: nb, params: pb, ret_type: tb, body: bb } => {
                *na.as_str() == *nb.as_str() && same_decls(pa, pb) && same_type(ta, tb)
                    && same_node(ba, bb)
            },
            _ => false,
        },
        ASTNode::VarDecl(x) => match b {
            ASTNode::VarDecl(y) => same_decls(x, y),
            _ => false,
        },
        ASTNode::Block { stmts: x } => match b {
            ASTNode::Block { stmts: y } => same_nodes(x, y),
            _ => false,
        },
        ASTNode::If { cond: c1, then_br: t1, else_br: e1 } => match b {
            ASTNode::If { cond: c2, then_br: t2, else_br: e2 } => {
                same_node(c1, c2) && same_node(t1, t2) && same_option(e1, e2)
            },
            _ => false,
        },
        ASTNode::While { cond: c1, body: b1 } => match b {
            ASTNode::While { cond: c2, body: b2 } => same_node(c1, c2) && same_node(b1, b2),
            _ => false,
        },
        ASTNode::Return { expr: x } => match b {
            ASTNode::Return { expr: y } => same_option(x, y),
            _ => false,
        },
        ASTNode::ExprStmt { expr: x } => match b {
            ASTNode::ExprStmt { expr: y } => same_node(x, y),
            _ => false,
        },
        ASTNode::BinaryOp { op: o1, lhs: l1, rhs: r1 } => match b {
            ASTNode::BinaryOp { op: o2, lhs: l2, rhs: r2 } => {
                same_text(o1, o2) && same_node(l1, l2) && same_option(r1, r2)
            },
            _ => false,
        },
        ASTNode::UnaryOp { op: o1, expr: x } => match b {
            ASTNode::UnaryOp { op: o2, expr: y } => *o1.as_str() == *o2.as_str() && same_node(x, y),
            _ => false,
        },
        ASTNode::Call { func: f1, args: x } => match b {
            ASTNode::Call { func: f2, args: y } => *f1.as_str() == *f2.as_str() && same_nodes(x, y),
            _ => false,
        },
        ASTNode::Args { args: x } => match b {
            ASTNode::Args { args: y } => same_boxed(x, y),
            _ => false,
        },
        ASTNode::Literal(x) => match b {
            ASTNode::Literal(y) => same_token(x, y),
            _ => false,
        },
        ASTNode::Ident(x) => match b {
            ASTNode::Ident(y) => same_token(x, y),
            _ => false,
        },
    }
}

} // verus!
