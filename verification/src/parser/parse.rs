//! The concrete syntax tree and the table-driven parser that builds it.
//!
//! The parser is a shift-reduce machine over three stacks: states, shifted
//! tokens, and finished nodes. The action and goto tables are its input;
//! the productions, numbered as the tables number them, are fixed here:
//! each reduction takes its parts from the token and node stacks and
//! leaves one node.

use crate::lexer::lexer::{token_views, Token, TokenV};
use crate::parser::helper::{term_column, term_index};
use crate::utils::types::PhraseType;
use vstd::prelude::*;

verus! {

/// A node of the concrete syntax tree: one kind for each nonterminal of
/// the grammar, holding the parts of the production that made it.
#[allow(inconsistent_fields)]
#[derive(Debug)]
pub enum CSTNode {
    Assign {
        logical_or: Box<CSTNode>,
        assign_prime: Option<Box<CSTNode>>,
    },
    AssignPrime {
        op: String,
        logical_or: Box<CSTNode>,
        assign_prime: Option<Box<CSTNode>>,
    },
    UnMatchedStmt {
        while_stmt: Option<String>,
        if_stmt: Option<String>,
        else_stmt: Option<String>,
        lp: Option<String>,
        rp: Option<String>,
        expression: Option<Box<CSTNode>>,
        matched_stmt: Option<Box<CSTNode>>,
        unmatched_stmt: Option<Box<CSTNode>>,
        stmt: Option<Box<CSTNode>>,
    },
    StructSpecifier {
        struct_type: String,
        id: Option<String>,
        lc: Option<String>,
        rc: Option<String>,
        def_list: Option<Box<CSTNode>>,
    },
    Specifier {
        specifier_type: Option<String>,
        struct_specifier: Option<Box<CSTNode>>,
    },
    ParaDec {
        spec: Box<CSTNode>,
        var_dec: Box<CSTNode>,
    },
    MatchedStmt {
        normal_stmt: Option<Box<CSTNode>>,
        while_stmt: Option<String>,
        if_stmt: Option<String>,
        else_stmt: Option<String>,
        lp: Option<String>,
        rp: Option<String>,
        expression: Option<Box<CSTNode>>,
        matched_stmt_fore: Option<Box<CSTNode>>,
        matched_stmt_back: Option<Box<CSTNode>>,
    },
    StmtList {
        stmt: Box<CSTNode>,
        stmt_list: Option<Box<CSTNode>>,
    },
    Stmt {
        unmatched_stmt: Option<Box<CSTNode>>,
        matched_stmt: Option<Box<CSTNode>>,
    },
    NormalStmt {
        sepa: Option<String>,
        expression: Option<Box<CSTNode>>,
        compst: Option<Box<CSTNode>>,
        return_stmt: Option<String>,
    },
    Program(Box<CSTNode>),
    Expression(Box<CSTNode>),
    FunCall {
        id: String,
        lp: String,
        arguments: Option<Box<CSTNode>>,
        rp: String,
    },
    FunDec {
        id: String,
        lp: String,
        var_list: Option<Box<CSTNode>>,
        rp: String,
    },
    VarList {
        para_dec: Box<CSTNode>,
        sepa: Option<String>,
        var_list: Option<Box<CSTNode>>,
    },
    VarDec {
        id: Option<String>,
        var_dec: Option<Box<CSTNode>>,
        lt: Option<String>,
        rt: Option<String>,
        literal: Option<String>,
    },
    LogicalOrPrime {
        op: String,
        logical_and: Box<CSTNode>,
        logical_or_prime: Option<Box<CSTNode>>,
    },
    LogicalOr {
        logical_and: Box<CSTNode>,
        logical_or_prime: Option<Box<CSTNode>>,
    },
    LogicalAnd {
        equality: Box<CSTNode>,
        logical_and_prime: Option<Box<CSTNode>>,
    },
    LogicalAndPrime {
        op: String,
        equality: Box<CSTNode>,
        logical_and_prime: Option<Box<CSTNode>>,
    },
    ExtDefList {
        ext_def: Box<CSTNode>,
        ext_def_list: Option<Box<CSTNode>>,
    },
    ExtDef {
        spec: Box<CSTNode>,
        ext_dec_list: Option<Box<CSTNode>>,
        fun_dec: Option<Box<CSTNode>>,
        compst: Option<Box<CSTNode>>,
        sepa: Option<String>,
    },
    ExtDecList {
        var_dec: Box<CSTNode>,
        sepa: Option<String>,
        ext_dec_list: Option<Box<CSTNode>>,
    },
    DefList {
        def: Box<CSTNode>,
        def_list: Option<Box<CSTNode>>,
    },
    Def {
        spec: Box<CSTNode>,
        dec_list: Box<CSTNode>,
        sepa: String,
    },
    DecList {
        dec: Box<CSTNode>,
        sepa: Option<String>,
        dec_list: Option<Box<CSTNode>>,
    },
    Dec {
        var_dec: Box<CSTNode>,
        op: Option<String>,
        expression: Option<Box<CSTNode>>,
    },
    CompSt {
        lc: String,
        def_list: Option<Box<CSTNode>>,
        stmt_list: Box<CSTNode>,
        rc: String,
    },
    Arguments {
        arguments_tail: Option<Box<CSTNode>>,
        expression: Box<CSTNode>,
    },
    ArgumentsTail {
        separator: String,
        expression: Box<CSTNode>,
    },
    Equality {
        comparison: Box<CSTNode>,
        equality_prime: Option<Box<CSTNode>>,
    },
    EqualityPrime {
        op: String,
        comparison: Box<CSTNode>,
        equality_prime: Option<Box<CSTNode>>,
    },
    ComparisonPrime {
        op: String,
        term: Box<CSTNode>,
        comparison_prime: Option<Box<CSTNode>>,
    },
    Comparison {
        term: Box<CSTNode>,
        comparison_prime: Option<Box<CSTNode>>,
    },
    Term {
        factor: Box<CSTNode>,
        term_prime: Option<Box<CSTNode>>,
    },
    TermPrime {
        op: String,
        factor: Box<CSTNode>,
        term_prime: Option<Box<CSTNode>>,
    },
    Factor {
        unary: Box<CSTNode>,
        factor_prime: Option<Box<CSTNode>>,
    },
    FactorPrime {
        op: String,
        unary: Box<CSTNode>,
        factor_prime: Option<Box<CSTNode>>,
    },
    Unary {
        op: Option<String>,
        unary: Box<CSTNode>,
    },
    Primary {
        symbol: Option<Token>,
        lp: Option<String>,
        rp: Option<String>,
        expression: Option<Box<CSTNode>>,
        fun_call: Option<Box<CSTNode>>,
    },
}

/// The value of a node: the same tree with texts in the place of strings.
#[allow(inconsistent_fields)]
pub ghost enum CstV {
    Assign {
        logical_or: Box<CstV>,
        assign_prime: Option<Box<CstV>>,
    },
    AssignPrime {
        op: Seq<char>,
        logical_or: Box<CstV>,
        assign_prime: Option<Box<CstV>>,
    },
    UnMatchedStmt {
        while_stmt: Option<Seq<char>>,
        if_stmt: Option<Seq<char>>,
        else_stmt: Option<Seq<char>>,
        lp: Option<Seq<char>>,
        rp: Option<Seq<char>>,
        expression: Option<Box<CstV>>,
        matched_stmt: Option<Box<CstV>>,
        unmatched_stmt: Option<Box<CstV>>,
        stmt: Option<Box<CstV>>,
    },
    StructSpecifier {
        struct_type: Seq<char>,
        id: Option<Seq<char>>,
        lc: Option<Seq<char>>,
        rc: Option<Seq<char>>,
        def_list: Option<Box<CstV>>,
    },
    Specifier {
        specifier_type: Option<Seq<char>>,
        struct_specifier: Option<Box<CstV>>,
    },
    ParaDec {
        spec: Box<CstV>,
        var_dec: Box<CstV>,
    },
    MatchedStmt {
        normal_stmt: Option<Box<CstV>>,
        while_stmt: Option<Seq<char>>,
        if_stmt: Option<Seq<char>>,
        else_stmt: Option<Seq<char>>,
        lp: Option<Seq<char>>,
        rp: Option<Seq<char>>,
        expression: Option<Box<CstV>>,
        matched_stmt_fore: Option<Box<CstV>>,
        matched_stmt_back: Option<Box<CstV>>,
    },
    StmtList {
        stmt: Box<CstV>,
        stmt_list: Option<Box<CstV>>,
    },
    Stmt {
        unmatched_stmt: Option<Box<CstV>>,
        matched_stmt: Option<Box<CstV>>,
    },
    NormalStmt {
        sepa: Option<Seq<char>>,
        expression: Option<Box<CstV>>,
        compst: Option<Box<CstV>>,
        return_stmt: Option<Seq<char>>,
    },
    Program(Box<CstV>),
    Expression(Box<CstV>),
    FunCall {
        id: Seq<char>,
        lp: Seq<char>,
        arguments: Option<Box<CstV>>,
        rp: Seq<char>,
    },
    FunDec {
        id: Seq<char>,
        lp: Seq<char>,
        var_list: Option<Box<CstV>>,
        rp: Seq<char>,
    },
    VarList {
        para_dec: Box<CstV>,
        sepa: Option<Seq<char>>,
        var_list: Option<Box<CstV>>,
    },
    VarDec {
        id: Option<Seq<char>>,
        var_dec: Option<Box<CstV>>,
        lt: Option<Seq<char>>,
        rt: Option<Seq<char>>,
        literal: Option<Seq<char>>,
    },
    LogicalOrPrime {
        op: Seq<char>,
        logical_and: Box<CstV>,
        logical_or_prime: Option<Box<CstV>>,
    },
    LogicalOr {
        logical_and: Box<CstV>,
        logical_or_prime: Option<Box<CstV>>,
    },
    LogicalAnd {
        equality: Box<CstV>,
        logical_and_prime: Option<Box<CstV>>,
    },
    LogicalAndPrime {
        op: Seq<char>,
        equality: Box<CstV>,
        logical_and_prime: Option<Box<CstV>>,
    },
    ExtDefList {
        ext_def: Box<CstV>,
        ext_def_list: Option<Box<CstV>>,
    },
    ExtDef {
        spec: Box<CstV>,
        ext_dec_list: Option<Box<CstV>>,
        fun_dec: Option<Box<CstV>>,
        compst: Option<Box<CstV>>,
        sepa: Option<Seq<char>>,
    },
    ExtDecList {
        var_dec: Box<CstV>,
        sepa: Option<Seq<char>>,
        ext_dec_list: Option<Box<CstV>>,
    },
    DefList {
        def: Box<CstV>,
        def_list: Option<Box<CstV>>,
    },
    Def {
        spec: Box<CstV>,
        dec_list: Box<CstV>,
        sepa: Seq<char>,
    },
    DecList {
        dec: Box<CstV>,
        sepa: Option<Seq<char>>,
        dec_list: Option<Box<CstV>>,
    },
    Dec {
        var_dec: Box<CstV>,
        op: Option<Seq<char>>,
        expression: Option<Box<CstV>>,
    },
    CompSt {
        lc: Seq<char>,
        def_list: Option<Box<CstV>>,
        stmt_list: Box<CstV>,
        rc: Seq<char>,
    },
    Arguments {
        arguments_tail: Option<Box<CstV>>,
        expression: Box<CstV>,
    },
    ArgumentsTail {
        separator: Seq<char>,
        expression: Box<CstV>,
    },
    Equality {
        comparison: Box<CstV>,
        equality_prime: Option<Box<CstV>>,
    },
    EqualityPrime {
        op: Seq<char>,
        comparison: Box<CstV>,
        equality_prime: Option<Box<CstV>>,
    },
    ComparisonPrime {
        op: Seq<char>,
        term: Box<CstV>,
        comparison_prime: Option<Box<CstV>>,
    },
    Comparison {
        term: Box<CstV>,
        comparison_prime: Option<Box<CstV>>,
    },
    Term {
        factor: Box<CstV>,
        term_prime: Option<Box<CstV>>,
    },
    TermPrime {
        op: Seq<char>,
        factor: Box<CstV>,
        term_prime: Option<Box<CstV>>,
    },
    Factor {
        unary: Box<CstV>,
        factor_prime: Option<Box<CstV>>,
    },
    FactorPrime {
        op: Seq<char>,
        unary: Box<CstV>,
        factor_prime: Option<Box<CstV>>,
    },
    Unary {
        op: Option<Seq<char>>,
        unary: Box<CstV>,
    },
    Primary {
        symbol: Option<TokenV>,
        lp: Option<Seq<char>>,
        rp: Option<Seq<char>>,
        expression: Option<Box<CstV>>,
        fun_call: Option<Box<CstV>>,
    },
}

/// The value of an optional string.
pub open spec fn opt_text(s: Option<String>) -> Option<Seq<char>> {
    match s {
        Some(t) => Some(t@),
        None => None,
    }
}

/// The value of an optional token.
pub open spec fn opt_token(t: Option<Token>) -> Option<TokenV> {
    match t {
        Some(t) => Some(t@),
        None => None,
    }
}

/// The value of a node.
pub open spec fn cst_view(node: CSTNode) -> CstV
    decreases node,
{
    match node {
        CSTNode::Assign { logical_or, assign_prime } => CstV::Assign {
            logical_or: Box::new(cst_view(*logical_or)),
            assign_prime: match assign_prime {
                Some(n) => Some(Box::new(cst_view(*n))),
                None => None,
            },
        },
        CSTNode::AssignPrime { op, logical_or, assign_prime } => CstV::AssignPrime {
            op: op@,
            logical_or: Box::new(cst_view(*logical_or)),
            assign_prime: match assign_prime {
                Some(n) => Some(Box::new(cst_view(*n))),
                None => None,
            },
        },
        CSTNode::UnMatchedStmt { while_stmt, if_stmt, else_stmt, lp, rp, expression, matched_stmt, unmatched_stmt, stmt } => CstV::UnMatchedStmt {
            while_stmt: opt_text(while_stmt),
            if_stmt: opt_text(if_stmt),
            else_stmt: opt_text(else_stmt),
            lp: opt_text(lp),
            rp: opt_text(rp),
            expression: match expression {
                Some(n) => Some(Box::new(cst_view(*n))),
                None => None,
            },
            matched_stmt: match matched_stmt {
                Some(n) => Some(Box::new(cst_view(*n))),
                None => None,
            },
            unmatched_stmt: match unmatched_stmt {
                Some(n) => Some(Box::new(cst_view(*n))),
                None => None,
            },
            stmt: match stmt {
                Some(n) => Some(Box::new(cst_view(*n))),
                None => None,
            },
        },
        CSTNode::StructSpecifier { struct_type, id, lc, rc, def_list } => CstV::StructSpecifier {
            struct_type: struct_type@,
            id: opt_text(id),
            lc: opt_text(lc),
            rc: opt_text(rc),
            def_list: match def_list {
                Some(n) => Some(Box::new(cst_view(*n))),
                None => None,
            },
        },
        CSTNode::Specifier { specifier_type, struct_specifier } => CstV::Specifier {
            specifier_type: opt_text(specifier_type),
            struct_specifier: match struct_specifier {
                Some(n) => Some(Box::new(cst_view(*n))),
                None => None,
            },
        },
        CSTNode::ParaDec { spec, var_dec } => CstV::ParaDec {
            spec: Box::new(cst_view(*spec)),
            var_dec: Box::new(cst_view(*var_dec)),
        },
        CSTNode::MatchedStmt { normal_stmt, while_stmt, if_stmt, else_stmt, lp, rp, expression, matched_stmt_fore, matched_stmt_back } => CstV::MatchedStmt {
            normal_stmt: match normal_stmt {
                Some(n) => Some(Box::new(cst_view(*n))),
                None => None,
            },
            while_stmt: opt_text(while_stmt),
            if_stmt: opt_text(if_stmt),
            else_stmt: opt_text(else_stmt),
            lp: opt_text(lp),
            rp: opt_text(rp),
            expression: match expression {
                Some(n) => Some(Box::new(cst_view(*n))),
                None => None,
            },
            matched_stmt_fore: match matched_stmt_fore {
                Some(n) => Some(Box::new(cst_view(*n))),
                None => None,
            },
            matched_stmt_back: match matched_stmt_back {
                Some(n) => Some(Box::new(cst_view(*n))),
                None => None,
            },
        },
        CSTNode::StmtList { stmt, stmt_list } => CstV::StmtList {
            stmt: Box::new(cst_view(*stmt)),
            stmt_list: match stmt_list {
                Some(n) => Some(Box::new(cst_view(*n))),
                None => None,
            },
        },
        CSTNode::Stmt { unmatched_stmt, matched_stmt } => CstV::Stmt {
            unmatched_stmt: match unmatched_stmt {
                Some(n) => Some(Box::new(cst_view(*n))),
                None => None,
            },
            matched_stmt: match matched_stmt {
                Some(n) => Some(Box::new(cst_view(*n))),
                None => None,
            },
        },
        CSTNode::NormalStmt { sepa, expression, compst, return_stmt } => CstV::NormalStmt {
            sepa: opt_text(sepa),
            expression: match expression {
                Some(n) => Some(Box::new(cst_view(*n))),
                None => None,
            },
            compst: match compst {
                Some(n) => Some(Box::new(cst_view(*n))),
                None => None,
            },
            return_stmt: opt_text(return_stmt),
        },
        CSTNode::Program(inner) => CstV::Program(Box::new(cst_view(*inner))),
        CSTNode::Expression(inner) => CstV::Expression(Box::new(cst_view(*inner))),
        CSTNode::FunCall { id, lp, arguments, rp } => CstV::FunCall {
            id: id@,
            lp: lp@,
            arguments: match arguments {
                Some(n) => Some(Box::new(cst_view(*n))),
                None => None,
            },
            rp: rp@,
        },
        CSTNode::FunDec { id, lp, var_list, rp } => CstV::FunDec {
            id: id@,
            lp: lp@,
            var_list: match var_list {
                Some(n) => Some(Box::new(cst_view(*n))),
                None => None,
            },
            rp: rp@,
        },
        CSTNode::VarList { para_dec, sepa, var_list } => CstV::VarList {
            para_dec: Box::new(cst_view(*para_dec)),
            sepa: opt_text(sepa),
            var_list: match var_list {
                Some(n) => Some(Box::new(cst_view(*n))),
                None => None,
            },
        },
        CSTNode::VarDec { id, var_dec, lt, rt, literal } => CstV::VarDec {
            id: opt_text(id),
            var_dec: match var_dec {
                Some(n) => Some(Box::new(cst_view(*n))),
                None => None,
            },
            lt: opt_text(lt),
            rt: opt_text(rt),
            literal: opt_text(literal),
        },
        CSTNode::LogicalOrPrime { op, logical_and, logical_or_prime } => CstV::LogicalOrPrime {
            op: op@,
            logical_and: Box::new(cst_view(*logical_and)),
            logical_or_prime: match logical_or_prime {
                Some(n) => Some(Box::new(cst_view(*n))),
                None => None,
            },
        },
        CSTNode::LogicalOr { logical_and, logical_or_prime } => CstV::LogicalOr {
            logical_and: Box::new(cst_view(*logical_and)),
            logical_or_prime: match logical_or_prime {
                Some(n) => Some(Box::new(cst_view(*n))),
                None => None,
            },
        },
        CSTNode::LogicalAnd { equality, logical_and_prime } => CstV::LogicalAnd {
            equality: Box::new(cst_view(*equality)),
            logical_and_prime: match logical_and_prime {
                Some(n) => Some(Box::new(cst_view(*n))),
                None => None,
            },
        },
        CSTNode::LogicalAndPrime { op, equality, logical_and_prime } => CstV::LogicalAndPrime {
            op: op@,
            equality: Box::new(cst_view(*equality)),
            logical_and_prime: match logical_and_prime {
                Some(n) => Some(Box::new(cst_view(*n))),
                None => None,
            },
        },
        CSTNode::ExtDefList { ext_def, ext_def_list } => CstV::ExtDefList {
            ext_def: Box::new(cst_view(*ext_def)),
            ext_def_list: match ext_def_list {
                Some(n) => Some(Box::new(cst_view(*n))),
                None => None,
            },
        },
        CSTNode::ExtDef { spec, ext_dec_list, fun_dec, compst, sepa } => CstV::ExtDef {
            spec: Box::new(cst_view(*spec)),
            ext_dec_list: match ext_dec_list {
                Some(n) => Some(Box::new(cst_view(*n))),
                None => None,
            },
            fun_dec: match fun_dec {
                Some(n) => Some(Box::new(cst_view(*n))),
                None => None,
            },
            compst: match compst {
                Some(n) => Some(Box::new(cst_view(*n))),
                None => None,
            },
            sepa: opt_text(sepa),
        },
        CSTNode::ExtDecList { var_dec, sepa, ext_dec_list } => CstV::ExtDecList {
            var_dec: Box::new(cst_view(*var_dec)),
            sepa: opt_text(sepa),
            ext_dec_list: match ext_dec_list {
                Some(n) => Some(Box::new(cst_view(*n))),
                None => None,
            },
        },
        CSTNode::DefList { def, def_list } => CstV::DefList {
            def: Box::new(cst_view(*def)),
            def_list: match def_list {
                Some(n) => Some(Box::new(cst_view(*n))),
                None => None,
            },
        },
        CSTNode::Def { spec, dec_list, sepa } => CstV::Def {
            spec: Box::new(cst_view(*spec)),
            dec_list: Box::new(cst_view(*dec_list)),
            sepa: sepa@,
        },
        CSTNode::DecList { dec, sepa, dec_list } => CstV::DecList {
            dec: Box::new(cst_view(*dec)),
            sepa: opt_text(sepa),
            dec_list: match dec_list {
                Some(n) => Some(Box::new(cst_view(*n))),
                None => None,
            },
        },
        CSTNode::Dec { var_dec, op, expression } => CstV::Dec {
            var_dec: Box::new(cst_view(*var_dec)),
            op: opt_text(op),
            expression: match expression {
                Some(n) => Some(Box::new(cst_view(*n))),
                None => None,
            },
        },
        CSTNode::CompSt { lc, def_list, stmt_list, rc } => CstV::CompSt {
            lc: lc@,
            def_list: match def_list {
                Some(n) => Some(Box::new(cst_view(*n))),
                None => None,
            },
            stmt_list: Box::new(cst_view(*stmt_list)),
            rc: rc@,
        },
        CSTNode::Arguments { arguments_tail, expression } => CstV::Arguments {
            arguments_tail: match arguments_tail {
                Some(n) => Some(Box::new(cst_view(*n))),
                None => None,
            },
            expression: Box::new(cst_view(*expression)),
        },
        CSTNode::ArgumentsTail { separator, expression } => CstV::ArgumentsTail {
            separator: separator@,
            expression: Box::new(cst_view(*expression)),
        },
        CSTNode::Equality { comparison, equality_prime } => CstV::Equality {
            comparison: Box::new(cst_view(*comparison)),
            equality_prime: match equality_prime {
                Some(n) => Some(Box::new(cst_view(*n))),
                None => None,
            },
        },
        CSTNode::EqualityPrime { op, comparison, equality_prime } => CstV::EqualityPrime {
            op: op@,
            comparison: Box::new(cst_view(*comparison)),
            equality_prime: match equality_prime {
                Some(n) => Some(Box::new(cst_view(*n))),
                None => None,
            },
        },
        CSTNode::ComparisonPrime { op, term, comparison_prime } => CstV::ComparisonPrime {
            op: op@,
            term: Box::new(cst_view(*term)),
            comparison_prime: match comparison_prime {
                Some(n) => Some(Box::new(cst_view(*n))),
                None => None,
            },
        },
        CSTNode::Comparison { term, comparison_prime } => CstV::Comparison {
            term: Box::new(cst_view(*term)),
            comparison_prime: match comparison_prime {
                Some(n) => Some(Box::new(cst_view(*n))),
                None => None,
            },
        },
        CSTNode::Term { factor, term_prime } => CstV::Term {
            factor: Box::new(cst_view(*factor)),
            term_prime: match term_prime {
                Some(n) => Some(Box::new(cst_view(*n))),
                None => None,
            },
        },
        CSTNode::TermPrime { op, factor, term_prime } => CstV::TermPrime {
            op: op@,
            factor: Box::new(cst_view(*factor)),
            term_prime: match term_prime {
                Some(n) => Some(Box::new(cst_view(*n))),
                None => None,
            },
        },
        CSTNode::Factor { unary, factor_prime } => CstV::Factor {
            unary: Box::new(cst_view(*unary)),
            factor_prime: match factor_prime {
                Some(n) => Some(Box::new(cst_view(*n))),
                None => None,
            },
        },
        CSTNode::FactorPrime { op, unary, factor_prime } => CstV::FactorPrime {
            op: op@,
            unary: Box::new(cst_view(*unary)),
            factor_prime: match factor_prime {
                Some(n) => Some(Box::new(cst_view(*n))),
                None => None,
            },
        },
        CSTNode::Unary { op, unary } => CstV::Unary {
            op: opt_text(op),
            unary: Box::new(cst_view(*unary)),
        },
        CSTNode::Primary { symbol, lp, rp, expression, fun_call } => CstV::Primary {
            symbol: opt_token(symbol),
            lp: opt_text(lp),
            rp: opt_text(rp),
            expression: match expression {
                Some(n) => Some(Box::new(cst_view(*n))),
                None => None,
            },
            fun_call: match fun_call {
                Some(n) => Some(Box::new(cst_view(*n))),
                None => None,
            },
        },
    }
}

impl View for CSTNode {
    type V = CstV;

    open spec fn view(&self) -> CstV {
        cst_view(*self)
    }
}

/// The values of a list of nodes.
pub open spec fn node_views(nodes: Seq<CSTNode>) -> Seq<CstV> {
    nodes.map_values(|n: CSTNode| n@)
}

/// The nonterminals of the grammar.
#[derive(Debug, Clone, Copy, PartialEq, Eq, Structural)]
pub enum NonTerm {
    Accept,
    Arguments,
    ArgumentsTail,
    CompSt,
    Dec,
    DecList,
    Def,
    DefList,
    ExtDecList,
    ExtDef,
    ExtDefList,
    FunCall,
    FunDec,
    MatchedStmt,
    NormalStmt,
    ParaDec,
    Program,
    Specifier,
    Stmt,
    StmtList,
    StructSpecifier,
    UnMatchedStmt,
    VarDec,
    VarList,
    Assign,
    AssignPrime,
    Comparison,
    ComparisonPrime,
    Equality,
    EqualityPrime,
    Expression,
    Factor,
    FactorPrime,
    LogicalAnd,
    LogicalAndPrime,
    LogicalOr,
    LogicalOrPrime,
    Primary,
    Term,
    TermPrime,
    Unary,
}

impl NonTerm {
    /// The column of the nonterminal in the goto table.
    pub open spec fn column(self) -> nat {
        match self {
            NonTerm::Accept => 0,
            NonTerm::Arguments => 1,
            NonTerm::ArgumentsTail => 2,
            NonTerm::CompSt => 3,
            NonTerm::Dec => 4,
            NonTerm::DecList => 5,
            NonTerm::Def => 6,
            NonTerm::DefList => 7,
            NonTerm::ExtDecList => 8,
            NonTerm::ExtDef => 9,
            NonTerm::ExtDefList => 10,
            NonTerm::FunCall => 11,
            NonTerm::FunDec => 12,
            NonTerm::MatchedStmt => 13,
            NonTerm::NormalStmt => 14,
            NonTerm::ParaDec => 15,
            NonTerm::Program => 16,
            NonTerm::Specifier => 17,
            NonTerm::Stmt => 18,
            NonTerm::StmtList => 19,
            NonTerm::StructSpecifier => 20,
            NonTerm::UnMatchedStmt => 21,
            NonTerm::VarDec => 22,
            NonTerm::VarList => 23,
            NonTerm::Assign => 24,
            NonTerm::AssignPrime => 25,
            NonTerm::Comparison => 26,
            NonTerm::ComparisonPrime => 27,
            NonTerm::Equality => 28,
            NonTerm::EqualityPrime => 29,
            NonTerm::Expression => 30,
            NonTerm::Factor => 31,
            NonTerm::FactorPrime => 32,
            NonTerm::LogicalAnd => 33,
            NonTerm::LogicalAndPrime => 34,
            NonTerm::LogicalOr => 35,
            NonTerm::LogicalOrPrime => 36,
            NonTerm::Primary => 37,
            NonTerm::Term => 38,
            NonTerm::TermPrime => 39,
            NonTerm::Unary => 40,
        }
    }

    /// The column of the nonterminal in the goto table.
    pub fn to_index(&self) -> (r: usize)
        ensures
            r == self.column(),
    {
        match self {
            NonTerm::Accept => 0,
            NonTerm::Arguments => 1,
            NonTerm::ArgumentsTail => 2,
            NonTerm::CompSt => 3,
            NonTerm::Dec => 4,
            NonTerm::DecList => 5,
            NonTerm::Def => 6,
            NonTerm::DefList => 7,
            NonTerm::ExtDecList => 8,
            NonTerm::ExtDef => 9,
            NonTerm::ExtDefList => 10,
            NonTerm::FunCall => 11,
            NonTerm::FunDec => 12,
            NonTerm::MatchedStmt => 13,
            NonTerm::NormalStmt => 14,
            NonTerm::ParaDec => 15,
            NonTerm::Program => 16,
            NonTerm::Specifier => 17,
            NonTerm::Stmt => 18,
            NonTerm::StmtList => 19,
            NonTerm::StructSpecifier => 20,
            NonTerm::UnMatchedStmt => 21,
            NonTerm::VarDec => 22,
            NonTerm::VarList => 23,
            NonTerm::Assign => 24,
            NonTerm::AssignPrime => 25,
            NonTerm::Comparison => 26,
            NonTerm::ComparisonPrime => 27,
            NonTerm::Equality => 28,
            NonTerm::EqualityPrime => 29,
            NonTerm::Expression => 30,
            NonTerm::Factor => 31,
            NonTerm::FactorPrime => 32,
            NonTerm::LogicalAnd => 33,
            NonTerm::LogicalAndPrime => 34,
            NonTerm::LogicalOr => 35,
            NonTerm::LogicalOrPrime => 36,
            NonTerm::Primary => 37,
            NonTerm::Term => 38,
            NonTerm::TermPrime => 39,
            NonTerm::Unary => 40,
        }
    }
}

/// What the machine does in a state at a token.
#[derive(Debug, Clone, Copy, PartialEq, Eq, Structural)]
pub enum Action {
    /// Shift the token and go to the state of this number.
    Shift(usize),
    /// Reduce by the production of this number.
    Reduce(usize),
    /// The input is a program.
    Accept,
    /// The token cannot stand here.
    Error,
}

/// The tables of the machine: an action for each state and token column,
/// and the state to go to for each state and nonterminal column, where
/// there is one.
pub struct Tables {
    pub action: Vec<Vec<Action>>,
    pub goto: Vec<Vec<Option<usize>>>,
}

// ---------------------------------------------------------------------
// Reductions
// ---------------------------------------------------------------------

/// What a reduction yields: the nonterminal made, the number of states
/// that it takes off the state stack, and the two stacks afterwards.
pub ghost struct Reduction {
    pub lhs: NonTerm,
    pub rhs_len: nat,
    pub syms: Seq<TokenV>,
    pub nodes: Seq<CstV>,
}

/// The entry number `j` from the top of the stack `s`.
pub open spec fn top<T>(s: Seq<T>, j: int) -> T {
    s[s.len() - 1 - j]
}

/// The reduction that takes `ns` tokens and `nc` nodes off the stacks
/// and leaves `node`; there is none where the stacks hold too little.
pub open spec fn reduced(
    lhs: NonTerm,
    rhs_len: nat,
    ns: nat,
    nc: nat,
    syms: Seq<TokenV>,
    nodes: Seq<CstV>,
    node: CstV,
) -> Option<Reduction> {
    if syms.len() < ns || nodes.len() < nc {
        None
    } else {
        Some(
            Reduction {
                lhs,
                rhs_len,
                syms: syms.take(syms.len() - ns),
                nodes: nodes.take(nodes.len() - nc).push(node),
            },
        )
    }
}

/// The reduction by production `rule` on the stacks `syms` and `nodes`.
/// Production 0 makes the start symbol and leaves the stacks alone. There
/// is no reduction where the stacks hold too little, or where no
/// production has the number.
pub open spec fn reduce_spec(rule: nat, syms: Seq<TokenV>, nodes: Seq<CstV>) -> Option<Reduction> {
    if rule == 0 {
        Some(Reduction { lhs: NonTerm::Accept, rhs_len: 0, syms, nodes })
    } else if rule == 1 {
        reduced(NonTerm::Arguments, 2, 0, 2, syms, nodes, (CstV::Arguments { arguments_tail: Some(Box::new(top(nodes, 0))), expression: Box::new(top(nodes, 1)) }))
    } else if rule == 2 {
        reduced(NonTerm::Arguments, 1, 0, 1, syms, nodes, (CstV::Arguments { arguments_tail: None, expression: Box::new(top(nodes, 0)) }))
    } else if rule == 3 {
        reduced(NonTerm::ArgumentsTail, 2, 1, 1, syms, nodes, (CstV::ArgumentsTail { separator: top(syms, 0).value, expression: Box::new(top(nodes, 0)) }))
    } else if rule == 4 {
        reduced(NonTerm::CompSt, 4, 2, 2, syms, nodes, (CstV::CompSt { lc: top(syms, 1).value, def_list: Some(Box::new(top(nodes, 1))), stmt_list: Box::new(top(nodes, 0)), rc: top(syms, 0).value }))
    } else if rule == 5 {
        reduced(NonTerm::CompSt, 3, 2, 1, syms, nodes, (CstV::CompSt { lc: top(syms, 1).value, def_list: None, stmt_list: Box::new(top(nodes, 0)), rc: top(syms, 0).value }))
    } else if rule == 6 {
        reduced(NonTerm::Dec, 1, 0, 1, syms, nodes, (CstV::Dec { var_dec: Box::new(top(nodes, 0)), op: None, expression: None }))
    } else if rule == 7 {
        reduced(NonTerm::Dec, 3, 1, 2, syms, nodes, (CstV::Dec { var_dec: Box::new(top(nodes, 1)), op: Some(top(syms, 0).value), expression: Some(Box::new(top(nodes, 0))) }))
    } else if rule == 8 {
        reduced(NonTerm::DecList, 1, 0, 1, syms, nodes, (CstV::DecList { dec: Box::new(top(nodes, 0)), sepa: None, dec_list: None }))
    } else if rule == 9 {
        reduced(NonTerm::DecList, 3, 1, 2, syms, nodes, (CstV::DecList { dec: Box::new(top(nodes, 1)), sepa: Some(top(syms, 0).value), dec_list: Some(Box::new(top(nodes, 0))) }))
    } else if rule == 10 {
        reduced(NonTerm::Def, 3, 1, 2, syms, nodes, (CstV::Def { spec: Box::new(top(nodes, 1)), dec_list: Box::new(top(nodes, 0)), sepa: top(syms, 0).value }))
    } else if rule == 11 {
        reduced(NonTerm::DefList, 2, 0, 2, syms, nodes, (CstV::DefList { def: Box::new(top(nodes, 1)), def_list: Some(Box::new(top(nodes, 0))) }))
    } else if rule == 12 {
        reduced(NonTerm::DefList, 1, 0, 1, syms, nodes, (CstV::DefList { def: Box::new(top(nodes, 0)), def_list: None }))
    } else if rule == 13 {
        reduced(NonTerm::ExtDecList, 1, 0, 1, syms, nodes, (CstV::ExtDecList { var_dec: Box::new(top(nodes, 0)), sepa: None, ext_dec_list: None }))
    } else if rule == 14 {
        reduced(NonTerm::ExtDecList, 3, 1, 2, syms, nodes, (CstV::ExtDecList { var_dec: Box::new(top(nodes, 1)), sepa: Some(top(syms, 0).value), ext_dec_list: Some(Box::new(top(nodes, 0))) }))
    } else if rule == 15 {
        reduced(NonTerm::ExtDef, 3, 1, 2, syms, nodes, (CstV::ExtDef { spec: Box::new(top(nodes, 1)), ext_dec_list: Some(Box::new(top(nodes, 0))), fun_dec: None, compst: None, sepa: Some(top(syms, 0).value) }))
    } else if rule == 16 {
        reduced(NonTerm::ExtDef, 2, 1, 1, syms, nodes, (CstV::ExtDef { spec: Box::new(top(nodes, 0)), ext_dec_list: None, fun_dec: None, compst: None, sepa: Some(top(syms, 0).value) }))
    } else if rule == 17 {
        reduced(NonTerm::ExtDef, 3, 0, 3, syms, nodes, (CstV::ExtDef { spec: Box::new(top(nodes, 2)), ext_dec_list: None, fun_dec: Some(Box::new(top(nodes, 1))), compst: Some(Box::new(top(nodes, 0))), sepa: None }))
    } else if rule == 18 {
        reduced(NonTerm::ExtDefList, 2, 0, 2, syms, nodes, (CstV::ExtDefList { ext_def: Box::new(top(nodes, 1)), ext_def_list: Some(Box::new(top(nodes, 0))) }))
    } else if rule == 19 {
        reduced(NonTerm::ExtDefList, 1, 0, 1, syms, nodes, (CstV::ExtDefList { ext_def: Box::new(top(nodes, 0)), ext_def_list: None }))
    } else if rule == 20 {
        reduced(NonTerm::FunCall, 4, 3, 1, syms, nodes, (CstV::FunCall { id: top(syms, 2).value, lp: top(syms, 1).value, arguments: Some(Box::new(top(nodes, 0))), rp: top(syms, 0).value }))
    } else if rule == 21 {
        reduced(NonTerm::FunCall, 3, 3, 0, syms, nodes, (CstV::FunCall { id: top(syms, 2).value, lp: top(syms, 1).value, arguments: None, rp: top(syms, 0).value }))
    } else if rule == 22 {
        reduced(NonTerm::FunDec, 4, 3, 1, syms, nodes, (CstV::FunDec { id: top(syms, 2).value, lp: top(syms, 1).value, var_list: Some(Box::new(top(nodes, 0))), rp: top(syms, 0).value }))
    } else if rule == 23 {
        reduced(NonTerm::FunDec, 3, 3, 0, syms, nodes, (CstV::FunDec { id: top(syms, 2).value, lp: top(syms, 1).value, var_list: None, rp: top(syms, 0).value }))
    } else if rule == 24 {
        reduced(NonTerm::MatchedStmt, 1, 0, 1, syms, nodes, (CstV::MatchedStmt { normal_stmt: Some(Box::new(top(nodes, 0))), while_stmt: None, if_stmt: None, else_stmt: None, lp: None, rp: None, expression: None, matched_stmt_fore: None, matched_stmt_back: None }))
    } else if rule == 25 {
        reduced(NonTerm::MatchedStmt, 5, 3, 2, syms, nodes, (CstV::MatchedStmt { normal_stmt: None, while_stmt: Some(top(syms, 2).value), if_stmt: None, else_stmt: None, lp: Some(top(syms, 1).value), rp: Some(top(syms, 0).value), expression: Some(Box::new(top(nodes, 1))), matched_stmt_fore: Some(Box::new(top(nodes, 0))), matched_stmt_back: None }))
    } else if rule == 26 {
        reduced(NonTerm::MatchedStmt, 7, 4, 3, syms, nodes, (CstV::MatchedStmt { normal_stmt: None, while_stmt: None, if_stmt: Some(top(syms, 3).value), else_stmt: Some(top(syms, 0).value), lp: Some(top(syms, 2).value), rp: Some(top(syms, 1).value), expression: Some(Box::new(top(nodes, 2))), matched_stmt_fore: Some(Box::new(top(nodes, 1))), matched_stmt_back: Some(Box::new(top(nodes, 0))) }))
    } else if rule == 27 {
        reduced(NonTerm::NormalStmt, 2, 1, 1, syms, nodes, (CstV::NormalStmt { sepa: Some(top(syms, 0).value), expression: Some(Box::new(top(nodes, 0))), compst: None, return_stmt: None }))
    } else if rule == 28 {
        reduced(NonTerm::NormalStmt, 1, 0, 1, syms, nodes, (CstV::NormalStmt { sepa: None, expression: None, compst: Some(Box::new(top(nodes, 0))), return_stmt: None }))
    } else if rule == 29 {
        reduced(NonTerm::NormalStmt, 3, 2, 1, syms, nodes, (CstV::NormalStmt { sepa: Some(top(syms, 0).value), expression: Some(Box::new(top(nodes, 0))), compst: None, return_stmt: Some(top(syms, 1).value) }))
    } else if rule == 30 {
        reduced(NonTerm::ParaDec, 2, 0, 2, syms, nodes, (CstV::ParaDec { spec: Box::new(top(nodes, 1)), var_dec: Box::new(top(nodes, 0)) }))
    } else if rule == 31 {
        reduced(NonTerm::Program, 1, 0, 1, syms, nodes, CstV::Program(Box::new(top(nodes, 0))))
    } else if rule == 32 {
        reduced(NonTerm::Specifier, 1, 1, 0, syms, nodes, (CstV::Specifier { specifier_type: Some(top(syms, 0).value), struct_specifier: None }))
    } else if rule == 33 {
        reduced(NonTerm::Specifier, 1, 0, 1, syms, nodes, (CstV::Specifier { specifier_type: None, struct_specifier: Some(Box::new(top(nodes, 0))) }))
    } else if rule == 34 {
        reduced(NonTerm::Stmt, 1, 0, 1, syms, nodes, (CstV::Stmt { unmatched_stmt: None, matched_stmt: Some(Box::new(top(nodes, 0))) }))
    } else if rule == 35 {
        reduced(NonTerm::Stmt, 1, 0, 1, syms, nodes, (CstV::Stmt { unmatched_stmt: Some(Box::new(top(nodes, 0))), matched_stmt: None }))
    } else if rule == 36 {
        reduced(NonTerm::StmtList, 2, 0, 2, syms, nodes, (CstV::StmtList { stmt: Box::new(top(nodes, 1)), stmt_list: Some(Box::new(top(nodes, 0))) }))
    } else if rule == 37 {
        reduced(NonTerm::StmtList, 1, 0, 1, syms, nodes, (CstV::StmtList { stmt: Box::new(top(nodes, 0)), stmt_list: None }))
    } else if rule == 38 {
        reduced(NonTerm::StructSpecifier, 5, 4, 1, syms, nodes, (CstV::StructSpecifier { struct_type: top(syms, 3).value, id: Some(top(syms, 2).value), lc: Some(top(syms, 1).value), rc: Some(top(syms, 0).value), def_list: Some(Box::new(top(nodes, 0))) }))
    } else if rule == 39 {
        reduced(NonTerm::StructSpecifier, 4, 3, 1, syms, nodes, (CstV::StructSpecifier { struct_type: top(syms, 2).value, id: None, lc: Some(top(syms, 1).value), rc: Some(top(syms, 0).value), def_list: Some(Box::new(top(nodes, 0))) }))
    } else if rule == 40 {
        reduced(NonTerm::StructSpecifier, 2, 2, 0, syms, nodes, (CstV::StructSpecifier { struct_type: top(syms, 1).value, id: Some(top(syms, 0).value), lc: None, rc: None, def_list: None }))
    } else if rule == 41 {
        reduced(NonTerm::UnMatchedStmt, 5, 3, 2, syms, nodes, (CstV::UnMatchedStmt { while_stmt: None, if_stmt: Some(top(syms, 2).value), else_stmt: None, lp: Some(top(syms, 1).value), rp: Some(top(syms, 0).value), expression: Some(Box::new(top(nodes, 1))), matched_stmt: None, unmatched_stmt: None, stmt: Some(Box::new(top(nodes, 0))) }))
    } else if rule == 42 {
        reduced(NonTerm::UnMatchedStmt, 7, 4, 3, syms, nodes, (CstV::UnMatchedStmt { while_stmt: None, if_stmt: Some(top(syms, 3).value), else_stmt: Some(top(syms, 0).value), lp: Some(top(syms, 2).value), rp: Some(top(syms, 1).value), expression: Some(Box::new(top(nodes, 2))), matched_stmt: Some(Box::new(top(nodes, 1))), unmatched_stmt: Some(Box::new(top(nodes, 0))), stmt: None }))
    } else if rule == 43 {
        reduced(NonTerm::UnMatchedStmt, 5, 3, 2, syms, nodes, (CstV::UnMatchedStmt { while_stmt: Some(top(syms, 2).value), if_stmt: None, else_stmt: None, lp: Some(top(syms, 1).value), rp: Some(top(syms, 0).value), expression: Some(Box::new(top(nodes, 1))), matched_stmt: None, unmatched_stmt: Some(Box::new(top(nodes, 0))), stmt: None }))
    } else if rule == 44 {
        reduced(NonTerm::VarDec, 1, 1, 0, syms, nodes, (CstV::VarDec { id: Some(top(syms, 0).value), var_dec: None, lt: None, rt: None, literal: None }))
    } else if rule == 45 {
        reduced(NonTerm::VarDec, 4, 3, 1, syms, nodes, (CstV::VarDec { id: None, var_dec: Some(Box::new(top(nodes, 0))), lt: Some(top(syms, 2).value), rt: Some(top(syms, 0).value), literal: Some(top(syms, 1).value) }))
    } else if rule == 46 {
        reduced(NonTerm::VarList, 3, 1, 2, syms, nodes, (CstV::VarList { para_dec: Box::new(top(nodes, 1)), sepa: Some(top(syms, 0).value), var_list: Some(Box::new(top(nodes, 0))) }))
    } else if rule == 47 {
        reduced(NonTerm::VarList, 1, 0, 1, syms, nodes, (CstV::VarList { para_dec: Box::new(top(nodes, 0)), sepa: None, var_list: None }))
    } else if rule == 48 {
        reduced(NonTerm::Assign, 1, 0, 1, syms, nodes, (CstV::Assign { logical_or: Box::new(top(nodes, 0)), assign_prime: None }))
    } else if rule == 49 {
        reduced(NonTerm::Assign, 2, 0, 2, syms, nodes, (CstV::Assign { logical_or: Box::new(top(nodes, 1)), assign_prime: Some(Box::new(top(nodes, 0))) }))
    } else if rule == 50 {
        reduced(NonTerm::AssignPrime, 3, 1, 2, syms, nodes, (CstV::AssignPrime { op: top(syms, 0).value, logical_or: Box::new(top(nodes, 1)), assign_prime: Some(Box::new(top(nodes, 0))) }))
    } else if rule == 51 {
        reduced(NonTerm::AssignPrime, 2, 1, 1, syms, nodes, (CstV::AssignPrime { op: top(syms, 0).value, logical_or: Box::new(top(nodes, 0)), assign_prime: None }))
    } else if rule == 52 {
        reduced(NonTerm::Comparison, 2, 0, 2, syms, nodes, (CstV::Comparison { term: Box::new(top(nodes, 1)), comparison_prime: Some(Box::new(top(nodes, 0))) }))
    } else if rule == 53 {
        reduced(NonTerm::Comparison, 1, 0, 1, syms, nodes, (CstV::Comparison { term: Box::new(top(nodes, 0)), comparison_prime: None }))
    } else if rule == 54 || rule == 55 || rule == 56 || rule == 57 {
        reduced(NonTerm::ComparisonPrime, 3, 1, 2, syms, nodes, (CstV::ComparisonPrime { op: top(syms, 0).value, term: Box::new(top(nodes, 1)), comparison_prime: Some(Box::new(top(nodes, 0))) }))
    } else if rule == 58 || rule == 59 || rule == 60 || rule == 61 {
        reduced(NonTerm::ComparisonPrime, 2, 1, 1, syms, nodes, (CstV::ComparisonPrime { op: top(syms, 0).value, term: Box::new(top(nodes, 0)), comparison_prime: None }))
    } else if rule == 62 {
        reduced(NonTerm::Equality, 2, 0, 2, syms, nodes, (CstV::Equality { comparison: Box::new(top(nodes, 1)), equality_prime: Some(Box::new(top(nodes, 0))) }))
    } else if rule == 63 {
        reduced(NonTerm::Equality, 1, 0, 1, syms, nodes, (CstV::Equality { comparison: Box::new(top(nodes, 0)), equality_prime: None }))
    } else if rule == 64 || rule == 65 {
        reduced(NonTerm::EqualityPrime, 3, 1, 2, syms, nodes, (CstV::EqualityPrime { op: top(syms, 0).value, comparison: Box::new(top(nodes, 1)), equality_prime: Some(Box::new(top(nodes, 0))) }))
    } else if rule == 66 || rule == 67 {
        reduced(NonTerm::EqualityPrime, 2, 1, 1, syms, nodes, (CstV::EqualityPrime { op: top(syms, 0).value, comparison: Box::new(top(nodes, 0)), equality_prime: None }))
    } else if rule == 68 {
        reduced(NonTerm::Expression, 1, 0, 1, syms, nodes, CstV::Expression(Box::new(top(nodes, 0))))
    } else if rule == 69 {
        reduced(NonTerm::Factor, 2, 0, 2, syms, nodes, (CstV::Factor { unary: Box::new(top(nodes, 1)), factor_prime: Some(Box::new(top(nodes, 0))) }))
    } else if rule == 70 {
        reduced(NonTerm::Factor, 1, 0, 1, syms, nodes, (CstV::Factor { unary: Box::new(top(nodes, 0)), factor_prime: None }))
    } else if rule == 71 || rule == 72 {
        reduced(NonTerm::FactorPrime, 3, 1, 2, syms, nodes, (CstV::FactorPrime { op: top(syms, 0).value, unary: Box::new(top(nodes, 1)), factor_prime: Some(Box::new(top(nodes, 0))) }))
    } else if rule == 73 || rule == 74 {
        reduced(NonTerm::FactorPrime, 2, 1, 1, syms, nodes, (CstV::FactorPrime { op: top(syms, 0).value, unary: Box::new(top(nodes, 0)), factor_prime: None }))
    } else if rule == 75 {
        reduced(NonTerm::LogicalAnd, 2, 0, 2, syms, nodes, (CstV::LogicalAnd { equality: Box::new(top(nodes, 1)), logical_and_prime: Some(Box::new(top(nodes, 0))) }))
    } else if rule == 76 {
        reduced(NonTerm::LogicalAnd, 1, 0, 1, syms, nodes, (CstV::LogicalAnd { equality: Box::new(top(nodes, 0)), logical_and_prime: None }))
    } else if rule == 77 {
        reduced(NonTerm::LogicalAndPrime, 3, 1, 2, syms, nodes, (CstV::LogicalAndPrime { op: top(syms, 0).value, equality: Box::new(top(nodes, 1)), logical_and_prime: Some(Box::new(top(nodes, 0))) }))
    } else if rule == 78 {
        reduced(NonTerm::LogicalAndPrime, 2, 1, 1, syms, nodes, (CstV::LogicalAndPrime { op: top(syms, 0).value, equality: Box::new(top(nodes, 0)), logical_and_prime: None }))
    } else if rule == 79 {
        reduced(NonTerm::LogicalOr, 2, 0, 2, syms, nodes, (CstV::LogicalOr { logical_and: Box::new(top(nodes, 1)), logical_or_prime: Some(Box::new(top(nodes, 0))) }))
    } else if rule == 80 {
        reduced(NonTerm::LogicalOr, 1, 0, 1, syms, nodes, (CstV::LogicalOr { logical_and: Box::new(top(nodes, 0)), logical_or_prime: None }))
    } else if rule == 81 {
        reduced(NonTerm::LogicalOrPrime, 3, 1, 2, syms, nodes, (CstV::LogicalOrPrime { op: top(syms, 0).value, logical_and: Box::new(top(nodes, 1)), logical_or_prime: Some(Box::new(top(nodes, 0))) }))
    } else if rule == 82 {
        reduced(NonTerm::LogicalOrPrime, 2, 1, 1, syms, nodes, (CstV::LogicalOrPrime { op: top(syms, 0).value, logical_and: Box::new(top(nodes, 0)), logical_or_prime: None }))
    } else if rule == 83 || rule == 84 || rule == 85 || rule == 86 {
        reduced(NonTerm::Primary, 1, 1, 0, syms, nodes, (CstV::Primary { symbol: Some(top(syms, 0)), lp: None, rp: None, expression: None, fun_call: None }))
    } else if rule == 87 {
        reduced(NonTerm::Primary, 3, 2, 1, syms, nodes, (CstV::Primary { symbol: None, lp: Some(top(syms, 1).value), rp: Some(top(syms, 0).value), expression: Some(Box::new(top(nodes, 0))), fun_call: None }))
    } else if rule == 88 {
        reduced(NonTerm::Primary, 1, 0, 1, syms, nodes, (CstV::Primary { symbol: None, lp: None, rp: None, expression: None, fun_call: Some(Box::new(top(nodes, 0))) }))
    } else if rule == 89 {
        reduced(NonTerm::Term, 2, 0, 2, syms, nodes, (CstV::Term { factor: Box::new(top(nodes, 1)), term_prime: Some(Box::new(top(nodes, 0))) }))
    } else if rule == 90 {
        reduced(NonTerm::Term, 1, 0, 1, syms, nodes, (CstV::Term { factor: Box::new(top(nodes, 0)), term_prime: None }))
    } else if rule == 91 || rule == 92 {
        reduced(NonTerm::TermPrime, 3, 1, 2, syms, nodes, (CstV::TermPrime { op: top(syms, 0).value, factor: Box::new(top(nodes, 1)), term_prime: Some(Box::new(top(nodes, 0))) }))
    } else if rule == 93 || rule == 94 {
        reduced(NonTerm::TermPrime, 2, 1, 1, syms, nodes, (CstV::TermPrime { op: top(syms, 0).value, factor: Box::new(top(nodes, 0)), term_prime: None }))
    } else if rule == 95 || rule == 97 {
        reduced(NonTerm::Unary, 2, 1, 1, syms, nodes, (CstV::Unary { op: Some(top(syms, 0).value), unary: Box::new(top(nodes, 0)) }))
    } else if rule == 96 {
        reduced(NonTerm::Unary, 1, 0, 1, syms, nodes, (CstV::Unary { op: None, unary: Box::new(top(nodes, 0)) }))
    } else {
        None
    }
}

fn pop_token(sym: &mut Vec<Token>) -> (t: Token)
    requires
        old(sym).len() > 0,
    ensures
        t@ == top(token_views(old(sym)@), 0),
        final(sym).len() == old(sym).len() - 1,
        token_views(final(sym)@) == token_views(old(sym)@).take(old(sym).len() - 1),
{
    let t = match sym.pop() {
        Some(t) => t,
        None => vstd::pervasive::unreached(),
    };
    assert(token_views(sym@) =~= token_views(old(sym)@).take(old(sym).len() - 1));
    t
}

fn pop_node(cst: &mut Vec<CSTNode>) -> (n: CSTNode)
    requires
        old(cst).len() > 0,
    ensures
        n@ == top(node_views(old(cst)@), 0),
        final(cst).len() == old(cst).len() - 1,
        node_views(final(cst)@) == node_views(old(cst)@).take(old(cst).len() - 1),
{
    let n = match cst.pop() {
        Some(n) => n,
        None => vstd::pervasive::unreached(),
    };
    assert(node_views(cst@) =~= node_views(old(cst)@).take(old(cst).len() - 1));
    n
}

fn push_node(cst: &mut Vec<CSTNode>, node: CSTNode)
    ensures
        node_views(final(cst)@) == node_views(old(cst)@).push(node@),
{
    cst.push(node);
    assert(node_views(cst@) =~= node_views(old(cst)@).push(node@));
}

/// The executable reduction `r` with its stacks agrees with `spec`: where
/// there is a reduction, the stacks are as it says; where there is none,
/// they are unchanged.
pub open spec fn reduces_as(
    spec: Option<Reduction>,
    r: Option<(NonTerm, usize)>,
    sym0: Vec<Token>,
    cst0: Vec<CSTNode>,
    sym1: Vec<Token>,
    cst1: Vec<CSTNode>,
) -> bool {
    match spec {
        Some(red) => r == Some((red.lhs, red.rhs_len as usize)) && token_views(sym1@) == red.syms
            && node_views(cst1@) == red.nodes,
        None => r is None && sym1@ == sym0@ && cst1@ == cst0@,
    }
}

fn reduce_1(sym: &mut Vec<Token>, cst: &mut Vec<CSTNode>) -> (r: Option<(NonTerm, usize)>)
    ensures
        reduces_as(reduce_spec(1, token_views(old(sym)@), node_views(old(cst)@)), r, *old(sym), *old(cst), *final(sym), *final(cst)),
{
    if sym.len() < 0 || cst.len() < 2 {
        return None;
    }
    let ghost syms = token_views(sym@);
    let ghost nodes = node_views(cst@);
    let arguments_tail = pop_node(cst);
    assert(arguments_tail@ == top(nodes, 0));
    let expression = pop_node(cst);
    assert(expression@ == top(nodes, 1));
    let node = CSTNode::Arguments {
        arguments_tail: Some(Box::new(arguments_tail)),
        expression: Box::new(expression),
    };
    assert(token_views(sym@) =~= syms.take(syms.len() - 0));
    assert(node_views(cst@) =~= nodes.take(nodes.len() - 2));
    push_node(cst, node);
    Some((NonTerm::Arguments, 2))
}

fn reduce_2(sym: &mut Vec<Token>, cst: &mut Vec<CSTNode>) -> (r: Option<(NonTerm, usize)>)
    ensures
        reduces_as(reduce_spec(2, token_views(old(sym)@), node_views(old(cst)@)), r, *old(sym), *old(cst), *final(sym), *final(cst)),
{
    if sym.len() < 0 || cst.len() < 1 {
        return None;
    }
    let ghost syms = token_views(sym@);
    let ghost nodes = node_views(cst@);
    let expression = pop_node(cst);
    assert(expression@ == top(nodes, 0));
    let node = CSTNode::Arguments {
        arguments_tail: None,
        expression: Box::new(expression),
    };
    assert(token_views(sym@) =~= syms.take(syms.len() - 0));
    assert(node_views(cst@) =~= nodes.take(nodes.len() - 1));
    push_node(cst, node);
    Some((NonTerm::Arguments, 1))
}

fn reduce_3(sym: &mut Vec<Token>, cst: &mut Vec<CSTNode>) -> (r: Option<(NonTerm, usize)>)
    ensures
        reduces_as(reduce_spec(3, token_views(old(sym)@), node_views(old(cst)@)), r, *old(sym), *old(cst), *final(sym), *final(cst)),
{
    if sym.len() < 1 || cst.len() < 1 {
        return None;
    }
    let ghost syms = token_views(sym@);
    let ghost nodes = node_views(cst@);
    let sepa = pop_token(sym);
    assert(sepa@ == top(syms, 0));
    let expression = pop_node(cst);
    assert(expression@ == top(nodes, 0));
    let node = CSTNode::ArgumentsTail {
        separator: sepa.value,
        expression: Box::new(expression),
    };
    assert(token_views(sym@) =~= syms.take(syms.len() - 1));
    assert(node_views(cst@) =~= nodes.take(nodes.len() - 1));
    push_node(cst, node);
    Some((NonTerm::ArgumentsTail, 2))
}

fn reduce_4(sym: &mut Vec<Token>, cst: &mut Vec<CSTNode>) -> (r: Option<(NonTerm, usize)>)
    ensures
        reduces_as(reduce_spec(4, token_views(old(sym)@), node_views(old(cst)@)), r, *old(sym), *old(cst), *final(sym), *final(cst)),
{
    if sym.len() < 2 || cst.len() < 2 {
        return None;
    }
    let ghost syms = token_views(sym@);
    let ghost nodes = node_views(cst@);
    let rc = pop_token(sym);
    assert(rc@ == top(syms, 0));
    let lc = pop_token(sym);
    assert(lc@ == top(syms, 1));
    let stmt_list = pop_node(cst);
    assert(stmt_list@ == top(nodes, 0));
    let def_list = pop_node(cst);
    assert(def_list@ == top(nodes, 1));
    let node = CSTNode::CompSt {
        lc: lc.value,
        def_list: Some(Box::new(def_list)),
        stmt_list: Box::new(stmt_list),
        rc: rc.value,
    };
    assert(token_views(sym@) =~= syms.take(syms.len() - 2));
    assert(node_views(cst@) =~= nodes.take(nodes.len() - 2));
    push_node(cst, node);
    Some((NonTerm::CompSt, 4))
}

fn reduce_5(sym: &mut Vec<Token>, cst: &mut Vec<CSTNode>) -> (r: Option<(NonTerm, usize)>)
    ensures
        reduces_as(reduce_spec(5, token_views(old(sym)@), node_views(old(cst)@)), r, *old(sym), *old(cst), *final(sym), *final(cst)),
{
    if sym.len() < 2 || cst.len() < 1 {
        return None;
    }
    let ghost syms = token_views(sym@);
    let ghost nodes = node_views(cst@);
    let rc = pop_token(sym);
    assert(rc@ == top(syms, 0));
    let lc = pop_token(sym);
    assert(lc@ == top(syms, 1));
    let stmt_list = pop_node(cst);
    assert(stmt_list@ == top(nodes, 0));
    let node = CSTNode::CompSt {
        lc: lc.value,
        def_list: None,
        stmt_list: Box::new(stmt_list),
        rc: rc.value,
    };
    assert(token_views(sym@) =~= syms.take(syms.len() - 2));
    assert(node_views(cst@) =~= nodes.take(nodes.len() - 1));
    push_node(cst, node);
    Some((NonTerm::CompSt, 3))
}

fn reduce_6(sym: &mut Vec<Token>, cst: &mut Vec<CSTNode>) -> (r: Option<(NonTerm, usize)>)
    ensures
        reduces_as(reduce_spec(6, token_views(old(sym)@), node_views(old(cst)@)), r, *old(sym), *old(cst), *final(sym), *final(cst)),
{
    if sym.len() < 0 || cst.len() < 1 {
        return None;
    }
    let ghost syms = token_views(sym@);
    let ghost nodes = node_views(cst@);
    let var_dec = pop_node(cst);
    assert(var_dec@ == top(nodes, 0));
    let node = CSTNode::Dec {
        var_dec: Box::new(var_dec),
        op: None,
        expression: None,
    };
    assert(token_views(sym@) =~= syms.take(syms.len() - 0));
    assert(node_views(cst@) =~= nodes.take(nodes.len() - 1));
    push_node(cst, node);
    Some((NonTerm::Dec, 1))
}

fn reduce_7(sym: &mut Vec<Token>, cst: &mut Vec<CSTNode>) -> (r: Option<(NonTerm, usize)>)
    ensures
        reduces_as(reduce_spec(7, token_views(old(sym)@), node_views(old(cst)@)), r, *old(sym), *old(cst), *final(sym), *final(cst)),
{
    if sym.len() < 1 || cst.len() < 2 {
        return None;
    }
    let ghost syms = token_views(sym@);
    let ghost nodes = node_views(cst@);
    let expr = pop_node(cst);
    assert(expr@ == top(nodes, 0));
    let var_dec = pop_node(cst);
    assert(var_dec@ == top(nodes, 1));
    let op = pop_token(sym);
    assert(op@ == top(syms, 0));
    let node = CSTNode::Dec {
        var_dec: Box::new(var_dec),
        op: Some(op.value),
        expression: Some(Box::new(expr)),
    };
    assert(token_views(sym@) =~= syms.take(syms.len() - 1));
    assert(node_views(cst@) =~= nodes.take(nodes.len() - 2));
    push_node(cst, node);
    Some((NonTerm::Dec, 3))
}

fn reduce_8(sym: &mut Vec<Token>, cst: &mut Vec<CSTNode>) -> (r: Option<(NonTerm, usize)>)
    ensures
        reduces_as(reduce_spec(8, token_views(old(sym)@), node_views(old(cst)@)), r, *old(sym), *old(cst), *final(sym), *final(cst)),
{
    if sym.len() < 0 || cst.len() < 1 {
        return None;
    }
    let ghost syms = token_views(sym@);
    let ghost nodes = node_views(cst@);
    let dec = pop_node(cst);
    assert(dec@ == top(nodes, 0));
    let node = CSTNode::DecList {
        dec: Box::new(dec),
        sepa: None,
        dec_list: None,
    };
    assert(token_views(sym@) =~= syms.take(syms.len() - 0));
    assert(node_views(cst@) =~= nodes.take(nodes.len() - 1));
    push_node(cst, node);
    Some((NonTerm::DecList, 1))
}

fn reduce_9(sym: &mut Vec<Token>, cst: &mut Vec<CSTNode>) -> (r: Option<(NonTerm, usize)>)
    ensures
        reduces_as(reduce_spec(9, token_views(old(sym)@), node_views(old(cst)@)), r, *old(sym), *old(cst), *final(sym), *final(cst)),
{
    if sym.len() < 1 || cst.len() < 2 {
        return None;
    }
    let ghost syms = token_views(sym@);
    let ghost nodes = node_views(cst@);
    let dec_list = pop_node(cst);
    assert(dec_list@ == top(nodes, 0));
    let dec = pop_node(cst);
    assert(dec@ == top(nodes, 1));
    let sepa = pop_token(sym);
    assert(sepa@ == top(syms, 0));
    let node = CSTNode::DecList {
        dec: Box::new(dec),
        sepa: Some(sepa.value),
        dec_list: Some(Box::new(dec_list)),
    };
    assert(token_views(sym@) =~= syms.take(syms.len() - 1));
    assert(node_views(cst@) =~= nodes.take(nodes.len() - 2));
    push_node(cst, node);
    Some((NonTerm::DecList, 3))
}

fn reduce_10(sym: &mut Vec<Token>, cst: &mut Vec<CSTNode>) -> (r: Option<(NonTerm, usize)>)
    ensures
        reduces_as(reduce_spec(10, token_views(old(sym)@), node_views(old(cst)@)), r, *old(sym), *old(cst), *final(sym), *final(cst)),
{
    if sym.len() < 1 || cst.len() < 2 {
        return None;
    }
    let ghost syms = token_views(sym@);
    let ghost nodes = node_views(cst@);
    let sepa = pop_token(sym);
    assert(sepa@ == top(syms, 0));
    let dec_list = pop_node(cst);
    assert(dec_list@ == top(nodes, 0));
    let spec = pop_node(cst);
    assert(spec@ == top(nodes, 1));
    let node = CSTNode::Def {
        spec: Box::new(spec),
        dec_list: Box::new(dec_list),
        sepa: sepa.value,
    };
    assert(token_views(sym@) =~= syms.take(syms.len() - 1));
    assert(node_views(cst@) =~= nodes.take(nodes.len() - 2));
    push_node(cst, node);
    Some((NonTerm::Def, 3))
}

fn reduce_11(sym: &mut Vec<Token>, cst: &mut Vec<CSTNode>) -> (r: Option<(NonTerm, usize)>)
    ensures
        reduces_as(reduce_spec(11, token_views(old(sym)@), node_views(old(cst)@)), r, *old(sym), *old(cst), *final(sym), *final(cst)),
{
    if sym.len() < 0 || cst.len() < 2 {
        return None;
    }
    let ghost syms = token_views(sym@);
    let ghost nodes = node_views(cst@);
    let def_list = pop_node(cst);
    assert(def_list@ == top(nodes, 0));
    let def = pop_node(cst);
    assert(def@ == top(nodes, 1));
    let node = CSTNode::DefList {
        def: Box::new(def),
        def_list: Some(Box::new(def_list)),
    };
    assert(token_views(sym@) =~= syms.take(syms.len() - 0));
    assert(node_views(cst@) =~= nodes.take(nodes.len() - 2));
    push_node(cst, node);
    Some((NonTerm::DefList, 2))
}

fn reduce_12(sym: &mut Vec<Token>, cst: &mut Vec<CSTNode>) -> (r: Option<(NonTerm, usize)>)
    ensures
        reduces_as(reduce_spec(12, token_views(old(sym)@), node_views(old(cst)@)), r, *old(sym), *old(cst), *final(sym), *final(cst)),
{
    if sym.len() < 0 || cst.len() < 1 {
        return None;
    }
    let ghost syms = token_views(sym@);
    let ghost nodes = node_views(cst@);
    let def = pop_node(cst);
    assert(def@ == top(nodes, 0));
    let node = CSTNode::DefList {
        def: Box::new(def),
        def_list: None,
    };
    assert(token_views(sym@) =~= syms.take(syms.len() - 0));
    assert(node_views(cst@) =~= nodes.take(nodes.len() - 1));
    push_node(cst, node);
    Some((NonTerm::DefList, 1))
}

fn reduce_13(sym: &mut Vec<Token>, cst: &mut Vec<CSTNode>) -> (r: Option<(NonTerm, usize)>)
    ensures
        reduces_as(reduce_spec(13, token_views(old(sym)@), node_views(old(cst)@)), r, *old(sym), *old(cst), *final(sym), *final(cst)),
{
    if sym.len() < 0 || cst.len() < 1 {
        return None;
    }
    let ghost syms = token_views(sym@);
    let ghost nodes = node_views(cst@);
    let var_dec = pop_node(cst);
    assert(var_dec@ == top(nodes, 0));
    let node = CSTNode::ExtDecList {
        var_dec: Box::new(var_dec),
        sepa: None,
        ext_dec_list: None,
    };
    assert(token_views(sym@) =~= syms.take(syms.len() - 0));
    assert(node_views(cst@) =~= nodes.take(nodes.len() - 1));
    push_node(cst, node);
    Some((NonTerm::ExtDecList, 1))
}

fn reduce_14(sym: &mut Vec<Token>, cst: &mut Vec<CSTNode>) -> (r: Option<(NonTerm, usize)>)
    ensures
        reduces_as(reduce_spec(14, token_views(old(sym)@), node_views(old(cst)@)), r, *old(sym), *old(cst), *final(sym), *final(cst)),
{
    if sym.len() < 1 || cst.len() < 2 {
        return None;
    }
    let ghost syms = token_views(sym@);
    let ghost nodes = node_views(cst@);
    let ext_dec_list = pop_node(cst);
    assert(ext_dec_list@ == top(nodes, 0));
    let var_dec = pop_node(cst);
    assert(var_dec@ == top(nodes, 1));
    let sepa = pop_token(sym);
    assert(sepa@ == top(syms, 0));
    let node = CSTNode::ExtDecList {
        var_dec: Box::new(var_dec),
        sepa: Some(sepa.value),
        ext_dec_list: Some(Box::new(ext_dec_list)),
    };
    assert(token_views(sym@) =~= syms.take(syms.len() - 1));
    assert(node_views(cst@) =~= nodes.take(nodes.len() - 2));
    push_node(cst, node);
    Some((NonTerm::ExtDecList, 3))
}

fn reduce_15(sym: &mut Vec<Token>, cst: &mut Vec<CSTNode>) -> (r: Option<(NonTerm, usize)>)
    ensures
        reduces_as(reduce_spec(15, token_views(old(sym)@), node_views(old(cst)@)), r, *old(sym), *old(cst), *final(sym), *final(cst)),
{
    if sym.len() < 1 || cst.len() < 2 {
        return None;
    }
    let ghost syms = token_views(sym@);
    let ghost nodes = node_views(cst@);
    let ext_dec_list = pop_node(cst);
    assert(ext_dec_list@ == top(nodes, 0));
    let spec = pop_node(cst);
    assert(spec@ == top(nodes, 1));
    let sepa = pop_token(sym);
    assert(sepa@ == top(syms, 0));
    let node = CSTNode::ExtDef {
        spec: Box::new(spec),
        ext_dec_list: Some(Box::new(ext_dec_list)),
        fun_dec: None,
        compst: None,
        sepa: Some(sepa.value),
    };
    assert(token_views(sym@) =~= syms.take(syms.len() - 1));
    assert(node_views(cst@) =~= nodes.take(nodes.len() - 2));
    push_node(cst, node);
    Some((NonTerm::ExtDef, 3))
}

fn reduce_16(sym: &mut Vec<Token>, cst: &mut Vec<CSTNode>) -> (r: Option<(NonTerm, usize)>)
    ensures
        reduces_as(reduce_spec(16, token_views(old(sym)@), node_views(old(cst)@)), r, *old(sym), *old(cst), *final(sym), *final(cst)),
{
    if sym.len() < 1 || cst.len() < 1 {
        return None;
    }
    let ghost syms = token_views(sym@);
    let ghost nodes = node_views(cst@);
    let spec = pop_node(cst);
    assert(spec@ == top(nodes, 0));
    let sepa = pop_token(sym);
    assert(sepa@ == top(syms, 0));
    let node = CSTNode::ExtDef {
        spec: Box::new(spec),
        ext_dec_list: None,
        fun_dec: None,
        compst: None,
        sepa: Some(sepa.value),
    };
    assert(token_views(sym@) =~= syms.take(syms.len() - 1));
    assert(node_views(cst@) =~= nodes.take(nodes.len() - 1));
    push_node(cst, node);
    Some((NonTerm::ExtDef, 2))
}

fn reduce_17(sym: &mut Vec<Token>, cst: &mut Vec<CSTNode>) -> (r: Option<(NonTerm, usize)>)
    ensures
        reduces_as(reduce_spec(17, token_views(old(sym)@), node_views(old(cst)@)), r, *old(sym), *old(cst), *final(sym), *final(cst)),
{
    if sym.len() < 0 || cst.len() < 3 {
        return None;
    }
    let ghost syms = token_views(sym@);
    let ghost nodes = node_views(cst@);
    let compst = pop_node(cst);
    assert(compst@ == top(nodes, 0));
    let fun_dec = pop_node(cst);
    assert(fun_dec@ == top(nodes, 1));
    let spec = pop_node(cst);
    assert(spec@ == top(nodes, 2));
    let node = CSTNode::ExtDef {
        spec: Box::new(spec),
        ext_dec_list: None,
        fun_dec: Some(Box::new(fun_dec)),
        compst: Some(Box::new(compst)),
        sepa: None,
    };
    assert(token_views(sym@) =~= syms.take(syms.len() - 0));
    assert(node_views(cst@) =~= nodes.take(nodes.len() - 3));
    push_node(cst, node);
    Some((NonTerm::ExtDef, 3))
}

fn reduce_18(sym: &mut Vec<Token>, cst: &mut Vec<CSTNode>) -> (r: Option<(NonTerm, usize)>)
    ensures
        reduces_as(reduce_spec(18, token_views(old(sym)@), node_views(old(cst)@)), r, *old(sym), *old(cst), *final(sym), *final(cst)),
{
    if sym.len() < 0 || cst.len() < 2 {
        return None;
    }
    let ghost syms = token_views(sym@);
    let ghost nodes = node_views(cst@);
    let ext_def_list = pop_node(cst);
    assert(ext_def_list@ == top(nodes, 0));
    let ext_def = pop_node(cst);
    assert(ext_def@ == top(nodes, 1));
    let node = CSTNode::ExtDefList {
        ext_def: Box::new(ext_def),
        ext_def_list: Some(Box::new(ext_def_list)),
    };
    assert(token_views(sym@) =~= syms.take(syms.len() - 0));
    assert(node_views(cst@) =~= nodes.take(nodes.len() - 2));
    push_node(cst, node);
    Some((NonTerm::ExtDefList, 2))
}

fn reduce_19(sym: &mut Vec<Token>, cst: &mut Vec<CSTNode>) -> (r: Option<(NonTerm, usize)>)
    ensures
        reduces_as(reduce_spec(19, token_views(old(sym)@), node_views(old(cst)@)), r, *old(sym), *old(cst), *final(sym), *final(cst)),
{
    if sym.len() < 0 || cst.len() < 1 {
        return None;
    }
    let ghost syms = token_views(sym@);
    let ghost nodes = node_views(cst@);
    let ext_def = pop_node(cst);
    assert(ext_def@ == top(nodes, 0));
    let node = CSTNode::ExtDefList {
        ext_def: Box::new(ext_def),
        ext_def_list: None,
    };
    assert(token_views(sym@) =~= syms.take(syms.len() - 0));
    assert(node_views(cst@) =~= nodes.take(nodes.len() - 1));
    push_node(cst, node);
    Some((NonTerm::ExtDefList, 1))
}

fn reduce_20(sym: &mut Vec<Token>, cst: &mut Vec<CSTNode>) -> (r: Option<(NonTerm, usize)>)
    ensures
        reduces_as(reduce_spec(20, token_views(old(sym)@), node_views(old(cst)@)), r, *old(sym), *old(cst), *final(sym), *final(cst)),
{
    if sym.len() < 3 || cst.len() < 1 {
        return None;
    }
    let ghost syms = token_views(sym@);
    let ghost nodes = node_views(cst@);
    let arguments = pop_node(cst);
    assert(arguments@ == top(nodes, 0));
    let rp = pop_token(sym);
    assert(rp@ == top(syms, 0));
    let lp = pop_token(sym);
    assert(lp@ == top(syms, 1));
    let id = pop_token(sym);
    assert(id@ == top(syms, 2));
    let node = CSTNode::FunCall {
        id: id.value,
        lp: lp.value,
        arguments: Some(Box::new(arguments)),
        rp: rp.value,
    };
    assert(token_views(sym@) =~= syms.take(syms.len() - 3));
    assert(node_views(cst@) =~= nodes.take(nodes.len() - 1));
    push_node(cst, node);
    Some((NonTerm::FunCall, 4))
}

fn reduce_21(sym: &mut Vec<Token>, cst: &mut Vec<CSTNode>) -> (r: Option<(NonTerm, usize)>)
    ensures
        reduces_as(reduce_spec(21, token_views(old(sym)@), node_views(old(cst)@)), r, *old(sym), *old(cst), *final(sym), *final(cst)),
{
    if sym.len() < 3 || cst.len() < 0 {
        return None;
    }
    let ghost syms = token_views(sym@);
    let ghost nodes = node_views(cst@);
    let rp = pop_token(sym);
    assert(rp@ == top(syms, 0));
    let lp = pop_token(sym);
    assert(lp@ == top(syms, 1));
    let id = pop_token(sym);
    assert(id@ == top(syms, 2));
    let node = CSTNode::FunCall {
        id: id.value,
        lp: lp.value,
        arguments: None,
        rp: rp.value,
    };
    assert(token_views(sym@) =~= syms.take(syms.len() - 3));
    assert(node_views(cst@) =~= nodes.take(nodes.len() - 0));
    push_node(cst, node);
    Some((NonTerm::FunCall, 3))
}

fn reduce_22(sym: &mut Vec<Token>, cst: &mut Vec<CSTNode>) -> (r: Option<(NonTerm, usize)>)
    ensures
        reduces_as(reduce_spec(22, token_views(old(sym)@), node_views(old(cst)@)), r, *old(sym), *old(cst), *final(sym), *final(cst)),
{
    if sym.len() < 3 || cst.len() < 1 {
        return None;
    }
    let ghost syms = token_views(sym@);
    let ghost nodes = node_views(cst@);
    let var_list = pop_node(cst);
    assert(var_list@ == top(nodes, 0));
    let rp = pop_token(sym);
    assert(rp@ == top(syms, 0));
    let lp = pop_token(sym);
    assert(lp@ == top(syms, 1));
    let id = pop_token(sym);
    assert(id@ == top(syms, 2));
    let node = CSTNode::FunDec {
        id: id.value,
        lp: lp.value,
        var_list: Some(Box::new(var_list)),
        rp: rp.value,
    };
    assert(token_views(sym@) =~= syms.take(syms.len() - 3));
    assert(node_views(cst@) =~= nodes.take(nodes.len() - 1));
    push_node(cst, node);
    Some((NonTerm::FunDec, 4))
}

fn reduce_23(sym: &mut Vec<Token>, cst: &mut Vec<CSTNode>) -> (r: Option<(NonTerm, usize)>)
    ensures
        reduces_as(reduce_spec(23, token_views(old(sym)@), node_views(old(cst)@)), r, *old(sym), *old(cst), *final(sym), *final(cst)),
{
    if sym.len() < 3 || cst.len() < 0 {
        return None;
    }
    let ghost syms = token_views(sym@);
    let ghost nodes = node_views(cst@);
    let rp = pop_token(sym);
    assert(rp@ == top(syms, 0));
    let lp = pop_token(sym);
    assert(lp@ == top(syms, 1));
    let id = pop_token(sym);
    assert(id@ == top(syms, 2));
    let node = CSTNode::FunDec {
        id: id.value,
        lp: lp.value,
        var_list: None,
        rp: rp.value,
    };
    assert(token_views(sym@) =~= syms.take(syms.len() - 3));
    assert(node_views(cst@) =~= nodes.take(nodes.len() - 0));
    push_node(cst, node);
    Some((NonTerm::FunDec, 3))
}

fn reduce_24(sym: &mut Vec<Token>, cst: &mut Vec<CSTNode>) -> (r: Option<(NonTerm, usize)>)
    ensures
        reduces_as(reduce_spec(24, token_views(old(sym)@), node_views(old(cst)@)), r, *old(sym), *old(cst), *final(sym), *final(cst)),
{
    if sym.len() < 0 || cst.len() < 1 {
        return None;
    }
    let ghost syms = token_views(sym@);
    let ghost nodes = node_views(cst@);
    let normal_stmt = pop_node(cst);
    assert(normal_stmt@ == top(nodes, 0));
    let node = CSTNode::MatchedStmt {
        normal_stmt: Some(Box::new(normal_stmt)),
        while_stmt: None,
        if_stmt: None,
        else_stmt: None,
        lp: None,
        rp: None,
        expression: None,
        matched_stmt_fore: None,
        matched_stmt_back: None,
    };
    assert(token_views(sym@) =~= syms.take(syms.len() - 0));
    assert(node_views(cst@) =~= nodes.take(nodes.len() - 1));
    push_node(cst, node);
    Some((NonTerm::MatchedStmt, 1))
}

fn reduce_25(sym: &mut Vec<Token>, cst: &mut Vec<CSTNode>) -> (r: Option<(NonTerm, usize)>)
    ensures
        reduces_as(reduce_spec(25, token_views(old(sym)@), node_views(old(cst)@)), r, *old(sym), *old(cst), *final(sym), *final(cst)),
{
    if sym.len() < 3 || cst.len() < 2 {
        return None;
    }
    let ghost syms = token_views(sym@);
    let ghost nodes = node_views(cst@);
    let rp = pop_token(sym);
    assert(rp@ == top(syms, 0));
    let lp = pop_token(sym);
    assert(lp@ == top(syms, 1));
    let while_stmt = pop_token(sym);
    assert(while_stmt@ == top(syms, 2));
    let matched_stmt = pop_node(cst);
    assert(matched_stmt@ == top(nodes, 0));
    let expression = pop_node(cst);
    assert(expression@ == top(nodes, 1));
    let node = CSTNode::MatchedStmt {
        normal_stmt: None,
        while_stmt: Some(while_stmt.value),
        if_stmt: None,
        else_stmt: None,
        lp: Some(lp.value),
        rp: Some(rp.value),
        expression: Some(Box::new(expression)),
        matched_stmt_fore: Some(Box::new(matched_stmt)),
        matched_stmt_back: None,
    };
    assert(token_views(sym@) =~= syms.take(syms.len() - 3));
    assert(node_views(cst@) =~= nodes.take(nodes.len() - 2));
    push_node(cst, node);
    Some((NonTerm::MatchedStmt, 5))
}

fn reduce_26(sym: &mut Vec<Token>, cst: &mut Vec<CSTNode>) -> (r: Option<(NonTerm, usize)>)
    ensures
        reduces_as(reduce_spec(26, token_views(old(sym)@), node_views(old(cst)@)), r, *old(sym), *old(cst), *final(sym), *final(cst)),
{
    if sym.len() < 4 || cst.len() < 3 {
        return None;
    }
    let ghost syms = token_views(sym@);
    let ghost nodes = node_views(cst@);
    let else_stmt = pop_token(sym);
    assert(else_stmt@ == top(syms, 0));
    let rp = pop_token(sym);
    assert(rp@ == top(syms, 1));
    let lp = pop_token(sym);
    assert(lp@ == top(syms, 2));
    let if_stmt = pop_token(sym);
    assert(if_stmt@ == top(syms, 3));
    let matched_stmt_back = pop_node(cst);
    assert(matched_stmt_back@ == top(nodes, 0));
    let matched_stmt_fore = pop_node(cst);
    assert(matched_stmt_fore@ == top(nodes, 1));
    let expression = pop_node(cst);
    assert(expression@ == top(nodes, 2));
    let node = CSTNode::MatchedStmt {
        normal_stmt: None,
        while_stmt: None,
        if_stmt: Some(if_stmt.value),
        else_stmt: Some(else_stmt.value),
        lp: Some(lp.value),
        rp: Some(rp.value),
        expression: Some(Box::new(expression)),
        matched_stmt_fore: Some(Box::new(matched_stmt_fore)),
        matched_stmt_back: Some(Box::new(matched_stmt_back)),
    };
    assert(token_views(sym@) =~= syms.take(syms.len() - 4));
    assert(node_views(cst@) =~= nodes.take(nodes.len() - 3));
    push_node(cst, node);
    Some((NonTerm::MatchedStmt, 7))
}

fn reduce_27(sym: &mut Vec<Token>, cst: &mut Vec<CSTNode>) -> (r: Option<(NonTerm, usize)>)
    ensures
        reduces_as(reduce_spec(27, token_views(old(sym)@), node_views(old(cst)@)), r, *old(sym), *old(cst), *final(sym), *final(cst)),
{
    if sym.len() < 1 || cst.len() < 1 {
        return None;
    }
    let ghost syms = token_views(sym@);
    let ghost nodes = node_views(cst@);
    let sepa = pop_token(sym);
    assert(sepa@ == top(syms, 0));
    let expression = pop_node(cst);
    assert(expression@ == top(nodes, 0));
    let node = CSTNode::NormalStmt {
        sepa: Some(sepa.value),
        expression: Some(Box::new(expression)),
        compst: None,
        return_stmt: None,
    };
    assert(token_views(sym@) =~= syms.take(syms.len() - 1));
    assert(node_views(cst@) =~= nodes.take(nodes.len() - 1));
    push_node(cst, node);
    Some((NonTerm::NormalStmt, 2))
}

fn reduce_28(sym: &mut Vec<Token>, cst: &mut Vec<CSTNode>) -> (r: Option<(NonTerm, usize)>)
    ensures
        reduces_as(reduce_spec(28, token_views(old(sym)@), node_views(old(cst)@)), r, *old(sym), *old(cst), *final(sym), *final(cst)),
{
    if sym.len() < 0 || cst.len() < 1 {
        return None;
    }
    let ghost syms = token_views(sym@);
    let ghost nodes = node_views(cst@);
    let compst = pop_node(cst);
    assert(compst@ == top(nodes, 0));
    let node = CSTNode::NormalStmt {
        sepa: None,
        expression: None,
        compst: Some(Box::new(compst)),
        return_stmt: None,
    };
    assert(token_views(sym@) =~= syms.take(syms.len() - 0));
    assert(node_views(cst@) =~= nodes.take(nodes.len() - 1));
    push_node(cst, node);
    Some((NonTerm::NormalStmt, 1))
}

fn reduce_29(sym: &mut Vec<Token>, cst: &mut Vec<CSTNode>) -> (r: Option<(NonTerm, usize)>)
    ensures
        reduces_as(reduce_spec(29, token_views(old(sym)@), node_views(old(cst)@)), r, *old(sym), *old(cst), *final(sym), *final(cst)),
{
    if sym.len() < 2 || cst.len() < 1 {
        return None;
    }
    let ghost syms = token_views(sym@);
    let ghost nodes = node_views(cst@);
    let sepa = pop_token(sym);
    assert(sepa@ == top(syms, 0));
    let return_stmt = pop_token(sym);
    assert(return_stmt@ == top(syms, 1));
    let expression = pop_node(cst);
    assert(expression@ == top(nodes, 0));
    let node = CSTNode::NormalStmt {
        sepa: Some(sepa.value),
        expression: Some(Box::new(expression)),
        compst: None,
        return_stmt: Some(return_stmt.value),
    };
    assert(token_views(sym@) =~= syms.take(syms.len() - 2));
    assert(node_views(cst@) =~= nodes.take(nodes.len() - 1));
    push_node(cst, node);
    Some((NonTerm::NormalStmt, 3))
}

fn reduce_30(sym: &mut Vec<Token>, cst: &mut Vec<CSTNode>) -> (r: Option<(NonTerm, usize)>)
    ensures
        reduces_as(reduce_spec(30, token_views(old(sym)@), node_views(old(cst)@)), r, *old(sym), *old(cst), *final(sym), *final(cst)),
{
    if sym.len() < 0 || cst.len() < 2 {
        return None;
    }
    let ghost syms = token_views(sym@);
    let ghost nodes = node_views(cst@);
    let var_dec = pop_node(cst);
    assert(var_dec@ == top(nodes, 0));
    let spec = pop_node(cst);
    assert(spec@ == top(nodes, 1));
    let node = CSTNode::ParaDec {
        spec: Box::new(spec),
        var_dec: Box::new(var_dec),
    };
    assert(token_views(sym@) =~= syms.take(syms.len() - 0));
    assert(node_views(cst@) =~= nodes.take(nodes.len() - 2));
    push_node(cst, node);
    Some((NonTerm::ParaDec, 2))
}

fn reduce_31(sym: &mut Vec<Token>, cst: &mut Vec<CSTNode>) -> (r: Option<(NonTerm, usize)>)
    ensures
        reduces_as(reduce_spec(31, token_views(old(sym)@), node_views(old(cst)@)), r, *old(sym), *old(cst), *final(sym), *final(cst)),
{
    if sym.len() < 0 || cst.len() < 1 {
        return None;
    }
    let ghost syms = token_views(sym@);
    let ghost nodes = node_views(cst@);
    let ext_def_list = pop_node(cst);
    assert(ext_def_list@ == top(nodes, 0));
    let node = CSTNode::Program(Box::new(ext_def_list));
    assert(token_views(sym@) =~= syms.take(syms.len() - 0));
    assert(node_views(cst@) =~= nodes.take(nodes.len() - 1));
    push_node(cst, node);
    Some((NonTerm::Program, 1))
}

fn reduce_32(sym: &mut Vec<Token>, cst: &mut Vec<CSTNode>) -> (r: Option<(NonTerm, usize)>)
    ensures
        reduces_as(reduce_spec(32, token_views(old(sym)@), node_views(old(cst)@)), r, *old(sym), *old(cst), *final(sym), *final(cst)),
{
    if sym.len() < 1 || cst.len() < 0 {
        return None;
    }
    let ghost syms = token_views(sym@);
    let ghost nodes = node_views(cst@);
    let specifier_type = pop_token(sym);
    assert(specifier_type@ == top(syms, 0));
    let node = CSTNode::Specifier {
        specifier_type: Some(specifier_type.value),
        struct_specifier: None,
    };
    assert(token_views(sym@) =~= syms.take(syms.len() - 1));
    assert(node_views(cst@) =~= nodes.take(nodes.len() - 0));
    push_node(cst, node);
    Some((NonTerm::Specifier, 1))
}

fn reduce_33(sym: &mut Vec<Token>, cst: &mut Vec<CSTNode>) -> (r: Option<(NonTerm, usize)>)
    ensures
        reduces_as(reduce_spec(33, token_views(old(sym)@), node_views(old(cst)@)), r, *old(sym), *old(cst), *final(sym), *final(cst)),
{
    if sym.len() < 0 || cst.len() < 1 {
        return None;
    }
    let ghost syms = token_views(sym@);
    let ghost nodes = node_views(cst@);
    let struct_specifier = pop_node(cst);
    assert(struct_specifier@ == top(nodes, 0));
    let node = CSTNode::Specifier {
        specifier_type: None,
        struct_specifier: Some(Box::new(struct_specifier)),
    };
    assert(token_views(sym@) =~= syms.take(syms.len() - 0));
    assert(node_views(cst@) =~= nodes.take(nodes.len() - 1));
    push_node(cst, node);
    Some((NonTerm::Specifier, 1))
}

fn reduce_34(sym: &mut Vec<Token>, cst: &mut Vec<CSTNode>) -> (r: Option<(NonTerm, usize)>)
    ensures
        reduces_as(reduce_spec(34, token_views(old(sym)@), node_views(old(cst)@)), r, *old(sym), *old(cst), *final(sym), *final(cst)),
{
    if sym.len() < 0 || cst.len() < 1 {
        return None;
    }
    let ghost syms = token_views(sym@);
    let ghost nodes = node_views(cst@);
    let matched_stmt = pop_node(cst);
    assert(matched_stmt@ == top(nodes, 0));
    let node = CSTNode::Stmt {
        unmatched_stmt: None,
        matched_stmt: Some(Box::new(matched_stmt)),
    };
    assert(token_views(sym@) =~= syms.take(syms.len() - 0));
    assert(node_views(cst@) =~= nodes.take(nodes.len() - 1));
    push_node(cst, node);
    Some((NonTerm::Stmt, 1))
}

fn reduce_35(sym: &mut Vec<Token>, cst: &mut Vec<CSTNode>) -> (r: Option<(NonTerm, usize)>)
    ensures
        reduces_as(reduce_spec(35, token_views(old(sym)@), node_views(old(cst)@)), r, *old(sym), *old(cst), *final(sym), *final(cst)),
{
    if sym.len() < 0 || cst.len() < 1 {
        return None;
    }
    let ghost syms = token_views(sym@);
    let ghost nodes = node_views(cst@);
    let unmatched_stmt = pop_node(cst);
    assert(unmatched_stmt@ == top(nodes, 0));
    let node = CSTNode::Stmt {
        unmatched_stmt: Some(Box::new(unmatched_stmt)),
        matched_stmt: None,
    };
    assert(token_views(sym@) =~= syms.take(syms.len() - 0));
    assert(node_views(cst@) =~= nodes.take(nodes.len() - 1));
    push_node(cst, node);
    Some((NonTerm::Stmt, 1))
}

fn reduce_36(sym: &mut Vec<Token>, cst: &mut Vec<CSTNode>) -> (r: Option<(NonTerm, usize)>)
    ensures
        reduces_as(reduce_spec(36, token_views(old(sym)@), node_views(old(cst)@)), r, *old(sym), *old(cst), *final(sym), *final(cst)),
{
    if sym.len() < 0 || cst.len() < 2 {
        return None;
    }
    let ghost syms = token_views(sym@);
    let ghost nodes = node_views(cst@);
    let stmt_list = pop_node(cst);
    assert(stmt_list@ == top(nodes, 0));
    let stmt = pop_node(cst);
    assert(stmt@ == top(nodes, 1));
    let node = CSTNode::StmtList {
        stmt: Box::new(stmt),
        stmt_list: Some(Box::new(stmt_list)),
    };
    assert(token_views(sym@) =~= syms.take(syms.len() - 0));
    assert(node_views(cst@) =~= nodes.take(nodes.len() - 2));
    push_node(cst, node);
    Some((NonTerm::StmtList, 2))
}

fn reduce_37(sym: &mut Vec<Token>, cst: &mut Vec<CSTNode>) -> (r: Option<(NonTerm, usize)>)
    ensures
        reduces_as(reduce_spec(37, token_views(old(sym)@), node_views(old(cst)@)), r, *old(sym), *old(cst), *final(sym), *final(cst)),
{
    if sym.len() < 0 || cst.len() < 1 {
        return None;
    }
    let ghost syms = token_views(sym@);
    let ghost nodes = node_views(cst@);
    let stmt = pop_node(cst);
    assert(stmt@ == top(nodes, 0));
    let node = CSTNode::StmtList {
        stmt: Box::new(stmt),
        stmt_list: None,
    };
    assert(token_views(sym@) =~= syms.take(syms.len() - 0));
    assert(node_views(cst@) =~= nodes.take(nodes.len() - 1));
    push_node(cst, node);
    Some((NonTerm::StmtList, 1))
}

fn reduce_38(sym: &mut Vec<Token>, cst: &mut Vec<CSTNode>) -> (r: Option<(NonTerm, usize)>)
    ensures
        reduces_as(reduce_spec(38, token_views(old(sym)@), node_views(old(cst)@)), r, *old(sym), *old(cst), *final(sym), *final(cst)),
{
    if sym.len() < 4 || cst.len() < 1 {
        return None;
    }
    let ghost syms = token_views(sym@);
    let ghost nodes = node_views(cst@);
    let rc = pop_token(sym);
    assert(rc@ == top(syms, 0));
    let lc = pop_token(sym);
    assert(lc@ == top(syms, 1));
    let id = pop_token(sym);
    assert(id@ == top(syms, 2));
    let struct_type = pop_token(sym);
    assert(struct_type@ == top(syms, 3));
    let def_list = pop_node(cst);
    assert(def_list@ == top(nodes, 0));
    let node = CSTNode::StructSpecifier {
        struct_type: struct_type.value,
        id: Some(id.value),
        lc: Some(lc.value),
        rc: Some(rc.value),
        def_list: Some(Box::new(def_list)),
    };
    assert(token_views(sym@) =~= syms.take(syms.len() - 4));
    assert(node_views(cst@) =~= nodes.take(nodes.len() - 1));
    push_node(cst, node);
    Some((NonTerm::StructSpecifier, 5))
}

fn reduce_39(sym: &mut Vec<Token>, cst: &mut Vec<CSTNode>) -> (r: Option<(NonTerm, usize)>)
    ensures
        reduces_as(reduce_spec(39, token_views(old(sym)@), node_views(old(cst)@)), r, *old(sym), *old(cst), *final(sym), *final(cst)),
{
    if sym.len() < 3 || cst.len() < 1 {
        return None;
    }
    let ghost syms = token_views(sym@);
    let ghost nodes = node_views(cst@);
    let rc = pop_token(sym);
    assert(rc@ == top(syms, 0));
    let lc = pop_token(sym);
    assert(lc@ == top(syms, 1));
    let struct_type = pop_token(sym);
    assert(struct_type@ == top(syms, 2));
    let def_list = pop_node(cst);
    assert(def_list@ == top(nodes, 0));
    let node = CSTNode::StructSpecifier {
        struct_type: struct_type.value,
        id: None,
        lc: Some(lc.value),
        rc: Some(rc.value),
        def_list: Some(Box::new(def_list)),
    };
    assert(token_views(sym@) =~= syms.take(syms.len() - 3));
    assert(node_views(cst@) =~= nodes.take(nodes.len() - 1));
    push_node(cst, node);
    Some((NonTerm::StructSpecifier, 4))
}

fn reduce_40(sym: &mut Vec<Token>, cst: &mut Vec<CSTNode>) -> (r: Option<(NonTerm, usize)>)
    ensures
        reduces_as(reduce_spec(40, token_views(old(sym)@), node_views(old(cst)@)), r, *old(sym), *old(cst), *final(sym), *final(cst)),
{
    if sym.len() < 2 || cst.len() < 0 {
        return None;
    }
    let ghost syms = token_views(sym@);
    let ghost nodes = node_views(cst@);
    let id = pop_token(sym);
    assert(id@ == top(syms, 0));
    let struct_type = pop_token(sym);
    assert(struct_type@ == top(syms, 1));
    let node = CSTNode::StructSpecifier {
        struct_type: struct_type.value,
        id: Some(id.value),
        lc: None,
        rc: None,
        def_list: None,
    };
    assert(token_views(sym@) =~= syms.take(syms.len() - 2));
    assert(node_views(cst@) =~= nodes.take(nodes.len() - 0));
    push_node(cst, node);
    Some((NonTerm::StructSpecifier, 2))
}

fn reduce_41(sym: &mut Vec<Token>, cst: &mut Vec<CSTNode>) -> (r: Option<(NonTerm, usize)>)
    ensures
        reduces_as(reduce_spec(41, token_views(old(sym)@), node_views(old(cst)@)), r, *old(sym), *old(cst), *final(sym), *final(cst)),
{
    if sym.len() < 3 || cst.len() < 2 {
        return None;
    }
    let ghost syms = token_views(sym@);
    let ghost nodes = node_views(cst@);
    let rp = pop_token(sym);
    assert(rp@ == top(syms, 0));
    let lp = pop_token(sym);
    assert(lp@ == top(syms, 1));
    let if_stmt = pop_token(sym);
    assert(if_stmt@ == top(syms, 2));
    let stmt = pop_node(cst);
    assert(stmt@ == top(nodes, 0));
    let expression = pop_node(cst);
    assert(expression@ == top(nodes, 1));
    let node = CSTNode::UnMatchedStmt {
        while_stmt: None,
        if_stmt: Some(if_stmt.value),
        else_stmt: None,
        lp: Some(lp.value),
        rp: Some(rp.value),
        expression: Some(Box::new(expression)),
        matched_stmt: None,
        unmatched_stmt: None,
        stmt: Some(Box::new(stmt)),
    };
    assert(token_views(sym@) =~= syms.take(syms.len() - 3));
    assert(node_views(cst@) =~= nodes.take(nodes.len() - 2));
    push_node(cst, node);
    Some((NonTerm::UnMatchedStmt, 5))
}

fn reduce_42(sym: &mut Vec<Token>, cst: &mut Vec<CSTNode>) -> (r: Option<(NonTerm, usize)>)
    ensures
        reduces_as(reduce_spec(42, token_views(old(sym)@), node_views(old(cst)@)), r, *old(sym), *old(cst), *final(sym), *final(cst)),
{
    if sym.len() < 4 || cst.len() < 3 {
        return None;
    }
    let ghost syms = token_views(sym@);
    let ghost nodes = node_views(cst@);
    let else_stmt = pop_token(sym);
    assert(else_stmt@ == top(syms, 0));
    let rp = pop_token(sym);
    assert(rp@ == top(syms, 1));
    let lp = pop_token(sym);
    assert(lp@ == top(syms, 2));
    let if_stmt = pop_token(sym);
    assert(if_stmt@ == top(syms, 3));
    let unmatched_stmt = pop_node(cst);
    assert(unmatched_stmt@ == top(nodes, 0));
    let matched_stmt = pop_node(cst);
    assert(matched_stmt@ == top(nodes, 1));
    let expression = pop_node(cst);
    assert(expression@ == top(nodes, 2));
    let node = CSTNode::UnMatchedStmt {
        while_stmt: None,
        if_stmt: Some(if_stmt.value),
        else_stmt: Some(else_stmt.value),
        lp: Some(lp.value),
        rp: Some(rp.value),
        expression: Some(Box::new(expression)),
        matched_stmt: Some(Box::new(matched_stmt)),
        unmatched_stmt: Some(Box::new(unmatched_stmt)),
        stmt: None,
    };
    assert(token_views(sym@) =~= syms.take(syms.len() - 4));
    assert(node_views(cst@) =~= nodes.take(nodes.len() - 3));
    push_node(cst, node);
    Some((NonTerm::UnMatchedStmt, 7))
}

fn reduce_43(sym: &mut Vec<Token>, cst: &mut Vec<CSTNode>) -> (r: Option<(NonTerm, usize)>)
    ensures
        reduces_as(reduce_spec(43, token_views(old(sym)@), node_views(old(cst)@)), r, *old(sym), *old(cst), *final(sym), *final(cst)),
{
    if sym.len() < 3 || cst.len() < 2 {
        return None;
    }
    let ghost syms = token_views(sym@);
    let ghost nodes = node_views(cst@);
    let rp = pop_token(sym);
    assert(rp@ == top(syms, 0));
    let lp = pop_token(sym);
    assert(lp@ == top(syms, 1));
    let while_stmt = pop_token(sym);
    assert(while_stmt@ == top(syms, 2));
    let unmatched_stmt = pop_node(cst);
    assert(unmatched_stmt@ == top(nodes, 0));
    let expression = pop_node(cst);
    assert(expression@ == top(nodes, 1));
    let node = CSTNode::UnMatchedStmt {
        while_stmt: Some(while_stmt.value),
        if_stmt: None,
        else_stmt: None,
        lp: Some(lp.value),
        rp: Some(rp.value),
        expression: Some(Box::new(expression)),
        matched_stmt: None,
        unmatched_stmt: Some(Box::new(unmatched_stmt)),
        stmt: None,
    };
    assert(token_views(sym@) =~= syms.take(syms.len() - 3));
    assert(node_views(cst@) =~= nodes.take(nodes.len() - 2));
    push_node(cst, node);
    Some((NonTerm::UnMatchedStmt, 5))
}

fn reduce_44(sym: &mut Vec<Token>, cst: &mut Vec<CSTNode>) -> (r: Option<(NonTerm, usize)>)
    ensures
        reduces_as(reduce_spec(44, token_views(old(sym)@), node_views(old(cst)@)), r, *old(sym), *old(cst), *final(sym), *final(cst)),
{
    if sym.len() < 1 || cst.len() < 0 {
        return None;
    }
    let ghost syms = token_views(sym@);
    let ghost nodes = node_views(cst@);
    let id = pop_token(sym);
    assert(id@ == top(syms, 0));
    let node = CSTNode::VarDec {
        id: Some(id.value),
        var_dec: None,
        lt: None,
        rt: None,
        literal: None,
    };
    assert(token_views(sym@) =~= syms.take(syms.len() - 1));
    assert(node_views(cst@) =~= nodes.take(nodes.len() - 0));
    push_node(cst, node);
    Some((NonTerm::VarDec, 1))
}

fn reduce_45(sym: &mut Vec<Token>, cst: &mut Vec<CSTNode>) -> (r: Option<(NonTerm, usize)>)
    ensures
        reduces_as(reduce_spec(45, token_views(old(sym)@), node_views(old(cst)@)), r, *old(sym), *old(cst), *final(sym), *final(cst)),
{
    if sym.len() < 3 || cst.len() < 1 {
        return None;
    }
    let ghost syms = token_views(sym@);
    let ghost nodes = node_views(cst@);
    let rt = pop_token(sym);
    assert(rt@ == top(syms, 0));
    let literal = pop_token(sym);
    assert(literal@ == top(syms, 1));
    let lt = pop_token(sym);
    assert(lt@ == top(syms, 2));
    let var_dec = pop_node(cst);
    assert(var_dec@ == top(nodes, 0));
    let node = CSTNode::VarDec {
        id: None,
        var_dec: Some(Box::new(var_dec)),
        lt: Some(lt.value),
        rt: Some(rt.value),
        literal: Some(literal.value),
    };
    assert(token_views(sym@) =~= syms.take(syms.len() - 3));
    assert(node_views(cst@) =~= nodes.take(nodes.len() - 1));
    push_node(cst, node);
    Some((NonTerm::VarDec, 4))
}

fn reduce_46(sym: &mut Vec<Token>, cst: &mut Vec<CSTNode>) -> (r: Option<(NonTerm, usize)>)
    ensures
        reduces_as(reduce_spec(46, token_views(old(sym)@), node_views(old(cst)@)), r, *old(sym), *old(cst), *final(sym), *final(cst)),
{
    if sym.len() < 1 || cst.len() < 2 {
        return None;
    }
    let ghost syms = token_views(sym@);
    let ghost nodes = node_views(cst@);
    let var_list = pop_node(cst);
    assert(var_list@ == top(nodes, 0));
    let para_dec = pop_node(cst);
    assert(para_dec@ == top(nodes, 1));
    let sepa = pop_token(sym);
    assert(sepa@ == top(syms, 0));
    let node = CSTNode::VarList {
        para_dec: Box::new(para_dec),
        sepa: Some(sepa.value),
        var_list: Some(Box::new(var_list)),
    };
    assert(token_views(sym@) =~= syms.take(syms.len() - 1));
    assert(node_views(cst@) =~= nodes.take(nodes.len() - 2));
    push_node(cst, node);
    Some((NonTerm::VarList, 3))
}

fn reduce_47(sym: &mut Vec<Token>, cst: &mut Vec<CSTNode>) -> (r: Option<(NonTerm, usize)>)
    ensures
        reduces_as(reduce_spec(47, token_views(old(sym)@), node_views(old(cst)@)), r, *old(sym), *old(cst), *final(sym), *final(cst)),
{
    if sym.len() < 0 || cst.len() < 1 {
        return None;
    }
    let ghost syms = token_views(sym@);
    let ghost nodes = node_views(cst@);
    let para_dec = pop_node(cst);
    assert(para_dec@ == top(nodes, 0));
    let node = CSTNode::VarList {
        para_dec: Box::new(para_dec),
        sepa: None,
        var_list: None,
    };
    assert(token_views(sym@) =~= syms.take(syms.len() - 0));
    assert(node_views(cst@) =~= nodes.take(nodes.len() - 1));
    push_node(cst, node);
    Some((NonTerm::VarList, 1))
}

fn reduce_48(sym: &mut Vec<Token>, cst: &mut Vec<CSTNode>) -> (r: Option<(NonTerm, usize)>)
    ensures
        reduces_as(reduce_spec(48, token_views(old(sym)@), node_views(old(cst)@)), r, *old(sym), *old(cst), *final(sym), *final(cst)),
{
    if sym.len() < 0 || cst.len() < 1 {
        return None;
    }
    let ghost syms = token_views(sym@);
    let ghost nodes = node_views(cst@);
    let logical_or = pop_node(cst);
    assert(logical_or@ == top(nodes, 0));
    let node = CSTNode::Assign {
        logical_or: Box::new(logical_or),
        assign_prime: None,
    };
    assert(token_views(sym@) =~= syms.take(syms.len() - 0));
    assert(node_views(cst@) =~= nodes.take(nodes.len() - 1));
    push_node(cst, node);
    Some((NonTerm::Assign, 1))
}

fn reduce_49(sym: &mut Vec<Token>, cst: &mut Vec<CSTNode>) -> (r: Option<(NonTerm, usize)>)
    ensures
        reduces_as(reduce_spec(49, token_views(old(sym)@), node_views(old(cst)@)), r, *old(sym), *old(cst), *final(sym), *final(cst)),
{
    if sym.len() < 0 || cst.len() < 2 {
        return None;
    }
    let ghost syms = token_views(sym@);
    let ghost nodes = node_views(cst@);
    let assign_prime = pop_node(cst);
    assert(assign_prime@ == top(nodes, 0));
    let logical_or = pop_node(cst);
    assert(logical_or@ == top(nodes, 1));
    let node = CSTNode::Assign {
        logical_or: Box::new(logical_or),
        assign_prime: Some(Box::new(assign_prime)),
    };
    assert(token_views(sym@) =~= syms.take(syms.len() - 0));
    assert(node_views(cst@) =~= nodes.take(nodes.len() - 2));
    push_node(cst, node);
    Some((NonTerm::Assign, 2))
}

fn reduce_50(sym: &mut Vec<Token>, cst: &mut Vec<CSTNode>) -> (r: Option<(NonTerm, usize)>)
    ensures
        reduces_as(reduce_spec(50, token_views(old(sym)@), node_views(old(cst)@)), r, *old(sym), *old(cst), *final(sym), *final(cst)),
{
    if sym.len() < 1 || cst.len() < 2 {
        return None;
    }
    let ghost syms = token_views(sym@);
    let ghost nodes = node_views(cst@);
    let assign_op = pop_token(sym);
    assert(assign_op@ == top(syms, 0));
    let assign_prime = pop_node(cst);
    assert(assign_prime@ == top(nodes, 0));
    let logical_or = pop_node(cst);
    assert(logical_or@ == top(nodes, 1));
    let node = CSTNode::AssignPrime {
        op: assign_op.value,
        logical_or: Box::new(logical_or),
        assign_prime: Some(Box::new(assign_prime)),
    };
    assert(token_views(sym@) =~= syms.take(syms.len() - 1));
    assert(node_views(cst@) =~= nodes.take(nodes.len() - 2));
    push_node(cst, node);
    Some((NonTerm::AssignPrime, 3))
}

fn reduce_51(sym: &mut Vec<Token>, cst: &mut Vec<CSTNode>) -> (r: Option<(NonTerm, usize)>)
    ensures
        reduces_as(reduce_spec(51, token_views(old(sym)@), node_views(old(cst)@)), r, *old(sym), *old(cst), *final(sym), *final(cst)),
{
    if sym.len() < 1 || cst.len() < 1 {
        return None;
    }
    let ghost syms = token_views(sym@);
    let ghost nodes = node_views(cst@);
    let assign_op = pop_token(sym);
    assert(assign_op@ == top(syms, 0));
    let logical_or = pop_node(cst);
    assert(logical_or@ == top(nodes, 0));
    let node = CSTNode::AssignPrime {
        op: assign_op.value,
        logical_or: Box::new(logical_or),
        assign_prime: None,
    };
    assert(token_views(sym@) =~= syms.take(syms.len() - 1));
    assert(node_views(cst@) =~= nodes.take(nodes.len() - 1));
    push_node(cst, node);
    Some((NonTerm::AssignPrime, 2))
}

fn reduce_52(sym: &mut Vec<Token>, cst: &mut Vec<CSTNode>) -> (r: Option<(NonTerm, usize)>)
    ensures
        reduces_as(reduce_spec(52, token_views(old(sym)@), node_views(old(cst)@)), r, *old(sym), *old(cst), *final(sym), *final(cst)),
{
    if sym.len() < 0 || cst.len() < 2 {
        return None;
    }
    let ghost syms = token_views(sym@);
    let ghost nodes = node_views(cst@);
    let comparison_prime = pop_node(cst);
    assert(comparison_prime@ == top(nodes, 0));
    let term = pop_node(cst);
    assert(term@ == top(nodes, 1));
    let node = CSTNode::Comparison {
        term: Box::new(term),
        comparison_prime: Some(Box::new(comparison_prime)),
    };
    assert(token_views(sym@) =~= syms.take(syms.len() - 0));
    assert(node_views(cst@) =~= nodes.take(nodes.len() - 2));
    push_node(cst, node);
    Some((NonTerm::Comparison, 2))
}

fn reduce_53(sym: &mut Vec<Token>, cst: &mut Vec<CSTNode>) -> (r: Option<(NonTerm, usize)>)
    ensures
        reduces_as(reduce_spec(53, token_views(old(sym)@), node_views(old(cst)@)), r, *old(sym), *old(cst), *final(sym), *final(cst)),
{
    if sym.len() < 0 || cst.len() < 1 {
        return None;
    }
    let ghost syms = token_views(sym@);
    let ghost nodes = node_views(cst@);
    let term = pop_node(cst);
    assert(term@ == top(nodes, 0));
    let node = CSTNode::Comparison {
        term: Box::new(term),
        comparison_prime: None,
    };
    assert(token_views(sym@) =~= syms.take(syms.len() - 0));
    assert(node_views(cst@) =~= nodes.take(nodes.len() - 1));
    push_node(cst, node);
    Some((NonTerm::Comparison, 1))
}

fn reduce_54(sym: &mut Vec<Token>, cst: &mut Vec<CSTNode>) -> (r: Option<(NonTerm, usize)>)
    ensures
        reduces_as(reduce_spec(54, token_views(old(sym)@), node_views(old(cst)@)), r, *old(sym), *old(cst), *final(sym), *final(cst)),
{
    if sym.len() < 1 || cst.len() < 2 {
        return None;
    }
    let ghost syms = token_views(sym@);
    let ghost nodes = node_views(cst@);
    let op = pop_token(sym);
    assert(op@ == top(syms, 0));
    let comparison_prime = pop_node(cst);
    assert(comparison_prime@ == top(nodes, 0));
    let term = pop_node(cst);
    assert(term@ == top(nodes, 1));
    let node = CSTNode::ComparisonPrime {
        op: op.value,
        term: Box::new(term),
        comparison_prime: Some(Box::new(comparison_prime)),
    };
    assert(token_views(sym@) =~= syms.take(syms.len() - 1));
    assert(node_views(cst@) =~= nodes.take(nodes.len() - 2));
    push_node(cst, node);
    Some((NonTerm::ComparisonPrime, 3))
}

fn reduce_58(sym: &mut Vec<Token>, cst: &mut Vec<CSTNode>) -> (r: Option<(NonTerm, usize)>)
    ensures
        reduces_as(reduce_spec(58, token_views(old(sym)@), node_views(old(cst)@)), r, *old(sym), *old(cst), *final(sym), *final(cst)),
{
    if sym.len() < 1 || cst.len() < 1 {
        return None;
    }
    let ghost syms = token_views(sym@);
    let ghost nodes = node_views(cst@);
    let op = pop_token(sym);
    assert(op@ == top(syms, 0));
    let term = pop_node(cst);
    assert(term@ == top(nodes, 0));
    let node = CSTNode::ComparisonPrime {
        op: op.value,
        term: Box::new(term),
        comparison_prime: None,
    };
    assert(token_views(sym@) =~= syms.take(syms.len() - 1));
    assert(node_views(cst@) =~= nodes.take(nodes.len() - 1));
    push_node(cst, node);
    Some((NonTerm::ComparisonPrime, 2))
}

fn reduce_62(sym: &mut Vec<Token>, cst: &mut Vec<CSTNode>) -> (r: Option<(NonTerm, usize)>)
    ensures
        reduces_as(reduce_spec(62, token_views(old(sym)@), node_views(old(cst)@)), r, *old(sym), *old(cst), *final(sym), *final(cst)),
{
    if sym.len() < 0 || cst.len() < 2 {
        return None;
    }
    let ghost syms = token_views(sym@);
    let ghost nodes = node_views(cst@);
    let equality_prime = pop_node(cst);
    assert(equality_prime@ == top(nodes, 0));
    let comparison = pop_node(cst);
    assert(comparison@ == top(nodes, 1));
    let node = CSTNode::Equality {
        comparison: Box::new(comparison),
        equality_prime: Some(Box::new(equality_prime)),
    };
    assert(token_views(sym@) =~= syms.take(syms.len() - 0));
    assert(node_views(cst@) =~= nodes.take(nodes.len() - 2));
    push_node(cst, node);
    Some((NonTerm::Equality, 2))
}

fn reduce_63(sym: &mut Vec<Token>, cst: &mut Vec<CSTNode>) -> (r: Option<(NonTerm, usize)>)
    ensures
        reduces_as(reduce_spec(63, token_views(old(sym)@), node_views(old(cst)@)), r, *old(sym), *old(cst), *final(sym), *final(cst)),
{
    if sym.len() < 0 || cst.len() < 1 {
        return None;
    }
    let ghost syms = token_views(sym@);
    let ghost nodes = node_views(cst@);
    let comparison = pop_node(cst);
    assert(comparison@ == top(nodes, 0));
    let node = CSTNode::Equality {
        comparison: Box::new(comparison),
        equality_prime: None,
    };
    assert(token_views(sym@) =~= syms.take(syms.len() - 0));
    assert(node_views(cst@) =~= nodes.take(nodes.len() - 1));
    push_node(cst, node);
    Some((NonTerm::Equality, 1))
}

fn reduce_64(sym: &mut Vec<Token>, cst: &mut Vec<CSTNode>) -> (r: Option<(NonTerm, usize)>)
    ensures
        reduces_as(reduce_spec(64, token_views(old(sym)@), node_views(old(cst)@)), r, *old(sym), *old(cst), *final(sym), *final(cst)),
{
    if sym.len() < 1 || cst.len() < 2 {
        return None;
    }
    let ghost syms = token_views(sym@);
    let ghost nodes = node_views(cst@);
    let op = pop_token(sym);
    assert(op@ == top(syms, 0));
    let equality_prime = pop_node(cst);
    assert(equality_prime@ == top(nodes, 0));
    let comparison = pop_node(cst);
    assert(comparison@ == top(nodes, 1));
    let node = CSTNode::EqualityPrime {
        op: op.value,
        comparison: Box::new(comparison),
        equality_prime: Some(Box::new(equality_prime)),
    };
    assert(token_views(sym@) =~= syms.take(syms.len() - 1));
    assert(node_views(cst@) =~= nodes.take(nodes.len() - 2));
    push_node(cst, node);
    Some((NonTerm::EqualityPrime, 3))
}

fn reduce_66(sym: &mut Vec<Token>, cst: &mut Vec<CSTNode>) -> (r: Option<(NonTerm, usize)>)
    ensures
        reduces_as(reduce_spec(66, token_views(old(sym)@), node_views(old(cst)@)), r, *old(sym), *old(cst), *final(sym), *final(cst)),
{
    if sym.len() < 1 || cst.len() < 1 {
        return None;
    }
    let ghost syms = token_views(sym@);
    let ghost nodes = node_views(cst@);
    let op = pop_token(sym);
    assert(op@ == top(syms, 0));
    let comparison = pop_node(cst);
    assert(comparison@ == top(nodes, 0));
    let node = CSTNode::EqualityPrime {
        op: op.value,
        comparison: Box::new(comparison),
        equality_prime: None,
    };
    assert(token_views(sym@) =~= syms.take(syms.len() - 1));
    assert(node_views(cst@) =~= nodes.take(nodes.len() - 1));
    push_node(cst, node);
    Some((NonTerm::EqualityPrime, 2))
}

fn reduce_68(sym: &mut Vec<Token>, cst: &mut Vec<CSTNode>) -> (r: Option<(NonTerm, usize)>)
    ensures
        reduces_as(reduce_spec(68, token_views(old(sym)@), node_views(old(cst)@)), r, *old(sym), *old(cst), *final(sym), *final(cst)),
{
    if sym.len() < 0 || cst.len() < 1 {
        return None;
    }
    let ghost syms = token_views(sym@);
    let ghost nodes = node_views(cst@);
    let assign = pop_node(cst);
    assert(assign@ == top(nodes, 0));
    let node = CSTNode::Expression(Box::new(assign));
    assert(token_views(sym@) =~= syms.take(syms.len() - 0));
    assert(node_views(cst@) =~= nodes.take(nodes.len() - 1));
    push_node(cst, node);
    Some((NonTerm::Expression, 1))
}

fn reduce_69(sym: &mut Vec<Token>, cst: &mut Vec<CSTNode>) -> (r: Option<(NonTerm, usize)>)
    ensures
        reduces_as(reduce_spec(69, token_views(old(sym)@), node_views(old(cst)@)), r, *old(sym), *old(cst), *final(sym), *final(cst)),
{
    if sym.len() < 0 || cst.len() < 2 {
        return None;
    }
    let ghost syms = token_views(sym@);
    let ghost nodes = node_views(cst@);
    let factor_prime = pop_node(cst);
    assert(factor_prime@ == top(nodes, 0));
    let unary = pop_node(cst);
    assert(unary@ == top(nodes, 1));
    let node = CSTNode::Factor {
        unary: Box::new(unary),
        factor_prime: Some(Box::new(factor_prime)),
    };
    assert(token_views(sym@) =~= syms.take(syms.len() - 0));
    assert(node_views(cst@) =~= nodes.take(nodes.len() - 2));
    push_node(cst, node);
    Some((NonTerm::Factor, 2))
}

fn reduce_70(sym: &mut Vec<Token>, cst: &mut Vec<CSTNode>) -> (r: Option<(NonTerm, usize)>)
    ensures
        reduces_as(reduce_spec(70, token_views(old(sym)@), node_views(old(cst)@)), r, *old(sym), *old(cst), *final(sym), *final(cst)),
{
    if sym.len() < 0 || cst.len() < 1 {
        return None;
    }
    let ghost syms = token_views(sym@);
    let ghost nodes = node_views(cst@);
    let unary = pop_node(cst);
    assert(unary@ == top(nodes, 0));
    let node = CSTNode::Factor {
        unary: Box::new(unary),
        factor_prime: None,
    };
    assert(token_views(sym@) =~= syms.take(syms.len() - 0));
    assert(node_views(cst@) =~= nodes.take(nodes.len() - 1));
    push_node(cst, node);
    Some((NonTerm::Factor, 1))
}

fn reduce_71(sym: &mut Vec<Token>, cst: &mut Vec<CSTNode>) -> (r: Option<(NonTerm, usize)>)
    ensures
        reduces_as(reduce_spec(71, token_views(old(sym)@), node_views(old(cst)@)), r, *old(sym), *old(cst), *final(sym), *final(cst)),
{
    if sym.len() < 1 || cst.len() < 2 {
        return None;
    }
    let ghost syms = token_views(sym@);
    let ghost nodes = node_views(cst@);
    let op = pop_token(sym);
    assert(op@ == top(syms, 0));
    let factor_prime = pop_node(cst);
    assert(factor_prime@ == top(nodes, 0));
    let unary = pop_node(cst);
    assert(unary@ == top(nodes, 1));
    let node = CSTNode::FactorPrime {
        op: op.value,
        unary: Box::new(unary),
        factor_prime: Some(Box::new(factor_prime)),
    };
    assert(token_views(sym@) =~= syms.take(syms.len() - 1));
    assert(node_views(cst@) =~= nodes.take(nodes.len() - 2));
    push_node(cst, node);
    Some((NonTerm::FactorPrime, 3))
}

fn reduce_73(sym: &mut Vec<Token>, cst: &mut Vec<CSTNode>) -> (r: Option<(NonTerm, usize)>)
    ensures
        reduces_as(reduce_spec(73, token_views(old(sym)@), node_views(old(cst)@)), r, *old(sym), *old(cst), *final(sym), *final(cst)),
{
    if sym.len() < 1 || cst.len() < 1 {
        return None;
    }
    let ghost syms = token_views(sym@);
    let ghost nodes = node_views(cst@);
    let op = pop_token(sym);
    assert(op@ == top(syms, 0));
    let unary = pop_node(cst);
    assert(unary@ == top(nodes, 0));
    let node = CSTNode::FactorPrime {
        op: op.value,
        unary: Box::new(unary),
        factor_prime: None,
    };
    assert(token_views(sym@) =~= syms.take(syms.len() - 1));
    assert(node_views(cst@) =~= nodes.take(nodes.len() - 1));
    push_node(cst, node);
    Some((NonTerm::FactorPrime, 2))
}

fn reduce_75(sym: &mut Vec<Token>, cst: &mut Vec<CSTNode>) -> (r: Option<(NonTerm, usize)>)
    ensures
        reduces_as(reduce_spec(75, token_views(old(sym)@), node_views(old(cst)@)), r, *old(sym), *old(cst), *final(sym), *final(cst)),
{
    if sym.len() < 0 || cst.len() < 2 {
        return None;
    }
    let ghost syms = token_views(sym@);
    let ghost nodes = node_views(cst@);
    let logical_and_prime = pop_node(cst);
    assert(logical_and_prime@ == top(nodes, 0));
    let equality = pop_node(cst);
    assert(equality@ == top(nodes, 1));
    let node = CSTNode::LogicalAnd {
        equality: Box::new(equality),
        logical_and_prime: Some(Box::new(logical_and_prime)),
    };
    assert(token_views(sym@) =~= syms.take(syms.len() - 0));
    assert(node_views(cst@) =~= nodes.take(nodes.len() - 2));
    push_node(cst, node);
    Some((NonTerm::LogicalAnd, 2))
}

fn reduce_76(sym: &mut Vec<Token>, cst: &mut Vec<CSTNode>) -> (r: Option<(NonTerm, usize)>)
    ensures
        reduces_as(reduce_spec(76, token_views(old(sym)@), node_views(old(cst)@)), r, *old(sym), *old(cst), *final(sym), *final(cst)),
{
    if sym.len() < 0 || cst.len() < 1 {
        return None;
    }
    let ghost syms = token_views(sym@);
    let ghost nodes = node_views(cst@);
    let equality = pop_node(cst);
    assert(equality@ == top(nodes, 0));
    let node = CSTNode::LogicalAnd {
        equality: Box::new(equality),
        logical_and_prime: None,
    };
    assert(token_views(sym@) =~= syms.take(syms.len() - 0));
    assert(node_views(cst@) =~= nodes.take(nodes.len() - 1));
    push_node(cst, node);
    Some((NonTerm::LogicalAnd, 1))
}

fn reduce_77(sym: &mut Vec<Token>, cst: &mut Vec<CSTNode>) -> (r: Option<(NonTerm, usize)>)
    ensures
        reduces_as(reduce_spec(77, token_views(old(sym)@), node_views(old(cst)@)), r, *old(sym), *old(cst), *final(sym), *final(cst)),
{
    if sym.len() < 1 || cst.len() < 2 {
        return None;
    }
    let ghost syms = token_views(sym@);
    let ghost nodes = node_views(cst@);
    let op = pop_token(sym);
    assert(op@ == top(syms, 0));
    let logical_and_prime = pop_node(cst);
    assert(logical_and_prime@ == top(nodes, 0));
    let equality = pop_node(cst);
    assert(equality@ == top(nodes, 1));
    let node = CSTNode::LogicalAndPrime {
        op: op.value,
        equality: Box::new(equality),
        logical_and_prime: Some(Box::new(logical_and_prime)),
    };
    assert(token_views(sym@) =~= syms.take(syms.len() - 1));
    assert(node_views(cst@) =~= nodes.take(nodes.len() - 2));
    push_node(cst, node);
    Some((NonTerm::LogicalAndPrime, 3))
}

fn reduce_78(sym: &mut Vec<Token>, cst: &mut Vec<CSTNode>) -> (r: Option<(NonTerm, usize)>)
    ensures
        reduces_as(reduce_spec(78, token_views(old(sym)@), node_views(old(cst)@)), r, *old(sym), *old(cst), *final(sym), *final(cst)),
{
    if sym.len() < 1 || cst.len() < 1 {
        return None;
    }
    let ghost syms = token_views(sym@);
    let ghost nodes = node_views(cst@);
    let op = pop_token(sym);
    assert(op@ == top(syms, 0));
    let equality = pop_node(cst);
    assert(equality@ == top(nodes, 0));
    let node = CSTNode::LogicalAndPrime {
        op: op.value,
        equality: Box::new(equality),
        logical_and_prime: None,
    };
    assert(token_views(sym@) =~= syms.take(syms.len() - 1));
    assert(node_views(cst@) =~= nodes.take(nodes.len() - 1));
    push_node(cst, node);
    Some((NonTerm::LogicalAndPrime, 2))
}

fn reduce_79(sym: &mut Vec<Token>, cst: &mut Vec<CSTNode>) -> (r: Option<(NonTerm, usize)>)
    ensures
        reduces_as(reduce_spec(79, token_views(old(sym)@), node_views(old(cst)@)), r, *old(sym), *old(cst), *final(sym), *final(cst)),
{
    if sym.len() < 0 || cst.len() < 2 {
        return None;
    }
    let ghost syms = token_views(sym@);
    let ghost nodes = node_views(cst@);
    let logical_or_prime = pop_node(cst);
    assert(logical_or_prime@ == top(nodes, 0));
    let logical_and = pop_node(cst);
    assert(logical_and@ == top(nodes, 1));
    let node = CSTNode::LogicalOr {
        logical_and: Box::new(logical_and),
        logical_or_prime: Some(Box::new(logical_or_prime)),
    };
    assert(token_views(sym@) =~= syms.take(syms.len() - 0));
    assert(node_views(cst@) =~= nodes.take(nodes.len() - 2));
    push_node(cst, node);
    Some((NonTerm::LogicalOr, 2))
}

fn reduce_80(sym: &mut Vec<Token>, cst: &mut Vec<CSTNode>) -> (r: Option<(NonTerm, usize)>)
    ensures
        reduces_as(reduce_spec(80, token_views(old(sym)@), node_views(old(cst)@)), r, *old(sym), *old(cst), *final(sym), *final(cst)),
{
    if sym.len() < 0 || cst.len() < 1 {
        return None;
    }
    let ghost syms = token_views(sym@);
    let ghost nodes = node_views(cst@);
    let logical_and = pop_node(cst);
    assert(logical_and@ == top(nodes, 0));
    let node = CSTNode::LogicalOr {
        logical_and: Box::new(logical_and),
        logical_or_prime: None,
    };
    assert(token_views(sym@) =~= syms.take(syms.len() - 0));
    assert(node_views(cst@) =~= nodes.take(nodes.len() - 1));
    push_node(cst, node);
    Some((NonTerm::LogicalOr, 1))
}

fn reduce_81(sym: &mut Vec<Token>, cst: &mut Vec<CSTNode>) -> (r: Option<(NonTerm, usize)>)
    ensures
        reduces_as(reduce_spec(81, token_views(old(sym)@), node_views(old(cst)@)), r, *old(sym), *old(cst), *final(sym), *final(cst)),
{
    if sym.len() < 1 || cst.len() < 2 {
        return None;
    }
    let ghost syms = token_views(sym@);
    let ghost nodes = node_views(cst@);
    let op = pop_token(sym);
    assert(op@ == top(syms, 0));
    let logical_or_prime = pop_node(cst);
    assert(logical_or_prime@ == top(nodes, 0));
    let logical_and = pop_node(cst);
    assert(logical_and@ == top(nodes, 1));
    let node = CSTNode::LogicalOrPrime {
        op: op.value,
        logical_and: Box::new(logical_and),
        logical_or_prime: Some(Box::new(logical_or_prime)),
    };
    assert(token_views(sym@) =~= syms.take(syms.len() - 1));
    assert(node_views(cst@) =~= nodes.take(nodes.len() - 2));
    push_node(cst, node);
    Some((NonTerm::LogicalOrPrime, 3))
}

fn reduce_82(sym: &mut Vec<Token>, cst: &mut Vec<CSTNode>) -> (r: Option<(NonTerm, usize)>)
    ensures
        reduces_as(reduce_spec(82, token_views(old(sym)@), node_views(old(cst)@)), r, *old(sym), *old(cst), *final(sym), *final(cst)),
{
    if sym.len() < 1 || cst.len() < 1 {
        return None;
    }
    let ghost syms = token_views(sym@);
    let ghost nodes = node_views(cst@);
    let op = pop_token(sym);
    assert(op@ == top(syms, 0));
    let logical_and = pop_node(cst);
    assert(logical_and@ == top(nodes, 0));
    let node = CSTNode::LogicalOrPrime {
        op: op.value,
        logical_and: Box::new(logical_and),
        logical_or_prime: None,
    };
    assert(token_views(sym@) =~= syms.take(syms.len() - 1));
    assert(node_views(cst@) =~= nodes.take(nodes.len() - 1));
    push_node(cst, node);
    Some((NonTerm::LogicalOrPrime, 2))
}

fn reduce_83(sym: &mut Vec<Token>, cst: &mut Vec<CSTNode>) -> (r: Option<(NonTerm, usize)>)
    ensures
        reduces_as(reduce_spec(83, token_views(old(sym)@), node_views(old(cst)@)), r, *old(sym), *old(cst), *final(sym), *final(cst)),
{
    if sym.len() < 1 || cst.len() < 0 {
        return None;
    }
    let ghost syms = token_views(sym@);
    let ghost nodes = node_views(cst@);
    let symbol = pop_token(sym);
    assert(symbol@ == top(syms, 0));
    let node = CSTNode::Primary {
        symbol: Some(symbol),
        lp: None,
        rp: None,
        expression: None,
        fun_call: None,
    };
    assert(token_views(sym@) =~= syms.take(syms.len() - 1));
    assert(node_views(cst@) =~= nodes.take(nodes.len() - 0));
    push_node(cst, node);
    Some((NonTerm::Primary, 1))
}

fn reduce_87(sym: &mut Vec<Token>, cst: &mut Vec<CSTNode>) -> (r: Option<(NonTerm, usize)>)
    ensures
        reduces_as(reduce_spec(87, token_views(old(sym)@), node_views(old(cst)@)), r, *old(sym), *old(cst), *final(sym), *final(cst)),
{
    if sym.len() < 2 || cst.len() < 1 {
        return None;
    }
    let ghost syms = token_views(sym@);
    let ghost nodes = node_views(cst@);
    let rp = pop_token(sym);
    assert(rp@ == top(syms, 0));
    let lp = pop_token(sym);
    assert(lp@ == top(syms, 1));
    let expression = pop_node(cst);
    assert(expression@ == top(nodes, 0));
    let node = CSTNode::Primary {
        symbol: None,
        lp: Some(lp.value),
        rp: Some(rp.value),
        expression: Some(Box::new(expression)),
        fun_call: None,
    };
    assert(token_views(sym@) =~= syms.take(syms.len() - 2));
    assert(node_views(cst@) =~= nodes.take(nodes.len() - 1));
    push_node(cst, node);
    Some((NonTerm::Primary, 3))
}

fn reduce_88(sym: &mut Vec<Token>, cst: &mut Vec<CSTNode>) -> (r: Option<(NonTerm, usize)>)
    ensures
        reduces_as(reduce_spec(88, token_views(old(sym)@), node_views(old(cst)@)), r, *old(sym), *old(cst), *final(sym), *final(cst)),
{
    if sym.len() < 0 || cst.len() < 1 {
        return None;
    }
    let ghost syms = token_views(sym@);
    let ghost nodes = node_views(cst@);
    let fun_call = pop_node(cst);
    assert(fun_call@ == top(nodes, 0));
    let node = CSTNode::Primary {
        symbol: None,
        lp: None,
        rp: None,
        expression: None,
        fun_call: Some(Box::new(fun_call)),
    };
    assert(token_views(sym@) =~= syms.take(syms.len() - 0));
    assert(node_views(cst@) =~= nodes.take(nodes.len() - 1));
    push_node(cst, node);
    Some((NonTerm::Primary, 1))
}

fn reduce_89(sym: &mut Vec<Token>, cst: &mut Vec<CSTNode>) -> (r: Option<(NonTerm, usize)>)
    ensures
        reduces_as(reduce_spec(89, token_views(old(sym)@), node_views(old(cst)@)), r, *old(sym), *old(cst), *final(sym), *final(cst)),
{
    if sym.len() < 0 || cst.len() < 2 {
        return None;
    }
    let ghost syms = token_views(sym@);
    let ghost nodes = node_views(cst@);
    let term_prime = pop_node(cst);
    assert(term_prime@ == top(nodes, 0));
    let factor = pop_node(cst);
    assert(factor@ == top(nodes, 1));
    let node = CSTNode::Term {
        factor: Box::new(factor),
        term_prime: Some(Box::new(term_prime)),
    };
    assert(token_views(sym@) =~= syms.take(syms.len() - 0));
    assert(node_views(cst@) =~= nodes.take(nodes.len() - 2));
    push_node(cst, node);
    Some((NonTerm::Term, 2))
}

fn reduce_90(sym: &mut Vec<Token>, cst: &mut Vec<CSTNode>) -> (r: Option<(NonTerm, usize)>)
    ensures
        reduces_as(reduce_spec(90, token_views(old(sym)@), node_views(old(cst)@)), r, *old(sym), *old(cst), *final(sym), *final(cst)),
{
    if sym.len() < 0 || cst.len() < 1 {
        return None;
    }
    let ghost syms = token_views(sym@);
    let ghost nodes = node_views(cst@);
    let factor = pop_node(cst);
    assert(factor@ == top(nodes, 0));
    let node = CSTNode::Term {
        factor: Box::new(factor),
        term_prime: None,
    };
    assert(token_views(sym@) =~= syms.take(syms.len() - 0));
    assert(node_views(cst@) =~= nodes.take(nodes.len() - 1));
    push_node(cst, node);
    Some((NonTerm::Term, 1))
}

fn reduce_91(sym: &mut Vec<Token>, cst: &mut Vec<CSTNode>) -> (r: Option<(NonTerm, usize)>)
    ensures
        reduces_as(reduce_spec(91, token_views(old(sym)@), node_views(old(cst)@)), r, *old(sym), *old(cst), *final(sym), *final(cst)),
{
    if sym.len() < 1 || cst.len() < 2 {
        return None;
    }
    let ghost syms = token_views(sym@);
    let ghost nodes = node_views(cst@);
    let term_prime = pop_node(cst);
    assert(term_prime@ == top(nodes, 0));
    let factor = pop_node(cst);
    assert(factor@ == top(nodes, 1));
    let op = pop_token(sym);
    assert(op@ == top(syms, 0));
    let node = CSTNode::TermPrime {
        op: op.value,
        factor: Box::new(factor),
        term_prime: Some(Box::new(term_prime)),
    };
    assert(token_views(sym@) =~= syms.take(syms.len() - 1));
    assert(node_views(cst@) =~= nodes.take(nodes.len() - 2));
    push_node(cst, node);
    Some((NonTerm::TermPrime, 3))
}

fn reduce_93(sym: &mut Vec<Token>, cst: &mut Vec<CSTNode>) -> (r: Option<(NonTerm, usize)>)
    ensures
        reduces_as(reduce_spec(93, token_views(old(sym)@), node_views(old(cst)@)), r, *old(sym), *old(cst), *final(sym), *final(cst)),
{
    if sym.len() < 1 || cst.len() < 1 {
        return None;
    }
    let ghost syms = token_views(sym@);
    let ghost nodes = node_views(cst@);
    let factor = pop_node(cst);
    assert(factor@ == top(nodes, 0));
    let op = pop_token(sym);
    assert(op@ == top(syms, 0));
    let node = CSTNode::TermPrime {
        op: op.value,
        factor: Box::new(factor),
        term_prime: None,
    };
    assert(token_views(sym@) =~= syms.take(syms.len() - 1));
    assert(node_views(cst@) =~= nodes.take(nodes.len() - 1));
    push_node(cst, node);
    Some((NonTerm::TermPrime, 2))
}

fn reduce_95(sym: &mut Vec<Token>, cst: &mut Vec<CSTNode>) -> (r: Option<(NonTerm, usize)>)
    ensures
        reduces_as(reduce_spec(95, token_views(old(sym)@), node_views(old(cst)@)), r, *old(sym), *old(cst), *final(sym), *final(cst)),
{
    if sym.len() < 1 || cst.len() < 1 {
        return None;
    }
    let ghost syms = token_views(sym@);
    let ghost nodes = node_views(cst@);
    let op = pop_token(sym);
    assert(op@ == top(syms, 0));
    let unary = pop_node(cst);
    assert(unary@ == top(nodes, 0));
    let node = CSTNode::Unary {
        op: Some(op.value),
        unary: Box::new(unary),
    };
    assert(token_views(sym@) =~= syms.take(syms.len() - 1));
    assert(node_views(cst@) =~= nodes.take(nodes.len() - 1));
    push_node(cst, node);
    Some((NonTerm::Unary, 2))
}

fn reduce_96(sym: &mut Vec<Token>, cst: &mut Vec<CSTNode>) -> (r: Option<(NonTerm, usize)>)
    ensures
        reduces_as(reduce_spec(96, token_views(old(sym)@), node_views(old(cst)@)), r, *old(sym), *old(cst), *final(sym), *final(cst)),
{
    if sym.len() < 0 || cst.len() < 1 {
        return None;
    }
    let ghost syms = token_views(sym@);
    let ghost nodes = node_views(cst@);
    let primary = pop_node(cst);
    assert(primary@ == top(nodes, 0));
    let node = CSTNode::Unary {
        op: None,
        unary: Box::new(primary),
    };
    assert(token_views(sym@) =~= syms.take(syms.len() - 0));
    assert(node_views(cst@) =~= nodes.take(nodes.len() - 1));
    push_node(cst, node);
    Some((NonTerm::Unary, 1))
}

/// Reduces by production `rule`: takes its parts off the two stacks and
/// leaves the node made of them. `None`, with the stacks unchanged, where
/// `reduce_spec` has no reduction.
pub fn reduce(rule: usize, sym: &mut Vec<Token>, cst: &mut Vec<CSTNode>) -> (r: Option<
    (NonTerm, usize),
>)
    ensures
        reduces_as(
            reduce_spec(rule as nat, token_views(old(sym)@), node_views(old(cst)@)),
            r,
            *old(sym),
            *old(cst),
            *final(sym),
            *final(cst),
        ),
{
    if rule == 0 {
        Some((NonTerm::Accept, 0))
    } else if rule == 1 {
        reduce_1(sym, cst)
    } else if rule == 2 {
        reduce_2(sym, cst)
    } else if rule == 3 {
        reduce_3(sym, cst)
    } else if rule == 4 {
        reduce_4(sym, cst)
    } else if rule == 5 {
        reduce_5(sym, cst)
    } else if rule == 6 {
        reduce_6(sym, cst)
    } else if rule == 7 {
        reduce_7(sym, cst)
    } else if rule == 8 {
        reduce_8(sym, cst)
    } else if rule == 9 {
        reduce_9(sym, cst)
    } else if rule == 10 {
        reduce_10(sym, cst)
    } else if rule == 11 {
        reduce_11(sym, cst)
    } else if rule == 12 {
        reduce_12(sym, cst)
    } else if rule == 13 {
        reduce_13(sym, cst)
    } else if rule == 14 {
        reduce_14(sym, cst)
    } else if rule == 15 {
        reduce_15(sym, cst)
    } else if rule == 16 {
        reduce_16(sym, cst)
    } else if rule == 17 {
        reduce_17(sym, cst)
    } else if rule == 18 {
        reduce_18(sym, cst)
    } else if rule == 19 {
        reduce_19(sym, cst)
    } else if rule == 20 {
        reduce_20(sym, cst)
    } else if rule == 21 {
        reduce_21(sym, cst)
    } else if rule == 22 {
        reduce_22(sym, cst)
    } else if rule == 23 {
        reduce_23(sym, cst)
    } else if rule == 24 {
        reduce_24(sym, cst)
    } else if rule == 25 {
        reduce_25(sym, cst)
    } else if rule == 26 {
        reduce_26(sym, cst)
    } else if rule == 27 {
        reduce_27(sym, cst)
    } else if rule == 28 {
        reduce_28(sym, cst)
    } else if rule == 29 {
        reduce_29(sym, cst)
    } else if rule == 30 {
        reduce_30(sym, cst)
    } else if rule == 31 {
        reduce_31(sym, cst)
    } else if rule == 32 {
        reduce_32(sym, cst)
    } else if rule == 33 {
        reduce_33(sym, cst)
    } else if rule == 34 {
        reduce_34(sym, cst)
    } else if rule == 35 {
        reduce_35(sym, cst)
    } else if rule == 36 {
        reduce_36(sym, cst)
    } else if rule == 37 {
        reduce_37(sym, cst)
    } else if rule == 38 {
        reduce_38(sym, cst)
    } else if rule == 39 {
        reduce_39(sym, cst)
    } else if rule == 40 {
        reduce_40(sym, cst)
    } else if rule == 41 {
        reduce_41(sym, cst)
    } else if rule == 42 {
        reduce_42(sym, cst)
    } else if rule == 43 {
        reduce_43(sym, cst)
    } else if rule == 44 {
        reduce_44(sym, cst)
    } else if rule == 45 {
        reduce_45(sym, cst)
    } else if rule == 46 {
        reduce_46(sym, cst)
    } else if rule == 47 {
        reduce_47(sym, cst)
    } else if rule == 48 {
        reduce_48(sym, cst)
    } else if rule == 49 {
        reduce_49(sym, cst)
    } else if rule == 50 {
        reduce_50(sym, cst)
    } else if rule == 51 {
        reduce_51(sym, cst)
    } else if rule == 52 {
        reduce_52(sym, cst)
    } else if rule == 53 {
        reduce_53(sym, cst)
    } else if rule == 54 || rule == 55 || rule == 56 || rule == 57 {
        reduce_54(sym, cst)
    } else if rule == 58 || rule == 59 || rule == 60 || rule == 61 {
        reduce_58(sym, cst)
    } else if rule == 62 {
        reduce_62(sym, cst)
    } else if rule == 63 {
        reduce_63(sym, cst)
    } else if rule == 64 || rule == 65 {
        reduce_64(sym, cst)
    } else if rule == 66 || rule == 67 {
        reduce_66(sym, cst)
    } else if rule == 68 {
        reduce_68(sym, cst)
    } else if rule == 69 {
        reduce_69(sym, cst)
    } else if rule == 70 {
        reduce_70(sym, cst)
    } else if rule == 71 || rule == 72 {
        reduce_71(sym, cst)
    } else if rule == 73 || rule == 74 {
        reduce_73(sym, cst)
    } else if rule == 75 {
        reduce_75(sym, cst)
    } else if rule == 76 {
        reduce_76(sym, cst)
    } else if rule == 77 {
        reduce_77(sym, cst)
    } else if rule == 78 {
        reduce_78(sym, cst)
    } else if rule == 79 {
        reduce_79(sym, cst)
    } else if rule == 80 {
        reduce_80(sym, cst)
    } else if rule == 81 {
        reduce_81(sym, cst)
    } else if rule == 82 {
        reduce_82(sym, cst)
    } else if rule == 83 || rule == 84 || rule == 85 || rule == 86 {
        reduce_83(sym, cst)
    } else if rule == 87 {
        reduce_87(sym, cst)
    } else if rule == 88 {
        reduce_88(sym, cst)
    } else if rule == 89 {
        reduce_89(sym, cst)
    } else if rule == 90 {
        reduce_90(sym, cst)
    } else if rule == 91 || rule == 92 {
        reduce_91(sym, cst)
    } else if rule == 93 || rule == 94 {
        reduce_93(sym, cst)
    } else if rule == 95 || rule == 97 {
        reduce_95(sym, cst)
    } else if rule == 96 {
        reduce_96(sym, cst)
    } else {
        None
    }
}

// ---------------------------------------------------------------------
// The machine
// ---------------------------------------------------------------------

/// The machine between two steps: the stack of states, the stack of
/// shifted tokens, the stack of finished nodes, and the position in the
/// input.
pub ghost struct Machine {
    pub states: Seq<usize>,
    pub syms: Seq<TokenV>,
    pub nodes: Seq<CstV>,
    pub index: nat,
}

/// What the machine stopped with: the finished nodes, and, where it
/// stopped at a token that cannot stand there, the state it was in and
/// the position of the token.
pub ghost struct Parsed {
    pub nodes: Seq<CstV>,
    pub rejected: Option<(usize, nat)>,
}

/// What a step of the machine comes to.
pub ghost enum Outcome {
    /// The machine goes on from here.
    Running(Machine),
    /// The machine stops with this.
    Done(Parsed),
    /// The tables ask for what cannot be done.
    Fatal,
}

/// The token that stands for the end of the input.
pub open spec fn end_token() -> TokenV {
    TokenV { pos: 0, types: PhraseType::Separator, value: "$"@ }
}

/// The action of the table for the state `st` and the column `col`, if
/// the table has that entry.
pub open spec fn action_at(tables: Tables, st: usize, col: nat) -> Option<Action> {
    if st < tables.action.len() && col < tables.action[st as int].len() {
        Some(tables.action[st as int][col as int])
    } else {
        None
    }
}

/// The entry of the goto table for the state `st` and the column `col`,
/// if the table has that entry.
pub open spec fn goto_at(tables: Tables, st: usize, col: nat) -> Option<Option<usize>> {
    if st < tables.goto.len() && col < tables.goto[st as int].len() {
        Some(tables.goto[st as int][col as int])
    } else {
        None
    }
}

/// The stack `states` with its top `n` entries taken off, or as many as
/// it has.
pub open spec fn popped(states: Seq<usize>, n: nat) -> Seq<usize> {
    if n >= states.len() {
        Seq::empty()
    } else {
        states.take(states.len() - n)
    }
}

/// One step of the machine on the input `tokens`.
///
/// The action is looked up for the state on top and the column of the
/// token at the position, column 32 past the end. A shift pushes the
/// state and the token (the end token past the end) and moves on. A
/// reduction rebuilds the token and node stacks, takes as many states
/// off as the production is long, and pushes the state that the goto
/// table gives for the state then on top, if it gives one. Accept stops
/// with the nodes; so does an error at a token, which is then named. An
/// error past the end, a missing table entry, an empty state stack and a
/// reduction that cannot be made are fatal.
pub open spec fn step(tables: Tables, tokens: Seq<TokenV>, m: Machine) -> Outcome {
    if m.states.len() == 0 {
        Outcome::Fatal
    } else {
        let col = if m.index < tokens.len() {
            term_column(tokens[m.index as int].types, tokens[m.index as int].value)
        } else {
            32
        };
        match action_at(tables, m.states.last(), col) {
            None => Outcome::Fatal,
            Some(Action::Shift(ns)) => Outcome::Running(
                Machine {
                    states: m.states.push(ns),
                    syms: m.syms.push(
                        if m.index < tokens.len() {
                            tokens[m.index as int]
                        } else {
                            end_token()
                        },
                    ),
                    nodes: m.nodes,
                    index: m.index + 1,
                },
            ),
            Some(Action::Reduce(rule)) => match reduce_spec(rule as nat, m.syms, m.nodes) {
                None => Outcome::Fatal,
                Some(red) => {
                    let rest = popped(m.states, red.rhs_len);
                    if rest.len() == 0 {
                        Outcome::Fatal
                    } else {
                        match goto_at(tables, rest.last(), red.lhs.column()) {
                            None => Outcome::Fatal,
                            Some(Some(target)) => Outcome::Running(
                                Machine {
                                    states: rest.push(target),
                                    syms: red.syms,
                                    nodes: red.nodes,
                                    index: m.index,
                                },
                            ),
                            Some(None) => Outcome::Running(
                                Machine {
                                    states: rest,
                                    syms: red.syms,
                                    nodes: red.nodes,
                                    index: m.index,
                                },
                            ),
                        }
                    }
                },
            },
            Some(Action::Accept) => Outcome::Done(Parsed { nodes: m.nodes, rejected: None }),
            Some(Action::Error) => if m.index < tokens.len() {
                Outcome::Done(
                    Parsed { nodes: m.nodes, rejected: Some((m.states.last(), m.index)) },
                )
            } else {
                Outcome::Fatal
            },
        }
    }
}

/// What the machine stops with when it runs from `m` for at most `fuel`
/// steps; `None` where a step is fatal or the steps run out.
pub open spec fn run(tables: Tables, tokens: Seq<TokenV>, m: Machine, fuel: nat) -> Option<Parsed>
    decreases fuel,
{
    if fuel == 0 {
        None
    } else {
        match step(tables, tokens, m) {
            Outcome::Running(next) => run(tables, tokens, next, (fuel - 1) as nat),
            Outcome::Done(parsed) => Some(parsed),
            Outcome::Fatal => None,
        }
    }
}

/// The state in which the machine starts: state 0, empty stacks, at the
/// first token.
pub open spec fn start_machine() -> Machine {
    Machine { states: seq![0usize], syms: Seq::empty(), nodes: Seq::empty(), index: 0 }
}

/// What parsing `tokens` with `tables` gives: what the machine stops
/// with, within as many steps as a `usize` counts.
pub open spec fn parse_spec(tables: Tables, tokens: Seq<TokenV>) -> Option<Parsed> {
    run(tables, tokens, start_machine(), usize::MAX as nat)
}

fn pop_states(state: &mut Vec<usize>, n: usize)
    ensures
        final(state)@ == popped(old(state)@, n as nat),
{
    let mut k: usize = 0;
    assert(popped(state@, 0) =~= state@);
    while k < n
        invariant
            k <= n,
            state@ == popped(old(state)@, k as nat),
        decreases n - k,
    {
        let ghost before = state@;
        state.pop();
        k += 1;
        assert(state@ =~= popped(old(state)@, k as nat));
    }
}

fn lookup_action(tables: &Tables, st: usize, col: usize) -> (r: Option<Action>)
    ensures
        r == action_at(*tables, st, col as nat),
{
    if st < tables.action.len() && col < tables.action[st].len() {
        Some(tables.action[st][col])
    } else {
        None
    }
}

fn lookup_goto(tables: &Tables, st: usize, col: usize) -> (r: Option<Option<usize>>)
    ensures
        r == goto_at(*tables, st, col as nat),
{
    if st < tables.goto.len() && col < tables.goto[st].len() {
        Some(tables.goto[st][col])
    } else {
        None
    }
}

/// What the parser stopped with: the finished nodes, and, where it
/// stopped at a token that cannot stand there, the state it was in and
/// the position of the token.
#[derive(Debug)]
pub struct Parse {
    pub nodes: Vec<CSTNode>,
    pub rejected: Option<(usize, usize)>,
}

impl View for Parse {
    type V = Parsed;

    open spec fn view(&self) -> Parsed {
        Parsed {
            nodes: node_views(self.nodes@),
            rejected: match self.rejected {
                Some((state, index)) => Some((state, index as nat)),
                None => None,
            },
        }
    }
}

/// Parses `tokens` with `tables`. `None` exactly where `parse_spec` has
/// no result.
pub fn try_parse(tokens: &Vec<Token>, tables: &Tables) -> (r: Option<Parse>)
    ensures
        r is Some <==> parse_spec(*tables, token_views(tokens@)) is Some,
        r is Some ==> r->0@ == parse_spec(*tables, token_views(tokens@))->0,
{
    let ghost input = token_views(tokens@);
    let mut index: usize = 0;
    let mut state: Vec<usize> = Vec::new();
    state.push(0);
    let mut sym: Vec<Token> = Vec::new();
    let mut cst: Vec<CSTNode> = Vec::new();
    let mut steps: usize = 0;
    assert(state@ =~= seq![0usize]);
    assert(token_views(sym@) =~= Seq::<TokenV>::empty());
    assert(node_views(cst@) =~= Seq::<CstV>::empty());
    while steps < usize::MAX
        invariant
            input == token_views(tokens@),
            index <= steps,
            parse_spec(*tables, input) == run(
                *tables,
                input,
                (Machine {
                    states: state@,
                    syms: token_views(sym@),
                    nodes: node_views(cst@),
                    index: index as nat,
                }),
                (usize::MAX - steps) as nat,
            ),
        decreases usize::MAX - steps,
    {
        let ghost m = Machine {
            states: state@,
            syms: token_views(sym@),
            nodes: node_views(cst@),
            index: index as nat,
        };
        if state.len() == 0 {
            return None;
        }
        let col = if index < tokens.len() {
            assert(input[index as int] == tokens[index as int]@);
            term_index(&tokens[index])
        } else {
            32
        };
        let st = state[state.len() - 1];
        let action = match lookup_action(tables, st, col) {
            Some(a) => a,
            None => {
                return None;
            },
        };
        match action {
            Action::Shift(ns) => {
                let token = if index < tokens.len() {
                    tokens[index].clone()
                } else {
                    Token { pos: 0, types: PhraseType::Separator, value: "$".to_owned() }
                };
                let ghost before = token_views(sym@);
                state.push(ns);
                sym.push(token);
                assert(token_views(sym@) =~= before.push(token@));
                index += 1;
            },
            Action::Reduce(rule) => {
                match reduce(rule, &mut sym, &mut cst) {
                    Some((lhs, rhs_len)) => {
                        pop_states(&mut state, rhs_len);
                        if state.len() == 0 {
                            return None;
                        }
                        let top_state = state[state.len() - 1];
                        match lookup_goto(tables, top_state, lhs.to_index()) {
                            Some(Some(target)) => {
                                state.push(target);
                            },
                            Some(None) => {},
                            None => {
                                return None;
                            },
                        }
                    },
                    None => {
                        return None;
                    },
                }
            },
            Action::Accept => {
                return Some(Parse { nodes: cst, rejected: None });
            },
            Action::Error => {
                if index < tokens.len() {
                    return Some(Parse { nodes: cst, rejected: Some((st, index)) });
                } else {
                    return None;
                }
            },
        }
        steps += 1;
    }
    None
}

/// Parses `tokens` with `tables`, for an input and tables on which the
/// machine comes to a stop.
pub fn parse(tokens: &Vec<Token>, tables: &Tables) -> (r: Vec<CSTNode>)
    requires
        parse_spec(*tables, token_views(tokens@)) is Some,
    ensures
        node_views(r@) == parse_spec(*tables, token_views(tokens@))->0.nodes,
{
    match try_parse(tokens, tables) {
        Some(r) => r.nodes,
        None => vstd::pervasive::unreached(),
    }
}

} // verus!
