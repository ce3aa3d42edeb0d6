//! Questions that the parser asks of tokens.

use crate::lexer::lexer::Token;
use crate::parser::parse::CSTNode;
use crate::text::push_text;
use crate::utils::types::PhraseType;
use vstd::prelude::*;

verus! {

/// At most `len` tokens of `tokens` from position `start` on.
pub fn look_forward(tokens: &Vec<Token>, start: usize, len: usize) -> (r: Vec<Token>)
    ensures
        r@ == (if start >= tokens.len() {
            Seq::<Token>::empty()
        } else if start + len <= tokens.len() {
            tokens@.subrange(start as int, start + len)
        } else {
            tokens@.subrange(start as int, tokens.len() as int)
        }),
{
    let mut out: Vec<Token> = Vec::new();
    if start >= tokens.len() {
        return out;
    }
    let end: usize = if len > tokens.len() - start {
        tokens.len()
    } else {
        start + len
    };
    let mut i: usize = start;
    while i < end
        invariant
            start <= i <= end <= tokens.len(),
            out@ == tokens@.subrange(start as int, i as int),
        decreases end - i,
    {
        out.push(tokens[i].clone());
        i += 1;
        assert(tokens@.subrange(start as int, i as int) == tokens@.subrange(
            start as int,
            i - 1,
        ).push(tokens@[i - 1]));
    }
    out
}

/// `value` names a type.
pub open spec fn type_keyword(value: Seq<char>) -> bool {
    value == "int"@ || value == "uint"@ || value == "float"@ || value == "double"@ || value
        == "char"@ || value == "String"@
}

/// Whether `value` names a type.
pub fn is_type_keyword(value: &String) -> (r: bool)
    ensures
        r == type_keyword(value@),
{
    let v = value.as_str();
    *v == *"int" || *v == *"uint" || *v == *"float" || *v == *"double" || *v == *"char" || *v
        == *"String"
}

/// `value` is a keyword of control flow.
pub open spec fn control_keyword(value: Seq<char>) -> bool {
    value == "if"@ || value == "else"@ || value == "while"@ || value == "for"@ || value
        == "return"@ || value == "break"@ || value == "continue"@
}

/// Whether `value` is a keyword of control flow.
pub fn is_control_keyword(value: &String) -> (r: bool)
    ensures
        r == control_keyword(value@),
{
    let v = value.as_str();
    *v == *"if" || *v == *"else" || *v == *"while" || *v == *"for" || *v == *"return" || *v
        == *"break" || *v == *"continue"
}

/// The column of the action table that a token of kind `types` and text
/// `value` selects. Column 32 stands for the end of the input and for
/// every token that has no column of its own.
pub open spec fn term_column(types: PhraseType, value: Seq<char>) -> nat {
    if types == PhraseType::Operator {
        if value == "!"@ {
            0
        } else if value == "!="@ {
            1
        } else if value == "&&"@ {
            2
        } else if value == "*"@ {
            5
        } else if value == "+"@ {
            6
        } else if value == "-"@ {
            8
        } else if value == "/"@ {
            9
        } else if value == "<"@ {
            11
        } else if value == "<="@ {
            12
        } else if value == "="@ {
            13
        } else if value == "=="@ {
            14
        } else if value == ">"@ {
            15
        } else if value == ">="@ {
            16
        } else if value == "||"@ {
            30
        } else {
            32
        }
    } else if types == PhraseType::Separator {
        if value == "("@ {
            3
        } else if value == ")"@ {
            4
        } else if value == ","@ {
            7
        } else if value == ";"@ {
            10
        } else if value == "["@ {
            18
        } else if value == "]"@ {
            19
        } else if value == "{"@ {
            29
        } else if value == "}"@ {
            31
        } else {
            32
        }
    } else if types == PhraseType::Keyword {
        if type_keyword(value) {
            17
        } else if value == "else"@ {
            20
        } else if value == "if"@ {
            23
        } else if value == "return"@ {
            25
        } else if value == "struct"@ {
            26
        } else if value == "while"@ {
            28
        } else {
            32
        }
    } else if types == PhraseType::Identifier {
        if value == "false"@ {
            21
        } else if value != "true"@ {
            22
        } else {
            27
        }
    } else if types == PhraseType::Float || types == PhraseType::Bool || types == PhraseType::Char
        || types == PhraseType::Hex || types == PhraseType::Dec || types == PhraseType::Oct {
        24
    } else {
        32
    }
}

/// The column of the action table that `tok` selects.
pub fn term_index(tok: &Token) -> (r: usize)
    ensures
        r == term_column(tok.types, tok.value@),
{
    let v = tok.value.as_str();
    match tok.types {
        PhraseType::Operator => {
            if *v == *"!" {
                0
            } else if *v == *"!=" {
                1
            } else if *v == *"&&" {
                2
            } else if *v == *"*" {
                5
            } else if *v == *"+" {
                6
            } else if *v == *"-" {
                8
            } else if *v == *"/" {
                9
            } else if *v == *"<" {
                11
            } else if *v == *"<=" {
                12
            } else if *v == *"=" {
                13
            } else if *v == *"==" {
                14
            } else if *v == *">" {
                15
            } else if *v == *">=" {
                16
            } else if *v == *"||" {
                30
            } else {
                32
            }
        },
        PhraseType::Separator => {
            if *v == *"(" {
                3
            } else if *v == *")" {
                4
            } else if *v == *"," {
                7
            } else if *v == *";" {
                10
            } else if *v == *"[" {
                18
            } else if *v == *"]" {
                19
            } else if *v == *"{" {
                29
            } else if *v == *"}" {
                31
            } else {
                32
            }
        },
        PhraseType::Keyword => {
            if is_type_keyword(&tok.value) {
                17
            } else if *v == *"else" {
                20
            } else if *v == *"if" {
                23
            } else if *v == *"return" {
                25
            } else if *v == *"struct" {
                26
            } else if *v == *"while" {
                28
            } else {
                32
            }
        },
        PhraseType::Identifier => {
            if *v == *"false" {
                21
            } else if !(*v == *"true") {
                22
            } else {
                27
            }
        },
        PhraseType::Float | PhraseType::Bool | PhraseType::Char | PhraseType::Hex
        | PhraseType::Dec | PhraseType::Oct => 24,
        _ => 32,
    }
}

/// The node that `node` holds, if it holds one, as a list.
pub open spec fn optional_node(node: Option<Box<CSTNode>>) -> Seq<CSTNode> {
    match node {
        Some(n) => seq![*n],
        None => Seq::empty(),
    }
}

fn push_optional<'a>(v: &mut Vec<&'a CSTNode>, node: &'a Option<Box<CSTNode>>)
    ensures
        final(v).len() == old(v).len() + optional_node(*node).len(),
        forall|i: int| 0 <= i < old(v).len() ==> final(v)[i] == old(v)[i],
        forall|i: int|
            old(v).len() <= i < final(v).len() ==> *final(v)[i] == optional_node(*node)[i - old(
                v,
            ).len()],
{
    match node {
        Some(n) => {
            v.push(n);
        },
        None => {},
    }
}

impl CSTNode {
    /// The name of the nonterminal that the node stands for.
    pub open spec fn name_text(self) -> Seq<char> {
        match self {
            CSTNode::Assign { .. } => "Assign"@,
            CSTNode::AssignPrime { .. } => "AssignPrime"@,
            CSTNode::UnMatchedStmt { .. } => "UnMatchedStmt"@,
            CSTNode::StructSpecifier { .. } => "StructSpecifier"@,
            CSTNode::Specifier { .. } => "Specifier"@,
            CSTNode::ParaDec { .. } => "ParaDec"@,
            CSTNode::MatchedStmt { .. } => "MatchedStmt"@,
            CSTNode::StmtList { .. } => "StmtList"@,
            CSTNode::Stmt { .. } => "Stmt"@,
            CSTNode::NormalStmt { .. } => "NormalStmt"@,
            CSTNode::Program(_) => "Program"@,
            CSTNode::Expression(_) => "Expression"@,
            CSTNode::FunCall { .. } => "FunCall"@,
            CSTNode::FunDec { .. } => "FunDec"@,
            CSTNode::VarList { .. } => "VarList"@,
            CSTNode::VarDec { .. } => "VarDec"@,
            CSTNode::LogicalOrPrime { .. } => "LogicalOrPrime"@,
            CSTNode::LogicalOr { .. } => "LogicalOr"@,
            CSTNode::LogicalAnd { .. } => "LogicalAnd"@,
            CSTNode::LogicalAndPrime { .. } => "LogicalAndPrime"@,
            CSTNode::ExtDefList { .. } => "ExtDefList"@,
            CSTNode::ExtDef { .. } => "ExtDef"@,
            CSTNode::ExtDecList { .. } => "ExtDecList"@,
            CSTNode::DefList { .. } => "DefList"@,
            CSTNode::Def { .. } => "Def"@,
            CSTNode::DecList { .. } => "DecList"@,
            CSTNode::Dec { .. } => "Dec"@,
            CSTNode::CompSt { .. } => "CompSt"@,
            CSTNode::Arguments { .. } => "Arguments"@,
            CSTNode::ArgumentsTail { .. } => "ArgumentsTail"@,
            CSTNode::Equality { .. } => "Equality"@,
            CSTNode::EqualityPrime { .. } => "EqualityPrime"@,
            CSTNode::ComparisonPrime { .. } => "ComparisonPrime"@,
            CSTNode::Comparison { .. } => "Comparison"@,
            CSTNode::Term { .. } => "Term"@,
            CSTNode::TermPrime { .. } => "TermPrime"@,
            CSTNode::Factor { .. } => "Factor"@,
            CSTNode::FactorPrime { .. } => "FactorPrime"@,
            CSTNode::Unary { .. } => "Unary"@,
            CSTNode::Primary { .. } => "Primary"@,
        }
    }

    /// The child nodes, in the order in which the tree is printed.
    pub open spec fn child_nodes(self) -> Seq<CSTNode> {
        match self {
            CSTNode::Assign { logical_or, assign_prime, .. } => seq![*logical_or] + optional_node(assign_prime),
            CSTNode::AssignPrime { logical_or, assign_prime, .. } => seq![*logical_or] + optional_node(assign_prime),
            CSTNode::UnMatchedStmt { expression, matched_stmt, unmatched_stmt, stmt, .. } => optional_node(expression) + optional_node(matched_stmt) + optional_node(unmatched_stmt) + optional_node(stmt),
            CSTNode::StructSpecifier { def_list, .. } => optional_node(def_list),
            CSTNode::Specifier { struct_specifier, .. } => optional_node(struct_specifier),
            CSTNode::ParaDec { spec, var_dec, .. } => seq![*spec] + seq![*var_dec],
            CSTNode::MatchedStmt { normal_stmt, expression, matched_stmt_fore, matched_stmt_back, .. } => optional_node(normal_stmt) + optional_node(expression) + optional_node(matched_stmt_fore) + optional_node(matched_stmt_back),
            CSTNode::StmtList { stmt, stmt_list, .. } => seq![*stmt] + optional_node(stmt_list),
            CSTNode::Stmt { unmatched_stmt, matched_stmt, .. } => optional_node(unmatched_stmt) + optional_node(matched_stmt),
            CSTNode::NormalStmt { expression, compst, .. } => optional_node(expression) + optional_node(compst),
            CSTNode::Program(node) => seq![*node],
            CSTNode::Expression(node) => seq![*node],
            CSTNode::FunCall { arguments, .. } => optional_node(arguments),
            CSTNode::FunDec { var_list, .. } => optional_node(var_list),
            CSTNode::VarList { para_dec, var_list, .. } => seq![*para_dec] + optional_node(var_list),
            CSTNode::VarDec { var_dec, .. } => optional_node(var_dec),
            CSTNode::LogicalOrPrime { logical_and, logical_or_prime, .. } => seq![*logical_and] + optional_node(logical_or_prime),
            CSTNode::LogicalOr { logical_and, logical_or_prime, .. } => seq![*logical_and] + optional_node(logical_or_prime),
            CSTNode::LogicalAnd { equality, logical_and_prime, .. } => seq![*equality] + optional_node(logical_and_prime),
            CSTNode::LogicalAndPrime { equality, logical_and_prime, .. } => seq![*equality] + optional_node(logical_and_prime),
            CSTNode::ExtDefList { ext_def, ext_def_list, .. } => seq![*ext_def] + optional_node(ext_def_list),
            CSTNode::ExtDef { spec, ext_dec_list, fun_dec, compst, .. } => seq![*spec] + optional_node(ext_dec_list) + optional_node(fun_dec) + optional_node(compst),
            CSTNode::ExtDecList { var_dec, ext_dec_list, .. } => seq![*var_dec] + optional_node(ext_dec_list),
            CSTNode::DefList { def, def_list, .. } => seq![*def] + optional_node(def_list),
            CSTNode::Def { spec, dec_list, .. } => seq![*spec] + seq![*dec_list],
            CSTNode::DecList { dec, dec_list, .. } => seq![*dec] + optional_node(dec_list),
            CSTNode::Dec { var_dec, expression, .. } => seq![*var_dec] + optional_node(expression),
            CSTNode::CompSt { def_list, stmt_list, .. } => optional_node(def_list) + seq![*stmt_list],
            CSTNode::Arguments { expression, arguments_tail, .. } => seq![*expression] + optional_node(arguments_tail),
            CSTNode::ArgumentsTail { expression, .. } => seq![*expression],
            CSTNode::Equality { comparison, equality_prime, .. } => seq![*comparison] + optional_node(equality_prime),
            CSTNode::EqualityPrime { comparison, equality_prime, .. } => seq![*comparison] + optional_node(equality_prime),
            CSTNode::ComparisonPrime { term, comparison_prime, .. } => seq![*term] + optional_node(comparison_prime),
            CSTNode::Comparison { term, comparison_prime, .. } => seq![*term] + optional_node(comparison_prime),
            CSTNode::Term { factor, term_prime, .. } => seq![*factor] + optional_node(term_prime),
            CSTNode::TermPrime { factor, term_prime, .. } => seq![*factor] + optional_node(term_prime),
            CSTNode::Factor { unary, factor_prime, .. } => seq![*unary] + optional_node(factor_prime),
            CSTNode::FactorPrime { unary, factor_prime, .. } => seq![*unary] + optional_node(factor_prime),
            CSTNode::Unary { unary, .. } => seq![*unary],
            CSTNode::Primary { expression, fun_call, .. } => optional_node(expression) + optional_node(fun_call),
        }
    }

    /// The name of the nonterminal that the node stands for.
    pub fn name(&self) -> (r: &'static str)
        ensures
            r@ == self.name_text(),
    {
        match self {
            CSTNode::Assign { .. } => "Assign",
            CSTNode::AssignPrime { .. } => "AssignPrime",
            CSTNode::UnMatchedStmt { .. } => "UnMatchedStmt",
            CSTNode::StructSpecifier { .. } => "StructSpecifier",
            CSTNode::Specifier { .. } => "Specifier",
            CSTNode::ParaDec { .. } => "ParaDec",
            CSTNode::MatchedStmt { .. } => "MatchedStmt",
            CSTNode::StmtList { .. } => "StmtList",
            CSTNode::Stmt { .. } => "Stmt",
            CSTNode::NormalStmt { .. } => "NormalStmt",
            CSTNode::Program(_) => "Program",
            CSTNode::Expression(_) => "Expression",
            CSTNode::FunCall { .. } => "FunCall",
            CSTNode::FunDec { .. } => "FunDec",
            CSTNode::VarList { .. } => "VarList",
            CSTNode::VarDec { .. } => "VarDec",
            CSTNode::LogicalOrPrime { .. } => "LogicalOrPrime",
            CSTNode::LogicalOr { .. } => "LogicalOr",
            CSTNode::LogicalAnd { .. } => "LogicalAnd",
            CSTNode::LogicalAndPrime { .. } => "LogicalAndPrime",
            CSTNode::ExtDefList { .. } => "ExtDefList",
            CSTNode::ExtDef { .. } => "ExtDef",
            CSTNode::ExtDecList { .. } => "ExtDecList",
            CSTNode::DefList { .. } => "DefList",
            CSTNode::Def { .. } => "Def",
            CSTNode::DecList { .. } => "DecList",
            CSTNode::Dec { .. } => "Dec",
            CSTNode::CompSt { .. } => "CompSt",
            CSTNode::Arguments { .. } => "Arguments",
            CSTNode::ArgumentsTail { .. } => "ArgumentsTail",
            CSTNode::Equality { .. } => "Equality",
            CSTNode::EqualityPrime { .. } => "EqualityPrime",
            CSTNode::ComparisonPrime { .. } => "ComparisonPrime",
            CSTNode::Comparison { .. } => "Comparison",
            CSTNode::Term { .. } => "Term",
            CSTNode::TermPrime { .. } => "TermPrime",
            CSTNode::Factor { .. } => "Factor",
            CSTNode::FactorPrime { .. } => "FactorPrime",
            CSTNode::Unary { .. } => "Unary",
            CSTNode::Primary { .. } => "Primary",
        }
    }

    /// The child nodes, in the order in which the tree is printed.
    pub fn children(&self) -> (r: Vec<&CSTNode>)
        ensures
            r.len() == self.child_nodes().len(),
            forall|i: int| 0 <= i < r.len() ==> *r[i] == self.child_nodes()[i],
    {
        let mut v: Vec<&CSTNode> = Vec::new();
        match self {
            CSTNode::Assign { logical_or, assign_prime, .. } => {
                v.push(logical_or);
                push_optional(&mut v, assign_prime);
            },
            CSTNode::AssignPrime { logical_or, assign_prime, .. } => {
                v.push(logical_or);
                push_optional(&mut v, assign_prime);
            },
            CSTNode::UnMatchedStmt { expression, matched_stmt, unmatched_stmt, stmt, .. } => {
                push_optional(&mut v, expression);
                push_optional(&mut v, matched_stmt);
                push_optional(&mut v, unmatched_stmt);
                push_optional(&mut v, stmt);
            },
            CSTNode::StructSpecifier { def_list, .. } => {
                push_optional(&mut v, def_list);
            },
            CSTNode::Specifier { struct_specifier, .. } => {
                push_optional(&mut v, struct_specifier);
            },
            CSTNode::ParaDec { spec, var_dec, .. } => {
                v.push(spec);
                v.push(var_dec);
            },
            CSTNode::MatchedStmt { normal_stmt, expression, matched_stmt_fore, matched_stmt_back, .. } => {
                push_optional(&mut v, normal_stmt);
                push_optional(&mut v, expression);
                push_optional(&mut v, matched_stmt_fore);
                push_optional(&mut v, matched_stmt_back);
            },
            CSTNode::StmtList { stmt, stmt_list, .. } => {
                v.push(stmt);
                push_optional(&mut v, stmt_list);
            },
            CSTNode::Stmt { unmatched_stmt, matched_stmt, .. } => {
                push_optional(&mut v, unmatched_stmt);
                push_optional(&mut v, matched_stmt);
            },
            CSTNode::NormalStmt { expression, compst, .. } => {
                push_optional(&mut v, expression);
                push_optional(&mut v, compst);
            },
            CSTNode::Program(node) => {
                v.push(node);
            },
            CSTNode::Expression(node) => {
                v.push(node);
            },
            CSTNode::FunCall { arguments, .. } => {
                push_optional(&mut v, arguments);
            },
            CSTNode::FunDec { var_list, .. } => {
                push_optional(&mut v, var_list);
            },
            CSTNode::VarList { para_dec, var_list, .. } => {
                v.push(para_dec);
                push_optional(&mut v, var_list);
            },
            CSTNode::VarDec { var_dec, .. } => {
                push_optional(&mut v, var_dec);
            },
            CSTNode::LogicalOrPrime { logical_and, logical_or_prime, .. } => {
                v.push(logical_and);
                push_optional(&mut v, logical_or_prime);
            },
            CSTNode::LogicalOr { logical_and, logical_or_prime, .. } => {
                v.push(logical_and);
                push_optional(&mut v, logical_or_prime);
            },
            CSTNode::LogicalAnd { equality, logical_and_prime, .. } => {
                v.push(equality);
                push_optional(&mut v, logical_and_prime);
            },
            CSTNode::LogicalAndPrime { equality, logical_and_prime, .. } => {
                v.push(equality);
                push_optional(&mut v, logical_and_prime);
            },
            CSTNode::ExtDefList { ext_def, ext_def_list, .. } => {
                v.push(ext_def);
                push_optional(&mut v, ext_def_list);
            },
            CSTNode::ExtDef { spec, ext_dec_list, fun_dec, compst, .. } => {
                v.push(spec);
                push_optional(&mut v, ext_dec_list);
                push_optional(&mut v, fun_dec);
                push_optional(&mut v, compst);
            },
            CSTNode::ExtDecList { var_dec, ext_dec_list, .. } => {
                v.push(var_dec);
                push_optional(&mut v, ext_dec_list);
            },
            CSTNode::DefList { def, def_list, .. } => {
                v.push(def);
                push_optional(&mut v, def_list);
            },
            CSTNode::Def { spec, dec_list, .. } => {
                v.push(spec);
                v.push(dec_list);
            },
            CSTNode::DecList { dec, dec_list, .. } => {
                v.push(dec);
                push_optional(&mut v, dec_list);
            },
            CSTNode::Dec { var_dec, expression, .. } => {
                v.push(var_dec);
                push_optional(&mut v, expression);
            },
            CSTNode::CompSt { def_list, stmt_list, .. } => {
                push_optional(&mut v, def_list);
                v.push(stmt_list);
            },
            CSTNode::Arguments { expression, arguments_tail, .. } => {
                v.push(expression);
                push_optional(&mut v, arguments_tail);
            },
            CSTNode::ArgumentsTail { expression, .. } => {
                v.push(expression);
            },
            CSTNode::Equality { comparison, equality_prime, .. } => {
                v.push(comparison);
                push_optional(&mut v, equality_prime);
            },
            CSTNode::EqualityPrime { comparison, equality_prime, .. } => {
                v.push(comparison);
                push_optional(&mut v, equality_prime);
            },
            CSTNode::ComparisonPrime { term, comparison_prime, .. } => {
                v.push(term);
                push_optional(&mut v, comparison_prime);
            },
            CSTNode::Comparison { term, comparison_prime, .. } => {
                v.push(term);
                push_optional(&mut v, comparison_prime);
            },
            CSTNode::Term { factor, term_prime, .. } => {
                v.push(factor);
                push_optional(&mut v, term_prime);
            },
            CSTNode::TermPrime { factor, term_prime, .. } => {
                v.push(factor);
                push_optional(&mut v, term_prime);
            },
            CSTNode::Factor { unary, factor_prime, .. } => {
                v.push(unary);
                push_optional(&mut v, factor_prime);
            },
            CSTNode::FactorPrime { unary, factor_prime, .. } => {
                v.push(unary);
                push_optional(&mut v, factor_prime);
            },
            CSTNode::Unary { unary, .. } => {
                v.push(unary);
            },
            CSTNode::Primary { expression, fun_call, .. } => {
                push_optional(&mut v, expression);
                push_optional(&mut v, fun_call);
            },
        }
        v
    }
}

/// Every child of a node is a part of it.
pub proof fn lemma_child_is_smaller(node: CSTNode, i: int)
    requires
        0 <= i < node.child_nodes().len(),
    ensures
        decreases_to!(node => node.child_nodes()[i]),
{
    match node {
        CSTNode::Assign { logical_or, assign_prime, .. } => {
            assert(decreases_to!(node => *logical_or));
            if let Some(part) = assign_prime {
                assert(decreases_to!(node => *part));
            }
        },
        CSTNode::AssignPrime { logical_or, assign_prime, .. } => {
            assert(decreases_to!(node => *logical_or));
            if let Some(part) = assign_prime {
                assert(decreases_to!(node => *part));
            }
        },
        CSTNode::UnMatchedStmt { expression, matched_stmt, unmatched_stmt, stmt, .. } => {
            if let Some(part) = expression {
                assert(decreases_to!(node => *part));
            }
            if let Some(part) = matched_stmt {
                assert(decreases_to!(node => *part));
            }
            if let Some(part) = unmatched_stmt {
                assert(decreases_to!(node => *part));
            }
            if let Some(part) = stmt {
                assert(decreases_to!(node => *part));
            }
        },
        CSTNode::StructSpecifier { def_list, .. } => {
            if let Some(part) = def_list {
                assert(decreases_to!(node => *part));
            }
        },
        CSTNode::Specifier { struct_specifier, .. } => {
            if let Some(part) = struct_specifier {
                assert(decreases_to!(node => *part));
            }
        },
        CSTNode::ParaDec { spec, var_dec, .. } => {
            assert(decreases_to!(node => *spec));
            assert(decreases_to!(node => *var_dec));
        },
        CSTNode::MatchedStmt { normal_stmt, expression, matched_stmt_fore, matched_stmt_back, .. } => {
            if let Some(part) = normal_stmt {
                assert(decreases_to!(node => *part));
            }
            if let Some(part) = expression {
                assert(decreases_to!(node => *part));
            }
            if let Some(part) = matched_stmt_fore {
                assert(decreases_to!(node => *part));
            }
            if let Some(part) = matched_stmt_back {
                assert(decreases_to!(node => *part));
            }
        },
        CSTNode::StmtList { stmt, stmt_list, .. } => {
            assert(decreases_to!(node => *stmt));
            if let Some(part) = stmt_list {
                assert(decreases_to!(node => *part));
            }
        },
        CSTNode::Stmt { unmatched_stmt, matched_stmt, .. } => {
            if let Some(part) = unmatched_stmt {
                assert(decreases_to!(node => *part));
            }
            if let Some(part) = matched_stmt {
                assert(decreases_to!(node => *part));
            }
        },
        CSTNode::NormalStmt { expression, compst, .. } => {
            if let Some(part) = expression {
                assert(decreases_to!(node => *part));
            }
            if let Some(part) = compst {
                assert(decreases_to!(node => *part));
            }
        },
        CSTNode::Program(inner) => {
            assert(decreases_to!(node => *inner));
        },
        CSTNode::Expression(inner) => {
            assert(decreases_to!(node => *inner));
        },
        CSTNode::FunCall { arguments, .. } => {
            if let Some(part) = arguments {
                assert(decreases_to!(node => *part));
            }
        },
        CSTNode::FunDec { var_list, .. } => {
            if let Some(part) = var_list {
                assert(decreases_to!(node => *part));
            }
        },
        CSTNode::VarList { para_dec, var_list, .. } => {
            assert(decreases_to!(node => *para_dec));
            if let Some(part) = var_list {
                assert(decreases_to!(node => *part));
            }
        },
        CSTNode::VarDec { var_dec, .. } => {
            if let Some(part) = var_dec {
                assert(decreases_to!(node => *part));
            }
        },
        CSTNode::LogicalOrPrime { logical_and, logical_or_prime, .. } => {
            assert(decreases_to!(node => *logical_and));
            if let Some(part) = logical_or_prime {
                assert(decreases_to!(node => *part));
            }
        },
        CSTNode::LogicalOr { logical_and, logical_or_prime, .. } => {
            assert(decreases_to!(node => *logical_and));
            if let Some(part) = logical_or_prime {
                assert(decreases_to!(node => *part));
            }
        },
        CSTNode::LogicalAnd { equality, logical_and_prime, .. } => {
            assert(decreases_to!(node => *equality));
            if let Some(part) = logical_and_prime {
                assert(decreases_to!(node => *part));
            }
        },
        CSTNode::LogicalAndPrime { equality, logical_and_prime, .. } => {
            assert(decreases_to!(node => *equality));
            if let Some(part) = logical_and_prime {
                assert(decreases_to!(node => *part));
            }
        },
        CSTNode::ExtDefList { ext_def, ext_def_list, .. } => {
            assert(decreases_to!(node => *ext_def));
            if let Some(part) = ext_def_list {
                assert(decreases_to!(node => *part));
            }
        },
        CSTNode::ExtDef { spec, ext_dec_list, fun_dec, compst, .. } => {
            assert(decreases_to!(node => *spec));
            if let Some(part) = ext_dec_list {
                assert(decreases_to!(node => *part));
            }
            if let Some(part) = fun_dec {
                assert(decreases_to!(node => *part));
            }
            if let Some(part) = compst {
                assert(decreases_to!(node => *part));
            }
        },
        CSTNode::ExtDecList { var_dec, ext_dec_list, .. } => {
            assert(decreases_to!(node => *var_dec));
            if let Some(part) = ext_dec_list {
                assert(decreases_to!(node => *part));
            }
        },
        CSTNode::DefList { def, def_list, .. } => {
            assert(decreases_to!(node => *def));
            if let Some(part) = def_list {
                assert(decreases_to!(node => *part));
            }
        },
        CSTNode::Def { spec, dec_list, .. } => {
            assert(decreases_to!(node => *spec));
            assert(decreases_to!(node => *dec_list));
        },
        CSTNode::DecList { dec, dec_list, .. } => {
            assert(decreases_to!(node => *dec));
            if let Some(part) = dec_list {
                assert(decreases_to!(node => *part));
            }
        },
        CSTNode::Dec { var_dec, expression, .. } => {
            assert(decreases_to!(node => *var_dec));
            if let Some(part) = expression {
                assert(decreases_to!(node => *part));
            }
        },
        CSTNode::CompSt { def_list, stmt_list, .. } => {
            if let Some(part) = def_list {
                assert(decreases_to!(node => *part));
            }
            assert(decreases_to!(node => *stmt_list));
        },
        CSTNode::Arguments { expression, arguments_tail, .. } => {
            assert(decreases_to!(node => *expression));
            if let Some(part) = arguments_tail {
                assert(decreases_to!(node => *part));
            }
        },
        CSTNode::ArgumentsTail { expression, .. } => {
            assert(decreases_to!(node => *expression));
        },
        CSTNode::Equality { comparison, equality_prime, .. } => {
            assert(decreases_to!(node => *comparison));
            if let Some(part) = equality_prime {
                assert(decreases_to!(node => *part));
            }
        },
        CSTNode::EqualityPrime { comparison, equality_prime, .. } => {
            assert(decreases_to!(node => *comparison));
            if let Some(part) = equality_prime {
                assert(decreases_to!(node => *part));
            }
        },
        CSTNode::ComparisonPrime { term, comparison_prime, .. } => {
            assert(decreases_to!(node => *term));
            if let Some(part) = comparison_prime {
                assert(decreases_to!(node => *part));
            }
        },
        CSTNode::Comparison { term, comparison_prime, .. } => {
            assert(decreases_to!(node => *term));
            if let Some(part) = comparison_prime {
                assert(decreases_to!(node => *part));
            }
        },
        CSTNode::Term { factor, term_prime, .. } => {
            assert(decreases_to!(node => *factor));
            if let Some(part) = term_prime {
                assert(decreases_to!(node => *part));
            }
        },
        CSTNode::TermPrime { factor, term_prime, .. } => {
            assert(decreases_to!(node => *factor));
            if let Some(part) = term_prime {
                assert(decreases_to!(node => *part));
            }
        },
        CSTNode::Factor { unary, factor_prime, .. } => {
            assert(decreases_to!(node => *unary));
            if let Some(part) = factor_prime {
                assert(decreases_to!(node => *part));
            }
        },
        CSTNode::FactorPrime { unary, factor_prime, .. } => {
            assert(decreases_to!(node => *unary));
            if let Some(part) = factor_prime {
                assert(decreases_to!(node => *part));
            }
        },
        CSTNode::Unary { unary, .. } => {
            assert(decreases_to!(node => *unary));
        },
        CSTNode::Primary { expression, fun_call, .. } => {
            if let Some(part) = expression {
                assert(decreases_to!(node => *part));
            }
            if let Some(part) = fun_call {
                assert(decreases_to!(node => *part));
            }
        },
    }
}

/// `n` times the bar that continues the line of an ancestor.
pub open spec fn bars(n: nat) -> Seq<char>
    decreases n,
{
    if n == 0 {
        Seq::empty()
    } else {
        bars((n - 1) as nat) + "\u{2502}   "@
    }
}

/// What stands before the name of a node at depth `depth`: nothing at the
/// root; else one bar for each level above the parent, and the elbow of
/// a last child or the tee of any other.
pub open spec fn tree_prefix(depth: nat, is_last: bool) -> Seq<char> {
    if depth == 0 {
        Seq::empty()
    } else if is_last {
        bars((depth - 1) as nat) + "\u{2514}\u{2500}\u{2500} "@
    } else {
        bars((depth - 1) as nat) + "\u{251c}\u{2500}\u{2500} "@
    }
}

/// The lines of the tree under `node`, first the node, then its children
/// in order, each name on a line of its own behind its prefix.
pub open spec fn tree_text(node: CSTNode, depth: nat, is_last: bool) -> Seq<char>
    decreases node, 1nat, 0nat,
{
    tree_prefix(depth, is_last) + node.name_text() + "\n"@ + children_text(node, 0, depth + 1)
}

/// The lines of the children of `node` from number `from` on.
pub open spec fn children_text(node: CSTNode, from: nat, depth: nat) -> Seq<char>
    decreases node, 0nat, node.child_nodes().len() - from,
{
    let cs = node.child_nodes();
    if from >= cs.len() {
        Seq::empty()
    } else {
        proof {
            lemma_child_is_smaller(node, from as int);
        }
        tree_text(cs[from as int], depth, from + 1 == cs.len()) + children_text(
            node,
            from + 1,
            depth,
        )
    }
}

fn write_tree(
    node: &CSTNode,
    out: &mut String,
    indent: &str,
    root: bool,
    Ghost(depth): Ghost<nat>,
    is_last: bool,
)
    requires
        root == (depth == 0),
        depth > 0 ==> indent@ == bars((depth - 1) as nat),
    ensures
        final(out)@ == old(out)@ + tree_text(*node, depth, is_last),
    decreases node,
{
    let ghost start = out@;
    let mut below = String::new();
    if !root {
        push_text(out, indent);
        if is_last {
            push_text(out, "\u{2514}\u{2500}\u{2500} ");
        } else {
            push_text(out, "\u{251c}\u{2500}\u{2500} ");
        }
        push_text(&mut below, indent);
        push_text(&mut below, "\u{2502}   ");
    }
    push_text(out, node.name());
    push_text(out, "\n");
    assert(out@ =~= start + (tree_prefix(depth, is_last) + node.name_text() + "\n"@));
    let children = node.children();
    let count = children.len();
    let ghost head = out@;
    let mut i: usize = 0;
    while i < count
        invariant
            i <= count,
            count == children.len(),
            count == node.child_nodes().len(),
            forall|k: int| 0 <= k < count ==> *children[k] == node.child_nodes()[k],
            below@ == bars(depth),
            out@ + children_text(*node, i as nat, depth + 1) == head + children_text(
                *node,
                0,
                depth + 1,
            ),
        decreases count - i,
    {
        let ghost before = out@;
        let child = children[i];
        proof {
            lemma_child_is_smaller(*node, i as int);
        }
        write_tree(child, out, below.as_str(), false, Ghost(depth + 1), i + 1 == count);
        assert(before + (tree_text(*child, depth + 1, i + 1 == count) + children_text(
            *node,
            (i + 1) as nat,
            depth + 1,
        )) =~= out@ + children_text(*node, (i + 1) as nat, depth + 1));
        i += 1;
    }
    assert(out@ + children_text(*node, count as nat, depth + 1) =~= out@);
    assert(start + tree_text(*node, depth, is_last) =~= head + children_text(*node, 0, depth + 1));
}

impl CSTNode {
    /// The tree under the node as text, one line for each node.
    pub fn print_tree(&self) -> (r: String)
        ensures
            r@ == tree_text(*self, 0, true),
    {
        let mut out = String::new();
        write_tree(self, &mut out, "", true, Ghost(0), true);
        assert(Seq::<char>::empty() + tree_text(*self, 0, true) =~= tree_text(*self, 0, true));
        out
    }
}

} // verus!
