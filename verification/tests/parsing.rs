use minicc::lexer::lexer::Token;
use minicc::parser::helper::{is_control_keyword, is_type_keyword, look_forward, term_index};
use minicc::parser::parse::{parse, reduce, try_parse, Action, CSTNode, NonTerm, Tables};
use minicc::utils::helper::symbol_is_literal;
use minicc::utils::parse::parse_args;
use minicc::utils::types::PhraseType;

fn tok(types: PhraseType, value: &str) -> Token {
    Token { pos: 1, types, value: value.to_string() }
}

#[test]
fn columns_of_tokens() {
    assert_eq!(term_index(&tok(PhraseType::Operator, "!")), 0);
    assert_eq!(term_index(&tok(PhraseType::Operator, "!=")), 1);
    assert_eq!(term_index(&tok(PhraseType::Operator, "&&")), 2);
    assert_eq!(term_index(&tok(PhraseType::Separator, "(")), 3);
    assert_eq!(term_index(&tok(PhraseType::Separator, ")")), 4);
    assert_eq!(term_index(&tok(PhraseType::Operator, "*")), 5);
    assert_eq!(term_index(&tok(PhraseType::Operator, "+")), 6);
    assert_eq!(term_index(&tok(PhraseType::Separator, ",")), 7);
    assert_eq!(term_index(&tok(PhraseType::Operator, "-")), 8);
    assert_eq!(term_index(&tok(PhraseType::Operator, "/")), 9);
    assert_eq!(term_index(&tok(PhraseType::Separator, ";")), 10);
    assert_eq!(term_index(&tok(PhraseType::Operator, "<")), 11);
    assert_eq!(term_index(&tok(PhraseType::Operator, "<=")), 12);
    assert_eq!(term_index(&tok(PhraseType::Operator, "=")), 13);
    assert_eq!(term_index(&tok(PhraseType::Operator, "==")), 14);
    assert_eq!(term_index(&tok(PhraseType::Operator, ">")), 15);
    assert_eq!(term_index(&tok(PhraseType::Operator, ">=")), 16);
    assert_eq!(term_index(&tok(PhraseType::Keyword, "int")), 17);
    assert_eq!(term_index(&tok(PhraseType::Separator, "[")), 18);
    assert_eq!(term_index(&tok(PhraseType::Separator, "]")), 19);
    assert_eq!(term_index(&tok(PhraseType::Keyword, "else")), 20);
    assert_eq!(term_index(&tok(PhraseType::Identifier, "false")), 21);
    assert_eq!(term_index(&tok(PhraseType::Identifier, "x")), 22);
    assert_eq!(term_index(&tok(PhraseType::Keyword, "if")), 23);
    assert_eq!(term_index(&tok(PhraseType::Dec, "1")), 24);
    assert_eq!(term_index(&tok(PhraseType::Bool, "true")), 24);
    assert_eq!(term_index(&tok(PhraseType::Keyword, "return")), 25);
    assert_eq!(term_index(&tok(PhraseType::Keyword, "struct")), 26);
    assert_eq!(term_index(&tok(PhraseType::Identifier, "true")), 27);
    assert_eq!(term_index(&tok(PhraseType::Keyword, "while")), 28);
    assert_eq!(term_index(&tok(PhraseType::Separator, "{")), 29);
    assert_eq!(term_index(&tok(PhraseType::Operator, "||")), 30);
    assert_eq!(term_index(&tok(PhraseType::Separator, "}")), 31);
    assert_eq!(term_index(&tok(PhraseType::String, "s")), 32);
    assert_eq!(term_index(&tok(PhraseType::Operator, "%")), 32);
    assert_eq!(term_index(&tok(PhraseType::Keyword, "for")), 32);
}

#[test]
fn keywords() {
    for w in ["int", "uint", "float", "double", "char", "String"] {
        assert!(is_type_keyword(&w.to_string()));
    }
    assert!(!is_type_keyword(&"if".to_string()));
    for w in ["if", "else", "while", "for", "return", "break", "continue"] {
        assert!(is_control_keyword(&w.to_string()));
    }
    assert!(!is_control_keyword(&"int".to_string()));
}

#[test]
fn looking_forward_is_cut_at_the_end() {
    let tokens = vec![
        tok(PhraseType::Identifier, "a"),
        tok(PhraseType::Identifier, "b"),
        tok(PhraseType::Identifier, "c"),
    ];
    assert_eq!(look_forward(&tokens, 1, 1), vec![tok(PhraseType::Identifier, "b")]);
    assert_eq!(look_forward(&tokens, 1, 5).len(), 2);
    assert_eq!(look_forward(&tokens, 0, 0).len(), 0);
    assert_eq!(look_forward(&tokens, 3, 1).len(), 0);
    assert_eq!(look_forward(&tokens, 2, usize::MAX).len(), 1);
}

#[test]
fn literal_kinds() {
    assert!(!symbol_is_literal(&PhraseType::Identifier));
    for k in [
        PhraseType::Bool,
        PhraseType::String,
        PhraseType::Hex,
        PhraseType::Oct,
        PhraseType::Dec,
        PhraseType::Float,
        PhraseType::Char,
    ] {
        assert!(symbol_is_literal(&k));
    }
}

#[test]
fn arguments_are_paired_behind_the_program_name() {
    let args: Vec<String> = ["prog", "-o", "out", "-i", "in"].iter().map(|s| s.to_string()).collect();
    let pairs = parse_args(args);
    assert_eq!(pairs.len(), 2);
    assert_eq!(pairs[0].key(), "-o");
    assert_eq!(pairs[0].value(), "out");
    assert_eq!(pairs[1].key(), "-i");
    assert_eq!(pairs[1].value(), "in");
    assert_eq!(parse_args(vec!["prog".to_string()]).len(), 0);
    assert_eq!(parse_args(vec![]).len(), 0);
}

#[test]
fn nonterminal_columns() {
    assert_eq!(NonTerm::Accept.to_index(), 0);
    assert_eq!(NonTerm::VarDec.to_index(), 22);
    assert_eq!(NonTerm::Assign.to_index(), 24);
    assert_eq!(NonTerm::Unary.to_index(), 40);
}

#[test]
fn reduction_takes_its_parts_from_both_stacks() {
    let mut sym = vec![tok(PhraseType::Identifier, "f"), tok(PhraseType::Separator, "("), tok(PhraseType::Separator, ")")];
    let mut cst: Vec<CSTNode> = vec![];
    assert_eq!(reduce(23, &mut sym, &mut cst), Some((NonTerm::FunDec, 3)));
    assert!(sym.is_empty());
    assert_eq!(cst.len(), 1);
    match &cst[0] {
        CSTNode::FunDec { id, lp, var_list, rp } => {
            assert_eq!(id, "f");
            assert_eq!(lp, "(");
            assert!(var_list.is_none());
            assert_eq!(rp, ")");
        }
        other => panic!("{:?}", other),
    }
    assert_eq!(cst[0].name(), "FunDec");
    assert_eq!(cst[0].children().len(), 0);
}

#[test]
fn reduction_fails_on_short_stacks_and_unknown_productions() {
    let mut sym = vec![tok(PhraseType::Identifier, "f")];
    let mut cst: Vec<CSTNode> = vec![];
    assert_eq!(reduce(23, &mut sym, &mut cst), None);
    assert_eq!(sym.len(), 1);
    assert_eq!(reduce(98, &mut sym, &mut cst), None);
    assert_eq!(reduce(0, &mut sym, &mut cst), Some((NonTerm::Accept, 0)));
    assert_eq!(sym.len(), 1);
}

fn tables(states: usize) -> Tables {
    Tables { action: vec![vec![Action::Error; 33]; states], goto: vec![vec![None; 41]; states] }
}

#[test]
fn machine_shifts_reduces_and_accepts() {
    let mut t = tables(3);
    t.action[0][22] = Action::Shift(1);
    t.action[1][32] = Action::Reduce(44);
    t.goto[0][22] = Some(2);
    t.action[2][32] = Action::Accept;
    let tokens = vec![tok(PhraseType::Identifier, "x")];
    let cst = parse(&tokens, &t);
    assert_eq!(cst.len(), 1);
    match &cst[0] {
        CSTNode::VarDec { id, var_dec, lt, rt, literal } => {
            assert_eq!(id.as_deref(), Some("x"));
            assert!(var_dec.is_none() && lt.is_none() && rt.is_none() && literal.is_none());
        }
        other => panic!("{:?}", other),
    }
    assert_eq!(cst[0].print_tree(), "VarDec\n");
}

#[test]
fn machine_stops_at_an_error_with_what_it_has() {
    let t = tables(1);
    let tokens = vec![tok(PhraseType::Identifier, "x")];
    let stopped = try_parse(&tokens, &t).unwrap();
    assert_eq!(stopped.nodes.len(), 0);
    assert_eq!(stopped.rejected, Some((0, 0)));
    assert!(try_parse(&vec![], &t).is_none());
}

#[test]
fn machine_fails_on_missing_entries_and_endless_tables() {
    let empty = Tables { action: vec![], goto: vec![] };
    assert!(try_parse(&vec![], &empty).is_none());
    let mut t = tables(1);
    t.action[0][32] = Action::Shift(7);
    assert!(try_parse(&vec![], &t).is_none());
    let mut u = tables(2);
    u.action[0][32] = Action::Reduce(16);
    assert!(try_parse(&vec![], &u).is_none());
}

#[test]
fn concrete_tree_is_printed_with_branches() {
    let leaf = |name: &str| CSTNode::VarDec {
        id: Some(name.to_string()),
        var_dec: None,
        lt: None,
        rt: None,
        literal: None,
    };
    let spec = CSTNode::Specifier { specifier_type: Some("int".to_string()), struct_specifier: None };
    let para = CSTNode::ParaDec { spec: Box::new(spec), var_dec: Box::new(leaf("a")) };
    let list = CSTNode::VarList { para_dec: Box::new(para), sepa: None, var_list: None };
    let fun = CSTNode::FunDec {
        id: "f".to_string(),
        lp: "(".to_string(),
        var_list: Some(Box::new(list)),
        rp: ")".to_string(),
    };
    assert_eq!(
        fun.print_tree(),
        "FunDec\n└── VarList\n│   └── ParaDec\n│   │   ├── Specifier\n│   │   └── VarDec\n"
    );
}
