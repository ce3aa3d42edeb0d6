use minicc::assembly::asmgen::asm_gen;
use minicc::ast::astgen::{ast_gen, try_ast_gen};
use minicc::ast::helper::{
    build_symbol_table, can_type, check_entry_func, check_types, get_current_func,
    get_current_scope_num, look_up_func_symbol_table, look_up_symbol_table, set_current_func,
    travel_symbol_table, update_current_scope_num, Context, DEFAULT_OFFSET,
};
use minicc::ast::types::{same_node, same_type, ASTNode, StructType, Type, VarDec};
use minicc::ir::irgen::{ir_gen, IrType};
use minicc::lexer::lexer::Token;
use minicc::parser::parse::CSTNode;
use minicc::utils::types::PhraseType;

fn q(op: &str, src1: &str, src2: &str, rd: &str) -> IrType {
    IrType { op: op.to_string(), src1: src1.to_string(), src2: src2.to_string(), rd: rd.to_string() }
}

fn dec(text: &str) -> Token {
    Token { pos: 1, types: PhraseType::Dec, value: text.to_string() }
}

fn name(text: &str) -> Token {
    Token { pos: 1, types: PhraseType::Identifier, value: text.to_string() }
}

fn lit(text: &str) -> ASTNode {
    ASTNode::Literal(dec(text))
}

fn id(text: &str) -> ASTNode {
    ASTNode::Ident(name(text))
}

fn bin(op: &str, lhs: ASTNode, rhs: ASTNode) -> ASTNode {
    ASTNode::BinaryOp { op: Some(op.to_string()), lhs: Box::new(lhs), rhs: Some(Box::new(rhs)) }
}

fn wrap(node: ASTNode) -> ASTNode {
    ASTNode::BinaryOp { op: None, lhs: Box::new(node), rhs: None }
}

fn int_type() -> Type {
    Type::BaseType("int".to_string())
}

fn var(n: &str, init: Option<ASTNode>) -> VarDec {
    VarDec { var_type: int_type(), var_name: n.to_string(), init }
}

// ---- concrete trees ----

fn primary(tok: Token) -> CSTNode {
    CSTNode::Primary { symbol: Some(tok), lp: None, rp: None, expression: None, fun_call: None }
}

fn unary(inner: CSTNode) -> CSTNode {
    CSTNode::Unary { op: None, unary: Box::new(inner) }
}

fn factor(inner: CSTNode, tail: Option<CSTNode>) -> CSTNode {
    CSTNode::Factor { unary: Box::new(unary(inner)), factor_prime: tail.map(Box::new) }
}

fn term(first: CSTNode, tail: Option<CSTNode>) -> CSTNode {
    CSTNode::Term { factor: Box::new(first), term_prime: tail.map(Box::new) }
}

fn expression_of(t: CSTNode, assign: Option<CSTNode>) -> CSTNode {
    let logical_or = CSTNode::LogicalOr {
        logical_and: Box::new(CSTNode::LogicalAnd {
            equality: Box::new(CSTNode::Equality {
                comparison: Box::new(CSTNode::Comparison { term: Box::new(t), comparison_prime: None }),
                equality_prime: None,
            }),
            logical_and_prime: None,
        }),
        logical_or_prime: None,
    };
    CSTNode::Expression(Box::new(CSTNode::Assign {
        logical_or: Box::new(logical_or),
        assign_prime: assign.map(Box::new),
    }))
}

fn simple(tok: Token) -> CSTNode {
    expression_of(term(factor(primary(tok), None), None), None)
}

fn wrapped_levels(node: ASTNode, levels: usize) -> ASTNode {
    let mut out = node;
    for _ in 0..levels {
        out = wrap(out);
    }
    out
}

fn statement(normal: CSTNode) -> CSTNode {
    CSTNode::Stmt {
        unmatched_stmt: None,
        matched_stmt: Some(Box::new(CSTNode::MatchedStmt {
            normal_stmt: Some(Box::new(normal)),
            while_stmt: None,
            if_stmt: None,
            else_stmt: None,
            lp: None,
            rp: None,
            expression: None,
            matched_stmt_fore: None,
            matched_stmt_back: None,
        })),
    }
}

fn return_of(expr: CSTNode) -> CSTNode {
    statement(CSTNode::NormalStmt {
        sepa: Some(";".to_string()),
        expression: Some(Box::new(expr)),
        compst: None,
        return_stmt: Some("return".to_string()),
    })
}

fn statements(mut list: Vec<CSTNode>) -> CSTNode {
    let mut rest: Option<Box<CSTNode>> = None;
    while let Some(s) = list.pop() {
        rest = Some(Box::new(CSTNode::StmtList { stmt: Box::new(s), stmt_list: rest }));
    }
    *rest.unwrap()
}

fn int_spec() -> CSTNode {
    CSTNode::Specifier { specifier_type: Some("int".to_string()), struct_specifier: None }
}

fn declarator(n: &str) -> CSTNode {
    CSTNode::VarDec { id: Some(n.to_string()), var_dec: None, lt: None, rt: None, literal: None }
}

fn main_function(defs: Option<CSTNode>, body: Vec<CSTNode>) -> CSTNode {
    CSTNode::Program(Box::new(CSTNode::ExtDefList {
        ext_def: Box::new(CSTNode::ExtDef {
            spec: Box::new(int_spec()),
            ext_dec_list: None,
            fun_dec: Some(Box::new(CSTNode::FunDec {
                id: "main".to_string(),
                lp: "(".to_string(),
                var_list: None,
                rp: ")".to_string(),
            })),
            compst: Some(Box::new(CSTNode::CompSt {
                lc: "{".to_string(),
                def_list: defs.map(Box::new),
                stmt_list: Box::new(statements(body)),
                rc: "}".to_string(),
            })),
            sepa: None,
        }),
        ext_def_list: None,
    }))
}

#[test]
fn expression_without_operators_is_wrapped_once_per_level() {
    let mut ctx = Context::new();
    let tree = ASTNode::from_cst(&mut ctx, &simple(dec("1")));
    assert!(same_node(&tree, &wrapped_levels(lit("1"), 7)));
    assert!(same_node(&tree.optimal(), &lit("1")));
}

#[test]
fn left_associative_chain() {
    // 1 + 2 - 3
    let tail2 = CSTNode::TermPrime {
        op: "-".to_string(),
        factor: Box::new(factor(primary(dec("3")), None)),
        term_prime: None,
    };
    let tail1 = CSTNode::TermPrime {
        op: "+".to_string(),
        factor: Box::new(factor(primary(dec("2")), None)),
        term_prime: Some(Box::new(tail2)),
    };
    let cst = term(factor(primary(dec("1")), None), Some(tail1));
    let mut ctx = Context::new();
    let tree = ASTNode::from_cst(&mut ctx, &cst);
    let expected = bin("-", bin("+", wrap(lit("1")), wrap(lit("2"))), wrap(lit("3")));
    assert!(same_node(&tree, &expected));
    assert!(same_node(&tree.optimal(), &lit("0")));
}

#[test]
fn type_mismatch_fails_the_builder() {
    let tail = CSTNode::TermPrime {
        op: "+".to_string(),
        factor: Box::new(factor(
            primary(Token { pos: 1, types: PhraseType::Char, value: "'a'".to_string() }),
            None,
        )),
        term_prime: None,
    };
    let cst = term(factor(primary(dec("1")), None), Some(tail));
    let mut ctx = Context::new();
    assert!(ASTNode::try_from_cst(&mut ctx, &cst).is_none());
}

#[test]
fn undeclared_identifier_fails_the_builder() {
    let tail = CSTNode::TermPrime {
        op: "+".to_string(),
        factor: Box::new(factor(primary(dec("1")), None)),
        term_prime: None,
    };
    let cst = term(factor(primary(name("x")), None), Some(tail));
    let mut ctx = Context::new();
    assert!(ASTNode::try_from_cst(&mut ctx, &cst).is_none());
}

#[test]
fn malformed_shapes_fail_the_builder() {
    let mut ctx = Context::new();
    let paren = CSTNode::Primary {
        symbol: None,
        lp: Some("(".to_string()),
        rp: Some(")".to_string()),
        expression: Some(Box::new(simple(dec("1")))),
        fun_call: None,
    };
    assert!(ASTNode::try_from_cst(&mut ctx, &paren).is_none());
    assert!(ASTNode::try_from_cst(&mut ctx, &declarator("a")).is_none());
    let keyword = primary(Token { pos: 1, types: PhraseType::Keyword, value: "if".to_string() });
    assert!(ASTNode::try_from_cst(&mut ctx, &keyword).is_none());
}

#[test]
fn program_with_main_is_built_folded_lowered_and_emitted() {
    // int main() { int a; return 1 + 2; }
    let sum = expression_of(
        term(
            factor(primary(dec("1")), None),
            Some(CSTNode::TermPrime {
                op: "+".to_string(),
                factor: Box::new(factor(primary(dec("2")), None)),
                term_prime: None,
            }),
        ),
        None,
    );
    let defs = CSTNode::DefList {
        def: Box::new(CSTNode::Def {
            spec: Box::new(int_spec()),
            dec_list: Box::new(CSTNode::DecList {
                dec: Box::new(CSTNode::Dec {
                    var_dec: Box::new(declarator("a")),
                    op: None,
                    expression: None,
                }),
                sepa: None,
                dec_list: None,
            }),
            sepa: ";".to_string(),
        }),
        def_list: None,
    };
    let cst = vec![main_function(Some(defs), vec![return_of(sum)])];
    let mut ctx = Context::new();
    let ast = ast_gen(&mut ctx, &cst);
    let expected = ASTNode::Program {
        items: vec![ASTNode::FuncDef {
            name: "main".to_string(),
            params: vec![],
            ret_type: int_type(),
            body: Box::new(ASTNode::Block {
                stmts: vec![
                    ASTNode::VarDecl(vec![var("a", None)]),
                    ASTNode::Return { expr: Some(Box::new(lit("3"))) },
                ],
            }),
        }],
    };
    assert_eq!(ast.len(), 1);
    assert!(same_node(&ast[0], &expected));
    assert!(check_entry_func(&ctx));
    assert_eq!(get_current_func(&ctx), "main");
    assert_eq!(get_current_scope_num(&ctx), 0);
    assert!(look_up_func_symbol_table(&ctx, "a".to_string(), 1, "main".to_string()).is_some());
    assert!(look_up_symbol_table(&ctx, "a".to_string(), 1).is_none());

    let ir = ir_gen(&ast);
    assert_eq!(ir, vec![q("FUNC", "main", "", ""), q("RET", "3", "", ""), q("ENDFUNC", "main", "", "")]);
    let text = asm_gen(&ir);
    assert!(text.ends_with("main:\n    addi sp, sp, -0\n    sw ra, 0(sp)\n    li a0, 3\n    lw ra, 0(sp)\n    addi sp, sp, 0\n    ret\n"));
}

#[test]
fn program_without_main_fails() {
    let mut ctx = Context::new();
    let cst = vec![simple(dec("1"))];
    assert!(try_ast_gen(&mut ctx, &cst).is_none());
}

#[test]
fn redeclaration_fails_the_builder() {
    let decl = |n: &str| CSTNode::Dec { var_dec: Box::new(declarator(n)), op: None, expression: None };
    let defs = CSTNode::DefList {
        def: Box::new(CSTNode::Def {
            spec: Box::new(int_spec()),
            dec_list: Box::new(CSTNode::DecList {
                dec: Box::new(decl("a")),
                sepa: Some(",".to_string()),
                dec_list: Some(Box::new(CSTNode::DecList {
                    dec: Box::new(decl("a")),
                    sepa: None,
                    dec_list: None,
                })),
            }),
            sepa: ";".to_string(),
        }),
        def_list: None,
    };
    let cst = vec![main_function(Some(defs), vec![return_of(simple(dec("0")))])];
    let mut ctx = Context::new();
    assert!(try_ast_gen(&mut ctx, &cst).is_none());
}

#[test]
fn array_declarator_names_its_length() {
    let inner = declarator("v");
    let arr = CSTNode::VarDec {
        id: None,
        var_dec: Some(Box::new(inner)),
        lt: Some("[".to_string()),
        rt: Some("]".to_string()),
        literal: Some("010".to_string()),
    };
    let def = CSTNode::Def {
        spec: Box::new(int_spec()),
        dec_list: Box::new(CSTNode::DecList {
            dec: Box::new(CSTNode::Dec { var_dec: Box::new(arr), op: None, expression: None }),
            sepa: None,
            dec_list: None,
        }),
        sepa: ";".to_string(),
    };
    let mut ctx = Context::new();
    let tree = ASTNode::from_cst(&mut ctx, &def);
    assert!(same_node(&tree, &ASTNode::VarDecl(vec![var("v[10]", None)])));
    assert!(look_up_symbol_table(&ctx, "v[10]".to_string(), 0).is_some());
}

// ---- symbol tables ----

#[test]
fn symbols_are_entered_once_per_scope() {
    let mut ctx = Context::new();
    assert_eq!(DEFAULT_OFFSET, 0);
    assert!(!check_entry_func(&ctx));
    assert!(build_symbol_table(&mut ctx, String::new(), &var("g", None), 0, None));
    assert!(!build_symbol_table(&mut ctx, String::new(), &var("g", None), 0, None));
    assert!(build_symbol_table(&mut ctx, String::new(), &var("g", None), 1, None));
    assert!(build_symbol_table(&mut ctx, "f".to_string(), &var("x", Some(bin("*", lit("2"), lit("3")))), 1, None));
    assert!(!build_symbol_table(&mut ctx, "f".to_string(), &var("x", None), 1, None));
    assert!(build_symbol_table(&mut ctx, "h".to_string(), &var("x", None), 1, None));
    assert!(build_symbol_table(&mut ctx, "f".to_string(), &var("main", None), 0, Some(vec![var("p", None)])));
    assert!(check_entry_func(&ctx));

    let info = look_up_func_symbol_table(&ctx, "x".to_string(), 1, "f".to_string()).unwrap();
    assert!(same_node(info.0.init.as_ref().unwrap(), &lit("6")));
    assert_eq!(info.1, 1);
    assert!(info.2.is_none());
    assert_eq!(info.3, 0);
    assert!(look_up_func_symbol_table(&ctx, "x".to_string(), 0, "f".to_string()).is_none());
    assert!(look_up_func_symbol_table(&ctx, "x".to_string(), 1, "nobody".to_string()).is_none());
    let main = look_up_symbol_table(&ctx, "main".to_string(), 0).unwrap();
    assert_eq!(main.2.map(|p| p.len()), Some(1));
}

#[test]
fn innermost_visible_symbol_wins_and_globals_come_first() {
    let mut ctx = Context::new();
    let typed = |n: &str, t: &str| VarDec { var_type: Type::BaseType(t.to_string()), var_name: n.to_string(), init: None };
    assert!(build_symbol_table(&mut ctx, String::new(), &typed("v", "float"), 0, None));
    assert!(build_symbol_table(&mut ctx, String::new(), &typed("v", "char"), 2, None));
    assert!(build_symbol_table(&mut ctx, "f".to_string(), &typed("v", "int"), 1, None));
    assert!(build_symbol_table(&mut ctx, "f".to_string(), &typed("w", "int"), 1, None));
    let at = |scope: usize, n: &str| {
        travel_symbol_table(&ctx, &n.to_string(), scope, "f".to_string()).map(|i| i.0.var_type)
    };
    assert!(same_type(&at(0, "v").unwrap(), &Type::BaseType("float".to_string())));
    assert!(same_type(&at(1, "v").unwrap(), &Type::BaseType("float".to_string())));
    assert!(same_type(&at(5, "v").unwrap(), &Type::BaseType("char".to_string())));
    assert!(at(0, "w").is_none());
    assert!(same_type(&at(3, "w").unwrap(), &Type::BaseType("int".to_string())));
    assert!(travel_symbol_table(&ctx, &"w".to_string(), 3, "g".to_string()).is_none());
}

#[test]
fn types_of_expressions() {
    let mut ctx = Context::new();
    set_current_func(&mut ctx, "f".to_string());
    update_current_scope_num(&mut ctx, 1);
    assert!(build_symbol_table(&mut ctx, "f".to_string(), &var("x", None), 1, None));
    assert!(can_type(&ctx, &id("x")));
    assert!(!can_type(&ctx, &id("y")));
    assert!(can_type(&ctx, &ASTNode::Block { stmts: vec![] }));
    assert!(!can_type(&ctx, &ASTNode::Literal(Token { pos: 1, types: PhraseType::Keyword, value: "if".to_string() })));
    let ty = ASTNode::get_ast_type(&ctx, &bin("+", id("x"), lit("1")));
    assert!(same_type(&ty.unwrap(), &int_type()));
    assert!(ASTNode::get_ast_type(&ctx, &ASTNode::Block { stmts: vec![] }).is_none());
    let kinds = [
        (PhraseType::Bool, "bool"),
        (PhraseType::String, "string"),
        (PhraseType::Oct, "int"),
        (PhraseType::Hex, "int"),
        (PhraseType::Float, "float"),
        (PhraseType::Char, "char"),
    ];
    for (k, n) in kinds {
        let t = ASTNode::get_ast_type(&ctx, &ASTNode::Literal(Token { pos: 1, types: k, value: "v".to_string() }));
        assert!(same_type(&t.unwrap(), &Type::BaseType(n.to_string())));
    }
    assert!(check_types(&ctx, &id("x"), &lit("1")));
    assert!(!check_types(&ctx, &id("x"), &ASTNode::Literal(Token { pos: 1, types: PhraseType::Float, value: "1.5".to_string() })));
    assert!(check_types(&ctx, &ASTNode::Block { stmts: vec![] }, &ASTNode::Return { expr: None }));
}

// ---- folding and text ----

#[test]
fn folding_in_the_tree() {
    assert!(same_node(&bin("+", lit("2"), bin("*", lit("3"), lit("4"))).optimal(), &lit("14")));
    assert!(same_node(&bin(">", lit("2"), lit("1")).optimal(), &lit("1")));
    assert!(same_node(&bin("==", lit("2"), lit("1")).optimal(), &lit("0")));
    assert!(same_node(&bin("!=", lit("2"), lit("1")).optimal(), &lit("1")));
    assert!(same_node(&bin("<", lit("2"), lit("1")).optimal(), &lit("0")));
    assert!(same_node(&bin("/", lit("-7"), lit("2")).optimal(), &lit("-3")));
    assert!(same_node(&bin("&&", lit("1"), lit("1")).optimal(), &bin("&&", lit("1"), lit("1"))));
    assert!(same_node(&bin("/", lit("1"), lit("0")).optimal(), &bin("/", lit("1"), lit("0"))));
    assert!(same_node(
        &bin("+", lit("2147483647"), lit("1")).optimal(),
        &bin("+", lit("2147483647"), lit("1"))
    ));
    assert!(same_node(&bin("+", id("a"), wrap(lit("1"))).optimal(), &bin("+", id("a"), lit("1"))));
    let block = ASTNode::Block {
        stmts: vec![
            ASTNode::VarDecl(vec![var("a", Some(bin("-", lit("5"), lit("8"))))]),
            ASTNode::Return { expr: Some(Box::new(wrap(id("a")))) },
        ],
    };
    let folded = ASTNode::Block {
        stmts: vec![
            ASTNode::VarDecl(vec![var("a", Some(lit("-3")))]),
            ASTNode::Return { expr: Some(Box::new(id("a"))) },
        ],
    };
    assert!(same_node(&block.clone().optimal(), &folded));
    assert!(same_node(&block.clone(), &block));
    assert!(!same_node(&block, &folded));
}

#[test]
fn tree_as_text() {
    let t = dec("1");
    assert_eq!(lit("1").print_tree(0), format!("Literal: {:?}", t));
    assert_eq!(id("a\"b").print_tree(1), format!("  Ident: {:?}", name("a\"b")));
    let node = ASTNode::If {
        cond: Box::new(id("c")),
        then_br: Box::new(ASTNode::Return { expr: None }),
        else_br: Some(Box::new(ASTNode::Block { stmts: vec![lit("1"), lit("2")] })),
    };
    let expected = format!(
        "If:\n  Condition:\n    Ident: {:?}\n  Then:\n    Return: None\n  Else:\n    Block:\n      Literal: {:?}\n      Literal: {:?}",
        name("c"),
        dec("1"),
        dec("2")
    );
    assert_eq!(node.print_tree(0), expected);
    let func = ASTNode::FuncDef {
        name: "f".to_string(),
        params: vec![var("a", None), var("b", Some(lit("2")))],
        ret_type: int_type(),
        body: Box::new(ASTNode::Block { stmts: vec![] }),
    };
    assert_eq!(
        func.print_tree(0),
        format!(
            "FuncDef: f\n  ReturnType: int\n  Parameters:\n  a: int\n  b: int = Literal: {:?}\n  Body:\n  Block:\n",
            dec("2")
        )
    );
    let st = Type::CustomizedType(StructType { id: "p".to_string(), field: vec![var("x", None), var("y", None)] });
    assert_eq!(ASTNode::print_type(&st), "struct p {\n  x: int\n  y: int\n}");
    assert_eq!(ASTNode::print_vardec(&var("a", None)), "a: int");
    let b = ASTNode::BinaryOp { op: None, lhs: Box::new(lit("1")), rhs: None };
    assert_eq!(
        b.print_tree(0),
        format!("BinaryOp: None\n  Left:\n    Literal: {:?}\n  Right:\n  None", dec("1"))
    );
    let call = ASTNode::Call { func: "g".to_string(), args: vec![] };
    assert_eq!(call.print_tree(2), "    Call: g\n      Arguments:\n");
}

#[test]
fn folding_a_tree_twice_changes_nothing() {
    let tree = ASTNode::Block {
        stmts: vec![
            ASTNode::VarDecl(vec![var("a", Some(wrap(bin("+", lit("1"), wrap(lit("2"))))))]),
            bin("=", id("a"), bin("/", bin("*", lit("6"), lit("7")), lit("0"))),
            ASTNode::Return { expr: Some(Box::new(wrap(wrap(id("a"))))) },
        ],
    };
    let once = tree.optimal();
    let twice = once.clone().optimal();
    assert!(same_node(&once, &twice));
    let expected = ASTNode::Block {
        stmts: vec![
            ASTNode::VarDecl(vec![var("a", Some(lit("3")))]),
            bin("=", id("a"), bin("/", lit("42"), lit("0"))),
            ASTNode::Return { expr: Some(Box::new(id("a"))) },
        ],
    };
    assert!(same_node(&once, &expected));
}
