use minicc::ast::types::{ASTNode, Type, VarDec};
use minicc::ir::irgen::{ir_gen, ir_gen_recursive, lower, try_ir_gen, IrType};
use minicc::lexer::lexer::Token;
use minicc::utils::types::PhraseType;

fn q(op: &str, src1: &str, src2: &str, rd: &str) -> IrType {
    IrType { op: op.to_string(), src1: src1.to_string(), src2: src2.to_string(), rd: rd.to_string() }
}

fn lit(text: &str) -> ASTNode {
    ASTNode::Literal(Token { pos: 1, types: PhraseType::Dec, value: text.to_string() })
}

fn id(text: &str) -> ASTNode {
    ASTNode::Ident(Token { pos: 1, types: PhraseType::Identifier, value: text.to_string() })
}

fn bin(op: &str, lhs: ASTNode, rhs: ASTNode) -> ASTNode {
    ASTNode::BinaryOp { op: Some(op.to_string()), lhs: Box::new(lhs), rhs: Some(Box::new(rhs)) }
}

fn int_type() -> Type {
    Type::BaseType("int".to_string())
}

fn decl(name: &str, init: Option<ASTNode>) -> VarDec {
    VarDec { var_type: int_type(), var_name: name.to_string(), init }
}

fn func(name: &str, params: Vec<VarDec>, stmts: Vec<ASTNode>) -> ASTNode {
    ASTNode::FuncDef {
        name: name.to_string(),
        params,
        ret_type: int_type(),
        body: Box::new(ASTNode::Block { stmts }),
    }
}

fn main_with_sum() -> Vec<ASTNode> {
    vec![func(
        "main",
        vec![],
        vec![
            ASTNode::VarDecl(vec![decl("a", None)]),
            bin("=", id("a"), bin("+", lit("1"), lit("2"))),
            ASTNode::Return { expr: Some(Box::new(id("a"))) },
        ],
    )]
}

#[test]
fn lowers_a_function_with_an_assignment() {
    let code = lower(&main_with_sum());
    assert_eq!(
        code,
        vec![
            q("FUNC", "main", "", ""),
            q("+", "1", "2", "t0"),
            q("MOV", "t0", "", "a"),
            q("RET", "a", "", ""),
            q("ENDFUNC", "main", "", ""),
        ]
    );
}

#[test]
fn end_to_end_sum_is_folded() {
    let code = ir_gen(&main_with_sum());
    assert_eq!(
        code,
        vec![
            q("FUNC", "main", "", ""),
            q("MOV", "3", "", "a"),
            q("RET", "3", "", ""),
            q("ENDFUNC", "main", "", ""),
        ]
    );
}

#[test]
fn parameters_come_in_declaration_order() {
    let ast = vec![func("f", vec![decl("x", None), decl("y", None)], vec![])];
    assert_eq!(
        lower(&ast),
        vec![
            q("FUNC", "f", "", ""),
            q("PARAM", "x", "", ""),
            q("PARAM", "y", "", ""),
            q("ENDFUNC", "f", "", ""),
        ]
    );
}

#[test]
fn initialised_declarators_move_and_others_emit_nothing() {
    let ast = vec![ASTNode::VarDecl(vec![
        decl("a", Some(lit("7"))),
        decl("b", None),
        decl("c", Some(bin("*", id("a"), lit("2")))),
    ])];
    assert_eq!(
        lower(&ast),
        vec![q("MOV", "7", "", "a"), q("*", "a", "2", "t0"), q("MOV", "t0", "", "c")]
    );
}

#[test]
fn if_without_else_still_emits_the_else_label() {
    let ast = vec![ASTNode::If {
        cond: Box::new(bin("<", id("a"), id("b"))),
        then_br: Box::new(bin("=", id("a"), lit("1"))),
        else_br: None,
    }];
    assert_eq!(
        lower(&ast),
        vec![
            q("<", "a", "b", "t0"),
            q("JZ", "t0", "", "L0"),
            q("MOV", "1", "", "a"),
            q("JMP", "", "", "L1"),
            q("LABEL", "L0", "", ""),
            q("LABEL", "L1", "", ""),
        ]
    );
}

#[test]
fn if_with_else_lowers_both_branches() {
    let ast = vec![ASTNode::If {
        cond: Box::new(id("c")),
        then_br: Box::new(bin("=", id("a"), lit("1"))),
        else_br: Some(Box::new(bin("=", id("a"), lit("2")))),
    }];
    assert_eq!(
        lower(&ast),
        vec![
            q("JZ", "c", "", "L0"),
            q("MOV", "1", "", "a"),
            q("JMP", "", "", "L1"),
            q("LABEL", "L0", "", ""),
            q("MOV", "2", "", "a"),
            q("LABEL", "L1", "", ""),
        ]
    );
}

#[test]
fn while_tests_at_the_bottom() {
    let ast = vec![ASTNode::While {
        cond: Box::new(bin("<", id("i"), lit("10"))),
        body: Box::new(bin("=", id("i"), bin("+", id("i"), lit("1")))),
    }];
    assert_eq!(
        lower(&ast),
        vec![
            q("JMP", "", "", "L1"),
            q("LABEL", "L0", "", ""),
            q("+", "i", "1", "t0"),
            q("MOV", "t0", "", "i"),
            q("LABEL", "L1", "", ""),
            q("<", "i", "10", "t1"),
            q("JNZ", "t1", "", "L0"),
            q("LABEL", "L2", "", ""),
        ]
    );
}

#[test]
fn nested_call_resolves_before_the_outer_args() {
    let inner = ASTNode::Call { func: "g".to_string(), args: vec![id("x")] };
    let outer = ASTNode::Call { func: "f".to_string(), args: vec![lit("1"), inner, id("y")] };
    assert_eq!(
        lower(&vec![outer]),
        vec![
            q("ARG", "x", "", ""),
            q("CALL", "g", "1", "t0"),
            q("ARG", "1", "", ""),
            q("ARG", "t0", "", ""),
            q("ARG", "y", "", ""),
            q("CALL", "f", "3", "t1"),
        ]
    );
}

#[test]
fn chained_assignment_yields_the_left_name() {
    let ast = vec![bin("=", id("a"), bin("=", id("b"), id("c")))];
    assert_eq!(lower(&ast), vec![q("MOV", "c", "", "b"), q("MOV", "b", "", "a")]);
}

#[test]
fn unary_and_return_without_value() {
    let ast = vec![
        ASTNode::UnaryOp { op: "-".to_string(), expr: Box::new(id("a")) },
        ASTNode::Return { expr: None },
    ];
    assert_eq!(lower(&ast), vec![q("-", "a", "", "t0"), q("RET", "", "", "")]);
}

#[test]
fn unrecognised_shapes_are_skipped() {
    let ast = vec![
        ASTNode::Specifier(Box::new(int_type())),
        ASTNode::ExprStmt { expr: Box::new(id("a")) },
        ASTNode::Args { args: vec![Box::new(id("a"))] },
        ASTNode::BinaryOp { op: Some("+".to_string()), lhs: Box::new(id("a")), rhs: None },
    ];
    assert_eq!(lower(&ast), vec![]);
}

#[test]
fn recursive_entry_continues_from_the_given_counters() {
    let mut code = vec![q("RET", "", "", "")];
    let mut temp_id: usize = 5;
    let mut label_id: usize = 7;
    let node = ASTNode::If {
        cond: Box::new(bin("+", id("a"), id("b"))),
        then_br: Box::new(ASTNode::Block { stmts: vec![] }),
        else_br: None,
    };
    let value = ir_gen_recursive(&node, &mut code, &mut temp_id, &mut label_id);
    assert_eq!(value, None);
    assert_eq!(temp_id, 6);
    assert_eq!(label_id, 9);
    assert_eq!(
        code,
        vec![
            q("RET", "", "", ""),
            q("+", "a", "b", "t5"),
            q("JZ", "t5", "", "L7"),
            q("JMP", "", "", "L8"),
            q("LABEL", "L7", "", ""),
            q("LABEL", "L8", "", ""),
        ]
    );
    let name = ir_gen_recursive(&id("x"), &mut code, &mut temp_id, &mut label_id);
    assert_eq!(name, Some("x".to_string()));
}

#[test]
fn division_by_zero_in_the_source_is_a_fault() {
    let ast = vec![ASTNode::Return { expr: Some(Box::new(bin("/", lit("1"), lit("0")))) }];
    assert_eq!(try_ir_gen(&ast), None);
}

#[test]
fn generated_loops_are_left_as_they_are() {
    let ast = vec![ASTNode::While {
        cond: Box::new(bin("<", id("i"), lit("3"))),
        body: Box::new(bin("=", id("x"), bin("+", id("x"), id("y")))),
    }];
    let raw = lower(&ast);
    assert_eq!(ir_gen(&ast), raw);
}

#[test]
fn operator_text_is_taken_as_it_is() {
    let odd = ASTNode::BinaryOp { op: None, lhs: Box::new(id("a")), rhs: Some(Box::new(id("b"))) };
    assert_eq!(lower(&vec![odd]), vec![q("", "a", "b", "t0")]);
    let ast = vec![bin("&&", bin("==", id("a"), lit("1")), ASTNode::Return { expr: None })];
    assert_eq!(
        lower(&ast),
        vec![q("==", "a", "1", "t0"), q("RET", "", "", ""), q("&&", "t0", "", "t1")]
    );
}

#[test]
fn counters_run_on_across_functions() {
    let f = |name: &str| {
        func(
            name,
            vec![],
            vec![ASTNode::If {
                cond: Box::new(bin("<", id("a"), id("b"))),
                then_br: Box::new(ASTNode::Block { stmts: vec![] }),
                else_br: None,
            }],
        )
    };
    let code = lower(&vec![f("f"), f("g")]);
    let names: Vec<&str> = code.iter().filter(|i| i.op == "LABEL").map(|i| i.src1.as_str()).collect();
    assert_eq!(names, vec!["L0", "L1", "L2", "L3"]);
    let temps: Vec<&str> = code.iter().filter(|i| i.op == "<").map(|i| i.rd.as_str()).collect();
    assert_eq!(temps, vec!["t0", "t1"]);
}
