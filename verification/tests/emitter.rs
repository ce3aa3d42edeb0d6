use minicc::assembly::asmgen::{asm_gen, try_asm_gen, unassigned_names};
use minicc::ir::irgen::IrType;

fn q(op: &str, src1: &str, src2: &str, rd: &str) -> IrType {
    IrType { op: op.to_string(), src1: src1.to_string(), src2: src2.to_string(), rd: rd.to_string() }
}

const START: &str =
    ".section .text\n.globl _start\n_start:\n    li sp, 0x80009000\n    call main\n    ebreak\n";

#[test]
fn main_loads_copies_and_returns() {
    let ir = vec![
        q("FUNC", "main", "", ""),
        q("MOV", "3", "", "t0"),
        q("MOV", "t0", "", "a"),
        q("RET", "a", "", ""),
        q("ENDFUNC", "main", "", ""),
    ];
    let expected = format!(
        "{}{}",
        START,
        "main:\n    addi sp, sp, -16\n    sw ra, 12(sp)\n    li t2, 3\n    mv t3, t2\n    mv a0, t3\n    lw ra, 12(sp)\n    addi sp, sp, 16\n    ret\n"
    );
    assert_eq!(asm_gen(&ir), expected);
}

#[test]
fn three_args_go_to_the_first_three_argument_registers() {
    let ir = vec![
        q("FUNC", "main", "", ""),
        q("ARG", "x", "", ""),
        q("ARG", "y", "", ""),
        q("ARG", "5", "", ""),
        q("CALL", "f", "3", "t0"),
        q("ENDFUNC", "main", "", ""),
    ];
    let expected = format!(
        "{}{}",
        START,
        "main:\n    addi sp, sp, -16\n    sw ra, 12(sp)\n    mv a0, t2\n    mv a1, t3\n    li a2, 5\n    call f\n    mv t4, a0\n    lw ra, 12(sp)\n    addi sp, sp, 16\n    ret\n"
    );
    assert_eq!(asm_gen(&ir), expected);
}

#[test]
fn argument_count_starts_again_after_a_call() {
    let ir = vec![
        q("FUNC", "main", "", ""),
        q("ARG", "1", "", ""),
        q("CALL", "f", "1", ""),
        q("ARG", "2", "", ""),
        q("CALL", "g", "1", ""),
        q("RET", "", "", ""),
        q("ENDFUNC", "main", "", ""),
    ];
    let expected = format!(
        "{}{}",
        START,
        "main:\n    addi sp, sp, -16\n    sw ra, 12(sp)\n    li a0, 1\n    call f\n    li a0, 2\n    call g\n    lw ra, 12(sp)\n    addi sp, sp, 16\n    ret\n"
    );
    assert_eq!(asm_gen(&ir), expected);
}

#[test]
fn arithmetic_goes_through_the_scratch_registers() {
    let ir = vec![
        q("FUNC", "f", "", ""),
        q("PARAM", "x", "", ""),
        q("PARAM", "y", "", ""),
        q("+", "x", "1", "t0"),
        q("/", "t0", "y", "t1"),
        q("<", "t1", "10", "t2"),
        q("<", "t1", "x", "t3"),
        q("=", "t3", "", "x"),
        q("RET", "t1", "", ""),
        q("ENDFUNC", "f", "", ""),
    ];
    let expected = format!(
        "{}{}",
        START,
        concat_lines(&[
            "f:",
            "    addi sp, sp, -32",
            "    sw ra, 28(sp)",
            "    mv t2, a0",
            "    mv t3, a1",
            "    mv t0, t2",
            "    li t1, 1",
            "    add a7, t0, t1",
            "    mv t4, a7",
            "    mv t0, t4",
            "    mv t1, t3",
            "    div a7, t0, t1",
            "    mv t5, a7",
            "    slti t6, t5, 10",
            "    slt s0, t5, t2",
            "    mv t2, s0",
            "    mv a0, t5",
            "    lw ra, 28(sp)",
            "    addi sp, sp, 32",
            "    ret",
        ])
    );
    assert_eq!(asm_gen(&ir), expected);
}

fn concat_lines(lines: &[&str]) -> String {
    let mut out = String::new();
    for l in lines {
        out.push_str(l);
        out.push('\n');
    }
    out
}

#[test]
fn branches_and_labels() {
    let ir = vec![
        q("FUNC", "main", "", ""),
        q("JMP", "", "", "L1"),
        q("LABEL", "L0", "", ""),
        q("LABEL", "", "", ""),
        q("LABEL", "L1", "", ""),
        q("JNZ", "c", "", "L0"),
        q("JZ", "0", "", "L1"),
        q("LABEL", "", "", ""),
        q("ENDFUNC", "main", "", ""),
    ];
    let expected = format!(
        "{}{}",
        START,
        concat_lines(&[
            "main:",
            "    addi sp, sp, -16",
            "    sw ra, 12(sp)",
            "    j L1",
            "L0:",
            ".L0:",
            "L1:",
            "    mv t0, t4",
            "    bnez t0, L0",
            "    li t0, 0",
            "    beqz t0, L1",
            ".L1:",
            "    lw ra, 12(sp)",
            "    addi sp, sp, 16",
            "    ret",
        ])
    );
    assert_eq!(asm_gen(&ir), expected);
}

#[test]
fn program_without_functions_gets_one_return() {
    let ir: Vec<IrType> = vec![];
    assert_eq!(asm_gen(&ir), format!("{}{}", START, "    ret\n"));
    let stray = vec![q("MOV", "1", "", "a")];
    assert_eq!(asm_gen(&stray), format!("{}{}", START, "    ret\n"));
}

#[test]
fn function_without_names_has_an_empty_frame() {
    let ir = vec![q("FUNC", "main", "", ""), q("RET", "0", "", ""), q("ENDFUNC", "main", "", "")];
    let expected = format!(
        "{}{}",
        START,
        "main:\n    addi sp, sp, -0\n    sw ra, 0(sp)\n    li a0, 0\n    lw ra, 0(sp)\n    addi sp, sp, 0\n    ret\n"
    );
    assert_eq!(asm_gen(&ir), expected);
}

#[test]
fn registers_start_again_in_each_function() {
    let ir = vec![
        q("FUNC", "f", "", ""),
        q("MOV", "1", "", "a"),
        q("ENDFUNC", "f", "", ""),
        q("FUNC", "g", "", ""),
        q("MOV", "0x10", "", "b"),
        q("ENDFUNC", "g", "", ""),
    ];
    let expected = format!(
        "{}{}",
        START,
        concat_lines(&[
            "f:",
            "    addi sp, sp, -16",
            "    sw ra, 12(sp)",
            "    li t2, 1",
            "    lw ra, 12(sp)",
            "    addi sp, sp, 16",
            "    ret",
            "g:",
            "    addi sp, sp, -16",
            "    sw ra, 12(sp)",
            "    li t2, 0x10",
            "    lw ra, 12(sp)",
            "    addi sp, sp, 16",
            "    ret",
        ])
    );
    assert_eq!(asm_gen(&ir), expected);
}

#[test]
fn unbalanced_regions_fail() {
    assert_eq!(try_asm_gen(&vec![q("FUNC", "f", "", "")]), None);
    assert_eq!(try_asm_gen(&vec![q("ENDFUNC", "f", "", "")]), None);
    assert_eq!(
        try_asm_gen(&vec![q("FUNC", "f", "", ""), q("FUNC", "g", "", ""), q("ENDFUNC", "g", "", "")]),
        None
    );
}

#[test]
fn a_name_without_register_fails_only_when_needed() {
    let mut ir = vec![q("FUNC", "f", "", "")];
    for k in 0..18 {
        ir.push(q("LABEL", &format!("n{}", k), "", ""));
    }
    ir.push(q("ENDFUNC", "f", "", ""));
    let text = try_asm_gen(&ir).unwrap();
    assert!(text.contains("    addi sp, sp, -80\n"));
    assert!(text.contains("    sw ra, 76(sp)\n"));
    let last = ir.len() - 1;
    ir.insert(last, q("MOV", "1", "", "n0"));
    assert!(try_asm_gen(&ir).unwrap().contains("    li t2, 1\n"));
    ir.insert(last, q("MOV", "1", "", "n16"));
    assert!(try_asm_gen(&ir).unwrap().contains("    li s11, 1\n"));
    ir.insert(last, q("MOV", "1", "", "n17"));
    assert_eq!(try_asm_gen(&ir), None);
}

#[test]
fn missing_destination_fails() {
    let ir = vec![q("FUNC", "f", "", ""), q("MOV", "1", "", ""), q("ENDFUNC", "f", "", "")];
    assert_eq!(try_asm_gen(&ir), None);
}

#[test]
fn names_past_the_pool_are_listed() {
    let mut ir = vec![q("FUNC", "f", "", "")];
    for k in 0..19 {
        ir.push(q("LABEL", &format!("n{}", k), "", ""));
    }
    ir.push(q("ENDFUNC", "f", "", ""));
    ir.push(q("FUNC", "g", "", ""));
    ir.push(q("MOV", "1", "", "a"));
    ir.push(q("ENDFUNC", "g", "", ""));
    assert_eq!(unassigned_names(&ir), vec!["n17".to_string(), "n18".to_string()]);
    assert!(unassigned_names(&ir[21..]).is_empty());
}

#[test]
fn argument_count_starts_again_for_names_too() {
    let ir = vec![
        q("FUNC", "m", "", ""),
        q("ARG", "x", "", ""),
        q("CALL", "f", "1", "t0"),
        q("ARG", "y", "", ""),
        q("CALL", "g", "1", "t1"),
        q("ENDFUNC", "m", "", ""),
    ];
    let expected = format!(
        "{}{}",
        START,
        concat_lines(&[
            "m:",
            "    addi sp, sp, -32",
            "    sw ra, 28(sp)",
            "    mv a0, t2",
            "    call f",
            "    mv t3, a0",
            "    mv a0, t5",
            "    call g",
            "    mv t6, a0",
            "    lw ra, 28(sp)",
            "    addi sp, sp, 32",
            "    ret",
        ])
    );
    assert_eq!(asm_gen(&ir), expected);
}

#[test]
fn condition_is_brought_into_scratch_before_the_branch() {
    let ir = vec![
        q("FUNC", "main", "", ""),
        q("MOV", "0", "", "c"),
        q("JZ", "c", "", "L0"),
        q("LABEL", "L0", "", ""),
        q("RET", "c", "", ""),
        q("ENDFUNC", "main", "", ""),
    ];
    let expected = format!(
        "{}{}",
        START,
        concat_lines(&[
            "main:",
            "    addi sp, sp, -16",
            "    sw ra, 12(sp)",
            "    li t2, 0",
            "    mv t0, t2",
            "    beqz t0, L0",
            "L0:",
            "    mv a0, t2",
            "    lw ra, 12(sp)",
            "    addi sp, sp, 16",
            "    ret",
        ])
    );
    assert_eq!(asm_gen(&ir), expected);
}

#[test]
fn hexadecimal_text_is_loaded_as_an_immediate() {
    let ir = vec![
        q("FUNC", "main", "", ""),
        q("MOV", "0x10", "", "a"),
        q("RET", "a", "", ""),
        q("ENDFUNC", "main", "", ""),
    ];
    let expected = format!(
        "{}{}",
        START,
        "main:\n    addi sp, sp, -16\n    sw ra, 12(sp)\n    li t2, 0x10\n    mv a0, t2\n    lw ra, 12(sp)\n    addi sp, sp, 16\n    ret\n"
    );
    assert_eq!(asm_gen(&ir), expected);
}

#[test]
fn three_named_arguments_go_to_a0_a1_a2() {
    let ir = vec![
        q("FUNC", "m", "", ""),
        q("ARG", "x", "", ""),
        q("ARG", "y", "", ""),
        q("ARG", "z", "", ""),
        q("CALL", "f", "3", "t0"),
        q("ENDFUNC", "m", "", ""),
    ];
    let expected = format!(
        "{}{}",
        START,
        concat_lines(&[
            "m:",
            "    addi sp, sp, -32",
            "    sw ra, 28(sp)",
            "    mv a0, t2",
            "    mv a1, t3",
            "    mv a2, t4",
            "    call f",
            "    mv t5, a0",
            "    lw ra, 28(sp)",
            "    addi sp, sp, 32",
            "    ret",
        ])
    );
    assert_eq!(asm_gen(&ir), expected);
}
