use minicc::ir::irgen::IrType;
use minicc::ir::optimal::{
    common_subexpression_elimination, const_fold_and_propagate, dead_code_elimination,
    loop_unrolling, optimal, try_const_fold_and_propagate,
};

fn q(op: &str, src1: &str, src2: &str, rd: &str) -> IrType {
    IrType { op: op.to_string(), src1: src1.to_string(), src2: src2.to_string(), rd: rd.to_string() }
}

#[test]
fn folds_a_chain_of_literal_arithmetic() {
    let input = vec![q("*", "3", "4", "t0"), q("+", "2", "t0", "t1")];
    let folded = const_fold_and_propagate(&input);
    assert_eq!(folded, vec![q("MOV", "12", "", "t0"), q("MOV", "14", "", "t1")]);
}

#[test]
fn chain_folds_to_a_single_mov_of_14() {
    let input = vec![
        q("*", "3", "4", "t0"),
        q("+", "2", "t0", "t1"),
        q("LABEL", "L0", "", ""),
        q("RET", "t1", "", ""),
    ];
    let out = optimal(&input);
    assert_eq!(out, vec![q("MOV", "14", "", "t1"), q("LABEL", "L0", "", ""), q("RET", "t1", "", "")]);
}

#[test]
fn division_by_zero_is_a_fault() {
    let input = vec![q("/", "1", "0", "t0")];
    assert_eq!(try_const_fold_and_propagate(&input), None);
}

#[test]
fn label_forgets_constants() {
    let input = vec![q("MOV", "5", "", "x"), q("LABEL", "L", "", ""), q("MOV", "x", "", "t0")];
    let out = const_fold_and_propagate(&input);
    assert_eq!(out[2], q("MOV", "x", "", "t0"));
    assert_eq!(out, input);
}

#[test]
fn repeated_expression_becomes_a_move() {
    let input = vec![q("+", "a", "b", "t0"), q("+", "a", "b", "t1")];
    let out = common_subexpression_elimination(input);
    assert_eq!(out, vec![q("+", "a", "b", "t0"), q("MOV", "t0", "", "t1")]);
}

#[test]
fn unread_temporary_is_dropped_and_named_local_kept() {
    let input = vec![q("+", "a", "b", "t0"), q("MOV", "1", "", "total"), q("MOV", "2", "", "t")];
    let out = dead_code_elimination(input);
    assert_eq!(out, vec![q("MOV", "1", "", "total"), q("MOV", "2", "", "t")]);
}

#[test]
fn narrow_loop_is_unrolled() {
    let input = vec![
        q("LABEL", "L0", "", ""),
        q("+", "x", "1", "x"),
        q("LABEL", "L1", "", ""),
        q("<", "i", "3", "t0"),
        q("JNZ", "t0", "", "L0"),
        q("RET", "x", "", ""),
    ];
    let out = loop_unrolling(input);
    assert_eq!(
        out,
        vec![q("+", "x", "1", "x"), q("+", "x", "1", "x"), q("+", "x", "1", "x"), q("RET", "x", "", "")]
    );
}

#[test]
fn division_truncates_towards_zero() {
    let input = vec![q("/", "-7", "2", "t0"), q("/", "7", "-2", "t1"), q("-", "3", "5", "t2")];
    assert_eq!(
        const_fold_and_propagate(&input),
        vec![q("MOV", "-3", "", "t0"), q("MOV", "-3", "", "t1"), q("MOV", "-2", "", "t2")]
    );
}

#[test]
fn overflow_is_a_fault() {
    assert_eq!(try_const_fold_and_propagate(&vec![q("+", "9223372036854775807", "1", "t0")]), None);
    assert_eq!(try_const_fold_and_propagate(&vec![q("*", "4611686018427387904", "2", "t0")]), None);
    assert_eq!(try_const_fold_and_propagate(&vec![q("/", "-9223372036854775808", "-1", "t0")]), None);
    assert_eq!(
        try_const_fold_and_propagate(&vec![q("-", "-9223372036854775807", "1", "t0")]),
        Some(vec![q("MOV", "-9223372036854775808", "", "t0")])
    );
}

#[test]
fn constants_are_propagated_as_they_were_written() {
    let input = vec![
        q("MOV", "+5", "", "x"),
        q("MOV", "x", "junk", "y"),
        q("ARG", "y", "", ""),
        q("+", "x", "0x10", "t0"),
        q("MOV", "z", "", "x"),
        q("RET", "x", "", ""),
        q("JNZ", "y", "", "L0"),
        q("RET", "y", "", ""),
    ];
    assert_eq!(
        const_fold_and_propagate(&input),
        vec![
            q("MOV", "+5", "", "x"),
            q("MOV", "+5", "", "y"),
            q("ARG", "+5", "", ""),
            q("+", "+5", "0x10", "t0"),
            q("MOV", "z", "", "x"),
            q("RET", "x", "", ""),
            q("JNZ", "+5", "", "L0"),
            q("RET", "y", "", ""),
        ]
    );
}

#[test]
fn every_control_flow_opcode_forgets_constants() {
    for op in ["JMP", "JZ", "JNZ", "LABEL", "CALL"] {
        let input = vec![q("MOV", "1", "", "x"), q(op, "a", "b", "c"), q("RET", "x", "", "")];
        assert_eq!(const_fold_and_propagate(&input), input);
    }
    for op in ["FUNC", "ENDFUNC", "PARAM", "ARG", "RET", "<", "="] {
        let input = vec![q("MOV", "1", "", "x"), q(op, "a", "", "c"), q("RET", "x", "", "")];
        assert_eq!(const_fold_and_propagate(&input)[2], q("RET", "1", "", ""));
    }
}

#[test]
fn dead_code_looks_at_the_whole_list_once() {
    let input = vec![
        q("+", "a", "b", "t0"),
        q("+", "t0", "1", "t1"),
        q("MOV", "5", "", "t2"),
        q("MOV", "t2", "", "0x10"),
        q("MOV", "1", "", "5"),
        q("CALL", "f", "0", "t3"),
        q("RET", "", "", ""),
        q("<", "a", "b", "tmp"),
        q("<", "a", "b", "t"),
        q("<", "a", "b", "t9x"),
    ];
    let out = dead_code_elimination(input);
    assert_eq!(
        out,
        vec![
            q("+", "a", "b", "t0"),
            q("MOV", "5", "", "t2"),
            q("MOV", "t2", "", "0x10"),
            q("MOV", "1", "", "5"),
            q("RET", "", "", ""),
            q("<", "a", "b", "tmp"),
            q("<", "a", "b", "t"),
            q("<", "a", "b", "t9x"),
        ]
    );
}

#[test]
fn repeated_expression_is_shared_even_across_a_write() {
    let input = vec![
        q("+", "a", "b", "t0"),
        q("MOV", "1", "", "a"),
        q("LABEL", "L0", "", ""),
        q("+", "a", "b", "t1"),
        q("+", "b", "a", "t2"),
        q("-", "a", "b", "t3"),
        q("+", "a", "b", "t4"),
        q("<", "a", "b", "t5"),
        q("<", "a", "b", "t6"),
    ];
    let out = common_subexpression_elimination(input);
    assert_eq!(
        out,
        vec![
            q("+", "a", "b", "t0"),
            q("MOV", "1", "", "a"),
            q("LABEL", "L0", "", ""),
            q("MOV", "t0", "", "t1"),
            q("+", "b", "a", "t2"),
            q("-", "a", "b", "t3"),
            q("MOV", "t0", "", "t4"),
            q("<", "a", "b", "t5"),
            q("<", "a", "b", "t6"),
        ]
    );
}

#[test]
fn only_the_exact_window_is_unrolled() {
    let window = |bound: &str| {
        vec![
            q("LABEL", "L0", "", ""),
            q("+", "x", "1", "x"),
            q("LABEL", "L1", "", ""),
            q("<", "i", bound, "t0"),
            q("JNZ", "t0", "", "L0"),
        ]
    };
    assert_eq!(loop_unrolling(window("0")), vec![]);
    assert_eq!(loop_unrolling(window("+2")), vec![q("+", "x", "1", "x"), q("+", "x", "1", "x")]);
    assert_eq!(loop_unrolling(window("n")), window("n"));
    assert_eq!(loop_unrolling(window("-1")), window("-1"));
    assert_eq!(loop_unrolling(window("0x2")), window("0x2"));
    let mut short = window("3");
    short.pop();
    assert_eq!(loop_unrolling(short.clone()), short);
    let mut jz = window("3");
    jz[4] = q("JZ", "t0", "", "L0");
    assert_eq!(loop_unrolling(jz.clone()), jz);
    let mut two = window("1");
    two.extend(window("2"));
    assert_eq!(
        loop_unrolling(two),
        vec![q("+", "x", "1", "x"), q("+", "x", "1", "x"), q("+", "x", "1", "x")]
    );
}

#[test]
fn passes_run_once_each_and_in_order() {
    let input = vec![
        q("+", "1", "2", "t0"),
        q("+", "a", "b", "t1"),
        q("+", "a", "b", "t2"),
        q("+", "t1", "t2", "c"),
        q("RET", "t0", "", ""),
    ];
    assert_eq!(
        optimal(&input),
        vec![
            q("+", "a", "b", "t1"),
            q("MOV", "t1", "", "t2"),
            q("+", "t1", "t2", "c"),
            q("RET", "3", "", ""),
        ]
    );
}

#[test]
fn folding_a_list_twice_can_differ_where_a_destination_reads_as_a_literal() {
    let input = vec![q("MOV", "2", "", "a"), q("MOV", "3", "", "2"), q("ARG", "a", "", "")];
    let once = const_fold_and_propagate(&input);
    assert_eq!(once, vec![q("MOV", "2", "", "a"), q("MOV", "3", "", "2"), q("ARG", "2", "", "")]);
    let twice = const_fold_and_propagate(&once);
    assert_eq!(twice[2], q("ARG", "3", "", ""));
    let plain = vec![q("MOV", "2", "", "a"), q("+", "a", "1", "t0"), q("ARG", "t0", "", "")];
    let folded = const_fold_and_propagate(&plain);
    assert_eq!(const_fold_and_propagate(&folded), folded);
}
