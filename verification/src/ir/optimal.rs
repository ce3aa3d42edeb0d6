//! The four optimisation passes over quadruples, each run once and in a
//! fixed order: constant folding with propagation, removal of dead
//! temporaries, elimination of repeated arithmetic, and the unrolling of
//! one narrow loop shape.

use crate::bindings::Bindings;
use crate::ir::irgen::{instruction, no_text, quads, IrType, Quad};
use crate::text::{
    all_digits, chars_of, decimal_i64, decimal_usize, i64_to_string, int_text, is_literal,
    is_literal_text, law_rendering_reads_back, parse_i64, parse_usize, trunc_div,
};
use vstd::prelude::*;

verus! {

// ---------------------------------------------------------------------
// Constant folding and propagation
// ---------------------------------------------------------------------

/// The opcodes at which control may arrive from or leave for elsewhere.
/// Nothing that was known about constants survives one of them.
pub open spec fn clears_constants(op: Seq<char>) -> bool {
    op == "JMP"@ || op == "JZ"@ || op == "JNZ"@ || op == "LABEL"@ || op == "CALL"@
}

/// The four arithmetic opcodes.
pub open spec fn is_arith(op: Seq<char>) -> bool {
    op == "+"@ || op == "-"@ || op == "*"@ || op == "/"@
}

/// The exact result of the arithmetic opcode `op` on `a` and `b`, where
/// it exists: a division by zero has none.
pub open spec fn arith_exact(op: Seq<char>, a: int, b: int) -> Option<int> {
    if op == "+"@ {
        Some(a + b)
    } else if op == "-"@ {
        Some(a - b)
    } else if op == "*"@ {
        Some(a * b)
    } else if b == 0 {
        None
    } else {
        Some(trunc_div(a, b))
    }
}

/// The result of the arithmetic opcode `op` on two signed 64-bit numbers.
/// `None` is a fault: a division by zero, or a result that 64 bits
/// cannot hold.
pub open spec fn arith_i64(op: Seq<char>, a: i64, b: i64) -> Option<i64> {
    match arith_exact(op, a as int, b as int) {
        Some(v) => if i64::MIN <= v <= i64::MAX {
            Some(v as i64)
        } else {
            None
        },
        None => None,
    }
}

/// The operand `name` with what is known of it put in its place.
pub open spec fn resolve(consts: Map<Seq<char>, Seq<char>>, name: Seq<char>) -> Seq<char> {
    if consts.contains_key(name) {
        consts[name]
    } else {
        name
    }
}

/// What the pass does at one instruction: the instruction it emits, the
/// constants known afterwards, and whether folding faulted.
pub ghost struct FoldStep {
    pub out: Quad,
    pub consts: Map<Seq<char>, Seq<char>>,
    pub fault: bool,
}

/// The step of the pass at instruction `q`, with `consts` known before it.
///
/// Both operands are resolved first. A control-flow opcode forgets every
/// constant. Arithmetic on two decimal literals becomes a `MOV` of the
/// result, which is then known of the destination. A `MOV` of a decimal
/// literal makes the destination known; any other instruction makes it
/// unknown.
pub open spec fn fold_step(consts: Map<Seq<char>, Seq<char>>, q: Quad) -> FoldStep {
    let s1 = resolve(consts, q.src1);
    let s2 = resolve(consts, q.src2);
    if clears_constants(q.op) {
        FoldStep {
            out: Quad { op: q.op, src1: s1, src2: s2, rd: q.rd },
            consts: Map::empty(),
            fault: false,
        }
    } else if is_arith(q.op) && decimal_i64(s1) is Some && decimal_i64(s2) is Some {
        match arith_i64(q.op, decimal_i64(s1)->0, decimal_i64(s2)->0) {
            Some(v) => FoldStep {
                out: Quad { op: "MOV"@, src1: int_text(v as int), src2: no_text(), rd: q.rd },
                consts: consts.insert(q.rd, int_text(v as int)),
                fault: false,
            },
            None => FoldStep { out: q, consts: consts, fault: true },
        }
    } else if q.op == "MOV"@ {
        FoldStep {
            out: Quad { op: q.op, src1: s1, src2: no_text(), rd: q.rd },
            consts: if decimal_i64(s1) is Some {
                consts.insert(q.rd, s1)
            } else {
                consts.remove(q.rd)
            },
            fault: false,
        }
    } else {
        FoldStep {
            out: Quad { op: q.op, src1: s1, src2: s2, rd: q.rd },
            consts: consts.remove(q.rd),
            fault: false,
        }
    }
}

/// The constants known just before instruction `i` of `qs`.
pub open spec fn consts_before(qs: Seq<Quad>, i: int) -> Map<Seq<char>, Seq<char>>
    decreases i,
{
    if i <= 0 {
        Map::empty()
    } else {
        fold_step(consts_before(qs, i - 1), qs[i - 1]).consts
    }
}

/// Folding faults somewhere in `qs`.
pub open spec fn fold_faults(qs: Seq<Quad>) -> bool {
    exists|i: int| 0 <= i < qs.len() && (#[trigger] fold_step(consts_before(qs, i), qs[i])).fault
}

/// The result of the pass on `qs`: one instruction for each one of `qs`.
pub open spec fn fold_spec(qs: Seq<Quad>) -> Seq<Quad> {
    Seq::new(qs.len(), |i: int| fold_step(consts_before(qs, i), qs[i]).out)
}

fn is_control_op(op: &str) -> (r: bool)
    ensures
        r == clears_constants(op@),
{
    *op == *"JMP" || *op == *"JZ" || *op == *"JNZ" || *op == *"LABEL" || *op == *"CALL"
}

/// Whether `op` is one of the four arithmetic opcodes.
pub fn is_arith_op(op: &str) -> (r: bool)
    ensures
        r == is_arith(op@),
{
    *op == *"+" || *op == *"-" || *op == *"*" || *op == *"/"
}

fn eval_arith(op: &str, a: i64, b: i64) -> (r: Option<i64>)
    requires
        is_arith(op@),
    ensures
        r == arith_i64(op@, a, b),
{
    if *op == *"+" {
        a.checked_add(b)
    } else if *op == *"-" {
        a.checked_sub(b)
    } else if *op == *"*" {
        a.checked_mul(b)
    } else {
        a.checked_div(b)
    }
}

fn resolved(consts: &Bindings, name: &String) -> (r: String)
    ensures
        r@ == resolve(consts@, name@),
{
    match consts.get(name.as_str()) {
        Some(text) => text.clone(),
        None => name.clone(),
    }
}

/// Constant folding and propagation over `ir_list`, in one pass from left
/// to right. `None` exactly when folding faults; otherwise the result is
/// `fold_spec` of the input.
pub fn try_const_fold_and_propagate(ir_list: &[IrType]) -> (r: Option<Vec<IrType>>)
    ensures
        r is Some <==> !fold_faults(quads(ir_list@)),
        r is Some ==> quads(r->0@) == fold_spec(quads(ir_list@)),
{
    let ghost qs = quads(ir_list@);
    let mut consts = Bindings::new();
    let mut result: Vec<IrType> = Vec::new();
    let n = ir_list.len();
    let mut i: usize = 0;
    while i < n
        invariant
            i <= n,
            n == ir_list.len(),
            qs == quads(ir_list@),
            consts@ == consts_before(qs, i as int),
            quads(result@) == fold_spec(qs).take(i as int),
            forall|j: int| 0 <= j < i ==> !(#[trigger] fold_step(consts_before(qs, j), qs[j])).fault,
        decreases n - i,
    {
        let ir = &ir_list[i];
        let ghost before = quads(result@);
        let ghost step = fold_step(consts_before(qs, i as int), qs[i as int]);
        assert(qs[i as int] == ir@);
        let src1 = resolved(&consts, &ir.src1);
        let src2 = resolved(&consts, &ir.src2);
        if is_control_op(ir.op.as_str()) {
            consts.clear();
            result.push(IrType { op: ir.op.clone(), src1, src2, rd: ir.rd.clone() });
        } else {
            let a = parse_i64(src1.as_str());
            let b = parse_i64(src2.as_str());
            if is_arith_op(ir.op.as_str()) && a.is_some() && b.is_some() {
                match eval_arith(ir.op.as_str(), a.unwrap(), b.unwrap()) {
                    Some(v) => {
                        let text = i64_to_string(v);
                        consts.insert(ir.rd.clone(), text.clone());
                        result.push(instruction("MOV", text, String::new(), ir.rd.clone()));
                    },
                    None => {
                        assert(step.fault);
                        return None;
                    },
                }
            } else if *ir.op.as_str() == *"MOV" {
                if a.is_some() {
                    consts.insert(ir.rd.clone(), src1.clone());
                } else {
                    consts.remove(ir.rd.clone());
                }
                result.push(IrType { op: ir.op.clone(), src1, src2: String::new(), rd: ir.rd.clone() });
            } else {
                consts.remove(ir.rd.clone());
                result.push(IrType { op: ir.op.clone(), src1, src2, rd: ir.rd.clone() });
            }
        }
        proof {
            assert(quads(result@) =~= before.push(step.out));
            assert(fold_spec(qs).take(i + 1) =~= fold_spec(qs).take(i as int).push(step.out));
        }
        i += 1;
    }
    assert(fold_spec(qs).take(n as int) == fold_spec(qs));
    Some(result)
}

/// Constant folding and propagation over `ir_list`, for a list on which
/// folding does not fault.
pub fn const_fold_and_propagate(ir_list: &[IrType]) -> (r: Vec<IrType>)
    requires
        !fold_faults(quads(ir_list@)),
    ensures
        quads(r@) == fold_spec(quads(ir_list@)),
{
    match try_const_fold_and_propagate(ir_list) {
        Some(r) => r,
        None => vstd::pervasive::unreached(),
    }
}

// ---------------------------------------------------------------------
// Dead code elimination
// ---------------------------------------------------------------------

/// Some instruction of `qs` has `name` as an operand.
pub open spec fn names_operand(qs: Seq<Quad>, name: Seq<char>) -> bool {
    exists|j: int| 0 <= j < qs.len() && ((#[trigger] qs[j]).src1 == name || qs[j].src2 == name)
}

/// The names that `qs` reads: every operand that is neither absent nor a
/// literal.
pub open spec fn used_names(qs: Seq<Quad>) -> Set<Seq<char>> {
    Set::new(|name: Seq<char>| name.len() > 0 && !is_literal_text(name) && names_operand(qs, name))
}

/// `name` is written as the generated temporaries are: `t`, then one or
/// more decimal digits.
pub open spec fn is_temp_name(name: Seq<char>) -> bool {
    name.len() >= 2 && name[0] == 't' && all_digits(name.skip(1), 10)
}

/// The pass keeps `q`: it has no destination, or its destination is read
/// somewhere in `qs`, or its destination is a variable of the source
/// program and no temporary.
pub open spec fn dce_keeps(qs: Seq<Quad>, q: Quad) -> bool {
    q.rd.len() == 0 || used_names(qs).contains(q.rd) || !is_temp_name(q.rd)
}

/// The result of the pass on `qs`: the instructions it keeps, in order.
pub open spec fn dce_spec(qs: Seq<Quad>) -> Seq<Quad> {
    qs.filter(|q: Quad| dce_keeps(qs, q))
}

fn reads_name(ir_list: &Vec<IrType>, name: &str) -> (r: bool)
    ensures
        r == names_operand(quads(ir_list@), name@),
{
    let n = ir_list.len();
    let mut j: usize = 0;
    while j < n
        invariant
            j <= n,
            n == ir_list.len(),
            forall|k: int|
                0 <= k < j ==> !((#[trigger] quads(ir_list@)[k]).src1 == name@ || quads(
                    ir_list@,
                )[k].src2 == name@),
        decreases n - j,
    {
        assert(quads(ir_list@)[j as int] == ir_list[j as int]@);
        if *ir_list[j].src1.as_str() == *name || *ir_list[j].src2.as_str() == *name {
            return true;
        }
        j += 1;
    }
    false
}

/// Whether `name` is written as the generated temporaries are.
pub fn is_temp(name: &str) -> (r: bool)
    ensures
        r == is_temp_name(name@),
{
    let cs = chars_of(name);
    let n = cs.len();
    if n < 2 || cs[0] != 't' {
        return false;
    }
    let mut i: usize = 1;
    while i < n
        invariant
            1 <= i <= n,
            n == cs.len(),
            cs@ == name@,
            all_digits(name@.skip(1).take(i - 1), 10),
        decreases n - i,
    {
        if !('0' <= cs[i] && cs[i] <= '9') {
            assert(crate::text::digit_of(name@.skip(1)[i - 1], 10) is None);
            return false;
        }
        proof {
            let cur = name@.skip(1).take(i as int);
            assert forall|j: int| 0 <= j < cur.len() implies (#[trigger] crate::text::digit_of(
                cur[j],
                10,
            )) is Some by {
                if j < i - 1 {
                    assert(cur[j] == name@.skip(1).take(i - 1)[j]);
                }
            }
        }
        i += 1;
    }
    assert(name@.skip(1).take(n - 1) == name@.skip(1));
    true
}

/// Removes each instruction whose destination is a temporary that nothing
/// in `ir_list` reads. One pass; the reads are those of the whole input.
pub fn dead_code_elimination(ir_list: Vec<IrType>) -> (r: Vec<IrType>)
    ensures
        quads(r@) == dce_spec(quads(ir_list@)),
{
    let ghost qs = quads(ir_list@);
    let ghost pred = |q: Quad| dce_keeps(qs, q);
    let mut result: Vec<IrType> = Vec::new();
    let n = ir_list.len();
    let mut i: usize = 0;
    proof {
        reveal(Seq::filter);
        assert(qs.take(0).len() == 0);
    }
    while i < n
        invariant
            i <= n,
            n == ir_list.len(),
            qs == quads(ir_list@),
            pred == (|q: Quad| dce_keeps(qs, q)),
            quads(result@) == qs.take(i as int).filter(pred),
        decreases n - i,
    {
        let ir = &ir_list[i];
        let ghost before = quads(result@);
        assert(qs[i as int] == ir@);
        let rd = ir.rd.as_str();
        let used = rd.unicode_len() > 0 && !is_literal(rd) && reads_name(&ir_list, rd);
        let keep = rd.unicode_len() == 0 || used || !is_temp(rd);
        assert(keep == pred(ir@));
        if keep {
            result.push(ir.clone());
            assert(quads(result@) =~= before.push(ir@));
        }
        proof {
            reveal(Seq::filter);
            assert(qs.take(i + 1).drop_last() == qs.take(i as int));
            assert(qs.take(i + 1).last() == ir@);
        }
        i += 1;
    }
    assert(qs.take(n as int) == qs);
    result
}

// ---------------------------------------------------------------------
// Common subexpression elimination
// ---------------------------------------------------------------------

/// `a` and `b` compute the same expression: opcode and both operands are
/// the same text.
pub open spec fn same_expr(a: Quad, b: Quad) -> bool {
    a.op == b.op && a.src1 == b.src1 && a.src2 == b.src2
}

/// The first position from `from` on, and no later than `i`, whose
/// instruction computes the same expression as instruction `i`.
pub open spec fn first_same(qs: Seq<Quad>, i: int, from: int) -> int
    decreases i - from,
{
    if from >= i {
        i
    } else if same_expr(qs[from], qs[i]) {
        from
    } else {
        first_same(qs, i, from + 1)
    }
}

/// What the pass makes of instruction `i`: an arithmetic instruction that
/// repeats an earlier one becomes a `MOV` from the destination of the
/// first such instruction; everything else stays. Writes to the operands
/// in between are not looked at.
pub open spec fn cse_at(qs: Seq<Quad>, i: int) -> Quad {
    let first = first_same(qs, i, 0);
    if is_arith(qs[i].op) && first < i {
        Quad { op: "MOV"@, src1: qs[first].rd, src2: no_text(), rd: qs[i].rd }
    } else {
        qs[i]
    }
}

/// The result of the pass on `qs`: one instruction for each one of `qs`.
pub open spec fn cse_spec(qs: Seq<Quad>) -> Seq<Quad> {
    Seq::new(qs.len(), |i: int| cse_at(qs, i))
}

fn find_first_same(ir_list: &Vec<IrType>, i: usize) -> (r: usize)
    requires
        i < ir_list.len(),
    ensures
        r == first_same(quads(ir_list@), i as int, 0),
        r <= i,
{
    let ghost qs = quads(ir_list@);
    let mut j: usize = 0;
    while j < i
        invariant
            j <= i < ir_list.len(),
            qs == quads(ir_list@),
            first_same(qs, i as int, 0) == first_same(qs, i as int, j as int),
        decreases i - j,
    {
        assert(qs[j as int] == ir_list[j as int]@);
        assert(qs[i as int] == ir_list[i as int]@);
        if ir_list[j].op == ir_list[i].op && ir_list[j].src1 == ir_list[i].src1 && ir_list[j].src2
            == ir_list[i].src2 {
            return j;
        }
        j += 1;
    }
    i
}

/// Rewrites each arithmetic instruction that repeats an earlier one into
/// a `MOV` from the earlier destination.
pub fn common_subexpression_elimination(ir_list: Vec<IrType>) -> (r: Vec<IrType>)
    ensures
        quads(r@) == cse_spec(quads(ir_list@)),
{
    let ghost qs = quads(ir_list@);
    let mut result: Vec<IrType> = Vec::new();
    let n = ir_list.len();
    let mut i: usize = 0;
    while i < n
        invariant
            i <= n,
            n == ir_list.len(),
            qs == quads(ir_list@),
            quads(result@) == cse_spec(qs).take(i as int),
        decreases n - i,
    {
        let ir = &ir_list[i];
        let ghost before = quads(result@);
        assert(qs[i as int] == ir@);
        let first = find_first_same(&ir_list, i);
        if is_arith_op(ir.op.as_str()) && first < i {
            assert(qs[first as int] == ir_list[first as int]@);
            result.push(
                instruction("MOV", ir_list[first].rd.clone(), String::new(), ir.rd.clone()),
            );
        } else {
            result.push(ir.clone());
        }
        proof {
            assert(quads(result@) =~= before.push(cse_at(qs, i as int)));
            assert(cse_spec(qs).take(i + 1) =~= cse_spec(qs).take(i as int).push(
                cse_at(qs, i as int),
            ));
        }
        i += 1;
    }
    assert(cse_spec(qs).take(n as int) == cse_spec(qs));
    result
}

// ---------------------------------------------------------------------
// Loop unrolling
// ---------------------------------------------------------------------

/// The bound of the loop that starts at position `i`, if the five
/// instructions from `i` on are exactly a label, one body instruction, a
/// label, a `<` against a decimal count, and a `JNZ`.
pub open spec fn unroll_bound(qs: Seq<Quad>, i: int) -> Option<usize> {
    if 0 <= i && i + 4 < qs.len() && qs[i].op == "LABEL"@ && qs[i + 2].op == "LABEL"@ && qs[i
        + 3].op == "<"@ && qs[i + 4].op == "JNZ"@ {
        decimal_usize(qs[i + 3].src2)
    } else {
        None
    }
}

/// `n` copies of `q`.
pub open spec fn repeated(q: Quad, n: nat) -> Seq<Quad> {
    Seq::new(n, |k: int| q)
}

/// The result of the pass on the instructions of `qs` from position `i`
/// on: a loop of the shape above is replaced by its body instruction,
/// repeated as often as the bound says; any other instruction is copied.
pub open spec fn unroll_from(qs: Seq<Quad>, i: int) -> Seq<Quad>
    decreases qs.len() - i,
{
    if i < 0 || i >= qs.len() {
        Seq::empty()
    } else {
        match unroll_bound(qs, i) {
            Some(n) => repeated(qs[i + 1], n as nat) + unroll_from(qs, i + 5),
            None => seq![qs[i]] + unroll_from(qs, i + 1),
        }
    }
}

/// The result of the pass on `qs`.
pub open spec fn unroll_spec(qs: Seq<Quad>) -> Seq<Quad> {
    unroll_from(qs, 0)
}

fn loop_bound(ir_list: &Vec<IrType>, i: usize) -> (r: Option<usize>)
    requires
        i < ir_list.len(),
    ensures
        r == unroll_bound(quads(ir_list@), i as int),
{
    let ghost qs = quads(ir_list@);
    if ir_list.len() - i > 4 {
        assert(qs[i as int] == ir_list[i as int]@);
        assert(qs[i + 2] == ir_list[i + 2]@);
        assert(qs[i + 3] == ir_list[i + 3]@);
        assert(qs[i + 4] == ir_list[i + 4]@);
        if *ir_list[i].op.as_str() == *"LABEL" && *ir_list[i + 2].op.as_str() == *"LABEL"
            && *ir_list[i + 3].op.as_str() == *"<" && *ir_list[i + 4].op.as_str() == *"JNZ" {
            return parse_usize(ir_list[i + 3].src2.as_str());
        }
    }
    None
}

/// Replaces each loop of one body instruction under a `<` against a
/// decimal count by that many copies of the body instruction.
pub fn loop_unrolling(ir_list: Vec<IrType>) -> (r: Vec<IrType>)
    ensures
        quads(r@) == unroll_spec(quads(ir_list@)),
{
    let ghost qs = quads(ir_list@);
    let mut result: Vec<IrType> = Vec::new();
    let n = ir_list.len();
    let mut i: usize = 0;
    assert(quads(result@) + unroll_from(qs, 0) =~= unroll_spec(qs));
    while i < n
        invariant
            i <= n,
            n == ir_list.len(),
            qs == quads(ir_list@),
            quads(result@) + unroll_from(qs, i as int) == unroll_spec(qs),
        decreases n - i,
    {
        assert(qs[i as int] == ir_list[i as int]@);
        match loop_bound(&ir_list, i) {
            Some(count) => {
                let ghost before = quads(result@);
                assert(qs[i + 1] == ir_list[i + 1]@);
                let mut k: usize = 0;
                while k < count
                    invariant
                        k <= count,
                        i + 4 < ir_list.len(),
                        qs == quads(ir_list@),
                        quads(result@) == before + repeated(qs[i + 1], k as nat),
                    decreases count - k,
                {
                    let ghost mid = quads(result@);
                    result.push(ir_list[i + 1].clone());
                    assert(quads(result@) =~= mid.push(qs[i + 1]));
                    k += 1;
                    assert(before + repeated(qs[i + 1], k as nat) =~= (before + repeated(
                        qs[i + 1],
                        (k - 1) as nat,
                    )).push(qs[i + 1]));
                }
                assert(quads(result@) + unroll_from(qs, i + 5) =~= before + unroll_from(
                    qs,
                    i as int,
                ));
                i += 5;
            },
            None => {
                let ghost before = quads(result@);
                result.push(ir_list[i].clone());
                assert(quads(result@) =~= before.push(qs[i as int]));
                assert(quads(result@) + unroll_from(qs, i + 1) =~= before + unroll_from(
                    qs,
                    i as int,
                ));
                i += 1;
            },
        }
    }
    assert(quads(result@) + unroll_from(qs, n as int) =~= quads(result@));
    result
}

// ---------------------------------------------------------------------
// The pipeline
// ---------------------------------------------------------------------

/// The four passes in their order, on a list on which folding does not
/// fault.
pub open spec fn optimal_spec(qs: Seq<Quad>) -> Seq<Quad> {
    unroll_spec(cse_spec(dce_spec(fold_spec(qs))))
}

/// Runs the four passes once each, in their order. `None` exactly when
/// constant folding faults.
pub fn try_optimal(ir: &[IrType]) -> (r: Option<Vec<IrType>>)
    ensures
        r is Some <==> !fold_faults(quads(ir@)),
        r is Some ==> quads(r->0@) == optimal_spec(quads(ir@)),
{
    match try_const_fold_and_propagate(ir) {
        Some(folded) => {
            let live = dead_code_elimination(folded);
            let shared = common_subexpression_elimination(live);
            Some(loop_unrolling(shared))
        },
        None => None,
    }
}

/// Runs the four passes once each, in their order, on a list on which
/// constant folding does not fault.
pub fn optimal(ir: &[IrType]) -> (r: Vec<IrType>)
    requires
        !fold_faults(quads(ir@)),
    ensures
        quads(r@) == optimal_spec(quads(ir@)),
{
    let folded = const_fold_and_propagate(ir);
    let live = dead_code_elimination(folded);
    let shared = common_subexpression_elimination(live);
    loop_unrolling(shared)
}

// ---------------------------------------------------------------------
// What holds of the passes
// ---------------------------------------------------------------------

/// Behind an instruction at which control may arrive or leave, no
/// constant is known: the next instruction, unless it is arithmetic,
/// keeps its opcode, its first operand and its destination.
pub proof fn law_control_flow_forgets_constants(qs: Seq<Quad>, i: int)
    requires
        0 <= i,
        i + 1 < qs.len(),
        clears_constants(qs[i].op),
    ensures
        consts_before(qs, i + 1) == Map::<Seq<char>, Seq<char>>::empty(),
        !is_arith(qs[i + 1].op) ==> fold_spec(qs)[i + 1].op == qs[i + 1].op && fold_spec(qs)[i
            + 1].src1 == qs[i + 1].src1 && fold_spec(qs)[i + 1].rd == qs[i + 1].rd,
{
    assert(consts_before(qs, i + 1) == fold_step(consts_before(qs, i), qs[i]).consts);
}

/// Arithmetic on two decimal literals whose result exists becomes a
/// `MOV` of that result, whatever stands before it.
pub proof fn law_literal_arithmetic_folds(qs: Seq<Quad>, i: int)
    requires
        0 <= i < qs.len(),
        is_arith(qs[i].op),
        !clears_constants(qs[i].op),
        decimal_i64(qs[i].src1) is Some,
        decimal_i64(qs[i].src2) is Some,
        !consts_before(qs, i).contains_key(qs[i].src1),
        !consts_before(qs, i).contains_key(qs[i].src2),
        arith_i64(qs[i].op, decimal_i64(qs[i].src1)->0, decimal_i64(qs[i].src2)->0) is Some,
    ensures
        fold_spec(qs)[i] == (Quad {
            op: "MOV"@,
            src1: int_text(
                arith_i64(qs[i].op, decimal_i64(qs[i].src1)->0, decimal_i64(qs[i].src2)->0)->0 as int,
            ),
            src2: no_text(),
            rd: qs[i].rd,
        }),
{
}

/// No instruction that the dead-code pass leaves writes a temporary that
/// nothing in its input reads.
pub proof fn law_unread_temporary_is_dropped(qs: Seq<Quad>, name: Seq<char>, i: int)
    requires
        is_temp_name(name),
        !names_operand(qs, name),
        0 <= i < dce_spec(qs).len(),
    ensures
        dce_spec(qs)[i].rd != name,
{
    let pred = |q: Quad| dce_keeps(qs, q);
    qs.lemma_filter_pred(pred, i);
    assert(pred(dce_spec(qs)[i]));
}

/// Every instruction whose destination is no temporary is left in place
/// by the dead-code pass, read or not.
pub proof fn law_named_destination_is_kept(qs: Seq<Quad>, j: int)
    requires
        0 <= j < qs.len(),
        !is_temp_name(qs[j].rd),
    ensures
        dce_spec(qs).contains(qs[j]),
{
    let pred = |q: Quad| dce_keeps(qs, q);
    assert(pred(qs[j]));
    qs.lemma_filter_contains(pred, j);
}

/// The pass on repeated expressions keeps every destination.
pub proof fn lemma_cse_keeps_destinations(qs: Seq<Quad>, i: int)
    requires
        0 <= i < qs.len(),
    ensures
        cse_spec(qs).len() == qs.len(),
        cse_spec(qs)[i].rd == qs[i].rd,
{
}

/// Every instruction that unrolling puts out is one of its input.
pub proof fn lemma_unroll_copies(qs: Seq<Quad>, from: int, i: int)
    requires
        0 <= from,
        0 <= i < unroll_from(qs, from).len(),
    ensures
        exists|j: int| 0 <= j < qs.len() && unroll_from(qs, from)[i] == qs[j],
    decreases qs.len() - from,
{
    if from < qs.len() {
        match unroll_bound(qs, from) {
            Some(n) => {
                let head = repeated(qs[from + 1], n as nat);
                if i < head.len() {
                    assert(unroll_from(qs, from)[i] == qs[from + 1]);
                } else {
                    lemma_unroll_copies(qs, from + 5, i - head.len());
                    assert(unroll_from(qs, from)[i] == unroll_from(qs, from + 5)[i - head.len()]);
                }
            },
            None => {
                if i == 0 {
                    assert(unroll_from(qs, from)[i] == qs[from]);
                } else {
                    lemma_unroll_copies(qs, from + 1, i - 1);
                    assert(unroll_from(qs, from)[i] == unroll_from(qs, from + 1)[i - 1]);
                }
            },
        }
    }
}

/// A temporary that nothing reads once constants are folded is written
/// nowhere in the optimised list.
pub proof fn law_optimised_code_writes_no_unread_temporary(qs: Seq<Quad>, name: Seq<char>, i: int)
    requires
        is_temp_name(name),
        !names_operand(fold_spec(qs), name),
        0 <= i < optimal_spec(qs).len(),
    ensures
        optimal_spec(qs)[i].rd != name,
{
    let folded = fold_spec(qs);
    let live = dce_spec(folded);
    let shared = cse_spec(live);
    lemma_unroll_copies(shared, 0, i);
    let j = choose|j: int| 0 <= j < shared.len() && unroll_from(shared, 0)[i] == shared[j];
    lemma_cse_keeps_destinations(live, j);
    law_unread_temporary_is_dropped(folded, name, j);
}

/// Of two arithmetic instructions with the same opcode and operands, one
/// right after the other, the second becomes a `MOV` from the destination
/// of the first.
pub proof fn law_repeated_expression_becomes_move(first: Quad, second: Quad)
    requires
        is_arith(first.op),
        same_expr(first, second),
    ensures
        cse_spec(seq![first, second]) == seq![
            first,
            (Quad { op: "MOV"@, src1: first.rd, src2: no_text(), rd: second.rd }),
        ],
{
    let qs = seq![first, second];
    assert(first_same(qs, 0, 0) == 0);
    assert(first_same(qs, 1, 0) == 0);
    assert(cse_spec(qs) =~= seq![
        first,
        (Quad { op: "MOV"@, src1: first.rd, src2: no_text(), rd: second.rd }),
    ]);
}

/// No arithmetic opcode is a control-flow opcode.
pub proof fn lemma_arithmetic_is_no_control_flow(op: Seq<char>)
    requires
        is_arith(op),
    ensures
        !clears_constants(op),
{
    reveal_strlit("+");
    reveal_strlit("-");
    reveal_strlit("*");
    reveal_strlit("/");
    reveal_strlit("JMP");
    reveal_strlit("JZ");
    reveal_strlit("JNZ");
    reveal_strlit("LABEL");
    reveal_strlit("CALL");
    assert(op.len() == 1) by {
        assert("+"@.len() == 1 && "-"@.len() == 1 && "*"@.len() == 1 && "/"@.len() == 1);
    }
    assert("JMP"@.len() == 3 && "JZ"@.len() == 2 && "JNZ"@.len() == 3 && "LABEL"@.len() == 5
        && "CALL"@.len() == 4);
}

/// A chain of literal arithmetic folds to its value: of two arithmetic
/// instructions on decimal literals, the second reading the result of
/// the first, each becomes a `MOV`, and the second `MOV` carries the
/// value of the whole chain.
pub proof fn law_literal_chain_folds(first: Quad, second: Quad, inner: i64, whole: i64)
    requires
        is_arith(first.op),
        is_arith(second.op),
        decimal_i64(first.src1) is Some,
        decimal_i64(first.src2) is Some,
        decimal_i64(second.src1) is Some,
        second.src1 != first.rd,
        second.src2 == first.rd,
        arith_i64(first.op, decimal_i64(first.src1)->0, decimal_i64(first.src2)->0) == Some(inner),
        arith_i64(second.op, decimal_i64(second.src1)->0, inner) == Some(whole),
    ensures
        !fold_faults(seq![first, second]),
        fold_spec(seq![first, second]) == seq![
            (Quad { op: "MOV"@, src1: int_text(inner as int), src2: no_text(), rd: first.rd }),
            (Quad { op: "MOV"@, src1: int_text(whole as int), src2: no_text(), rd: second.rd }),
        ],
{
    let qs = seq![first, second];
    lemma_arithmetic_is_no_control_flow(first.op);
    lemma_arithmetic_is_no_control_flow(second.op);
    law_rendering_reads_back(inner);
    let none = Map::<Seq<char>, Seq<char>>::empty();
    assert(consts_before(qs, 0) == none);
    let step0 = fold_step(none, first);
    assert(resolve(none, first.src1) == first.src1);
    assert(resolve(none, first.src2) == first.src2);
    assert(step0.consts == none.insert(first.rd, int_text(inner as int)));
    assert(consts_before(qs, 1) == fold_step(consts_before(qs, 0), qs[0]).consts);
    let known = consts_before(qs, 1);
    assert(resolve(known, second.src1) == second.src1);
    assert(resolve(known, second.src2) == int_text(inner as int));
    let step1 = fold_step(known, second);
    assert(!step0.fault && !step1.fault);
    assert(fold_spec(qs) =~= seq![step0.out, step1.out]);
}

} // verus!
