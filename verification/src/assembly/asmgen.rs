//! Emission of RISC-V assembly text from a list of quadruples.
//!
//! The list is read once, from left to right. At each `FUNC` the body up
//! to the matching `ENDFUNC` is scanned for names, and each name gets the
//! next register of a fixed pool and the next four bytes of the frame, in
//! the order of first appearance; a name that finds the pool used up gets
//! no register. The places in the frame are only counted: no name is
//! ever stored there. Every instruction of the body
//! then emits its lines at once. Emission fails where it needs the
//! register of a name that has none, and where `FUNC` and `ENDFUNC` do not
//! pair up.

use crate::bindings::Bindings;
use crate::ir::irgen::{quads, IrType, Quad};
use crate::text::{
    is_literal, is_literal_text, nat_text, numbered, push_nat, push_text, texts,
};
use vstd::prelude::*;

verus! {

// ---------------------------------------------------------------------
// Registers and frames
// ---------------------------------------------------------------------

/// The number of registers in the pool.
pub const POOL_SIZE: usize = 17;

/// The registers that names are assigned, in the order of assignment.
pub open spec fn pool() -> Seq<Seq<char>> {
    seq![
        "t2"@,
        "t3"@,
        "t4"@,
        "t5"@,
        "t6"@,
        "s0"@,
        "s1"@,
        "s2"@,
        "s3"@,
        "s4"@,
        "s5"@,
        "s6"@,
        "s7"@,
        "s8"@,
        "s9"@,
        "s10"@,
        "s11"@,
    ]
}

/// The scratch register that a left operand or a condition is brought into.
pub open spec fn scratch_a() -> Seq<char> {
    "t0"@
}

/// The scratch register that a right operand is brought into.
pub open spec fn scratch_b() -> Seq<char> {
    "t1"@
}

/// The scratch register that an arithmetic result is computed in: the
/// last argument register, which stands outside the pool as the other
/// two scratch registers do.
pub open spec fn scratch_c() -> Seq<char> {
    "a7"@
}

/// The register that a function returns its value in.
pub open spec fn return_register() -> Seq<char> {
    "a0"@
}

/// The register of the positional argument number `k`: `a0`, `a1`, ...
pub open spec fn arg_register(k: nat) -> Seq<char> {
    seq!['a'] + nat_text(k)
}

/// The three scratch registers and the return register stand outside
/// the pool: no name is ever kept in one of them.
pub proof fn law_scratch_registers_stand_outside_the_pool(k: int)
    requires
        0 <= k < pool().len(),
    ensures
        pool().len() == 17,
        pool()[k] != scratch_a(),
        pool()[k] != scratch_b(),
        pool()[k] != scratch_c(),
        pool()[k] != return_register(),
{
    reveal_strlit("t0");
    reveal_strlit("t1");
    reveal_strlit("a7");
    reveal_strlit("a0");
    reveal_strlit("t2");
    reveal_strlit("t3");
    reveal_strlit("t4");
    reveal_strlit("t5");
    reveal_strlit("t6");
    reveal_strlit("s0");
    reveal_strlit("s1");
    reveal_strlit("s2");
    reveal_strlit("s3");
    reveal_strlit("s4");
    reveal_strlit("s5");
    reveal_strlit("s6");
    reveal_strlit("s7");
    reveal_strlit("s8");
    reveal_strlit("s9");
    reveal_strlit("s10");
    reveal_strlit("s11");
    let r = pool()[k];
    assert(r.len() >= 2);
    assert(r[0] == 's' || (r[0] == 't' && r[1] != '0' && r[1] != '1'));
    assert("t0"@[0] == 't' && "t0"@[1] == '0');
    assert("t1"@[0] == 't' && "t1"@[1] == '1');
    assert("a7"@[0] == 'a');
    assert("a0"@[0] == 'a');
}

/// `names` with `name` added at the end, if it is a name (neither absent
/// nor a literal) that `names` does not hold yet.
pub open spec fn note_name(names: Seq<Seq<char>>, name: Seq<char>) -> Seq<Seq<char>> {
    if name.len() == 0 || is_literal_text(name) || names.contains(name) {
        names
    } else {
        names.push(name)
    }
}

/// `names` after a visit of `q`: its destination, then its two operands.
pub open spec fn note_quad(names: Seq<Seq<char>>, q: Quad) -> Seq<Seq<char>> {
    note_name(note_name(note_name(names, q.rd), q.src1), q.src2)
}

/// The distinct names of the instructions `from..to` of `qs`, in the
/// order of first appearance.
pub open spec fn scan_names(qs: Seq<Quad>, from: int, to: int) -> Seq<Seq<char>>
    decreases to - from,
{
    if to <= from {
        Seq::empty()
    } else {
        note_quad(scan_names(qs, from, to - 1), qs[to - 1])
    }
}

/// The register map of a function whose names are `names`: the name at
/// position `k` has the register at position `k` of the pool; names past
/// the end of the pool have none.
pub open spec fn regs_of(names: Seq<Seq<char>>) -> Map<Seq<char>, Seq<char>>
    decreases names.len(),
{
    if names.len() == 0 {
        Map::empty()
    } else if names.len() - 1 < pool().len() {
        regs_of(names.drop_last()).insert(names.last(), pool()[names.len() - 1])
    } else {
        regs_of(names.drop_last())
    }
}

/// The place in the frame of the name at position `k`: four bytes for
/// each name before it.
pub open spec fn slot_offset(k: nat) -> nat {
    4 * k
}

/// The size of the frame of a function with `count` names: the place
/// behind the last name, rounded up to a multiple of 16.
pub open spec fn frame_size(count: nat) -> nat {
    ((slot_offset(count) + 15) / 16 * 16) as nat
}

/// Where in a frame of `frame` bytes the return address is kept: in its
/// last word, or at the stack pointer where the frame is empty.
pub open spec fn ra_offset(frame: nat) -> nat {
    if frame >= 4 {
        (frame - 4) as nat
    } else {
        0
    }
}

/// The position of the first `FUNC` or `ENDFUNC` from `from` on, or the
/// length of `qs` if there is none.
pub open spec fn region_end(qs: Seq<Quad>, from: int) -> int
    decreases qs.len() - from,
{
    if from < 0 || from >= qs.len() {
        qs.len() as int
    } else if qs[from].op == "FUNC"@ || qs[from].op == "ENDFUNC"@ {
        from
    } else {
        region_end(qs, from + 1)
    }
}

// ---------------------------------------------------------------------
// Lines
// ---------------------------------------------------------------------

/// The line of a label.
pub open spec fn label_line(name: Seq<char>) -> Seq<char> {
    name + ":\n"@
}

/// The line of an instruction with one operand.
pub open spec fn ins1(m: Seq<char>, a: Seq<char>) -> Seq<char> {
    "    "@ + m + " "@ + a + "\n"@
}

/// The line of an instruction with two operands.
pub open spec fn ins2(m: Seq<char>, a: Seq<char>, b: Seq<char>) -> Seq<char> {
    "    "@ + m + " "@ + a + ", "@ + b + "\n"@
}

/// The line of an instruction with three operands.
pub open spec fn ins3(m: Seq<char>, a: Seq<char>, b: Seq<char>, c: Seq<char>) -> Seq<char> {
    "    "@ + m + " "@ + a + ", "@ + b + ", "@ + c + "\n"@
}

/// The line of a load or store of `ra` at `offset` from the stack pointer.
pub open spec fn ra_line(m: Seq<char>, offset: nat) -> Seq<char> {
    "    "@ + m + " ra, "@ + nat_text(offset) + "(sp)\n"@
}

/// The lines that every program starts with: the text section, and the
/// entry point that sets the stack pointer, calls `main` and traps.
pub open spec fn program_prologue() -> Seq<char> {
    ".section .text\n.globl _start\n_start:\n    li sp, 0x80009000\n    call main\n    ebreak\n"@
}

/// The lines that open a function: its label, the allocation of its
/// frame, and the saving of the return address.
pub open spec fn function_prologue(name: Seq<char>, frame: nat) -> Seq<char> {
    label_line(name) + ins3("addi"@, "sp"@, "sp"@, seq!['-'] + nat_text(frame)) + ra_line(
        "sw"@,
        ra_offset(frame),
    )
}

/// The lines that leave a function: the return address is restored, the
/// frame is released, and control returns.
pub open spec fn function_epilogue(frame: nat) -> Seq<char> {
    ra_line("lw"@, ra_offset(frame)) + ins3("addi"@, "sp"@, "sp"@, nat_text(frame)) + "    ret\n"@
}

/// The lines that bring the operand `x` into the register `target`: a
/// load of the immediate where `x` is a literal; else a move from the
/// register of `x`, which is left out where that register is `target`
/// already. `None` where `x` is a name without a register.
pub open spec fn materialize(regs: Map<Seq<char>, Seq<char>>, x: Seq<char>, target: Seq<char>) -> Option<Seq<char>> {
    if is_literal_text(x) {
        Some(ins2("li"@, target, x))
    } else if regs.contains_key(x) {
        if regs[x] == target {
            Some(Seq::empty())
        } else {
            Some(ins2("mv"@, target, regs[x]))
        }
    } else {
        None
    }
}

/// The mnemonic of an arithmetic opcode.
pub open spec fn mnemonic(op: Seq<char>) -> Seq<char> {
    if op == "+"@ {
        "add"@
    } else if op == "-"@ {
        "sub"@
    } else if op == "*"@ {
        "mul"@
    } else {
        "div"@
    }
}

// ---------------------------------------------------------------------
// The emitter, one instruction at a time
// ---------------------------------------------------------------------

/// The state of the emitter between two instructions.
pub ghost struct EmitState {
    /// The text emitted so far.
    pub text: Seq<char>,
    /// Nothing has failed so far.
    pub ok: bool,
    /// The emitter is between a `FUNC` and its `ENDFUNC`.
    pub in_func: bool,
    /// The register of each name of the current function that has one.
    pub regs: Map<Seq<char>, Seq<char>>,
    /// The names of the current function in the order of their places in
    /// the frame.
    pub slots: Seq<Seq<char>>,
    /// The frame size of the current function.
    pub frame: nat,
    /// The number of `ARG` since the last `CALL` or `FUNC`.
    pub args: nat,
    /// The number of `PARAM` since the last `FUNC`.
    pub params: nat,
    /// The current function has had a `RET`.
    pub returned: bool,
    /// Some function has been left, by `RET` or at its end.
    pub any_return: bool,
    /// The number of labels without a name so far.
    pub labels: nat,
}

/// The state in which emission starts: the program prologue is out.
pub open spec fn start_state() -> EmitState {
    EmitState {
        text: program_prologue(),
        ok: true,
        in_func: false,
        regs: Map::empty(),
        slots: Seq::empty(),
        frame: 0,
        args: 0,
        params: 0,
        returned: false,
        any_return: false,
        labels: 0,
    }
}

/// `st` after a failure.
pub open spec fn failed(st: EmitState) -> EmitState {
    EmitState { ok: false, ..st }
}

/// `st` with `lines` emitted.
pub open spec fn with_text(st: EmitState, lines: Seq<char>) -> EmitState {
    EmitState { text: st.text + lines, ..st }
}

/// `FUNC` at position `i`: the body must end in an `ENDFUNC` before any
/// other `FUNC`. Its names are scanned and given registers and places in
/// the frame, and the function prologue is emitted.
pub open spec fn step_func(st: EmitState, qs: Seq<Quad>, i: int) -> EmitState {
    let end = region_end(qs, i + 1);
    if st.in_func || end >= qs.len() || qs[end].op != "ENDFUNC"@ {
        failed(st)
    } else {
        let names = scan_names(qs, i + 1, end);
        EmitState {
            text: st.text + function_prologue(qs[i].src1, frame_size(names.len())),
            in_func: true,
            regs: regs_of(names),
            slots: names,
            frame: frame_size(names.len()),
            args: 0,
            params: 0,
            returned: false,
            ..st
        }
    }
}

/// `ENDFUNC`: a function that has had no `RET` gets its epilogue here;
/// the register map and the places in the frame are dropped.
pub open spec fn step_endfunc(st: EmitState) -> EmitState {
    if !st.in_func {
        failed(st)
    } else {
        EmitState {
            text: if st.returned {
                st.text
            } else {
                st.text + function_epilogue(st.frame)
            },
            in_func: false,
            regs: Map::empty(),
            slots: Seq::empty(),
            any_return: true,
            ..st
        }
    }
}

/// `PARAM`: the incoming argument register is moved into the register of
/// the parameter, unless they are the same.
pub open spec fn step_param(st: EmitState, q: Quad) -> EmitState {
    if !st.regs.contains_key(q.src1) {
        failed(st)
    } else {
        let r = st.regs[q.src1];
        let a = arg_register(st.params);
        EmitState {
            text: if r == a {
                st.text
            } else {
                st.text + ins2("mv"@, r, a)
            },
            params: st.params + 1,
            ..st
        }
    }
}

/// `MOV`: the source is brought into the register of the destination.
pub open spec fn step_mov(st: EmitState, q: Quad) -> EmitState {
    if !st.regs.contains_key(q.rd) {
        failed(st)
    } else if is_literal_text(q.src1) {
        with_text(st, ins2("li"@, st.regs[q.rd], q.src1))
    } else if st.regs.contains_key(q.src1) {
        with_text(st, ins2("mv"@, st.regs[q.rd], st.regs[q.src1]))
    } else {
        failed(st)
    }
}

/// `=`: a move from the register of the source to that of the destination.
pub open spec fn step_assign(st: EmitState, q: Quad) -> EmitState {
    if st.regs.contains_key(q.rd) && st.regs.contains_key(q.src1) {
        with_text(st, ins2("mv"@, st.regs[q.rd], st.regs[q.src1]))
    } else {
        failed(st)
    }
}

/// Arithmetic: the left operand is brought into scratch A and the right
/// one into scratch B; the result is computed in scratch C and moved to
/// the register of the destination. Where that register is scratch B
/// itself, the result is computed there directly.
pub open spec fn step_arith(st: EmitState, q: Quad) -> EmitState {
    let left = materialize(st.regs, q.src1, scratch_a());
    let right = materialize(st.regs, q.src2, scratch_b());
    if !st.regs.contains_key(q.rd) || left is None || right is None {
        failed(st)
    } else if st.regs[q.rd] == scratch_b() {
        EmitState {
            text: st.text + left->0 + right->0 + ins3(
                mnemonic(q.op),
                scratch_b(),
                scratch_a(),
                scratch_b(),
            ),
            ..st
        }
    } else {
        EmitState {
            text: st.text + left->0 + right->0 + ins3(
                mnemonic(q.op),
                scratch_c(),
                scratch_a(),
                scratch_b(),
            ) + ins2("mv"@, st.regs[q.rd], scratch_c()),
            ..st
        }
    }
}

/// `<`: the destination is set to whether the left operand, a name, is
/// less than the right one, an immediate or a name.
pub open spec fn step_less(st: EmitState, q: Quad) -> EmitState {
    if !st.regs.contains_key(q.rd) || !st.regs.contains_key(q.src1) {
        failed(st)
    } else if is_literal_text(q.src2) {
        with_text(st, ins3("slti"@, st.regs[q.rd], st.regs[q.src1], q.src2))
    } else if st.regs.contains_key(q.src2) {
        with_text(st, ins3("slt"@, st.regs[q.rd], st.regs[q.src1], st.regs[q.src2]))
    } else {
        failed(st)
    }
}

/// `RET`: the value, if there is one, is brought into the return
/// register; then the function epilogue.
pub open spec fn step_ret(st: EmitState, q: Quad) -> EmitState {
    let value = if q.src1.len() == 0 {
        Some(Seq::<char>::empty())
    } else {
        materialize(st.regs, q.src1, return_register())
    };
    if value is None {
        failed(st)
    } else {
        EmitState {
            text: st.text + value->0 + function_epilogue(st.frame),
            returned: true,
            any_return: true,
            ..st
        }
    }
}

/// `LABEL`: the label on a line of its own. A label without a name is
/// given the next name of the form `.L0`, `.L1`, ...
pub open spec fn step_label(st: EmitState, q: Quad) -> EmitState {
    if q.src1.len() > 0 {
        with_text(st, label_line(q.src1))
    } else {
        EmitState {
            text: st.text + label_line(".L"@ + nat_text(st.labels)),
            labels: st.labels + 1,
            ..st
        }
    }
}

/// `JZ` and `JNZ`: the condition is brought into scratch A, and the
/// branch `branch` on it goes to the target.
pub open spec fn step_branch(st: EmitState, q: Quad, branch: Seq<char>) -> EmitState {
    let cond = materialize(st.regs, q.src1, scratch_a());
    if cond is None {
        failed(st)
    } else {
        EmitState { text: st.text + cond->0 + ins2(branch, scratch_a(), q.rd), ..st }
    }
}

/// `ARG`: the value is brought into the next argument register.
pub open spec fn step_arg(st: EmitState, q: Quad) -> EmitState {
    let value = materialize(st.regs, q.src1, arg_register(st.args));
    if value is None {
        failed(st)
    } else {
        EmitState { text: st.text + value->0, args: st.args + 1, ..st }
    }
}

/// `CALL`: the call, then a move of the return register into the
/// register of the destination, if there is a destination. The count of
/// arguments starts again.
pub open spec fn step_call(st: EmitState, q: Quad) -> EmitState {
    if q.rd.len() == 0 {
        EmitState { text: st.text + ins1("call"@, q.src1), args: 0, ..st }
    } else if st.regs.contains_key(q.rd) {
        EmitState {
            text: st.text + ins1("call"@, q.src1) + ins2("mv"@, st.regs[q.rd], return_register()),
            args: 0,
            ..st
        }
    } else {
        failed(st)
    }
}

/// The step of an instruction inside a function, by its opcode. An
/// opcode that is none of those above emits nothing.
pub open spec fn step_inside(st: EmitState, q: Quad) -> EmitState {
    if q.op == "PARAM"@ {
        step_param(st, q)
    } else if q.op == "MOV"@ {
        step_mov(st, q)
    } else if q.op == "+"@ || q.op == "-"@ || q.op == "*"@ || q.op == "/"@ {
        step_arith(st, q)
    } else if q.op == "RET"@ {
        step_ret(st, q)
    } else if q.op == "LABEL"@ {
        step_label(st, q)
    } else if q.op == "JMP"@ {
        with_text(st, ins1("j"@, q.rd))
    } else if q.op == "JZ"@ {
        step_branch(st, q, "beqz"@)
    } else if q.op == "JNZ"@ {
        step_branch(st, q, "bnez"@)
    } else if q.op == "ARG"@ {
        step_arg(st, q)
    } else if q.op == "CALL"@ {
        step_call(st, q)
    } else if q.op == "<"@ {
        step_less(st, q)
    } else if q.op == "="@ {
        step_assign(st, q)
    } else {
        st
    }
}

/// The step of the emitter at instruction `i` of `qs`. After a failure
/// nothing changes any more. Outside a function only `FUNC` and `ENDFUNC`
/// count; any other instruction there is passed over.
pub open spec fn emit_step(st: EmitState, qs: Seq<Quad>, i: int) -> EmitState {
    if !st.ok {
        st
    } else if qs[i].op == "FUNC"@ {
        step_func(st, qs, i)
    } else if qs[i].op == "ENDFUNC"@ {
        step_endfunc(st)
    } else if st.in_func {
        step_inside(st, qs[i])
    } else {
        st
    }
}

/// The state of the emitter after the first `n` instructions of `qs`.
pub open spec fn emit_upto(qs: Seq<Quad>, n: int) -> EmitState
    decreases n,
{
    if n <= 0 {
        start_state()
    } else {
        emit_step(emit_upto(qs, n - 1), qs, n - 1)
    }
}

/// Emission succeeds on `qs`: every `FUNC` has its `ENDFUNC`, no
/// `ENDFUNC` stands alone, and every name whose register is needed has
/// one.
pub open spec fn emittable(qs: Seq<Quad>) -> bool {
    emit_upto(qs, qs.len() as int).ok
}

/// The assembly text of `qs`: what the emitter has put out at the end,
/// and one more `ret` where no function was ever left.
pub open spec fn asm_spec(qs: Seq<Quad>) -> Seq<char> {
    let end = emit_upto(qs, qs.len() as int);
    if end.any_return {
        end.text
    } else {
        end.text + "    ret\n"@
    }
}

/// Once the emitter has failed it stays failed.
pub proof fn lemma_failure_stays(qs: Seq<Quad>, k: int, n: int)
    requires
        0 <= k <= n,
        !emit_upto(qs, k).ok,
    ensures
        !emit_upto(qs, n).ok,
    decreases n - k,
{
    if k < n {
        lemma_failure_stays(qs, k, n - 1);
    }
}

// ---------------------------------------------------------------------
// Executable helpers
// ---------------------------------------------------------------------

fn pool_register(k: usize) -> (r: &'static str)
    requires
        k < POOL_SIZE,
    ensures
        r@ == pool()[k as int],
{
    if k == 0 {
        "t2"
    } else if k == 1 {
        "t3"
    } else if k == 2 {
        "t4"
    } else if k == 3 {
        "t5"
    } else if k == 4 {
        "t6"
    } else if k == 5 {
        "s0"
    } else if k == 6 {
        "s1"
    } else if k == 7 {
        "s2"
    } else if k == 8 {
        "s3"
    } else if k == 9 {
        "s4"
    } else if k == 10 {
        "s5"
    } else if k == 11 {
        "s6"
    } else if k == 12 {
        "s7"
    } else if k == 13 {
        "s8"
    } else if k == 14 {
        "s9"
    } else if k == 15 {
        "s10"
    } else {
        "s11"
    }
}

fn has_name(names: &Vec<String>, name: &str) -> (r: bool)
    ensures
        r == texts(names@).contains(name@),
{
    let mut i: usize = 0;
    while i < names.len()
        invariant
            i <= names.len(),
            forall|k: int| 0 <= k < i ==> texts(names@)[k] != name@,
        decreases names.len() - i,
    {
        assert(texts(names@)[i as int] == names[i as int]@);
        if *names[i].as_str() == *name {
            return true;
        }
        i += 1;
    }
    false
}

fn note(names: &mut Vec<String>, regs: &mut Bindings, name: &String)
    requires
        old(regs)@ == regs_of(texts(old(names)@)),
    ensures
        texts(final(names)@) == note_name(texts(old(names)@), name@),
        final(regs)@ == regs_of(texts(final(names)@)),
{
    let text = name.as_str();
    if text.unicode_len() == 0 || is_literal(text) || has_name(names, text) {
        return ;
    }
    let k = names.len();
    if k < POOL_SIZE {
        regs.insert(name.clone(), pool_register(k).to_owned());
    }
    names.push(name.clone());
    proof {
        assert(texts(names@) =~= texts(old(names)@).push(name@));
        assert(texts(names@).drop_last() =~= texts(old(names)@));
    }
}

fn scan(irs: &[IrType], from: usize, to: usize) -> (r: (Vec<String>, Bindings))
    requires
        from <= to <= irs.len(),
    ensures
        texts(r.0@) == scan_names(quads(irs@), from as int, to as int),
        r.1@ == regs_of(texts(r.0@)),
{
    let ghost qs = quads(irs@);
    let mut names: Vec<String> = Vec::new();
    let mut regs = Bindings::new();
    let mut j: usize = from;
    assert(texts(names@) =~= scan_names(qs, from as int, from as int));
    while j < to
        invariant
            from <= j <= to <= irs.len(),
            qs == quads(irs@),
            texts(names@) == scan_names(qs, from as int, j as int),
            regs@ == regs_of(texts(names@)),
        decreases to - j,
    {
        assert(qs[j as int] == irs[j as int]@);
        note(&mut names, &mut regs, &irs[j].rd);
        note(&mut names, &mut regs, &irs[j].src1);
        note(&mut names, &mut regs, &irs[j].src2);
        j += 1;
    }
    (names, regs)
}

fn find_region_end(irs: &[IrType], from: usize) -> (r: usize)
    requires
        from <= irs.len(),
    ensures
        r == region_end(quads(irs@), from as int),
        from <= r <= irs.len(),
{
    let ghost qs = quads(irs@);
    let mut j: usize = from;
    while j < irs.len()
        invariant
            from <= j <= irs.len(),
            qs == quads(irs@),
            region_end(qs, from as int) == region_end(qs, j as int),
        decreases irs.len() - j,
    {
        assert(qs[j as int] == irs[j as int]@);
        if *irs[j].op.as_str() == *"FUNC" || *irs[j].op.as_str() == *"ENDFUNC" {
            return j;
        }
        j += 1;
    }
    j
}

fn push_label(out: &mut String, name: &str)
    ensures
        final(out)@ == old(out)@ + label_line(name@),
{
    push_text(out, name);
    push_text(out, ":\n");
    assert(out@ =~= old(out)@ + label_line(name@));
}

fn push_ins1(out: &mut String, m: &str, a: &str)
    ensures
        final(out)@ == old(out)@ + ins1(m@, a@),
{
    push_text(out, "    ");
    push_text(out, m);
    push_text(out, " ");
    push_text(out, a);
    push_text(out, "\n");
    assert(out@ =~= old(out)@ + ins1(m@, a@));
}

fn push_ins2(out: &mut String, m: &str, a: &str, b: &str)
    ensures
        final(out)@ == old(out)@ + ins2(m@, a@, b@),
{
    push_text(out, "    ");
    push_text(out, m);
    push_text(out, " ");
    push_text(out, a);
    push_text(out, ", ");
    push_text(out, b);
    push_text(out, "\n");
    assert(out@ =~= old(out)@ + ins2(m@, a@, b@));
}

fn push_ins3(out: &mut String, m: &str, a: &str, b: &str, c: &str)
    ensures
        final(out)@ == old(out)@ + ins3(m@, a@, b@, c@),
{
    push_text(out, "    ");
    push_text(out, m);
    push_text(out, " ");
    push_text(out, a);
    push_text(out, ", ");
    push_text(out, b);
    push_text(out, ", ");
    push_text(out, c);
    push_text(out, "\n");
    assert(out@ =~= old(out)@ + ins3(m@, a@, b@, c@));
}

fn push_ra_line(out: &mut String, m: &str, offset: u128)
    ensures
        final(out)@ == old(out)@ + ra_line(m@, offset as nat),
{
    push_text(out, "    ");
    push_text(out, m);
    push_text(out, " ra, ");
    push_nat(out, offset);
    push_text(out, "(sp)\n");
    assert(out@ =~= old(out)@ + ra_line(m@, offset as nat));
}

fn ra_slot(frame: u128) -> (r: u128)
    ensures
        r == ra_offset(frame as nat),
{
    if frame >= 4 {
        frame - 4
    } else {
        0
    }
}

fn push_prologue(out: &mut String, name: &str, frame: u128)
    ensures
        final(out)@ == old(out)@ + function_prologue(name@, frame as nat),
{
    push_label(out, name);
    let size = numbered('-', frame);
    push_ins3(out, "addi", "sp", "sp", size.as_str());
    push_ra_line(out, "sw", ra_slot(frame));
    assert(out@ =~= old(out)@ + function_prologue(name@, frame as nat));
}

fn push_epilogue(out: &mut String, frame: u128)
    ensures
        final(out)@ == old(out)@ + function_epilogue(frame as nat),
{
    push_ra_line(out, "lw", ra_slot(frame));
    let size = crate::text::nat_to_string(frame);
    push_ins3(out, "addi", "sp", "sp", size.as_str());
    push_text(out, "    ret\n");
    assert(out@ =~= old(out)@ + function_epilogue(frame as nat));
}

fn mnemonic_of(op: &str) -> (r: &'static str)
    ensures
        r@ == mnemonic(op@),
{
    if *op == *"+" {
        "add"
    } else if *op == *"-" {
        "sub"
    } else if *op == *"*" {
        "mul"
    } else {
        "div"
    }
}

// ---------------------------------------------------------------------
// The executable emitter
// ---------------------------------------------------------------------

struct Emitter {
    out: String,
    regs: Bindings,
    slots: Vec<String>,
    in_func: bool,
    frame: u128,
    args: usize,
    params: usize,
    returned: bool,
    any_return: bool,
    labels: usize,
}

impl Emitter {
    spec fn state(&self) -> EmitState {
        EmitState {
            text: self.out@,
            ok: true,
            in_func: self.in_func,
            regs: self.regs@,
            slots: texts(self.slots@),
            frame: self.frame as nat,
            args: self.args as nat,
            params: self.params as nat,
            returned: self.returned,
            any_return: self.any_return,
            labels: self.labels as nat,
        }
    }

    spec fn counters_within(&self, limit: nat) -> bool {
        self.args <= limit && self.params <= limit && self.labels <= limit
    }

    fn start() -> (r: Emitter)
        ensures
            r.state() == start_state(),
            r.counters_within(0),
    {
        let mut out = String::new();
        push_text(
            &mut out,
            ".section .text\n.globl _start\n_start:\n    li sp, 0x80009000\n    call main\n    ebreak\n",
        );
        assert(out@ =~= program_prologue());
        assert(texts(Seq::<String>::empty()) =~= Seq::<Seq<char>>::empty());
        Emitter {
            out,
            regs: Bindings::new(),
            slots: Vec::new(),
            in_func: false,
            frame: 0,
            args: 0,
            params: 0,
            returned: false,
            any_return: false,
            labels: 0,
        }
    }

    fn register(&self, name: &str) -> (r: Option<String>)
        ensures
            r is Some <==> self.regs@.contains_key(name@),
            r is Some ==> r->0@ == self.regs@[name@],
    {
        match self.regs.get(name) {
            Some(reg) => Some(reg.clone()),
            None => None,
        }
    }

    fn bring(&mut self, x: &str, target: &str) -> (ok: bool)
        ensures
            ok == (materialize(old(self).regs@, x@, target@) is Some),
            ok ==> final(self).state() == with_text(
                old(self).state(),
                materialize(old(self).regs@, x@, target@)->0,
            ),
    {
        if is_literal(x) {
            push_ins2(&mut self.out, "li", target, x);
            true
        } else {
            match self.register(x) {
                Some(reg) => {
                    if *reg.as_str() == *target {
                        assert(self.out@ + Seq::<char>::empty() =~= self.out@);
                    } else {
                        push_ins2(&mut self.out, "mv", target, reg.as_str());
                    }
                    true
                },
                None => false,
            }
        }
    }

    fn enter(&mut self, irs: &[IrType], i: usize) -> (ok: bool)
        requires
            i < irs.len(),
        ensures
            ok == step_func(old(self).state(), quads(irs@), i as int).ok,
            ok ==> final(self).state() == step_func(old(self).state(), quads(irs@), i as int),
            ok ==> final(self).args == 0 && final(self).params == 0 && final(self).labels == old(
                self,
            ).labels,
    {
        let ghost qs = quads(irs@);
        if self.in_func {
            return false;
        }
        let end = find_region_end(irs, i + 1);
        if end >= irs.len() {
            return false;
        }
        assert(qs[end as int] == irs[end as int]@);
        assert(qs[i as int] == irs[i as int]@);
        if !(*irs[end].op.as_str() == *"ENDFUNC") {
            return false;
        }
        let (names, regs) = scan(irs, i + 1, end);
        let count = names.len() as u128;
        let frame: u128 = (4 * count + 15) / 16 * 16;
        push_prologue(&mut self.out, irs[i].src1.as_str(), frame);
        self.in_func = true;
        self.regs = regs;
        self.slots = names;
        self.frame = frame;
        self.args = 0;
        self.params = 0;
        self.returned = false;
        true
    }

    fn leave(&mut self) -> (ok: bool)
        ensures
            ok == step_endfunc(old(self).state()).ok,
            ok ==> final(self).state() == step_endfunc(old(self).state()),
            ok ==> final(self).args == old(self).args && final(self).params == old(self).params
                && final(self).labels == old(self).labels,
    {
        if !self.in_func {
            return false;
        }
        if !self.returned {
            push_epilogue(&mut self.out, self.frame);
        }
        self.in_func = false;
        self.regs = Bindings::new();
        self.slots = Vec::new();
        assert(texts(self.slots@) =~= Seq::<Seq<char>>::empty());
        self.any_return = true;
        true
    }

    fn param(&mut self, ir: &IrType) -> (ok: bool)
        requires
            old(self).params < usize::MAX,
        ensures
            ok == step_param(old(self).state(), ir@).ok,
            ok ==> final(self).state() == step_param(old(self).state(), ir@),
    {
        match self.register(ir.src1.as_str()) {
            Some(reg) => {
                let incoming = numbered('a', self.params as u128);
                if !(*reg.as_str() == *incoming.as_str()) {
                    push_ins2(&mut self.out, "mv", reg.as_str(), incoming.as_str());
                }
                self.params = self.params + 1;
                true
            },
            None => false,
        }
    }

    fn mov(&mut self, ir: &IrType) -> (ok: bool)
        ensures
            ok == step_mov(old(self).state(), ir@).ok,
            ok ==> final(self).state() == step_mov(old(self).state(), ir@),
    {
        let dst = match self.register(ir.rd.as_str()) {
            Some(reg) => reg,
            None => {
                return false;
            },
        };
        if is_literal(ir.src1.as_str()) {
            push_ins2(&mut self.out, "li", dst.as_str(), ir.src1.as_str());
            true
        } else {
            match self.register(ir.src1.as_str()) {
                Some(src) => {
                    push_ins2(&mut self.out, "mv", dst.as_str(), src.as_str());
                    true
                },
                None => false,
            }
        }
    }

    fn assign(&mut self, ir: &IrType) -> (ok: bool)
        ensures
            ok == step_assign(old(self).state(), ir@).ok,
            ok ==> final(self).state() == step_assign(old(self).state(), ir@),
    {
        let dst = match self.register(ir.rd.as_str()) {
            Some(reg) => reg,
            None => {
                return false;
            },
        };
        match self.register(ir.src1.as_str()) {
            Some(src) => {
                push_ins2(&mut self.out, "mv", dst.as_str(), src.as_str());
                true
            },
            None => false,
        }
    }

    fn arith(&mut self, ir: &IrType) -> (ok: bool)
        ensures
            ok == step_arith(old(self).state(), ir@).ok,
            ok ==> final(self).state() == step_arith(old(self).state(), ir@),
    {
        let dst = match self.register(ir.rd.as_str()) {
            Some(reg) => reg,
            None => {
                return false;
            },
        };
        if !self.bring(ir.src1.as_str(), "t0") {
            return false;
        }
        if !self.bring(ir.src2.as_str(), "t1") {
            return false;
        }
        let m = mnemonic_of(ir.op.as_str());
        if *dst.as_str() == *"t1" {
            push_ins3(&mut self.out, m, "t1", "t0", "t1");
        } else {
            push_ins3(&mut self.out, m, "a7", "t0", "t1");
            push_ins2(&mut self.out, "mv", dst.as_str(), "a7");
        }
        true
    }

    fn less(&mut self, ir: &IrType) -> (ok: bool)
        ensures
            ok == step_less(old(self).state(), ir@).ok,
            ok ==> final(self).state() == step_less(old(self).state(), ir@),
    {
        let dst = match self.register(ir.rd.as_str()) {
            Some(reg) => reg,
            None => {
                return false;
            },
        };
        let left = match self.register(ir.src1.as_str()) {
            Some(reg) => reg,
            None => {
                return false;
            },
        };
        if is_literal(ir.src2.as_str()) {
            push_ins3(&mut self.out, "slti", dst.as_str(), left.as_str(), ir.src2.as_str());
            true
        } else {
            match self.register(ir.src2.as_str()) {
                Some(right) => {
                    push_ins3(&mut self.out, "slt", dst.as_str(), left.as_str(), right.as_str());
                    true
                },
                None => false,
            }
        }
    }

    fn ret(&mut self, ir: &IrType) -> (ok: bool)
        ensures
            ok == step_ret(old(self).state(), ir@).ok,
            ok ==> final(self).state() == step_ret(old(self).state(), ir@),
    {
        if ir.src1.as_str().unicode_len() > 0 {
            if !self.bring(ir.src1.as_str(), "a0") {
                return false;
            }
        } else {
            assert(self.out@ + Seq::<char>::empty() =~= self.out@);
        }
        push_epilogue(&mut self.out, self.frame);
        self.returned = true;
        self.any_return = true;
        true
    }

    fn label(&mut self, ir: &IrType)
        requires
            old(self).labels < usize::MAX,
        ensures
            final(self).state() == step_label(old(self).state(), ir@),
    {
        if ir.src1.as_str().unicode_len() > 0 {
            push_label(&mut self.out, ir.src1.as_str());
        } else {
            let mut name = String::new();
            push_text(&mut name, ".L");
            push_nat(&mut name, self.labels as u128);
            assert(name@ =~= ".L"@ + nat_text(self.labels as nat));
            push_label(&mut self.out, name.as_str());
            self.labels = self.labels + 1;
        }
    }

    fn branch(&mut self, ir: &IrType, m: &str) -> (ok: bool)
        ensures
            ok == step_branch(old(self).state(), ir@, m@).ok,
            ok ==> final(self).state() == step_branch(old(self).state(), ir@, m@),
    {
        if !self.bring(ir.src1.as_str(), "t0") {
            return false;
        }
        push_ins2(&mut self.out, m, "t0", ir.rd.as_str());
        true
    }

    fn arg(&mut self, ir: &IrType) -> (ok: bool)
        requires
            old(self).args < usize::MAX,
        ensures
            ok == step_arg(old(self).state(), ir@).ok,
            ok ==> final(self).state() == step_arg(old(self).state(), ir@),
    {
        let target = numbered('a', self.args as u128);
        if !self.bring(ir.src1.as_str(), target.as_str()) {
            return false;
        }
        self.args = self.args + 1;
        true
    }

    fn call(&mut self, ir: &IrType) -> (ok: bool)
        ensures
            ok == step_call(old(self).state(), ir@).ok,
            ok ==> final(self).state() == step_call(old(self).state(), ir@),
    {
        if ir.rd.as_str().unicode_len() == 0 {
            push_ins1(&mut self.out, "call", ir.src1.as_str());
            self.args = 0;
            true
        } else {
            match self.register(ir.rd.as_str()) {
                Some(dst) => {
                    push_ins1(&mut self.out, "call", ir.src1.as_str());
                    push_ins2(&mut self.out, "mv", dst.as_str(), "a0");
                    self.args = 0;
                    true
                },
                None => false,
            }
        }
    }

    fn inside(&mut self, ir: &IrType) -> (ok: bool)
        requires
            old(self).args < usize::MAX,
            old(self).params < usize::MAX,
            old(self).labels < usize::MAX,
        ensures
            ok == step_inside(old(self).state(), ir@).ok,
            ok ==> final(self).state() == step_inside(old(self).state(), ir@),
            ok ==> final(self).args <= old(self).args + 1 && final(self).params <= old(self).params
                + 1 && final(self).labels <= old(self).labels + 1,
    {
        let op = ir.op.as_str();
        if *op == *"PARAM" {
            self.param(ir)
        } else if *op == *"MOV" {
            self.mov(ir)
        } else if *op == *"+" || *op == *"-" || *op == *"*" || *op == *"/" {
            self.arith(ir)
        } else if *op == *"RET" {
            self.ret(ir)
        } else if *op == *"LABEL" {
            self.label(ir);
            true
        } else if *op == *"JMP" {
            push_ins1(&mut self.out, "j", ir.rd.as_str());
            true
        } else if *op == *"JZ" {
            self.branch(ir, "beqz")
        } else if *op == *"JNZ" {
            self.branch(ir, "bnez")
        } else if *op == *"ARG" {
            self.arg(ir)
        } else if *op == *"CALL" {
            self.call(ir)
        } else if *op == *"<" {
            self.less(ir)
        } else if *op == *"=" {
            self.assign(ir)
        } else {
            true
        }
    }
}

/// The assembly text of `irs`. `None` exactly where emission fails: a
/// `FUNC` without its `ENDFUNC` or the reverse, or a name whose register
/// is needed and that has none.
pub fn try_asm_gen(irs: &[IrType]) -> (r: Option<String>)
    ensures
        r is Some <==> emittable(quads(irs@)),
        r is Some ==> r->0@ == asm_spec(quads(irs@)),
{
    let ghost qs = quads(irs@);
    let mut em = Emitter::start();
    let n = irs.len();
    let mut i: usize = 0;
    while i < n
        invariant
            i <= n,
            n == irs.len(),
            qs == quads(irs@),
            em.state() == emit_upto(qs, i as int),
            em.counters_within(i as nat),
        decreases n - i,
    {
        let ir = &irs[i];
        assert(qs[i as int] == ir@);
        let ok = if *ir.op.as_str() == *"FUNC" {
            em.enter(irs, i)
        } else if *ir.op.as_str() == *"ENDFUNC" {
            em.leave()
        } else if em.in_func {
            em.inside(ir)
        } else {
            true
        };
        if !ok {
            proof {
                lemma_failure_stays(qs, i + 1, n as int);
            }
            return None;
        }
        i += 1;
    }
    if !em.any_return {
        push_text(&mut em.out, "    ret\n");
    }
    Some(em.out)
}

/// The assembly text of `irs`, for a list on which emission succeeds.
pub fn asm_gen(irs: &[IrType]) -> (r: String)
    requires
        emittable(quads(irs@)),
    ensures
        r@ == asm_spec(quads(irs@)),
{
    match try_asm_gen(irs) {
        Some(r) => r,
        None => vstd::pervasive::unreached(),
    }
}

// ---------------------------------------------------------------------
// Names without a register
// ---------------------------------------------------------------------

/// The names of `names` past the end of the pool.
pub open spec fn beyond_pool(names: Seq<Seq<char>>) -> Seq<Seq<char>> {
    if names.len() <= pool().len() {
        Seq::empty()
    } else {
        names.skip(pool().len() as int)
    }
}

/// The names of the functions that begin at position `i` of `qs` or
/// later which found the pool used up, function by function, each in the
/// order of first appearance.
pub open spec fn unassigned_from(qs: Seq<Quad>, i: int) -> Seq<Seq<char>>
    decreases qs.len() - i,
{
    if i < 0 || i >= qs.len() {
        Seq::empty()
    } else if qs[i].op == "FUNC"@ {
        beyond_pool(scan_names(qs, i + 1, region_end(qs, i + 1))) + unassigned_from(qs, i + 1)
    } else {
        unassigned_from(qs, i + 1)
    }
}

/// The names of `irs` that get no register because the pool is used up
/// when they first appear. Emission fails only where one of them is
/// needed in a register.
pub fn unassigned_names(irs: &[IrType]) -> (r: Vec<String>)
    ensures
        texts(r@) == unassigned_from(quads(irs@), 0),
{
    let ghost qs = quads(irs@);
    let mut out: Vec<String> = Vec::new();
    let mut i: usize = 0;
    assert(texts(out@) + unassigned_from(qs, 0) =~= unassigned_from(qs, 0));
    while i < irs.len()
        invariant
            i <= irs.len(),
            qs == quads(irs@),
            texts(out@) + unassigned_from(qs, i as int) == unassigned_from(qs, 0),
        decreases irs.len() - i,
    {
        assert(qs[i as int] == irs[i as int]@);
        let ghost before = texts(out@);
        if *irs[i].op.as_str() == *"FUNC" {
            let end = find_region_end(irs, i + 1);
            let (names, _) = scan(irs, i + 1, end);
            let mut k: usize = POOL_SIZE;
            let ghost all = texts(names@);
            assert(before + all.skip(17).take(0) =~= before);
            while k < names.len()
                invariant
                    17 <= k,
                    all == texts(names@),
                    k <= names.len() || names.len() < 17,
                    names.len() >= 17 ==> texts(out@) == before + all.skip(17).take(k - 17),
                    names.len() < 17 ==> texts(out@) == before,
                decreases names.len() - k,
            {
                let ghost seen = texts(out@);
                out.push(names[k].clone());
                assert(texts(out@) =~= seen.push(names[k as int]@));
                k += 1;
                assert(all.skip(17).take(k - 17) =~= all.skip(17).take(k - 18).push(all[k - 1]));
            }
            proof {
                assert(pool().len() == 17);
                if names.len() >= 17 {
                    assert(all.skip(17).take(names.len() - 17) =~= all.skip(17));
                    assert(beyond_pool(all) =~= all.skip(17));
                } else {
                    assert(before + beyond_pool(all) =~= before);
                }
                assert(texts(out@) + unassigned_from(qs, i + 1) =~= before + (beyond_pool(all)
                    + unassigned_from(qs, i + 1)));
            }
        }
        i += 1;
    }
    assert(texts(out@) + unassigned_from(qs, irs.len() as int) =~= texts(out@));
    out
}

/// An `ARG` with the given value.
pub open spec fn arg_quad(value: Seq<char>) -> Quad {
    Quad { op: "ARG"@, src1: value, src2: Seq::empty(), rd: Seq::empty() }
}

/// Three `ARG` right before a `CALL` bring their values into the first
/// three argument registers, in their order, before the call is made;
/// after the call the count of arguments starts again.
pub proof fn law_three_arguments_fill_the_first_three_registers(
    st: EmitState,
    first: Seq<char>,
    second: Seq<char>,
    third: Seq<char>,
    callee: Seq<char>,
)
    requires
        st.ok,
        st.args == 0,
        materialize(st.regs, first, arg_register(0)) is Some,
        materialize(st.regs, second, arg_register(1)) is Some,
        materialize(st.regs, third, arg_register(2)) is Some,
    ensures
        ({
            let ready = step_arg(step_arg(step_arg(st, arg_quad(first)), arg_quad(second)), arg_quad(third));
            let called = step_call(
                ready,
                (Quad { op: "CALL"@, src1: callee, src2: "3"@, rd: Seq::empty() }),
            );
            &&& ready.ok
            &&& ready.text == st.text + materialize(st.regs, first, arg_register(0))->0
                + materialize(st.regs, second, arg_register(1))->0 + materialize(
                st.regs,
                third,
                arg_register(2),
            )->0
            &&& called.text == ready.text + ins1("call"@, callee)
            &&& called.args == 0
        }),
{
}

} // verus!
