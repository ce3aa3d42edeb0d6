//! The quadruple, the unit of the intermediate representation, and the
//! lowering of a syntax tree to a flat list of quadruples.
//!
//! Lowering walks the tree once. Each node emits instructions and may
//! yield the name that holds its value. Temporaries and labels are named
//! from two counters that only grow.

use crate::ast::types::{decls_view, nodes_view, ASTNode, DeclV, Tree, VarDec};
use crate::ir::optimal::{fold_faults, optimal_spec, try_optimal};
use crate::text::{nat_text, nat_to_string, numbered};
use vstd::prelude::*;

verus! {

/// One instruction: an opcode, two operands and a destination, all text.
/// The empty text stands for an absent operand.
#[derive(Debug, PartialEq, Eq)]
pub struct IrType {
    pub op: String,
    pub src1: String,
    pub src2: String,
    pub rd: String,
}

/// The mathematical value of an instruction: its four texts.
pub ghost struct Quad {
    pub op: Seq<char>,
    pub src1: Seq<char>,
    pub src2: Seq<char>,
    pub rd: Seq<char>,
}

impl View for IrType {
    type V = Quad;

    open spec fn view(&self) -> Quad {
        Quad { op: self.op@, src1: self.src1@, src2: self.src2@, rd: self.rd@ }
    }
}

impl Clone for IrType {
    fn clone(&self) -> (r: Self)
        ensures
            r == *self,
    {
        IrType {
            op: self.op.clone(),
            src1: self.src1.clone(),
            src2: self.src2.clone(),
            rd: self.rd.clone(),
        }
    }
}

/// The values of a list of instructions, in order.
pub open spec fn quads(irs: Seq<IrType>) -> Seq<Quad> {
    irs.map_values(|ir: IrType| ir@)
}

/// The empty text.
pub open spec fn no_text() -> Seq<char> {
    Seq::<char>::empty()
}

/// An instruction with the given opcode and fields.
pub fn instruction(op: &str, src1: String, src2: String, rd: String) -> (r: IrType)
    ensures
        r@ == (Quad { op: op@, src1: src1@, src2: src2@, rd: rd@ }),
{
    IrType { op: op.to_owned(), src1, src2, rd }
}

/// Appends `ir` to `code`.
pub fn emit(code: &mut Vec<IrType>, ir: IrType)
    ensures
        quads(final(code)@) == quads(old(code)@).push(ir@),
        final(code).len() == old(code).len() + 1,
{
    code.push(ir);
    assert(quads(code@) =~= quads(old(code)@).push(ir@));
}

// ---------------------------------------------------------------------
// What lowering produces
// ---------------------------------------------------------------------

/// The instruction with the given four texts.
pub open spec fn quad(op: Seq<char>, src1: Seq<char>, src2: Seq<char>, rd: Seq<char>) -> Quad {
    Quad { op, src1, src2, rd }
}

/// The name of temporary number `n`: `t0`, `t1`, and so on.
pub open spec fn temp_name(n: nat) -> Seq<char> {
    seq!['t'] + nat_text(n)
}

/// The name of label number `n`: `L0`, `L1`, and so on.
pub open spec fn label_name(n: nat) -> Seq<char> {
    seq!['L'] + nat_text(n)
}

/// The name that a node yielded, or the empty text where it yielded none.
pub open spec fn text_of(value: Option<Seq<char>>) -> Seq<char> {
    match value {
        Some(t) => t,
        None => no_text(),
    }
}

/// The outcome of lowering: the instructions emitted, the two counters
/// afterwards, and the name that holds the value, if there is one.
pub ghost struct Lowering {
    pub code: Seq<Quad>,
    pub temp: nat,
    pub label: nat,
    pub value: Option<Seq<char>>,
}

/// The outcome of lowering the arguments of a call: as above, with the
/// name that each argument yielded.
pub ghost struct LoweredArgs {
    pub code: Seq<Quad>,
    pub temp: nat,
    pub label: nat,
    pub values: Seq<Seq<char>>,
}

/// One `PARAM` for each formal parameter, in the order of declaration.
pub open spec fn param_quads(params: Seq<DeclV>) -> Seq<Quad> {
    Seq::new(params.len(), |i: int| quad("PARAM"@, params[i].var_name, no_text(), no_text()))
}

/// One `ARG` for each argument value, in order.
pub open spec fn arg_quads(values: Seq<Seq<char>>) -> Seq<Quad> {
    Seq::new(values.len(), |i: int| quad("ARG"@, values[i], no_text(), no_text()))
}

/// Lowering of the nodes of `nodes` one after the other.
pub open spec fn lower_list(nodes: Seq<Tree>, temp: nat, label: nat) -> Lowering
    decreases nodes, 0nat,
{
    if nodes.len() == 0 {
        Lowering { code: Seq::empty(), temp, label, value: None }
    } else {
        let head = lower_node(nodes[0], temp, label);
        let rest = lower_list(nodes.drop_first(), head.temp, head.label);
        Lowering { code: head.code + rest.code, temp: rest.temp, label: rest.label, value: None }
    }
}

/// Lowering of a list of declarators: each one with an initialiser lowers
/// it and moves its value into the declared name; the others emit nothing.
pub open spec fn lower_decls(decls: Seq<DeclV>, temp: nat, label: nat) -> Lowering
    decreases decls, 0nat,
{
    if decls.len() == 0 {
        Lowering { code: Seq::empty(), temp, label, value: None }
    } else {
        let head = match decls[0].init {
            Some(init) => {
                let v = lower_node(init, temp, label);
                Lowering {
                    code: v.code.push(quad("MOV"@, text_of(v.value), no_text(), decls[0].var_name)),
                    temp: v.temp,
                    label: v.label,
                    value: None,
                }
            },
            None => Lowering { code: Seq::empty(), temp, label, value: None },
        };
        let rest = lower_decls(decls.drop_first(), head.temp, head.label);
        Lowering { code: head.code + rest.code, temp: rest.temp, label: rest.label, value: None }
    }
}

/// Lowering of the arguments of a call, from left to right.
pub open spec fn lower_args(args: Seq<Tree>, temp: nat, label: nat) -> LoweredArgs
    decreases args, 0nat,
{
    if args.len() == 0 {
        LoweredArgs { code: Seq::empty(), temp, label, values: Seq::empty() }
    } else {
        let head = lower_node(args[0], temp, label);
        let rest = lower_args(args.drop_first(), head.temp, head.label);
        LoweredArgs {
            code: head.code + rest.code,
            temp: rest.temp,
            label: rest.label,
            values: seq![text_of(head.value)] + rest.values,
        }
    }
}

/// Lowering of one node, with the counters at `temp` and `label`.
///
/// - A function: `FUNC`, one `PARAM` per formal, the body, `ENDFUNC`.
/// - A program or a block: its parts in order.
/// - A declaration: see `lower_decls`.
/// - `if`: the condition; `JZ` to the else label; the then branch; `JMP`
///   to the end label; the else label; the else branch, if any; the end
///   label. The two labels are taken after the condition is lowered.
/// - `while`: three labels first (start, test, end); `JMP` to the test;
///   the start label; the body; the test label; the condition; `JNZ` to
///   the start; the end label.
/// - `return`: the value, if any, then `RET`.
/// - An assignment: both sides, then `MOV` into the name of the left
///   side, which is also what the node yields.
/// - Any other binary or unary operation: the operands, then the
///   operation into a fresh temporary, which the node yields.
/// - A call: all arguments from left to right, then one `ARG` per
///   argument, then `CALL` with the number of arguments, into a fresh
///   temporary, which the node yields.
/// - A literal or an identifier yields its text and emits nothing.
/// - Every other shape emits nothing and yields nothing.
pub open spec fn lower_node(node: Tree, temp: nat, label: nat) -> Lowering
    decreases node, 1nat,
{
    match node {
        Tree::Program { items } => lower_list(items, temp, label),
        Tree::Block { stmts } => lower_list(stmts, temp, label),
        Tree::FuncDef { name, params, ret_type, body } => {
            let b = lower_node(*body, temp, label);
            Lowering {
                code: (seq![quad("FUNC"@, name, no_text(), no_text())] + param_quads(params)
                    + b.code).push(quad("ENDFUNC"@, name, no_text(), no_text())),
                temp: b.temp,
                label: b.label,
                value: None,
            }
        },
        Tree::VarDecl(decls) => lower_decls(decls, temp, label),
        Tree::If { cond, then_br, else_br } => {
            let c = lower_node(*cond, temp, label);
            let else_label = label_name(c.label);
            let end_label = label_name(c.label + 1);
            let t = lower_node(*then_br, c.temp, c.label + 2);
            let e = match else_br {
                Some(e) => lower_node(*e, t.temp, t.label),
                None => Lowering { code: Seq::empty(), temp: t.temp, label: t.label, value: None },
            };
            Lowering {
                code: (c.code.push(quad("JZ"@, text_of(c.value), no_text(), else_label)) + t.code
                    + seq![
                    quad("JMP"@, no_text(), no_text(), end_label),
                    quad("LABEL"@, else_label, no_text(), no_text()),
                ] + e.code).push(quad("LABEL"@, end_label, no_text(), no_text())),
                temp: e.temp,
                label: e.label,
                value: None,
            }
        },
        Tree::While { cond, body } => {
            let start_label = label_name(label);
            let test_label = label_name(label + 1);
            let end_label = label_name(label + 2);
            let b = lower_node(*body, temp, label + 3);
            let c = lower_node(*cond, b.temp, b.label);
            Lowering {
                code: (seq![
                    quad("JMP"@, no_text(), no_text(), test_label),
                    quad("LABEL"@, start_label, no_text(), no_text()),
                ] + b.code).push(quad("LABEL"@, test_label, no_text(), no_text())) + c.code + seq![
                    quad("JNZ"@, text_of(c.value), no_text(), start_label),
                    quad("LABEL"@, end_label, no_text(), no_text()),
                ],
                temp: c.temp,
                label: c.label,
                value: None,
            }
        },
        Tree::Return { expr } => match expr {
            Some(e) => {
                let v = lower_node(*e, temp, label);
                Lowering {
                    code: v.code.push(quad("RET"@, text_of(v.value), no_text(), no_text())),
                    temp: v.temp,
                    label: v.label,
                    value: None,
                }
            },
            None => Lowering {
                code: seq![quad("RET"@, no_text(), no_text(), no_text())],
                temp,
                label,
                value: None,
            },
        },
        Tree::BinaryOp { op, lhs, rhs } => match rhs {
            Some(rhs) => {
                let l = lower_node(*lhs, temp, label);
                let r = lower_node(*rhs, l.temp, l.label);
                let op_text = match op {
                    Some(o) => o,
                    None => no_text(),
                };
                if op_text == "="@ {
                    Lowering {
                        code: (l.code + r.code).push(
                            quad("MOV"@, text_of(r.value), no_text(), text_of(l.value)),
                        ),
                        temp: r.temp,
                        label: r.label,
                        value: Some(text_of(l.value)),
                    }
                } else {
                    Lowering {
                        code: (l.code + r.code).push(
                            quad(op_text, text_of(l.value), text_of(r.value), temp_name(r.temp)),
                        ),
                        temp: r.temp + 1,
                        label: r.label,
                        value: Some(temp_name(r.temp)),
                    }
                }
            },
            None => Lowering { code: Seq::empty(), temp, label, value: None },
        },
        Tree::UnaryOp { op, expr } => {
            let v = lower_node(*expr, temp, label);
            Lowering {
                code: v.code.push(quad(op, text_of(v.value), no_text(), temp_name(v.temp))),
                temp: v.temp + 1,
                label: v.label,
                value: Some(temp_name(v.temp)),
            }
        },
        Tree::Call { func, args } => {
            let a = lower_args(args, temp, label);
            Lowering {
                code: (a.code + arg_quads(a.values)).push(
                    quad("CALL"@, func, nat_text(a.values.len()), temp_name(a.temp)),
                ),
                temp: a.temp + 1,
                label: a.label,
                value: Some(temp_name(a.temp)),
            }
        },
        Tree::Literal(tok) => Lowering { code: Seq::empty(), temp, label, value: Some(tok.value) },
        Tree::Ident(tok) => Lowering { code: Seq::empty(), temp, label, value: Some(tok.value) },
        _ => Lowering { code: Seq::empty(), temp, label, value: None },
    }
}

/// The instructions that a whole program lowers to, with both counters
/// starting at zero.
pub open spec fn lower_spec(ast: Seq<Tree>) -> Seq<Quad> {
    lower_list(ast, 0, 0).code
}

// ---------------------------------------------------------------------
// Lowering
// ---------------------------------------------------------------------

/// The counters are small enough for the instructions emitted so far:
/// each starts below 2^64 and grows by at most three per instruction.
pub open spec fn counters_bounded(emitted: nat, temp: nat, label: nat) -> bool {
    temp <= 0xffff_ffff_ffff_ffff + emitted && label <= 0xffff_ffff_ffff_ffff + 3 * emitted
}

/// The name that an executable lowering step yielded, as a value.
pub open spec fn value_view(value: Option<String>) -> Option<Seq<char>> {
    match value {
        Some(s) => Some(s@),
        None => None,
    }
}

fn text_or_empty(value: Option<String>) -> (r: String)
    ensures
        r@ == text_of(value_view(value)),
{
    match value {
        Some(s) => s,
        None => String::new(),
    }
}

fn lower_list_into(nodes: &Vec<ASTNode>, code: &mut Vec<IrType>, temp: &mut u128, label: &mut u128)
    requires
        counters_bounded(old(code).len() as nat, *old(temp) as nat, *old(label) as nat),
    ensures
        ({
            let low = lower_list(nodes_view(nodes@), *old(temp) as nat, *old(label) as nat);
            &&& quads(final(code)@) == quads(old(code)@) + low.code
            &&& *final(temp) == low.temp
            &&& *final(label) == low.label
            &&& counters_bounded(
                final(code).len() as nat,
                *final(temp) as nat,
                *final(label) as nat,
            )
        }),
    decreases nodes, 0nat,
{
    let ghost code0 = quads(code@);
    let ghost all = nodes_view(nodes@);
    let ghost total = lower_list(all, *temp as nat, *label as nat);
    let mut i: usize = 0;
    assert(all.skip(0) == all);
    assert(code0 + total.code =~= quads(code@) + total.code);
    while i < nodes.len()
        invariant
            i <= nodes.len(),
            all == nodes_view(nodes@),
            counters_bounded(code.len() as nat, *temp as nat, *label as nat),
            quads(code@) + lower_list(all.skip(i as int), *temp as nat, *label as nat).code
                == code0 + total.code,
            lower_list(all.skip(i as int), *temp as nat, *label as nat).temp == total.temp,
            lower_list(all.skip(i as int), *temp as nat, *label as nat).label == total.label,
        decreases nodes.len() - i,
    {
        let ghost rest = all.skip(i as int);
        let ghost before = quads(code@);
        let ghost head = lower_node(nodes[i as int]@, *temp as nat, *label as nat);
        let ghost tail = lower_list(all.skip(i + 1), head.temp, head.label);
        proof {
            assert(rest[0] == nodes[i as int]@);
            assert(rest.drop_first() == all.skip(i + 1));
            assert(before + (head.code + tail.code) =~= (before + head.code) + tail.code);
        }
        lower_into(&nodes[i], code, temp, label);
        i += 1;
    }
    proof {
        let end = lower_list(all.skip(nodes.len() as int), *temp as nat, *label as nat);
        assert(all.skip(nodes.len() as int).len() == 0);
        assert(quads(code@) + end.code =~= quads(code@));
    }
}

fn lower_decls_into(decls: &Vec<VarDec>, code: &mut Vec<IrType>, temp: &mut u128, label: &mut u128)
    requires
        counters_bounded(old(code).len() as nat, *old(temp) as nat, *old(label) as nat),
    ensures
        ({
            let low = lower_decls(decls_view(decls@), *old(temp) as nat, *old(label) as nat);
            &&& quads(final(code)@) == quads(old(code)@) + low.code
            &&& *final(temp) == low.temp
            &&& *final(label) == low.label
            &&& counters_bounded(
                final(code).len() as nat,
                *final(temp) as nat,
                *final(label) as nat,
            )
        }),
    decreases decls, 0nat,
{
    let ghost code0 = quads(code@);
    let ghost all = decls_view(decls@);
    let ghost total = lower_decls(all, *temp as nat, *label as nat);
    let mut i: usize = 0;
    assert(all.skip(0) == all);
    assert(code0 + total.code =~= quads(code@) + total.code);
    while i < decls.len()
        invariant
            i <= decls.len(),
            all == decls_view(decls@),
            counters_bounded(code.len() as nat, *temp as nat, *label as nat),
            quads(code@) + lower_decls(all.skip(i as int), *temp as nat, *label as nat).code
                == code0 + total.code,
            lower_decls(all.skip(i as int), *temp as nat, *label as nat).temp == total.temp,
            lower_decls(all.skip(i as int), *temp as nat, *label as nat).label == total.label,
        decreases decls.len() - i,
    {
        let ghost rest = all.skip(i as int);
        let ghost before = quads(code@);
        let ghost t = *temp as nat;
        let ghost l = *label as nat;
        proof {
            assert(rest[0] == decls[i as int]@);
            assert(rest.drop_first() == all.skip(i + 1));
        }
        match &decls[i].init {
            Some(init) => {
                let value = lower_into(init, code, temp, label);
                let src = text_or_empty(value);
                emit(code, instruction("MOV", src, String::new(), decls[i].var_name.clone()));
                proof {
                    let v = lower_node(init@, t, l);
                    let head_code = v.code.push(
                        quad("MOV"@, text_of(v.value), no_text(), decls[i as int].var_name@),
                    );
                    let tail = lower_decls(all.skip(i + 1), v.temp, v.label);
                    assert(quads(code@) =~= before + head_code);
                    assert(before + (head_code + tail.code) =~= (before + head_code) + tail.code);
                }
            },
            None => {
                proof {
                    let tail = lower_decls(all.skip(i + 1), t, l);
                    assert(before + (Seq::<Quad>::empty() + tail.code) =~= before + tail.code);
                }
            },
        }
        i += 1;
    }
    proof {
        let end = lower_decls(all.skip(decls.len() as int), *temp as nat, *label as nat);
        assert(all.skip(decls.len() as int).len() == 0);
        assert(quads(code@) + end.code =~= quads(code@));
    }
}

fn lower_args_into(args: &Vec<ASTNode>, code: &mut Vec<IrType>, temp: &mut u128, label: &mut u128) -> (values: Vec<String>)
    requires
        counters_bounded(old(code).len() as nat, *old(temp) as nat, *old(label) as nat),
    ensures
        ({
            let low = lower_args(nodes_view(args@), *old(temp) as nat, *old(label) as nat);
            &&& quads(final(code)@) == quads(old(code)@) + low.code
            &&& *final(temp) == low.temp
            &&& *final(label) == low.label
            &&& values@.map_values(|s: String| s@) == low.values
            &&& counters_bounded(
                final(code).len() as nat,
                *final(temp) as nat,
                *final(label) as nat,
            )
        }),
    decreases args, 0nat,
{
    let ghost code0 = quads(code@);
    let ghost all = nodes_view(args@);
    let ghost total = lower_args(all, *temp as nat, *label as nat);
    let mut values: Vec<String> = Vec::new();
    let mut i: usize = 0;
    assert(all.skip(0) == all);
    assert(code0 + total.code =~= quads(code@) + total.code);
    assert(values@.map_values(|s: String| s@) + total.values =~= total.values);
    while i < args.len()
        invariant
            i <= args.len(),
            all == nodes_view(args@),
            counters_bounded(code.len() as nat, *temp as nat, *label as nat),
            quads(code@) + lower_args(all.skip(i as int), *temp as nat, *label as nat).code
                == code0 + total.code,
            values@.map_values(|s: String| s@) + lower_args(
                all.skip(i as int),
                *temp as nat,
                *label as nat,
            ).values == total.values,
            lower_args(all.skip(i as int), *temp as nat, *label as nat).temp == total.temp,
            lower_args(all.skip(i as int), *temp as nat, *label as nat).label == total.label,
        decreases args.len() - i,
    {
        let ghost rest = all.skip(i as int);
        let ghost before = quads(code@);
        let ghost seen = values@.map_values(|s: String| s@);
        let ghost head = lower_node(args[i as int]@, *temp as nat, *label as nat);
        let ghost tail = lower_args(all.skip(i + 1), head.temp, head.label);
        proof {
            assert(rest[0] == args[i as int]@);
            assert(rest.drop_first() == all.skip(i + 1));
            assert(before + (head.code + tail.code) =~= (before + head.code) + tail.code);
        }
        let value = lower_into(&args[i], code, temp, label);
        let name = text_or_empty(value);
        values.push(name);
        proof {
            assert(values@.map_values(|s: String| s@) =~= seen.push(text_of(head.value)));
            assert(seen.push(text_of(head.value)) + tail.values =~= seen + (seq![
                text_of(head.value),
            ] + tail.values));
        }
        i += 1;
    }
    proof {
        let end = lower_args(all.skip(args.len() as int), *temp as nat, *label as nat);
        assert(all.skip(args.len() as int).len() == 0);
        assert(quads(code@) + end.code =~= quads(code@));
        assert(values@.map_values(|s: String| s@) + end.values =~= values@.map_values(
            |s: String| s@,
        ));
    }
    values
}

fn emit_params(params: &Vec<VarDec>, code: &mut Vec<IrType>)
    ensures
        quads(final(code)@) == quads(old(code)@) + param_quads(decls_view(params@)),
        final(code).len() == old(code).len() + params.len(),
{
    let ghost code0 = quads(code@);
    let mut i: usize = 0;
    let ghost all = param_quads(decls_view(params@));
    assert(code0 + all.take(0) =~= code0);
    while i < params.len()
        invariant
            i <= params.len(),
            code.len() == old(code).len() + i,
            all == param_quads(decls_view(params@)),
            quads(code@) == code0 + all.take(i as int),
        decreases params.len() - i,
    {
        emit(code, instruction("PARAM", params[i].var_name.clone(), String::new(), String::new()));
        i += 1;
        assert(code0 + all.take(i as int) =~= (code0 + all.take(i - 1)).push(all[i - 1]));
    }
    assert(all.take(params.len() as int) =~= all);
}

fn emit_args(values: &Vec<String>, code: &mut Vec<IrType>)
    ensures
        quads(final(code)@) == quads(old(code)@) + arg_quads(values@.map_values(|s: String| s@)),
        final(code).len() == old(code).len() + values.len(),
{
    let ghost code0 = quads(code@);
    let ghost all = arg_quads(values@.map_values(|s: String| s@));
    let mut i: usize = 0;
    assert(code0 + all.take(0) =~= code0);
    while i < values.len()
        invariant
            i <= values.len(),
            code.len() == old(code).len() + i,
            all == arg_quads(values@.map_values(|s: String| s@)),
            quads(code@) == code0 + all.take(i as int),
        decreases values.len() - i,
    {
        emit(code, instruction("ARG", values[i].clone(), String::new(), String::new()));
        i += 1;
        assert(code0 + all.take(i as int) =~= (code0 + all.take(i - 1)).push(all[i - 1]));
    }
    assert(all.take(values.len() as int) =~= all);
}

fn lower_func_into(node: &ASTNode, code: &mut Vec<IrType>, temp: &mut u128, label: &mut u128) -> (value: Option<String>)
    requires
        counters_bounded(old(code).len() as nat, *old(temp) as nat, *old(label) as nat),
        node is FuncDef,
    ensures
        ({
            let low = lower_node(node@, *old(temp) as nat, *old(label) as nat);
            &&& quads(final(code)@) == quads(old(code)@) + low.code
            &&& *final(temp) == low.temp
            &&& *final(label) == low.label
            &&& value_view(value) == low.value
            &&& counters_bounded(
                final(code).len() as nat,
                *final(temp) as nat,
                *final(label) as nat,
            )
        }),
    decreases node, 0nat,
{
    let ghost code0 = quads(code@);
    let ghost low = lower_node(node@, *temp as nat, *label as nat);
    match node {
        ASTNode::FuncDef { name, params, ret_type, body } => {
            emit(code, instruction("FUNC", name.clone(), String::new(), String::new()));
            emit_params(params, code);
            lower_into(body, code, temp, label);
            emit(code, instruction("ENDFUNC", name.clone(), String::new(), String::new()));
            assert(quads(code@) =~= code0 + low.code);
            None
        },
        _ => None,
    }
}

fn lower_if_into(node: &ASTNode, code: &mut Vec<IrType>, temp: &mut u128, label: &mut u128) -> (value: Option<String>)
    requires
        counters_bounded(old(code).len() as nat, *old(temp) as nat, *old(label) as nat),
        node is If,
    ensures
        ({
            let low = lower_node(node@, *old(temp) as nat, *old(label) as nat);
            &&& quads(final(code)@) == quads(old(code)@) + low.code
            &&& *final(temp) == low.temp
            &&& *final(label) == low.label
            &&& value_view(value) == low.value
            &&& counters_bounded(
                final(code).len() as nat,
                *final(temp) as nat,
                *final(label) as nat,
            )
        }),
    decreases node, 0nat,
{
    let ghost code0 = quads(code@);
    let ghost low = lower_node(node@, *temp as nat, *label as nat);
    match node {
        ASTNode::If { cond, then_br, else_br } => {
            let cond_value = text_or_empty(lower_into(cond, code, temp, label));
            let else_label = numbered('L', *label);
            let end_label = numbered('L', *label + 1);
            *label = *label + 2;
            emit(code, instruction("JZ", cond_value, String::new(), else_label.clone()));
            lower_into(then_br, code, temp, label);
            emit(code, instruction("JMP", String::new(), String::new(), end_label.clone()));
            emit(code, instruction("LABEL", else_label, String::new(), String::new()));
            match else_br {
                Some(e) => {
                    lower_into(e, code, temp, label);
                },
                None => {},
            }
            emit(code, instruction("LABEL", end_label, String::new(), String::new()));
            assert(quads(code@) =~= code0 + low.code);
            None
        },
        _ => None,
    }
}

fn lower_while_into(node: &ASTNode, code: &mut Vec<IrType>, temp: &mut u128, label: &mut u128) -> (value: Option<String>)
    requires
        counters_bounded(old(code).len() as nat, *old(temp) as nat, *old(label) as nat),
        node is While,
    ensures
        ({
            let low = lower_node(node@, *old(temp) as nat, *old(label) as nat);
            &&& quads(final(code)@) == quads(old(code)@) + low.code
            &&& *final(temp) == low.temp
            &&& *final(label) == low.label
            &&& value_view(value) == low.value
            &&& counters_bounded(
                final(code).len() as nat,
                *final(temp) as nat,
                *final(label) as nat,
            )
        }),
    decreases node, 0nat,
{
    let ghost code0 = quads(code@);
    let ghost low = lower_node(node@, *temp as nat, *label as nat);
    match node {
        ASTNode::While { cond, body } => {
            let start_label = numbered('L', *label);
            let test_label = numbered('L', *label + 1);
            let end_label = numbered('L', *label + 2);
            *label = *label + 3;
            emit(code, instruction("JMP", String::new(), String::new(), test_label.clone()));
            emit(code, instruction("LABEL", start_label.clone(), String::new(), String::new()));
            lower_into(body, code, temp, label);
            emit(code, instruction("LABEL", test_label, String::new(), String::new()));
            let cond_value = text_or_empty(lower_into(cond, code, temp, label));
            emit(code, instruction("JNZ", cond_value, String::new(), start_label));
            emit(code, instruction("LABEL", end_label, String::new(), String::new()));
            assert(quads(code@) =~= code0 + low.code);
            None
        },
        _ => None,
    }
}

fn lower_return_into(node: &ASTNode, code: &mut Vec<IrType>, temp: &mut u128, label: &mut u128) -> (value: Option<String>)
    requires
        counters_bounded(old(code).len() as nat, *old(temp) as nat, *old(label) as nat),
        node is Return,
    ensures
        ({
            let low = lower_node(node@, *old(temp) as nat, *old(label) as nat);
            &&& quads(final(code)@) == quads(old(code)@) + low.code
            &&& *final(temp) == low.temp
            &&& *final(label) == low.label
            &&& value_view(value) == low.value
            &&& counters_bounded(
                final(code).len() as nat,
                *final(temp) as nat,
                *final(label) as nat,
            )
        }),
    decreases node, 0nat,
{
    let ghost code0 = quads(code@);
    let ghost low = lower_node(node@, *temp as nat, *label as nat);
    match node {
        ASTNode::Return { expr } => {
            match expr {
                Some(e) => {
                    let value = text_or_empty(lower_into(e, code, temp, label));
                    emit(code, instruction("RET", value, String::new(), String::new()));
                    assert(quads(code@) =~= code0 + low.code);
                },
                None => {
                    emit(code, instruction("RET", String::new(), String::new(), String::new()));
                    assert(quads(code@) =~= code0 + low.code);
                },
            }
            None
        },
        _ => None,
    }
}

fn lower_binary_into(node: &ASTNode, code: &mut Vec<IrType>, temp: &mut u128, label: &mut u128) -> (value: Option<String>)
    requires
        counters_bounded(old(code).len() as nat, *old(temp) as nat, *old(label) as nat),
        node is BinaryOp,
    ensures
        ({
            let low = lower_node(node@, *old(temp) as nat, *old(label) as nat);
            &&& quads(final(code)@) == quads(old(code)@) + low.code
            &&& *final(temp) == low.temp
            &&& *final(label) == low.label
            &&& value_view(value) == low.value
            &&& counters_bounded(
                final(code).len() as nat,
                *final(temp) as nat,
                *final(label) as nat,
            )
        }),
    decreases node, 0nat,
{
    let ghost code0 = quads(code@);
    let ghost low = lower_node(node@, *temp as nat, *label as nat);
    match node {
        ASTNode::BinaryOp { op, lhs, rhs } => {
            match rhs {
                Some(rhs) => {
                    let left = text_or_empty(lower_into(lhs, code, temp, label));
                    let right = text_or_empty(lower_into(rhs, code, temp, label));
                    let op_text = match op {
                        Some(o) => o.clone(),
                        None => String::new(),
                    };
                    if *op_text.as_str() == *"=" {
                        emit(code, instruction("MOV", right, String::new(), left.clone()));
                        assert(quads(code@) =~= code0 + low.code);
                        Some(left)
                    } else {
                        let fresh = numbered('t', *temp);
                        *temp = *temp + 1;
                        emit(
                            code,
                            IrType { op: op_text, src1: left, src2: right, rd: fresh.clone() },
                        );
                        assert(quads(code@) =~= code0 + low.code);
                        Some(fresh)
                    }
                },
                None => {
                    assert(quads(code@) =~= code0 + low.code);
                    None
                },
            }
        },
        _ => None,
    }
}

fn lower_unary_into(node: &ASTNode, code: &mut Vec<IrType>, temp: &mut u128, label: &mut u128) -> (value: Option<String>)
    requires
        counters_bounded(old(code).len() as nat, *old(temp) as nat, *old(label) as nat),
        node is UnaryOp,
    ensures
        ({
            let low = lower_node(node@, *old(temp) as nat, *old(label) as nat);
            &&& quads(final(code)@) == quads(old(code)@) + low.code
            &&& *final(temp) == low.temp
            &&& *final(label) == low.label
            &&& value_view(value) == low.value
            &&& counters_bounded(
                final(code).len() as nat,
                *final(temp) as nat,
                *final(label) as nat,
            )
        }),
    decreases node, 0nat,
{
    let ghost code0 = quads(code@);
    let ghost low = lower_node(node@, *temp as nat, *label as nat);
    match node {
        ASTNode::UnaryOp { op, expr } => {
            let value = text_or_empty(lower_into(expr, code, temp, label));
            let fresh = numbered('t', *temp);
            *temp = *temp + 1;
            emit(
                code,
                IrType { op: op.clone(), src1: value, src2: String::new(), rd: fresh.clone() },
            );
            assert(quads(code@) =~= code0 + low.code);
            Some(fresh)
        },
        _ => None,
    }
}

fn lower_call_into(node: &ASTNode, code: &mut Vec<IrType>, temp: &mut u128, label: &mut u128) -> (value: Option<String>)
    requires
        counters_bounded(old(code).len() as nat, *old(temp) as nat, *old(label) as nat),
        node is Call,
    ensures
        ({
            let low = lower_node(node@, *old(temp) as nat, *old(label) as nat);
            &&& quads(final(code)@) == quads(old(code)@) + low.code
            &&& *final(temp) == low.temp
            &&& *final(label) == low.label
            &&& value_view(value) == low.value
            &&& counters_bounded(
                final(code).len() as nat,
                *final(temp) as nat,
                *final(label) as nat,
            )
        }),
    decreases node, 0nat,
{
    let ghost code0 = quads(code@);
    let ghost low = lower_node(node@, *temp as nat, *label as nat);
    match node {
        ASTNode::Call { func, args } => {
            let values = lower_args_into(args, code, temp, label);
            emit_args(&values, code);
            let fresh = numbered('t', *temp);
            *temp = *temp + 1;
            let count = nat_to_string(values.len() as u128);
            emit(code, instruction("CALL", func.clone(), count, fresh.clone()));
            assert(quads(code@) =~= code0 + low.code);
            Some(fresh)
        },
        _ => None,
    }
}

fn lower_into(node: &ASTNode, code: &mut Vec<IrType>, temp: &mut u128, label: &mut u128) -> (value: Option<String>)
    requires
        counters_bounded(old(code).len() as nat, *old(temp) as nat, *old(label) as nat),
        
    ensures
        ({
            let low = lower_node(node@, *old(temp) as nat, *old(label) as nat);
            &&& quads(final(code)@) == quads(old(code)@) + low.code
            &&& *final(temp) == low.temp
            &&& *final(label) == low.label
            &&& value_view(value) == low.value
            &&& counters_bounded(
                final(code).len() as nat,
                *final(temp) as nat,
                *final(label) as nat,
            )
        }),
    decreases node, 1nat,
{
    let ghost code0 = quads(code@);
    let ghost low = lower_node(node@, *temp as nat, *label as nat);
    match node {
        ASTNode::Program { items } => {
            lower_list_into(items, code, temp, label);
            None
        },
        ASTNode::Block { stmts } => {
            lower_list_into(stmts, code, temp, label);
            None
        },
        ASTNode::VarDecl(decls) => {
            lower_decls_into(decls, code, temp, label);
            None
        },
        ASTNode::FuncDef { .. } => lower_func_into(node, code, temp, label),
        ASTNode::If { .. } => lower_if_into(node, code, temp, label),
        ASTNode::While { .. } => lower_while_into(node, code, temp, label),
        ASTNode::Return { .. } => lower_return_into(node, code, temp, label),
        ASTNode::BinaryOp { .. } => lower_binary_into(node, code, temp, label),
        ASTNode::UnaryOp { .. } => lower_unary_into(node, code, temp, label),
        ASTNode::Call { .. } => lower_call_into(node, code, temp, label),
        ASTNode::Literal(tok) => {
            assert(quads(code@) =~= code0 + low.code);
            Some(tok.value.clone())
        },
        ASTNode::Ident(tok) => {
            assert(quads(code@) =~= code0 + low.code);
            Some(tok.value.clone())
        },
        _ => {
            assert(quads(code@) =~= code0 + low.code);
            None
        },
    }
}

/// Lowers one node into `code`, naming temporaries and labels from the
/// two counters, and returns the name that holds the node's value, if it
/// has one. The counters must be able to hold what they end at.
pub fn ir_gen_recursive(
    node: &ASTNode,
    code: &mut Vec<IrType>,
    temp_id: &mut usize,
    label_id: &mut usize,
) -> (value: Option<String>)
    requires
        lower_node(node@, *old(temp_id) as nat, *old(label_id) as nat).temp <= usize::MAX,
        lower_node(node@, *old(temp_id) as nat, *old(label_id) as nat).label <= usize::MAX,
    ensures
        ({
            let low = lower_node(node@, *old(temp_id) as nat, *old(label_id) as nat);
            &&& quads(final(code)@) == quads(old(code)@) + low.code
            &&& *final(temp_id) == low.temp
            &&& *final(label_id) == low.label
            &&& value_view(value) == low.value
        }),
{
    let mut temp: u128 = *temp_id as u128;
    let mut label: u128 = *label_id as u128;
    let value = lower_into(node, code, &mut temp, &mut label);
    *temp_id = temp as usize;
    *label_id = label as usize;
    value
}

/// Lowers a whole program, with both counters starting at zero.
pub fn lower(ast: &Vec<ASTNode>) -> (r: Vec<IrType>)
    ensures
        quads(r@) == lower_spec(nodes_view(ast@)),
{
    let mut code: Vec<IrType> = Vec::new();
    let mut temp: u128 = 0;
    let mut label: u128 = 0;
    lower_list_into(ast, &mut code, &mut temp, &mut label);
    assert(quads(code@) =~= lower_spec(nodes_view(ast@)));
    code
}

/// Lowers a whole program and runs the optimisation passes on the
/// result. `None` exactly when constant folding faults on it.
pub fn try_ir_gen(ast: &Vec<ASTNode>) -> (r: Option<Vec<IrType>>)
    ensures
        r is Some <==> !fold_faults(lower_spec(nodes_view(ast@))),
        r is Some ==> quads(r->0@) == optimal_spec(lower_spec(nodes_view(ast@))),
{
    let code = lower(ast);
    try_optimal(code.as_slice())
}

/// Lowers a whole program and runs the optimisation passes on the
/// result, for a program on which constant folding does not fault.
pub fn ir_gen(ast: &Vec<ASTNode>) -> (r: Vec<IrType>)
    requires
        !fold_faults(lower_spec(nodes_view(ast@))),
    ensures
        quads(r@) == optimal_spec(lower_spec(nodes_view(ast@))),
{
    match try_ir_gen(ast) {
        Some(r) => r,
        None => vstd::pervasive::unreached(),
    }
}

// ---------------------------------------------------------------------
// What holds of lowering
// ---------------------------------------------------------------------

/// Lowering a list of nodes never takes a counter back.
pub proof fn lemma_list_counters_grow(nodes: Seq<Tree>, temp: nat, label: nat)
    ensures
        lower_list(nodes, temp, label).temp >= temp,
        lower_list(nodes, temp, label).label >= label,
    decreases nodes, 0nat,
{
    if nodes.len() > 0 {
        law_counters_only_grow(nodes[0], temp, label);
        let head = lower_node(nodes[0], temp, label);
        lemma_list_counters_grow(nodes.drop_first(), head.temp, head.label);
    }
}

/// Lowering a list of declarators never takes a counter back.
pub proof fn lemma_decls_counters_grow(decls: Seq<DeclV>, temp: nat, label: nat)
    ensures
        lower_decls(decls, temp, label).temp >= temp,
        lower_decls(decls, temp, label).label >= label,
    decreases decls, 0nat,
{
    if decls.len() > 0 {
        match decls[0].init {
            Some(init) => {
                law_counters_only_grow(init, temp, label);
                let v = lower_node(init, temp, label);
                lemma_decls_counters_grow(decls.drop_first(), v.temp, v.label);
            },
            None => {
                lemma_decls_counters_grow(decls.drop_first(), temp, label);
            },
        }
    }
}

/// Lowering the arguments of a call never takes a counter back.
pub proof fn lemma_args_counters_grow(args: Seq<Tree>, temp: nat, label: nat)
    ensures
        lower_args(args, temp, label).temp >= temp,
        lower_args(args, temp, label).label >= label,
    decreases args, 0nat,
{
    if args.len() > 0 {
        law_counters_only_grow(args[0], temp, label);
        let head = lower_node(args[0], temp, label);
        lemma_args_counters_grow(args.drop_first(), head.temp, head.label);
    }
}

/// The two counters only grow: whatever is lowered, no number of a
/// temporary or of a label is given out twice.
pub proof fn law_counters_only_grow(node: Tree, temp: nat, label: nat)
    ensures
        lower_node(node, temp, label).temp >= temp,
        lower_node(node, temp, label).label >= label,
    decreases node, 1nat,
{
    match node {
        Tree::Program { items } => {
            lemma_list_counters_grow(items, temp, label);
        },
        Tree::Block { stmts } => {
            lemma_list_counters_grow(stmts, temp, label);
        },
        Tree::FuncDef { name, params, ret_type, body } => {
            law_counters_only_grow(*body, temp, label);
        },
        Tree::VarDecl(decls) => {
            lemma_decls_counters_grow(decls, temp, label);
        },
        Tree::If { cond, then_br, else_br } => {
            law_counters_only_grow(*cond, temp, label);
            let c = lower_node(*cond, temp, label);
            law_counters_only_grow(*then_br, c.temp, c.label + 2);
            let t = lower_node(*then_br, c.temp, c.label + 2);
            match else_br {
                Some(e) => {
                    law_counters_only_grow(*e, t.temp, t.label);
                },
                None => {},
            }
        },
        Tree::While { cond, body } => {
            law_counters_only_grow(*body, temp, label + 3);
            let b = lower_node(*body, temp, label + 3);
            law_counters_only_grow(*cond, b.temp, b.label);
        },
        Tree::Return { expr } => {
            match expr {
                Some(e) => {
                    law_counters_only_grow(*e, temp, label);
                },
                None => {},
            }
        },
        Tree::BinaryOp { op, lhs, rhs } => {
            match rhs {
                Some(r) => {
                    law_counters_only_grow(*lhs, temp, label);
                    let l = lower_node(*lhs, temp, label);
                    law_counters_only_grow(*r, l.temp, l.label);
                },
                None => {},
            }
        },
        Tree::UnaryOp { op, expr } => {
            law_counters_only_grow(*expr, temp, label);
        },
        Tree::Call { func, args } => {
            lemma_args_counters_grow(args, temp, label);
        },
        _ => {},
    }
}

} // verus!
