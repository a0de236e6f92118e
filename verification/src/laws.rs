//! Machine-wide laws of the instruction set, proved once over the
//! transition relation [`step_result`].

use vstd::prelude::*;
use crate::machine::{
    alu, opcode_of, rol1, ror1, sel_a_of, sel_b_of, shl1, shr1, step_result, takes_operand,
    wrap_add, MachineView, StepEffect, DEV_CHAR, OP_AND, OP_BREQ, OP_BRNE, OP_CREQ, OP_CRNE,
    OP_HALT, OP_LOAD, OP_NAND, OP_OR, OP_RET, OP_SHL, OP_STOR, OP_XOR,
};
use crate::registers::Registers;

verus! {

/// The bit of `v` at position `i`, counting from the least significant.
pub open spec fn bit_of(v: u8, i: u8) -> bool
    recommends
        i < 8,
{
    (v >> i) & 1 == 1
}

/// Law: an instruction without an operand consumes exactly one byte and
/// touches nothing but its documented target. Memory and `rp` are
/// unchanged; `ip` advances by exactly one, except that `RET` redirects
/// it to `rp`; only `HALT` halts; an ALU opcode rewrites only its first
/// selected register, to the ALU result.
pub proof fn lemma_step_no_operand(pre: MachineView)
    requires
        pre.wf(),
        opcode_of(pre.cur_instr()) <= OP_XOR,
    ensures
        ({
            let instr = pre.cur_instr();
            let op = opcode_of(instr);
            let post = step_result(pre).0;
            let eff = step_result(pre).1;
            &&& post.mem == pre.mem
            &&& post.regs.rp == pre.regs.rp
            &&& op != OP_RET ==> post.regs.ip == wrap_add(pre.regs.ip, 1)
            &&& op == OP_RET ==> post.regs.ip == pre.regs.rp
            &&& op == OP_HALT ==> post.halted && eff == StepEffect::Halted
            &&& op != OP_HALT ==> post.halted == pre.halted && eff == StepEffect::Ran
            &&& op == OP_HALT || op == OP_RET ==> post.regs == (Registers {
                ip: post.regs.ip,
                ..pre.regs
            })
            &&& OP_SHL <= op <= OP_XOR ==> post.regs == (Registers {
                ip: wrap_add(pre.regs.ip, 1),
                ..pre.regs.spec_set(
                    sel_a_of(instr),
                    alu(op, pre.regs.spec_get(sel_a_of(instr)), pre.regs.spec_get(sel_b_of(instr))),
                )
            })
        }),
{
}

/// Law: an operand-taking instruction consumes exactly three bytes: one
/// opcode byte and two operand bytes. Whenever no redirection is taken,
/// `ip` lands on `wrap_add(ip, 3)`; a taken branch or call redirects
/// `ip` to the operand, and a taken call records `wrap_add(ip, 3)` — the
/// pre-redirection value — in `rp`.
pub proof fn lemma_step_operand_width(pre: MachineView)
    requires
        pre.wf(),
        takes_operand(opcode_of(pre.cur_instr())),
    ensures
        ({
            let instr = pre.cur_instr();
            let op = opcode_of(instr);
            let addr = pre.operand();
            let ip3 = wrap_add(pre.regs.ip, 3);
            let va = pre.regs.spec_get(sel_a_of(instr));
            let vb = pre.regs.spec_get(sel_b_of(instr));
            let post = step_result(pre).0;
            let taken = (op == OP_BREQ && va == vb) || (op == OP_BRNE && va != vb) || (op
                == OP_CREQ && va == vb) || (op == OP_CRNE && va != vb);
            &&& post.halted == pre.halted
            &&& !taken ==> post.regs.ip == ip3
            &&& taken ==> post.regs.ip == addr
            &&& (op == OP_CREQ || op == OP_CRNE) && taken ==> post.regs.rp == ip3
            &&& !((op == OP_CREQ || op == OP_CRNE) && taken) ==> post.regs.rp == pre.regs.rp
        }),
{
    let instr: u8 = pre.cur_instr();
    assert(instr >> 4 < 16) by (bit_vector);
}

/// Law: the four rotations and shifts are the documented single-bit
/// logical operations; rotating a byte eight times in either direction
/// returns it to itself.
///
/// Rotate left, applied eight times, is the identity on every byte.
pub proof fn lemma_rol_period_eight(v: u8)
    ensures
        rol1(rol1(rol1(rol1(rol1(rol1(rol1(rol1(v)))))))) == v,
{
    let v1: u8 = rol1(v);
    let v2: u8 = rol1(v1);
    let v3: u8 = rol1(v2);
    let v4: u8 = rol1(v3);
    let v5: u8 = rol1(v4);
    let v6: u8 = rol1(v5);
    let v7: u8 = rol1(v6);
    assert(((v7 << 1) | (v7 >> 7)) == v) by (bit_vector)
        requires
            v1 == (v << 1) | (v >> 7),
            v2 == (v1 << 1) | (v1 >> 7),
            v3 == (v2 << 1) | (v2 >> 7),
            v4 == (v3 << 1) | (v3 >> 7),
            v5 == (v4 << 1) | (v4 >> 7),
            v6 == (v5 << 1) | (v5 >> 7),
            v7 == (v6 << 1) | (v6 >> 7),
    ;
}

/// Rotate right, applied eight times, is the identity on every byte.
pub proof fn lemma_ror_period_eight(v: u8)
    ensures
        ror1(ror1(ror1(ror1(ror1(ror1(ror1(ror1(v)))))))) == v,
{
    let v1: u8 = ror1(v);
    let v2: u8 = ror1(v1);
    let v3: u8 = ror1(v2);
    let v4: u8 = ror1(v3);
    let v5: u8 = ror1(v4);
    let v6: u8 = ror1(v5);
    let v7: u8 = ror1(v6);
    assert(((v7 >> 1) | (v7 << 7)) == v) by (bit_vector)
        requires
            v1 == (v >> 1) | (v << 7),
            v2 == (v1 >> 1) | (v1 << 7),
            v3 == (v2 >> 1) | (v2 << 7),
            v4 == (v3 >> 1) | (v3 << 7),
            v5 == (v4 >> 1) | (v4 << 7),
            v6 == (v5 >> 1) | (v5 << 7),
            v7 == (v6 >> 1) | (v6 << 7),
    ;
}

/// The logical shift left, applied eight times, collapses every byte to
/// zero: each application discards bit 7 for good.
pub proof fn lemma_shl_eight_collapses(v: u8)
    ensures
        shl1(shl1(shl1(shl1(shl1(shl1(shl1(shl1(v)))))))) == 0,
{
    let v1: u8 = shl1(v);
    let v2: u8 = shl1(v1);
    let v3: u8 = shl1(v2);
    let v4: u8 = shl1(v3);
    let v5: u8 = shl1(v4);
    let v6: u8 = shl1(v5);
    let v7: u8 = shl1(v6);
    assert((v7 << 1) == 0) by (bit_vector)
        requires
            v1 == v << 1,
            v2 == v1 << 1,
            v3 == v2 << 1,
            v4 == v3 << 1,
            v5 == v4 << 1,
            v6 == v5 << 1,
            v7 == v6 << 1,
    ;
}

/// The logical shift right, applied eight times, collapses every byte
/// to zero; so, as for the left shift, the eightfold application
/// returns the starting byte only when that byte is zero itself.
pub proof fn lemma_shr_eight_collapses(v: u8)
    ensures
        shr1(shr1(shr1(shr1(shr1(shr1(shr1(shr1(v)))))))) == 0,
{
    let v1: u8 = shr1(v);
    let v2: u8 = shr1(v1);
    let v3: u8 = shr1(v2);
    let v4: u8 = shr1(v3);
    let v5: u8 = shr1(v4);
    let v6: u8 = shr1(v5);
    let v7: u8 = shr1(v6);
    assert((v7 >> 1) == 0) by (bit_vector)
        requires
            v1 == v >> 1,
            v2 == v1 >> 1,
            v3 == v2 >> 1,
            v4 == v3 >> 1,
            v5 == v4 >> 1,
            v6 == v5 >> 1,
            v7 == v6 >> 1,
    ;
}

/// Law: the eightfold left shift is periodic only at zero: it returns
/// the starting byte for that input alone, since it collapses every
/// byte to zero.
pub proof fn lemma_shl_period_eight_at_zero(v: u8)
    requires
        v == 0,
    ensures
        shl1(shl1(shl1(shl1(shl1(shl1(shl1(shl1(v)))))))) == v,
{
    lemma_shl_eight_collapses(v);
}

/// Law: the eightfold right shift is periodic only at zero: it returns
/// the starting byte for that input alone, since it collapses every
/// byte to zero.
pub proof fn lemma_shr_period_eight_at_zero(v: u8)
    requires
        v == 0,
    ensures
        shr1(shr1(shr1(shr1(shr1(shr1(shr1(shr1(v)))))))) == v,
{
    lemma_shr_eight_collapses(v);
}

/// Law: the register operations of the AND, OR, XOR and NAND opcodes
/// follow the standard truth tables at every bit position, for every
/// pair of byte operands.
pub proof fn lemma_bitwise_truth_tables(a: u8, b: u8, i: u8)
    requires
        i < 8,
    ensures
        bit_of(alu(OP_AND, a, b), i) == (bit_of(a, i) && bit_of(b, i)),
        bit_of(alu(OP_OR, a, b), i) == (bit_of(a, i) || bit_of(b, i)),
        bit_of(alu(OP_XOR, a, b), i) == (bit_of(a, i) != bit_of(b, i)),
        bit_of(alu(OP_NAND, a, b), i) == !(bit_of(a, i) && bit_of(b, i)),
{
    assert((((a & b) >> i) & 1 == 1) == (((a >> i) & 1 == 1) && ((b >> i) & 1 == 1)))
        by (bit_vector)
        requires
            i < 8,
    ;
    assert((((a | b) >> i) & 1 == 1) == (((a >> i) & 1 == 1) || ((b >> i) & 1 == 1)))
        by (bit_vector)
        requires
            i < 8,
    ;
    assert((((a ^ b) >> i) & 1 == 1) == (((a >> i) & 1 == 1) != ((b >> i) & 1 == 1)))
        by (bit_vector)
        requires
            i < 8,
    ;
    assert((((!(a & b)) >> i) & 1 == 1) == !(((a >> i) & 1 == 1) && ((b >> i) & 1 == 1)))
        by (bit_vector)
        requires
            i < 8,
    ;
}

/// Law: a branch or call redirects `ip` to the operand address exactly
/// when its condition on the two selected registers holds, and lands on
/// the following instruction otherwise. A taken call records the
/// address of that following instruction in `rp`; in every other case
/// `rp` is untouched. No branch or call touches memory, the general
/// registers or the halted flag.
pub proof fn lemma_step_branch(pre: MachineView)
    requires
        pre.wf(),
        OP_BREQ <= opcode_of(pre.cur_instr()) <= OP_CRNE,
    ensures
        ({
            let instr = pre.cur_instr();
            let op = opcode_of(instr);
            let addr = pre.operand();
            let ip3 = wrap_add(pre.regs.ip, 3);
            let va = pre.regs.spec_get(sel_a_of(instr));
            let vb = pre.regs.spec_get(sel_b_of(instr));
            let cond = if op == OP_BREQ || op == OP_CREQ {
                va == vb
            } else {
                va != vb
            };
            let post = step_result(pre).0;
            let eff = step_result(pre).1;
            &&& cond ==> post.regs.ip == addr
            &&& !cond ==> post.regs.ip == ip3
            &&& (op == OP_CREQ || op == OP_CRNE) && cond ==> post.regs.rp == ip3
            &&& !((op == OP_CREQ || op == OP_CRNE) && cond) ==> post.regs.rp == pre.regs.rp
            &&& post.mem == pre.mem
            &&& post.halted == pre.halted
            &&& post.regs == (Registers { ip: post.regs.ip, rp: post.regs.rp, ..pre.regs })
            &&& eff == StepEffect::Ran
        }),
{
}

/// Law: `RET` redirects `ip` to the current `rp`, unconditionally, and
/// modifies nothing else — not `rp`, not the general registers, not
/// memory, not the halted flag.
pub proof fn lemma_step_ret(pre: MachineView)
    requires
        pre.wf(),
        opcode_of(pre.cur_instr()) == OP_RET,
    ensures
        ({
            let post = step_result(pre).0;
            &&& post.regs == (Registers { ip: pre.regs.rp, ..pre.regs })
            &&& post.mem == pre.mem
            &&& post.halted == pre.halted
            &&& step_result(pre).1 == StepEffect::Ran
        }),
{
}

/// Law: the device is isolated from storage. A store to the device
/// address never mutates the backing memory — the byte goes out as an
/// `Output` effect instead — while a store to any other address goes to
/// storage and produces no device traffic. A load from any ordinary
/// address reads storage and produces no device traffic; only a load
/// from the device address asks the driver for input, and it leaves
/// memory and every general register unchanged.
pub proof fn lemma_step_device_isolation(pre: MachineView)
    requires
        pre.wf(),
        opcode_of(pre.cur_instr()) == OP_LOAD || opcode_of(pre.cur_instr()) == OP_STOR,
    ensures
        ({
            let instr = pre.cur_instr();
            let op = opcode_of(instr);
            let addr = pre.operand();
            let ip3 = wrap_add(pre.regs.ip, 3);
            let a = sel_a_of(instr);
            let va = pre.regs.spec_get(a);
            let post = step_result(pre).0;
            let eff = step_result(pre).1;
            &&& op == OP_STOR && addr == DEV_CHAR ==> post.mem == pre.mem && eff
                == StepEffect::Output(va)
            &&& op == OP_STOR && addr != DEV_CHAR ==> post.mem == pre.mem.update(addr as int, va)
                && eff == StepEffect::Ran
            &&& op == OP_LOAD && addr != DEV_CHAR ==> post.mem == pre.mem && eff == StepEffect::Ran
                && post.regs == (Registers { ip: ip3, ..pre.regs.spec_set(a, pre.mem[addr as int]) })
            &&& op == OP_LOAD && addr == DEV_CHAR ==> post.mem == pre.mem && eff
                == StepEffect::AwaitInput(a) && post.regs == (Registers { ip: ip3, ..pre.regs })
            &&& post.halted == pre.halted
        }),
{
}

} // verus!
