//! The execution core: flat byte memory, the memory-mapped character
//! device, and the fetch-decode-execute state machine.
//!
//! This is the richer of the two instruction-set variants: the full
//! opcode nibble is assigned, with conditional calls (`CREQ`/`CRNE`) and
//! `NAND` in place of unconditional jump and call. `CREQ`/`CRNE` record
//! in `rp` the address of the instruction *after* the call, i.e. the
//! value of `ip` once the 16-bit operand has been consumed.
//!
//! The core itself performs no I/O. A step that touches the device
//! address reports the traffic in its [`StepEffect`]; the driver emits
//! the character, or reads one and writes it into the waiting register
//! through [`crate::registers::Registers::set`].

use vstd::prelude::*;
use crate::errors::VmError;
use crate::registers::Registers;

verus! {

/// Number of bytes of backing memory, one for every 16-bit address.
pub const MEM_SIZE: usize = 65536;

/// The reserved device address: reads and writes there are character
/// I/O, not storage.
pub const DEV_CHAR: u16 = 0xFFFF;

pub const OP_HALT: u8 = 0x0;

pub const OP_RET: u8 = 0x1;

pub const OP_SHL: u8 = 0x2;

pub const OP_SHR: u8 = 0x3;

pub const OP_ROL: u8 = 0x4;

pub const OP_ROR: u8 = 0x5;

pub const OP_NAND: u8 = 0x6;

pub const OP_AND: u8 = 0x7;

pub const OP_OR: u8 = 0x8;

pub const OP_XOR: u8 = 0x9;

pub const OP_LOAD: u8 = 0xA;

pub const OP_STOR: u8 = 0xB;

pub const OP_BREQ: u8 = 0xC;

pub const OP_BRNE: u8 = 0xD;

pub const OP_CREQ: u8 = 0xE;

pub const OP_CRNE: u8 = 0xF;

/// 16-bit counter addition with wraparound, the arithmetic of `ip`.
pub open spec fn wrap_add(a: u16, n: u16) -> u16 {
    if a + n > 0xFFFF {
        (a + n - 0x10000) as u16
    } else {
        (a + n) as u16
    }
}

/// The opcode: the high nibble of the instruction byte.
pub open spec fn opcode_of(instr: u8) -> u8 {
    instr >> 4
}

/// The first register selector: bits 3..2 of the instruction byte.
pub open spec fn sel_a_of(instr: u8) -> u8 {
    (instr >> 2) & 0x3
}

/// The second register selector: bits 1..0 of the instruction byte.
pub open spec fn sel_b_of(instr: u8) -> u8 {
    instr & 0x3
}

/// Whether the opcode carries a 16-bit operand: everything above the
/// bitwise-logic group does.
pub open spec fn takes_operand(op: u8) -> bool {
    op > OP_XOR
}

/// Two bytes combined big-endian into a 16-bit value.
pub open spec fn combine_be(hi: u8, lo: u8) -> u16 {
    ((hi as u16) << 8) | (lo as u16)
}

/// Logical shift left by one; bit 7 is discarded.
pub open spec fn shl1(v: u8) -> u8 {
    v << 1
}

/// Logical shift right by one; bit 0 is discarded.
pub open spec fn shr1(v: u8) -> u8 {
    v >> 1
}

/// Rotate left by one; bit 7 wraps around to bit 0.
pub open spec fn rol1(v: u8) -> u8 {
    (v << 1) | (v >> 7)
}

/// Rotate right by one; bit 0 wraps around to bit 7.
pub open spec fn ror1(v: u8) -> u8 {
    (v >> 1) | (v << 7)
}

/// The result an operand-less ALU opcode (`SHL..XOR`) writes back into
/// its first register, from the two selected register values.
pub open spec fn alu(op: u8, a: u8, b: u8) -> u8
    recommends
        OP_SHL <= op <= OP_XOR,
{
    if op == OP_SHL {
        shl1(a)
    } else if op == OP_SHR {
        shr1(a)
    } else if op == OP_ROL {
        rol1(a)
    } else if op == OP_ROR {
        ror1(a)
    } else if op == OP_NAND {
        !(a & b)
    } else if op == OP_AND {
        a & b
    } else if op == OP_OR {
        a | b
    } else {
        a ^ b
    }
}

/// The mathematical state of the machine: memory contents, register
/// file and halted flag.
pub struct MachineView {
    pub mem: Seq<u8>,
    pub regs: Registers,
    pub halted: bool,
}

impl MachineView {
    /// Well-formed state: one backing byte for every 16-bit address.
    pub open spec fn wf(self) -> bool {
        self.mem.len() == MEM_SIZE
    }

    /// The instruction byte that `ip` points at.
    pub open spec fn cur_instr(self) -> u8 {
        self.mem[self.regs.ip as int]
    }

    /// The 16-bit operand of the current instruction: the two bytes
    /// after the opcode byte, combined big-endian.
    pub open spec fn operand(self) -> u16 {
        combine_be(
            self.mem[wrap_add(self.regs.ip, 1) as int],
            self.mem[wrap_add(self.regs.ip, 2) as int],
        )
    }
}

/// What one step asks of the driver, beyond the state change itself.
#[derive(Clone, Copy, Debug, PartialEq, Eq, Structural)]
pub enum StepEffect {
    /// An ordinary instruction ran to completion; nothing external happened.
    Ran,
    /// The halt instruction ran, or the machine was already halted.
    Halted,
    /// A store to the device address: the driver must emit this byte as a
    /// character on the output sink.
    Output(u8),
    /// A load from the device address: the driver must obtain one input
    /// character, echo it, and write its byte value into the general
    /// register this selector picks (the selector is always below 4).
    AwaitInput(u8),
}

/// The transition relation of the machine, as a function: the state and
/// effect that one fetch-decode-execute step produces from `pre`.
/// The halted flag is not consulted here; [`Core::step`] refuses to run
/// a halted machine before applying this relation.
pub open spec fn step_result(pre: MachineView) -> (MachineView, StepEffect) {
    let instr = pre.cur_instr();
    let op = opcode_of(instr);
    let a = sel_a_of(instr);
    let b = sel_b_of(instr);
    let va = pre.regs.spec_get(a);
    let vb = pre.regs.spec_get(b);
    let ip1 = wrap_add(pre.regs.ip, 1);
    if op == OP_HALT {
        (MachineView { regs: Registers { ip: ip1, ..pre.regs }, halted: true, ..pre }, StepEffect::Halted)
    } else if op == OP_RET {
        (MachineView { regs: Registers { ip: pre.regs.rp, ..pre.regs }, ..pre }, StepEffect::Ran)
    } else if !takes_operand(op) {
        (
            MachineView { regs: Registers { ip: ip1, ..pre.regs.spec_set(a, alu(op, va, vb)) }, ..pre },
            StepEffect::Ran,
        )
    } else {
        let addr = pre.operand();
        let ip3 = wrap_add(pre.regs.ip, 3);
        if op == OP_LOAD {
            if addr == DEV_CHAR {
                (MachineView { regs: Registers { ip: ip3, ..pre.regs }, ..pre }, StepEffect::AwaitInput(a))
            } else {
                (
                    MachineView {
                        regs: Registers { ip: ip3, ..pre.regs.spec_set(a, pre.mem[addr as int]) },
                        ..pre
                    },
                    StepEffect::Ran,
                )
            }
        } else if op == OP_STOR {
            if addr == DEV_CHAR {
                (MachineView { regs: Registers { ip: ip3, ..pre.regs }, ..pre }, StepEffect::Output(va))
            } else {
                (
                    MachineView {
                        mem: pre.mem.update(addr as int, va),
                        regs: Registers { ip: ip3, ..pre.regs },
                        ..pre
                    },
                    StepEffect::Ran,
                )
            }
        } else if op == OP_BREQ {
            (
                MachineView { regs: Registers { ip: if va == vb { addr } else { ip3 }, ..pre.regs }, ..pre },
                StepEffect::Ran,
            )
        } else if op == OP_BRNE {
            (
                MachineView { regs: Registers { ip: if va != vb { addr } else { ip3 }, ..pre.regs }, ..pre },
                StepEffect::Ran,
            )
        } else if op == OP_CREQ {
            if va == vb {
                (MachineView { regs: Registers { ip: addr, rp: ip3, ..pre.regs }, ..pre }, StepEffect::Ran)
            } else {
                (MachineView { regs: Registers { ip: ip3, ..pre.regs }, ..pre }, StepEffect::Ran)
            }
        } else {
            if va != vb {
                (MachineView { regs: Registers { ip: addr, rp: ip3, ..pre.regs }, ..pre }, StepEffect::Ran)
            } else {
                (MachineView { regs: Registers { ip: ip3, ..pre.regs }, ..pre }, StepEffect::Ran)
            }
        }
    }
}

/// The execution core: backing memory, register file and halted flag.
///
/// The fields are exposed so that a driver can inspect the halted flag
/// between steps and answer an [`StepEffect::AwaitInput`] through the
/// register file; [`Core::step`] requires only well-formedness
/// ([`Core::wf`]), which holds as long as the memory keeps its length.
pub struct Core {
    pub memory: Vec<u8>,
    pub regs: Registers,
    pub is_halted: bool,
}

impl View for Core {
    type V = MachineView;

    open spec fn view(&self) -> MachineView {
        MachineView { mem: self.memory@, regs: self.regs, halted: self.is_halted }
    }
}

impl Core {
    /// Well-formed core: one backing byte for every 16-bit address.
    pub open spec fn wf(self) -> bool {
        self@.wf()
    }

    /// A fresh core: memory all zero, registers zero, not halted.
    pub fn new() -> (core: Core)
        ensures
            core.wf(),
            core@.regs == (Registers { ip: 0, rp: 0, r0: 0, r1: 0, r2: 0, r3: 0 }),
            !core@.halted,
            forall|i: int| 0 <= i < MEM_SIZE ==> core@.mem[i] == 0,
    {
        let mut memory: Vec<u8> = Vec::new();
        while memory.len() < MEM_SIZE
            invariant
                memory@.len() <= MEM_SIZE,
                forall|i: int| 0 <= i < memory@.len() ==> memory@[i] == 0,
            decreases MEM_SIZE - memory@.len(),
        {
            memory.push(0);
        }
        Core { memory, regs: Registers::new(), is_halted: false }
    }

    /// Copy a program image into memory, starting at address 0; the rest
    /// of memory is untouched. An image longer than the memory is
    /// refused whole with `LoadError`, and nothing changes.
    pub fn load(&mut self, data: &[u8]) -> (res: Result<(), VmError>)
        requires
            old(self).wf(),
        ensures
            final(self).wf(),
            final(self).regs == old(self).regs,
            final(self).is_halted == old(self).is_halted,
            data@.len() <= MEM_SIZE ==> {
                &&& res == Ok::<(), VmError>(())
                &&& forall|i: int| 0 <= i < data@.len() ==> final(self).memory@[i] == data@[i]
                &&& forall|i: int|
                    data@.len() <= i < MEM_SIZE ==> final(self).memory@[i] == old(self).memory@[i]
            },
            data@.len() > MEM_SIZE ==> res == Err::<(), VmError>(VmError::LoadError)
                && final(self).memory@ == old(self).memory@,
    {
        if data.len() > MEM_SIZE {
            return Err(VmError::LoadError);
        }
        let mut i: usize = 0;
        while i < data.len()
            invariant
                self.wf(),
                i <= data@.len() <= MEM_SIZE,
                self.regs == old(self).regs,
                self.is_halted == old(self).is_halted,
                forall|j: int| 0 <= j < i ==> self.memory@[j] == data@[j],
                forall|j: int| i <= j < MEM_SIZE ==> self.memory@[j] == old(self).memory@[j],
            decreases data@.len() - i,
        {
            self.memory.set(i, data[i]);
            i = i + 1;
        }
        Ok(())
    }

    /// Read one byte. An ordinary address returns its backing byte and
    /// never touches the device; the device address has no backing value
    /// to give and asks the driver for an input character instead
    /// (`None`).
    pub fn mem_read(&self, addr: u16) -> (r: Option<u8>)
        requires
            self.wf(),
        ensures
            addr == DEV_CHAR ==> r == None::<u8>,
            addr != DEV_CHAR ==> r == Some(self@.mem[addr as int]),
    {
        if addr == DEV_CHAR {
            None
        } else {
            Some(self.memory[addr as usize])
        }
    }

    /// Write one byte. An ordinary address updates its backing byte; a
    /// write to the device address leaves the backing memory untouched
    /// and hands the byte back for the driver to emit (`Some`).
    pub fn mem_write(&mut self, addr: u16, value: u8) -> (out: Option<u8>)
        requires
            old(self).wf(),
        ensures
            final(self).wf(),
            final(self).regs == old(self).regs,
            final(self).is_halted == old(self).is_halted,
            addr == DEV_CHAR ==> out == Some(value) && final(self).memory@ == old(self).memory@,
            addr != DEV_CHAR ==> out == None::<u8>
                && final(self).memory@ == old(self).memory@.update(addr as int, value),
    {
        if addr == DEV_CHAR {
            Some(value)
        } else {
            self.memory.set(addr as usize, value);
            None
        }
    }

    /// Fetch the byte at `ip` and advance `ip` by one, wrapping.
    fn next_byte(&mut self) -> (v: u8)
        requires
            old(self).wf(),
        ensures
            final(self).wf(),
            v == old(self)@.mem[old(self).regs.ip as int],
            final(self).regs == (Registers { ip: wrap_add(old(self).regs.ip, 1), ..old(self).regs }),
            final(self).memory@ == old(self).memory@,
            final(self).is_halted == old(self).is_halted,
    {
        let value = self.memory[self.regs.ip as usize];
        self.regs.ip = self.regs.ip.wrapping_add(1);
        value
    }

    /// Fetch the two bytes at `ip` and `ip + 1`, advance `ip` by two,
    /// and combine them big-endian.
    fn next_short(&mut self) -> (v: u16)
        requires
            old(self).wf(),
        ensures
            final(self).wf(),
            v == combine_be(
                old(self)@.mem[old(self).regs.ip as int],
                old(self)@.mem[wrap_add(old(self).regs.ip, 1) as int],
            ),
            final(self).regs == (Registers { ip: wrap_add(old(self).regs.ip, 2), ..old(self).regs }),
            final(self).memory@ == old(self).memory@,
            final(self).is_halted == old(self).is_halted,
    {
        let a = self.next_byte();
        let b = self.next_byte();
        ((a as u16) << 8) | (b as u16)
    }

    /// One fetch-decode-execute step.
    ///
    /// On a halted machine this is a no-op that reports `Halted`.
    /// Otherwise the new state and the reported effect are exactly what
    /// the transition relation [`step_result`] gives for the old state.
    pub fn step(&mut self) -> (e: StepEffect)
        requires
            old(self).wf(),
        ensures
            final(self).wf(),
            old(self).is_halted ==> final(self)@ == old(self)@ && e == StepEffect::Halted,
            !old(self).is_halted ==> final(self)@ == step_result(old(self)@).0
                && e == step_result(old(self)@).1,
    {
        if self.is_halted {
            return StepEffect::Halted;
        }
        let ghost pre = self@;
        let instr = self.next_byte();
        let opcode = (instr >> 4) & 0xF;
        let r_a = (instr >> 2) & 0x3;
        let r_b = instr & 0x3;
        proof {
            assert((instr >> 4) & 0xF == instr >> 4) by (bit_vector);
            assert((instr >> 2) & 0x3 < 4) by (bit_vector);
            assert(instr & 0x3 < 4) by (bit_vector);
        }
        let addr = if opcode > OP_XOR {
            self.next_short()
        } else {
            0
        };
        if opcode == OP_HALT {
            self.is_halted = true;
            StepEffect::Halted
        } else if opcode == OP_RET {
            self.regs.ip = self.regs.rp;
            StepEffect::Ran
        } else if opcode <= OP_XOR {
            let val_a = match self.regs.get(r_a) {
                Ok(v) => v,
                Err(_) => unreached(),
            };
            let val_b = match self.regs.get(r_b) {
                Ok(v) => v,
                Err(_) => unreached(),
            };
            let result = if opcode == OP_SHL {
                val_a << 1
            } else if opcode == OP_SHR {
                val_a >> 1
            } else if opcode == OP_ROL {
                (val_a << 1) | (val_a >> 7)
            } else if opcode == OP_ROR {
                (val_a >> 1) | (val_a << 7)
            } else if opcode == OP_NAND {
                !(val_a & val_b)
            } else if opcode == OP_AND {
                val_a & val_b
            } else if opcode == OP_OR {
                val_a | val_b
            } else {
                val_a ^ val_b
            };
            match self.regs.set(r_a, result) {
                Ok(_) => StepEffect::Ran,
                Err(_) => unreached(),
            }
        } else if opcode == OP_LOAD {
            match self.mem_read(addr) {
                Some(value) => {
                    match self.regs.set(r_a, value) {
                        Ok(_) => StepEffect::Ran,
                        Err(_) => unreached(),
                    }
                }
                None => StepEffect::AwaitInput(r_a),
            }
        } else if opcode == OP_STOR {
            let value = match self.regs.get(r_a) {
                Ok(v) => v,
                Err(_) => unreached(),
            };
            match self.mem_write(addr, value) {
                Some(out) => StepEffect::Output(out),
                None => StepEffect::Ran,
            }
        } else {
            let val_a = match self.regs.get(r_a) {
                Ok(v) => v,
                Err(_) => unreached(),
            };
            let val_b = match self.regs.get(r_b) {
                Ok(v) => v,
                Err(_) => unreached(),
            };
            if opcode == OP_BREQ {
                if val_a == val_b {
                    self.regs.ip = addr;
                }
                StepEffect::Ran
            } else if opcode == OP_BRNE {
                if val_a != val_b {
                    self.regs.ip = addr;
                }
                StepEffect::Ran
            } else if opcode == OP_CREQ {
                if val_a == val_b {
                    self.regs.rp = self.regs.ip;
                    self.regs.ip = addr;
                }
                StepEffect::Ran
            } else {
                if val_a != val_b {
                    self.regs.rp = self.regs.ip;
                    self.regs.ip = addr;
                }
                StepEffect::Ran
            }
        }
    }
}

} // verus!
