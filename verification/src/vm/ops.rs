//! The fifteen instructions of the LC-3: how each is decoded and what each
//! does to the machine.
//!
//! Every handler runs with the program counter already past the instruction
//! that it executes.

use super::error::VmError;
use super::console::print_result;
use super::memory::low_byte;
use super::registers::ConditionFlag;
use super::trap_vecs::{
    getc_spec, halt_spec, in_spec, lemma_scan_errors, out_spec, puts_scan, puts_spec, putsp_scan,
    putsp_spec, read_byte_outcome,
};
use super::{add_words, wrapping_sum, Lc3Vm, Outcome, VmView};
use crate::bitwise_utils::{sign_extend, sign_extend_spec};
use vstd::prelude::*;
use vstd::std_specs::convert::TryFromSpecImpl;

verus! {

#[derive(Clone, Copy, PartialEq, Eq, Structural, Debug)]
pub enum OpCode {
    Add,
    And,
    Br,
    Jmp,
    Jsr,
    Ld,
    Ldi,
    Ldr,
    Lea,
    Not,
    Rti,
    St,
    Sti,
    Str,
    Trap,
}

impl OpCode {
    /// The instruction that the four-bit code `value` names. The code `1101`
    /// is reserved and names none.
    pub open spec fn decode(value: u16) -> Result<OpCode, ()> {
        if value == 0b0001 {
            Ok(OpCode::Add)
        } else if value == 0b0101 {
            Ok(OpCode::And)
        } else if value == 0b0000 {
            Ok(OpCode::Br)
        } else if value == 0b1100 {
            Ok(OpCode::Jmp)
        } else if value == 0b0100 {
            Ok(OpCode::Jsr)
        } else if value == 0b0010 {
            Ok(OpCode::Ld)
        } else if value == 0b1010 {
            Ok(OpCode::Ldi)
        } else if value == 0b0110 {
            Ok(OpCode::Ldr)
        } else if value == 0b1110 {
            Ok(OpCode::Lea)
        } else if value == 0b1001 {
            Ok(OpCode::Not)
        } else if value == 0b1000 {
            Ok(OpCode::Rti)
        } else if value == 0b0011 {
            Ok(OpCode::St)
        } else if value == 0b1011 {
            Ok(OpCode::Sti)
        } else if value == 0b0111 {
            Ok(OpCode::Str)
        } else if value == 0b1111 {
            Ok(OpCode::Trap)
        } else {
            Err(())
        }
    }
}

impl TryFrom<u16> for OpCode {
    // The only reason for a failure is that the code names no instruction
    type Error = ();

    /// Decodes a four-bit code, as `try_from_spec` says.
    fn try_from(value: u16) -> (opcode: Result<OpCode, ()>) {
        let opcode = match value {
            0b0001 => Self::Add,
            0b0101 => Self::And,
            0b0000 => Self::Br,
            0b1100 => Self::Jmp,
            0b0100 => Self::Jsr,
            0b0010 => Self::Ld,
            0b1010 => Self::Ldi,
            0b0110 => Self::Ldr,
            0b1110 => Self::Lea,
            0b1001 => Self::Not,
            0b1000 => Self::Rti,
            0b0011 => Self::St,
            0b1011 => Self::Sti,
            0b0111 => Self::Str,
            0b1111 => Self::Trap,
            _ => return Err(()),
        };
        Ok(opcode)
    }
}

impl TryFromSpecImpl<u16> for OpCode {
    open spec fn obeys_try_from_spec() -> bool {
        true
    }

    open spec fn try_from_spec(value: u16) -> Result<OpCode, ()> {
        OpCode::decode(value)
    }
}

#[derive(Clone, Copy, PartialEq, Eq, Structural, Debug)]
pub enum TrapVector {
    Getc,
    Out,
    Puts,
    In,
    Putsp,
    Halt,
}

impl TrapVector {
    /// The service routine that the eight-bit vector `value` names, from
    /// `0x20` for `GETC` to `0x25` for `HALT`.
    pub open spec fn decode(value: u16) -> Result<TrapVector, ()> {
        if value == 0x20 {
            Ok(TrapVector::Getc)
        } else if value == 0x21 {
            Ok(TrapVector::Out)
        } else if value == 0x22 {
            Ok(TrapVector::Puts)
        } else if value == 0x23 {
            Ok(TrapVector::In)
        } else if value == 0x24 {
            Ok(TrapVector::Putsp)
        } else if value == 0x25 {
            Ok(TrapVector::Halt)
        } else {
            Err(())
        }
    }
}

impl TryFrom<u16> for TrapVector {
    type Error = ();

    /// Decodes an eight-bit trap vector, as `try_from_spec` says.
    fn try_from(value: u16) -> (trap_vec: Result<TrapVector, ()>) {
        let trap_vec = match value {
            0x20 => Self::Getc,
            0x21 => Self::Out,
            0x22 => Self::Puts,
            0x23 => Self::In,
            0x24 => Self::Putsp,
            0x25 => Self::Halt,
            _ => return Err(()),
        };
        Ok(trap_vec)
    }
}

impl TryFromSpecImpl<u16> for TrapVector {
    open spec fn obeys_try_from_spec() -> bool {
        true
    }

    open spec fn try_from_spec(value: u16) -> Result<TrapVector, ()> {
        TrapVector::decode(value)
    }
}

/// Bits [11:9]: the destination register of an instruction that produces a
/// value, the source register of a store.
pub open spec fn dr(instr: u16) -> u16 {
    (instr >> 9) & 0x7
}

/// Bits [8:6]: the first source register, or the base register.
pub open spec fn sr1(instr: u16) -> u16 {
    (instr >> 6) & 0x7
}

/// Bits [2:0]: the second source register.
pub open spec fn sr2(instr: u16) -> u16 {
    instr & 0x7
}

/// Bit [5] of `ADD` and `AND`: set where the second operand is `imm5`.
pub open spec fn immediate_mode(instr: u16) -> bool {
    (instr >> 5) & 0x1 == 1
}

/// Bit [11] of `JSR`: set where the target is relative to the program
/// counter, clear where a register holds it.
pub open spec fn jsr_mode(instr: u16) -> bool {
    (instr >> 11) & 0x1 == 1
}

/// Bits [4:0], sign-extended.
pub open spec fn imm5(instr: u16) -> u16 {
    sign_extend_spec(instr & 0x1f, 5)
}

/// Bits [5:0], sign-extended.
pub open spec fn offset6(instr: u16) -> u16 {
    sign_extend_spec(instr & 0x3f, 6)
}

/// Bits [8:0], sign-extended.
pub open spec fn pc_offset9(instr: u16) -> u16 {
    sign_extend_spec(instr & 0x1ff, 9)
}

/// Bits [10:0], sign-extended.
pub open spec fn pc_offset11(instr: u16) -> u16 {
    sign_extend_spec(instr & 0x7ff, 11)
}

/// Bits [7:0] of `TRAP`.
pub open spec fn trapvect8(instr: u16) -> u16 {
    instr & 0xff
}

/// The three bits of an instruction that start at bit `shift`.
fn register_field(instr: u16, shift: u16) -> (id: u16)
    requires
        shift < 16,
    ensures
        id == (instr >> shift) & 0x7,
        id < 8,
{
    assert((instr >> shift) & 0x7 < 8) by (bit_vector)
        requires
            shift < 16,
    ;
    (instr >> shift) & 0b111
}

/// Whether the bit `bit` of an instruction is set.
fn flag_bit(instr: u16, bit: u16) -> (set: bool)
    requires
        bit < 16,
    ensures
        set == ((instr >> bit) & 0x1 == 1),
{
    ((instr >> bit) & 0b1) == 1
}

/// What an instruction that cannot wait returns.
pub open spec fn completed(done: Result<(), VmError>) -> Result<Outcome, VmError> {
    match done {
        Ok(()) => Ok(Outcome::Completed),
        Err(e) => Err(e),
    }
}

/// The second operand of `ADD` and `AND`.
pub open spec fn second_operand(s: VmView, instr: u16) -> u16 {
    if immediate_mode(instr) {
        imm5(instr)
    } else {
        s.gpr(sr2(instr))
    }
}

/// The machine after `ADD`: the sum modulo 2^16 and its flag.
pub open spec fn add_spec(s: VmView, instr: u16) -> VmView {
    s.with_result(dr(instr), wrapping_sum(s.gpr(sr1(instr)), second_operand(s, instr)))
}

/// The machine after `AND`.
pub open spec fn and_spec(s: VmView, instr: u16) -> VmView {
    s.with_result(dr(instr), s.gpr(sr1(instr)) & second_operand(s, instr))
}

/// The machine after `NOT`.
pub open spec fn not_spec(s: VmView, instr: u16) -> VmView {
    s.with_result(dr(instr), !s.gpr(sr1(instr)))
}

/// Whether `BR` branches: where the test bit of the flag in the condition
/// register is set in the instruction. The form with all three test bits set
/// branches whatever the condition register holds.
pub open spec fn branch_taken(instr: u16, cond: u16) -> bool {
    let n = (instr >> 11) & 0x1 == 1;
    let z = (instr >> 10) & 0x1 == 1;
    let p = (instr >> 9) & 0x1 == 1;
    (n && z && p) || match ConditionFlag::decode(cond) {
        Some(ConditionFlag::Neg) => n,
        Some(ConditionFlag::Zro) => z,
        Some(ConditionFlag::Pos) => p,
        None => false,
    }
}

/// The machine after `BR`.
pub open spec fn br_spec(s: VmView, instr: u16) -> VmView {
    if branch_taken(instr, s.registers.cond) {
        s.with_pc(wrapping_sum(s.registers.pc, pc_offset9(instr)))
    } else {
        s
    }
}

/// The machine after `JMP`.
pub open spec fn jmp_spec(s: VmView, instr: u16) -> VmView {
    s.with_pc(s.gpr(sr1(instr)))
}

/// The machine after `JSR` or `JSRR`: R7 holds the return address, then the
/// program counter moves.
pub open spec fn jsr_spec(s: VmView, instr: u16) -> VmView {
    let linked = s.with_gpr(7, s.registers.pc);
    if jsr_mode(instr) {
        linked.with_pc(wrapping_sum(s.registers.pc, pc_offset11(instr)))
    } else {
        linked.with_pc(linked.gpr(sr1(instr)))
    }
}

/// The machine after the word at `address` is loaded into the register
/// `dest`.
pub open spec fn load_spec(s: VmView, dest: u16, address: u16) -> VmView {
    s.with_memory(s.memory.after_read(address)).with_result(dest, s.memory.read_value(address))
}

/// The address that `LD`, `LEA` and `ST` name, and at which `LDI` and `STI`
/// find the address that they use.
pub open spec fn pc_relative(s: VmView, instr: u16) -> u16 {
    wrapping_sum(s.registers.pc, pc_offset9(instr))
}

/// The address that `LDR` and `STR` name.
pub open spec fn base_relative(s: VmView, instr: u16) -> u16 {
    wrapping_sum(s.gpr(sr1(instr)), offset6(instr))
}

/// The machine after `LD`.
pub open spec fn ld_spec(s: VmView, instr: u16) -> VmView {
    load_spec(s, dr(instr), pc_relative(s, instr))
}

/// The machine after `LDI`.
pub open spec fn ldi_spec(s: VmView, instr: u16) -> VmView {
    let pointer = pc_relative(s, instr);
    load_spec(s.with_memory(s.memory.after_read(pointer)), dr(instr), s.memory.read_value(pointer))
}

/// The machine after `LDR`.
pub open spec fn ldr_spec(s: VmView, instr: u16) -> VmView {
    load_spec(s, dr(instr), base_relative(s, instr))
}

/// The machine after `LEA`: the register holds the address, not the word
/// stored there.
pub open spec fn lea_spec(s: VmView, instr: u16) -> VmView {
    s.with_result(dr(instr), pc_relative(s, instr))
}

/// The machine after `ST`.
pub open spec fn st_spec(s: VmView, instr: u16) -> VmView {
    s.with_memory(s.memory.after_write(pc_relative(s, instr), s.gpr(dr(instr))))
}

/// What `ST` returns.
pub open spec fn st_result(s: VmView, instr: u16) -> Result<(), VmError> {
    s.memory.write_result(pc_relative(s, instr), s.gpr(dr(instr)))
}

/// The machine after `STI`.
pub open spec fn sti_spec(s: VmView, instr: u16) -> VmView {
    let pointer = pc_relative(s, instr);
    s.with_memory(
        s.memory.after_read(pointer).after_write(s.memory.read_value(pointer), s.gpr(dr(instr))),
    )
}

/// What `STI` returns.
pub open spec fn sti_result(s: VmView, instr: u16) -> Result<(), VmError> {
    let pointer = pc_relative(s, instr);
    s.memory.after_read(pointer).write_result(s.memory.read_value(pointer), s.gpr(dr(instr)))
}

/// The machine after `STR`.
pub open spec fn str_spec(s: VmView, instr: u16) -> VmView {
    s.with_memory(s.memory.after_write(base_relative(s, instr), s.gpr(dr(instr))))
}

/// What `STR` returns.
pub open spec fn str_result(s: VmView, instr: u16) -> Result<(), VmError> {
    s.memory.write_result(base_relative(s, instr), s.gpr(dr(instr)))
}

/// The machine after `TRAP`: R7 holds the return address, then the service
/// routine runs. A vector that names no routine changes nothing.
pub open spec fn trap_spec(s: VmView, instr: u16) -> VmView {
    let linked = s.with_gpr(7, s.registers.pc);
    match TrapVector::decode(trapvect8(instr)) {
        Ok(TrapVector::Getc) => getc_spec(linked),
        Ok(TrapVector::Out) => out_spec(linked),
        Ok(TrapVector::Puts) => puts_spec(linked),
        Ok(TrapVector::In) => in_spec(linked),
        Ok(TrapVector::Putsp) => putsp_spec(linked),
        Ok(TrapVector::Halt) => halt_spec(linked),
        Err(_) => s,
    }
}

/// What `TRAP` returns.
pub open spec fn trap_result(s: VmView, instr: u16) -> Result<Outcome, VmError> {
    let linked = s.with_gpr(7, s.registers.pc);
    match TrapVector::decode(trapvect8(instr)) {
        Ok(TrapVector::Getc) => Ok(read_byte_outcome(linked)),
        Ok(TrapVector::Out) => completed(print_result(low_byte(linked.gpr(0)))),
        Ok(TrapVector::Puts) => completed(puts_scan(linked.memory, linked.gpr(0)).1),
        Ok(TrapVector::In) => Ok(read_byte_outcome(linked)),
        Ok(TrapVector::Putsp) => completed(putsp_scan(linked.memory, linked.gpr(0)).1),
        Ok(TrapVector::Halt) => Ok(Outcome::Completed),
        Err(_) => Err(VmError::InvalidTrapVector),
    }
}

/// The machine after the instruction `instr`. `RTI` and the reserved opcode
/// change nothing.
pub open spec fn run_op_spec(s: VmView, instr: u16) -> VmView {
    match OpCode::decode(instr >> 12) {
        Ok(OpCode::Add) => add_spec(s, instr),
        Ok(OpCode::And) => and_spec(s, instr),
        Ok(OpCode::Br) => br_spec(s, instr),
        Ok(OpCode::Jmp) => jmp_spec(s, instr),
        Ok(OpCode::Jsr) => jsr_spec(s, instr),
        Ok(OpCode::Ld) => ld_spec(s, instr),
        Ok(OpCode::Ldi) => ldi_spec(s, instr),
        Ok(OpCode::Ldr) => ldr_spec(s, instr),
        Ok(OpCode::Lea) => lea_spec(s, instr),
        Ok(OpCode::Not) => not_spec(s, instr),
        Ok(OpCode::Rti) => s,
        Ok(OpCode::St) => st_spec(s, instr),
        Ok(OpCode::Sti) => sti_spec(s, instr),
        Ok(OpCode::Str) => str_spec(s, instr),
        Ok(OpCode::Trap) => trap_spec(s, instr),
        Err(_) => s,
    }
}

/// What the execution of the instruction `instr` returns.
pub open spec fn run_op_result(s: VmView, instr: u16) -> Result<Outcome, VmError> {
    match OpCode::decode(instr >> 12) {
        Ok(OpCode::Rti) => Err(VmError::UnsupportedRti),
        Ok(OpCode::St) => completed(st_result(s, instr)),
        Ok(OpCode::Sti) => completed(sti_result(s, instr)),
        Ok(OpCode::Str) => completed(str_result(s, instr)),
        Ok(OpCode::Trap) => trap_result(s, instr),
        Ok(_) => Ok(Outcome::Completed),
        Err(_) => Err(VmError::IllegalOpcode),
    }
}

/// Turns the end of an instruction that cannot wait into the end of any
/// instruction.
fn finish(done: Result<(), VmError>) -> (outcome: Result<Outcome, VmError>)
    ensures
        outcome == completed(done),
{
    match done {
        Ok(()) => Ok(Outcome::Completed),
        Err(e) => Err(e),
    }
}

impl Lc3Vm {
    /// Determine the correct operation to run, and run it.
    pub fn run_op(&mut self, instr: u16) -> (outcome: Result<Outcome, VmError>)
        ensures
            final(self)@ == run_op_spec(old(self)@, instr),
            outcome == run_op_result(old(self)@, instr),
            outcome == Err::<Outcome, VmError>(VmError::IllegalOpcode) <==> instr >> 12 == 0b1101,
            outcome == Err::<Outcome, VmError>(VmError::UnsupportedRti) <==> instr >> 12 == 0b1000,
    {
        let opcode_raw = instr >> 12;
        assert(instr >> 12 < 16) by (bit_vector);
        proof {
            let linked = old(self)@.with_gpr(7, old(self)@.registers.pc);
            lemma_scan_errors(linked.memory, linked.gpr(0));
        }
        match OpCode::try_from(opcode_raw) {
            Err(_) => Err(VmError::IllegalOpcode),
            Ok(opcode) => match opcode {
                OpCode::Add => {
                    self.add_op(instr);
                    Ok(Outcome::Completed)
                },
                OpCode::And => {
                    self.and_op(instr);
                    Ok(Outcome::Completed)
                },
                OpCode::Br => {
                    self.br_op(instr);
                    Ok(Outcome::Completed)
                },
                OpCode::Jmp => {
                    self.jmp_op(instr);
                    Ok(Outcome::Completed)
                },
                OpCode::Jsr => {
                    self.jsr_op(instr);
                    Ok(Outcome::Completed)
                },
                OpCode::Ld => {
                    self.ld_op(instr);
                    Ok(Outcome::Completed)
                },
                OpCode::Ldi => {
                    self.ldi_op(instr);
                    Ok(Outcome::Completed)
                },
                OpCode::Ldr => {
                    self.ldr_op(instr);
                    Ok(Outcome::Completed)
                },
                OpCode::Lea => {
                    self.lea_op(instr);
                    Ok(Outcome::Completed)
                },
                OpCode::Not => {
                    self.not_op(instr);
                    Ok(Outcome::Completed)
                },
                OpCode::Rti => self.rti_op(instr),
                OpCode::St => finish(self.st_op(instr)),
                OpCode::Sti => finish(self.sti_op(instr)),
                OpCode::Str => finish(self.str_op(instr)),
                OpCode::Trap => self.trap_op(instr),
            },
        }
    }

    /// The second operand of `ADD` and `AND`: a register in register mode,
    /// the sign-extended low five bits in immediate mode.
    fn operand(&self, instr: u16) -> (value: u16)
        ensures
            value == second_operand(self@, instr),
    {
        // Check bit[5], if 0 then register mode else immediate mode
        let register_mode = !flag_bit(instr, 5);
        if register_mode {
            let sr2 = register_field(instr, 0);
            assert(instr >> 0u16 == instr) by (bit_vector);
            self.get_reg_val_by_id(sr2)
        } else {
            let imm_val = instr & 0b11111;
            sign_extend(imm_val, 5)
        }
    }

    /// Writes the result of an instruction to a general-purpose register and
    /// its flag to the condition register.
    fn set_result(&mut self, dest_reg: u16, value: u16)
        requires
            dest_reg < 8,
        ensures
            final(self)@ == old(self)@.with_result(dest_reg, value),
    {
        self.set_reg_val_by_id(dest_reg, value);
        let flag = ConditionFlag::parse_u16(value);
        self.registers.set_cond_reg(flag);
    }

    /// Performs the `ADD` operation.
    pub fn add_op(&mut self, instr: u16)
        ensures
            final(self)@ == add_spec(old(self)@, instr),
    {
        let dest_reg = register_field(instr, 9);
        let sr1 = register_field(instr, 6);
        let first_val = self.get_reg_val_by_id(sr1);
        let second_val = self.operand(instr);
        // The operands stand for signed numbers in two's complement, so the
        // sum that wraps round is the correct one.
        let added = add_words(first_val, second_val);
        self.set_result(dest_reg, added);
    }

    /// Performs the `AND` operation.
    pub fn and_op(&mut self, instr: u16)
        ensures
            final(self)@ == and_spec(old(self)@, instr),
    {
        let dest_reg = register_field(instr, 9);
        let sr1 = register_field(instr, 6);
        let val1 = self.get_reg_val_by_id(sr1);
        let val2 = self.operand(instr);
        let result = val1 & val2;
        self.set_result(dest_reg, result);
    }

    /// Performs the `BR` operation, include the `nzp` variants.
    pub fn br_op(&mut self, instr: u16)
        ensures
            final(self)@ == br_spec(old(self)@, instr),
    {
        let test_neg = flag_bit(instr, 11);
        let test_zro = flag_bit(instr, 10);
        let test_pos = flag_bit(instr, 9);

        let offset = sign_extend(instr & 0b111111111, 9);
        let current_pc = self.registers.program_counter();
        let br_address = add_words(current_pc, offset);

        let will_br = (test_neg && test_zro && test_pos) || match self.get_cond_flag() {
            Some(ConditionFlag::Neg) => test_neg,
            Some(ConditionFlag::Zro) => test_zro,
            Some(ConditionFlag::Pos) => test_pos,
            None => false,
        };

        if will_br {
            self.registers.set_program_counter(br_address);
        }
    }

    /// Implements the `JMP` op.
    pub fn jmp_op(&mut self, instr: u16)
        ensures
            final(self)@ == jmp_spec(old(self)@, instr),
    {
        let base_reg = register_field(instr, 6);
        let base_reg_val = self.get_reg_val_by_id(base_reg);
        self.registers.set_program_counter(base_reg_val);
    }

    /// Implements the `JSR` op, and `JSRR` with it.
    pub fn jsr_op(&mut self, instr: u16)
        ensures
            final(self)@ == jsr_spec(old(self)@, instr),
    {
        // Save PC into R7, PC should have been incremented already before
        // calling this op
        let current_pc = self.registers.program_counter();
        self.set_reg_val_by_id(7, current_pc);
        let new_pc_addr = if flag_bit(instr, 11) {
            let offset = sign_extend(instr & 0x7ff, 11);
            add_words(current_pc, offset)
        } else {
            let base_reg = register_field(instr, 6);
            self.get_reg_val_by_id(base_reg)
        };
        self.registers.set_program_counter(new_pc_addr);
    }

    /// The address that `instr` names relative to the program counter.
    fn pc_relative_address(&self, instr: u16) -> (address: u16)
        ensures
            address == pc_relative(self@, instr),
    {
        let offset = sign_extend(instr & 0x1ff, 9);
        let current_pc = self.registers.program_counter();
        add_words(current_pc, offset)
    }

    /// The address that `instr` names relative to its base register.
    fn base_relative_address(&self, instr: u16) -> (address: u16)
        ensures
            address == base_relative(self@, instr),
    {
        let offset = sign_extend(instr & 0x3f, 6);
        let base_reg = register_field(instr, 6);
        let br_val = self.get_reg_val_by_id(base_reg);
        add_words(br_val, offset)
    }

    /// Performs the `LD` operation.
    pub fn ld_op(&mut self, instr: u16)
        ensures
            final(self)@ == ld_spec(old(self)@, instr),
    {
        let dest_reg = register_field(instr, 9);
        let load_addr = self.pc_relative_address(instr);
        let value = self.memory.read(load_addr);
        self.set_result(dest_reg, value);
    }

    /// Performs the `LDI` operation.
    pub fn ldi_op(&mut self, instr: u16)
        ensures
            final(self)@ == ldi_spec(old(self)@, instr),
    {
        let dest_reg = register_field(instr, 9);
        let pointer_address = self.pc_relative_address(instr);
        let final_address = self.memory.read(pointer_address);
        let value = self.memory.read(final_address);
        self.set_result(dest_reg, value);
    }

    /// Performs the `LDR` operation.
    pub fn ldr_op(&mut self, instr: u16)
        ensures
            final(self)@ == ldr_spec(old(self)@, instr),
    {
        let dest_reg = register_field(instr, 9);
        let address = self.base_relative_address(instr);
        let value = self.memory.read(address);
        self.set_result(dest_reg, value);
    }

    /// Performs the `LEA` operation.
    pub fn lea_op(&mut self, instr: u16)
        ensures
            final(self)@ == lea_spec(old(self)@, instr),
    {
        let dest_reg = register_field(instr, 9);
        let address = self.pc_relative_address(instr);
        self.set_result(dest_reg, address);
    }

    /// Performs the `NOT` operation.
    pub fn not_op(&mut self, instr: u16)
        ensures
            final(self)@ == not_spec(old(self)@, instr),
    {
        let sr = register_field(instr, 6);
        let dr = register_field(instr, 9);
        let sr_val = self.get_reg_val_by_id(sr);
        let value = !sr_val;
        self.set_result(dr, value);
    }

    /// Refuses the `RTI` operation: the machine has no supervisor mode.
    pub fn rti_op(&mut self, _instr: u16) -> (outcome: Result<Outcome, VmError>)
        ensures
            final(self)@ == old(self)@,
            outcome == Err::<Outcome, VmError>(VmError::UnsupportedRti),
    {
        Err(VmError::UnsupportedRti)
    }

    /// Performs the `ST` operation.
    pub fn st_op(&mut self, instr: u16) -> (stored: Result<(), VmError>)
        ensures
            final(self)@ == st_spec(old(self)@, instr),
            stored == st_result(old(self)@, instr),
    {
        let sr = register_field(instr, 9);
        let sr_val = self.get_reg_val_by_id(sr);
        let address = self.pc_relative_address(instr);
        self.memory.write(address, sr_val)
    }

    /// Performs the `STI` operation.
    pub fn sti_op(&mut self, instr: u16) -> (stored: Result<(), VmError>)
        ensures
            final(self)@ == sti_spec(old(self)@, instr),
            stored == sti_result(old(self)@, instr),
    {
        let sr = register_field(instr, 9);
        let sr_val = self.get_reg_val_by_id(sr);
        let pointer_address = self.pc_relative_address(instr);
        let final_address = self.memory.read(pointer_address);
        self.memory.write(final_address, sr_val)
    }

    /// Performs the `STR` operation.
    pub fn str_op(&mut self, instr: u16) -> (stored: Result<(), VmError>)
        ensures
            final(self)@ == str_spec(old(self)@, instr),
            stored == str_result(old(self)@, instr),
    {
        let sr = register_field(instr, 9);
        let sr_val = self.get_reg_val_by_id(sr);
        let address = self.base_relative_address(instr);
        self.memory.write(address, sr_val)
    }

    /// Performs the `TRAP` operation: saves the return address in R7 and runs
    /// the service routine that the low eight bits name.
    pub fn trap_op(&mut self, instr: u16) -> (outcome: Result<Outcome, VmError>)
        ensures
            final(self)@ == trap_spec(old(self)@, instr),
            outcome == trap_result(old(self)@, instr),
    {
        let trap_vec_raw = instr & 0xff;
        // Use the enum to parse the raw trap vector code, to make sure it is
        // a valid trap vector code
        match TrapVector::try_from(trap_vec_raw) {
            Err(_) => Err(VmError::InvalidTrapVector),
            Ok(trap_vec) => {
                let current_pc = self.registers.program_counter();
                self.set_reg_val_by_id(7, current_pc);
                match trap_vec {
                    TrapVector::Getc => Ok(self.getc_troutine()),
                    TrapVector::Out => finish(self.out_troutine()),
                    TrapVector::Puts => finish(self.puts_troutine()),
                    TrapVector::In => Ok(self.in_troutine()),
                    TrapVector::Putsp => finish(self.putsp_troutine()),
                    TrapVector::Halt => {
                        self.halt_troutine();
                        Ok(Outcome::Completed)
                    },
                }
            },
        }
    }
}

} // verus!
