//! Laws of the machine, stated over its views and proved from the
//! definitions of the instructions.

use super::error::VmError;
use super::memory::{low_byte, DeviceRegister, MemoryView, MEMORY_MAX, READY};
use super::ops::{
    add_spec, br_spec, branch_taken, dr, ld_spec, ldi_spec, not_spec, pc_relative, run_op_spec,
    second_operand, sr1, sr2, st_result, st_spec, sti_result, sti_spec, OpCode,
};
use super::registers::ConditionFlag;
use super::trap_vecs::{high_byte, puts_scan, putsp_scan, words_before_display};
use super::{
    fetch_spec, run_result, run_spec, step_result, step_spec, store_words, wrapping_sum, Outcome,
    RunStatus, VmView, Waiting,
};
use vstd::prelude::*;

verus! {

/// The three register fields of an instruction name general-purpose
/// registers.
pub proof fn lemma_register_fields(instr: u16)
    ensures
        dr(instr) < 8,
        sr1(instr) < 8,
        sr2(instr) < 8,
{
    assert((instr >> 9) & 0x7 < 8 && (instr >> 6) & 0x7 < 8 && instr & 0x7 < 8) by (bit_vector);
}

/// Whether the instruction is one of the seven that produce a value for a
/// general-purpose register.
pub open spec fn produces_value(instr: u16) -> bool {
    match OpCode::decode(instr >> 12) {
        Ok(OpCode::Add) | Ok(OpCode::And) | Ok(OpCode::Not) | Ok(OpCode::Ld) | Ok(OpCode::Ldi) | Ok(
            OpCode::Ldr,
        ) | Ok(OpCode::Lea) => true,
        _ => false,
    }
}

/// After an instruction that produces a value for a general-purpose
/// register, the condition register holds the flag of the value that the
/// register now holds. Every other instruction, complete or not, leaves the
/// condition register as it was.
pub proof fn lemma_condition_follows_result(s: VmView, instr: u16)
    requires
        s.wf(),
    ensures
        produces_value(instr) ==> run_op_spec(s, instr).registers.cond == ConditionFlag::of_word(
            run_op_spec(s, instr).gpr(dr(instr)),
        ).encoding(),
        !produces_value(instr) ==> run_op_spec(s, instr).registers.cond == s.registers.cond,
{
    lemma_register_fields(instr);
}

/// Whether the condition register holds one of the three flags, or the 0
/// that it holds in a machine that was just built.
pub open spec fn condition_well_formed(s: VmView) -> bool {
    s.registers.cond == 0 || ConditionFlag::decode(s.registers.cond) is Some
}

/// `PUTS` and `PUTSP` leave storage with one word for each address.
pub proof fn lemma_scan_keeps_shape(memory: MemoryView, address: u16)
    requires
        memory.wf(),
    ensures
        puts_scan(memory, address).0.wf(),
        putsp_scan(memory, address).0.wf(),
    decreases words_before_display(address),
{
    let word = memory.read_value(address);
    let read = memory.after_read(address);
    if word != 0 && low_byte(word) <= 0x7f {
        lemma_scan_keeps_shape(read.after_print(low_byte(word)), wrapping_sum(address, 1));
        if high_byte(word) != 0 && high_byte(word) <= 0x7f {
            lemma_scan_keeps_shape(
                read.after_print(low_byte(word)).after_print(high_byte(word)),
                wrapping_sum(address, 1),
            );
        }
    }
}

/// No step takes the machine out of shape: it keeps eight general-purpose
/// registers and one word of storage for each address, and its condition
/// register holds a flag, or still the 0 of a machine that was just built.
pub proof fn lemma_step_keeps_shape(s: VmView)
    requires
        s.wf(),
        condition_well_formed(s),
    ensures
        step_spec(s).wf(),
        condition_well_formed(step_spec(s)),
{
    if s.waiting == Waiting::Nothing {
        let fetched = fetch_spec(s);
        let instr = s.memory.read_value(s.registers.pc);
        let linked = fetched.with_gpr(7, fetched.registers.pc);
        lemma_register_fields(instr);
        lemma_condition_follows_result(fetched, instr);
        lemma_scan_keeps_shape(linked.memory, linked.gpr(0));
    }
}

/// The fetch/execute loop leaves the machine in shape.
pub proof fn lemma_run_keeps_shape(s: VmView, steps: nat)
    requires
        s.wf(),
        condition_well_formed(s),
    ensures
        run_spec(s, steps).wf(),
        condition_well_formed(run_spec(s, steps)),
    decreases steps,
{
    if s.memory.clock_enabled() && steps > 0 {
        lemma_step_keeps_shape(s);
        if step_result(s) == Ok::<Outcome, VmError>(Outcome::Completed) {
            lemma_run_keeps_shape(step_spec(s), (steps - 1) as nat);
        }
    }
}

/// One access to memory.
pub enum Access {
    Read { address: u16 },
    Write { address: u16, value: u16 },
}

/// The memory after one access.
pub open spec fn access(memory: MemoryView, access: Access) -> MemoryView {
    match access {
        Access::Read { address } => memory.after_read(address),
        Access::Write { address, value } => memory.after_write(address, value),
    }
}

/// The memory after a sequence of accesses, the first one first.
pub open spec fn replay(memory: MemoryView, accesses: Seq<Access>) -> MemoryView
    decreases accesses.len(),
{
    if accesses.len() == 0 {
        memory
    } else {
        access(replay(memory, accesses.drop_last()), accesses.last())
    }
}

/// The value of the last write at `address` among the accesses, if there is
/// one.
pub open spec fn last_written(accesses: Seq<Access>, address: u16) -> Option<u16>
    decreases accesses.len(),
{
    if accesses.len() == 0 {
        None
    } else {
        match accesses.last() {
            Access::Write { address: a, value } if a == address => Some(value),
            _ => last_written(accesses.drop_last(), address),
        }
    }
}

/// At an address that leads to no device register, a read returns the last
/// value written there, whatever was read or written elsewhere in between,
/// and what the memory held at first where nothing was written there: 0 in
/// a memory that was just built.
pub proof fn lemma_read_returns_last_write(memory: MemoryView, accesses: Seq<Access>, address: u16)
    requires
        memory.wf(),
        DeviceRegister::at(address) is None,
    ensures
        replay(memory, accesses).wf(),
        replay(memory, accesses).read_value(address) == (match last_written(accesses, address) {
            Some(value) => value,
            None => memory.cells[address as int],
        }),
        memory.blank() && last_written(accesses, address) is None ==> replay(
            memory,
            accesses,
        ).read_value(address) == 0,
    decreases accesses.len(),
{
    if accesses.len() > 0 {
        lemma_read_returns_last_write(memory, accesses.drop_last(), address);
    }
}

/// A read of the display status register returns `0x8000`, whatever the
/// memory holds, and changes nothing.
pub proof fn lemma_display_always_ready(memory: MemoryView)
    ensures
        memory.read_value(DeviceRegister::DSR_ADDR) == READY,
        memory.after_read(DeviceRegister::DSR_ADDR) == memory,
{
}

/// A write to the keyboard status register, the keyboard data register or
/// the display status register succeeds and changes nothing, so every later
/// read returns what it would have returned without the write.
pub proof fn lemma_read_only_registers(memory: MemoryView, address: u16, value: u16)
    requires
        address == DeviceRegister::KBSR_ADDR || address == DeviceRegister::KBDR_ADDR || address
            == DeviceRegister::DSR_ADDR,
    ensures
        memory.write_result(address, value) is Ok,
        memory.after_write(address, value) == memory,
{
}

/// `PUTS` and `PUTSP` leave the machine control register as it was.
pub proof fn lemma_scan_keeps_clock(memory: MemoryView, address: u16)
    ensures
        puts_scan(memory, address).0.mcr == memory.mcr,
        putsp_scan(memory, address).0.mcr == memory.mcr,
    decreases words_before_display(address),
{
    let word = memory.read_value(address);
    let read = memory.after_read(address);
    if word != 0 && low_byte(word) <= 0x7f {
        lemma_scan_keeps_clock(read.after_print(low_byte(word)), wrapping_sum(address, 1));
        if high_byte(word) != 0 && high_byte(word) <= 0x7f {
            lemma_scan_keeps_clock(
                read.after_print(low_byte(word)).after_print(high_byte(word)),
                wrapping_sum(address, 1),
            );
        }
    }
}

/// A step that does not complete leaves the machine control register as it
/// was.
pub proof fn lemma_incomplete_step_keeps_clock(s: VmView)
    requires
        step_result(s) != Ok::<Outcome, VmError>(Outcome::Completed),
    ensures
        step_spec(s).memory.mcr == s.memory.mcr,
{
    if s.waiting == Waiting::Nothing {
        let fetched = fetch_spec(s);
        let linked = fetched.with_gpr(7, fetched.registers.pc);
        lemma_scan_keeps_clock(linked.memory, linked.gpr(0));
    }
}

/// The fetch/execute loop ends with `Halted` exactly when it leaves the
/// clock-enable bit, bit 15 of the machine control register, cleared. However
/// else it ends, the bit is set and the loop can go on. A machine whose bit
/// is cleared takes no step.
pub proof fn lemma_run_halts_iff_clock_cleared(s: VmView, steps: nat)
    ensures
        !s.memory.clock_enabled() ==> run_spec(s, steps) == s,
        run_result(s, steps) == Ok::<RunStatus, VmError>(RunStatus::Halted) <==> !run_spec(
            s,
            steps,
        ).memory.clock_enabled(),
    decreases steps,
{
    if s.memory.clock_enabled() && steps > 0 {
        if step_result(s) == Ok::<Outcome, VmError>(Outcome::Completed) {
            lemma_run_halts_iff_clock_cleared(step_spec(s), (steps - 1) as nat);
        } else {
            lemma_incomplete_step_keeps_clock(s);
        }
    }
}

/// The words that a program image places in storage: loaded below the device
/// registers, every word of the image stands at its address, the first one at
/// `address`, every other address holds what it held, and no write is
/// refused.
pub proof fn lemma_store_words_in_storage(memory: MemoryView, address: u16, words: Seq<u16>)
    requires
        memory.wf(),
        address + words.len() <= DeviceRegister::KBSR_ADDR,
    ensures
        store_words(memory, address, words) == (
            MemoryView {
                cells: Seq::new(
                    MEMORY_MAX as nat,
                    |a: int|
                        if address <= a < address + words.len() {
                            words[a - address]
                        } else {
                            memory.cells[a]
                        },
                ),
                ..memory
            },
            Ok::<(), VmError>(()),
        ),
    decreases words.len(),
{
    let placed = Seq::new(
        MEMORY_MAX as nat,
        |a: int|
            if address <= a < address + words.len() {
                words[a - address]
            } else {
                memory.cells[a]
            },
    );
    if words.len() == 0 {
    } else {
        let written = memory.after_write(address, words[0]);
        let next = wrapping_sum(address, 1);
        let rest = words.skip(1);
        lemma_store_words_in_storage(written, next, rest);
        let placed_rest = Seq::new(
            MEMORY_MAX as nat,
            |a: int|
                if next <= a < next + rest.len() {
                    rest[a - next]
                } else {
                    written.cells[a]
                },
        );
        assert(placed_rest =~= placed);
    }
}

/// `PUTS` on a string in storage: where non-zero words with ASCII low bytes
/// stand from `address` on, below the device registers, and a word of 0
/// follows the last of them, the routine prints the low byte of each, in
/// order, and nothing else changes.
pub proof fn lemma_puts_prints_string(memory: MemoryView, address: u16, length: nat)
    requires
        memory.wf(),
        address + length < DeviceRegister::KBSR_ADDR,
        forall|k: int|
            0 <= k < length ==> memory.cells[address + k] != 0 && low_byte(
                #[trigger] memory.cells[address + k],
            ) <= 0x7f,
        memory.cells[address + length] == 0,
    ensures
        puts_scan(memory, address) == (
            MemoryView {
                output: memory.output + Seq::new(
                    length,
                    |k: int| low_byte(memory.cells[address + k]),
                ),
                ..memory
            },
            Ok::<(), VmError>(()),
        ),
    decreases length,
{
    let text = Seq::new(length, |k: int| low_byte(memory.cells[address + k]));
    if length == 0 {
    } else {
        let word = memory.cells[address + 0];
        let printed = memory.after_print(low_byte(word));
        let next = wrapping_sum(address, 1);
        assert forall|k: int| 0 <= k < length - 1 implies printed.cells[next + k] != 0 && low_byte(
            #[trigger] printed.cells[next + k],
        ) <= 0x7f by {
            assert(printed.cells[next + k] == memory.cells[address + (k + 1)]);
        }
        lemma_puts_prints_string(printed, next, (length - 1) as nat);
        let rest = Seq::new((length - 1) as nat, |k: int| low_byte(printed.cells[next + k]));
        assert(printed.output + rest =~= memory.output + text);
    }
}

/// The characters packed in `count` words of storage from `address` on: of
/// each word the low byte, then the high byte.
pub open spec fn packed_text(cells: Seq<u16>, address: int, count: nat) -> Seq<u8>
    decreases count,
{
    if count == 0 {
        Seq::empty()
    } else {
        seq![low_byte(cells[address]), high_byte(cells[address])] + packed_text(
            cells,
            address + 1,
            (count - 1) as nat,
        )
    }
}

/// `PUTSP` on a packed string in storage: where `count` words that hold two
/// ASCII characters each stand from `address` on, below the device registers,
/// and the word that follows them is 0 or holds one last ASCII character in
/// its low byte, the routine prints the characters in order, the low byte of
/// each word before its high byte, and nothing else changes.
pub proof fn lemma_putsp_prints_string(memory: MemoryView, address: u16, count: nat)
    requires
        memory.wf(),
        address + count < DeviceRegister::KBSR_ADDR,
        forall|k: int|
            0 <= k < count ==> low_byte(#[trigger] memory.cells[address + k]) <= 0x7f && 0
                < high_byte(memory.cells[address + k]) <= 0x7f,
        memory.cells[address + count] == 0 || (high_byte(memory.cells[address + count]) == 0
            && low_byte(memory.cells[address + count]) <= 0x7f),
    ensures
        putsp_scan(memory, address) == (
            MemoryView {
                output: memory.output + packed_text(memory.cells, address as int, count) + (
                if memory.cells[address + count] == 0 {
                    Seq::<u8>::empty()
                } else {
                    seq![low_byte(memory.cells[address + count])]
                }),
                ..memory
            },
            Ok::<(), VmError>(()),
        ),
    decreases count,
{
    let last = memory.cells[address + count];
    let tail = if last == 0 {
        Seq::<u8>::empty()
    } else {
        seq![low_byte(last)]
    };
    if count == 0 {
        assert(memory.output + packed_text(memory.cells, address as int, count) + tail
            =~= memory.output + tail);
        if last != 0 {
            assert(memory.output + tail =~= memory.output.push(low_byte(last)));
        } else {
            assert(memory.output + tail =~= memory.output);
        }
    } else {
        let word = memory.cells[address + 0];
        assert(word != 0) by {
            assert((word >> 8) as u8 != 0 ==> word != 0) by (bit_vector);
        }
        let printed = memory.after_print(low_byte(word)).after_print(high_byte(word));
        let next = wrapping_sum(address, 1);
        assert forall|k: int| 0 <= k < count - 1 implies low_byte(
            #[trigger] printed.cells[next + k],
        ) <= 0x7f && 0 < high_byte(printed.cells[next + k]) <= 0x7f by {
            assert(printed.cells[next + k] == memory.cells[address + (k + 1)]);
        }
        lemma_putsp_prints_string(printed, next, (count - 1) as nat);
        assert(printed.output + packed_text(printed.cells, next as int, (count - 1) as nat) + tail
            =~= memory.output + packed_text(memory.cells, address as int, count) + tail);
    }
}

/// `ST` and then `LD` with the same offset: the register that `LD` names
/// holds the word that `ST` stored, where the address leads to no device
/// register.
pub proof fn lemma_st_then_ld(s: VmView, st: u16, ld: u16)
    requires
        s.wf(),
        st & 0x1ff == ld & 0x1ff,
        DeviceRegister::at(pc_relative(s, st)) is None,
    ensures
        st_result(s, st) is Ok,
        ld_spec(st_spec(s, st), ld).gpr(dr(ld)) == s.gpr(dr(st)),
{
    lemma_register_fields(st);
    lemma_register_fields(ld);
}

/// `STI` and then `LDI` with the same offset: the register that `LDI` names
/// holds the word that `STI` stored, where neither the address of the
/// indirection word nor the address that it holds leads to a device register,
/// and the indirection word does not hold its own address.
pub proof fn lemma_sti_then_ldi(s: VmView, sti: u16, ldi: u16)
    requires
        s.wf(),
        sti & 0x1ff == ldi & 0x1ff,
        DeviceRegister::at(pc_relative(s, sti)) is None,
        DeviceRegister::at(s.memory.read_value(pc_relative(s, sti))) is None,
        s.memory.read_value(pc_relative(s, sti)) != pc_relative(s, sti),
    ensures
        sti_result(s, sti) is Ok,
        ldi_spec(sti_spec(s, sti), ldi).gpr(dr(ldi)) == s.gpr(dr(sti)),
{
    lemma_register_fields(sti);
    lemma_register_fields(ldi);
}

/// `NOT` of `NOT` gives the word back: after a second `NOT` that reads the
/// register that the first one wrote, the register that it writes holds the
/// word that the first one read.
pub proof fn lemma_not_not(s: VmView, first: u16, second: u16)
    requires
        s.wf(),
        sr1(second) == dr(first),
    ensures
        not_spec(not_spec(s, first), second).gpr(dr(second)) == s.gpr(sr1(first)),
{
    lemma_register_fields(first);
    lemma_register_fields(second);
    let x = s.gpr(sr1(first));
    assert(!(!x) == x) by (bit_vector);
}

/// `ADD` wraps: the destination register holds the sum of the operands
/// modulo 2^16, also where the signed sum overflows, and the condition
/// register holds the flag of that word: `Neg` exactly when its top bit is
/// set.
pub proof fn lemma_add_wraps(s: VmView, instr: u16)
    requires
        s.wf(),
    ensures
        add_spec(s, instr).gpr(dr(instr)) == (s.gpr(sr1(instr)) + second_operand(s, instr))
            % 0x1_0000,
        add_spec(s, instr).registers.cond == ConditionFlag::of_word(
            add_spec(s, instr).gpr(dr(instr)),
        ).encoding(),
        add_spec(s, instr).registers.cond == ConditionFlag::Neg.encoding() <==> add_spec(
            s,
            instr,
        ).gpr(dr(instr)) >= 0x8000,
{
    lemma_register_fields(instr);
}

/// The fetch of the instruction at `0xFFFF` leaves the program counter at
/// `0`; any other fetch leaves it one higher.
pub proof fn lemma_fetch_wraps(s: VmView)
    ensures
        s.registers.pc == 0xffff ==> fetch_spec(s).registers.pc == 0,
        s.registers.pc < 0xffff ==> fetch_spec(s).registers.pc == s.registers.pc + 1,
{
}

/// `BR` with no test bit set never branches; with all three set it always
/// branches; and whenever the condition register holds a flag, it branches
/// exactly when the test bit of that flag is set.
pub proof fn lemma_branch_tests(s: VmView, instr: u16)
    ensures
        dr(instr) == 0b000 ==> br_spec(s, instr) == s,
        dr(instr) == 0b111 ==> br_spec(s, instr) == s.with_pc(pc_relative(s, instr)),
        forall|flag: ConditionFlag|
            s.registers.cond == flag.encoding() ==> (branch_taken(instr, s.registers.cond) <==> dr(
                instr,
            ) & flag.encoding() != 0),
{
    let tests = (instr >> 9) & 0x7;
    assert(((instr >> 11) & 0x1 == 1) <==> (((instr >> 9) & 0x7) & 0b100 != 0)) by (bit_vector);
    assert(((instr >> 10) & 0x1 == 1) <==> (((instr >> 9) & 0x7) & 0b010 != 0)) by (bit_vector);
    assert(((instr >> 9) & 0x1 == 1) <==> (((instr >> 9) & 0x7) & 0b001 != 0)) by (bit_vector);
    assert(tests == 0 ==> tests & 0b100 == 0 && tests & 0b010 == 0 && tests & 0b001 == 0)
        by (bit_vector);
    assert(tests == 7 ==> tests & 0b100 != 0 && tests & 0b010 != 0 && tests & 0b001 != 0)
        by (bit_vector);
}

} // verus!
