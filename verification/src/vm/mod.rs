//! The virtual machine and its fetch/execute loop.

pub mod console;
pub mod error;
pub mod laws;
pub mod memory;
pub mod ops;
pub mod registers;
pub mod trap_vecs;

use error::VmError;
use memory::{Memory, MemoryView};
use ops::{run_op_result, run_op_spec};
use registers::{
    ConditionFlag, RegisterName, Registers, RegistersView, GENERAL_REGISTER_COUNT,
};
use trap_vecs::{read_byte_outcome, resume_spec};
use vstd::pervasive::unreached;
use vstd::prelude::*;
use vstd::slice::slice_subrange;

verus! {

/// A trap routine that has asked for a typed byte and found none.
#[derive(Clone, Copy, PartialEq, Eq, Structural, Debug)]
pub enum Waiting {
    /// No routine waits.
    Nothing,
    /// `GETC` waits for the byte that it is to place in R0.
    Getc,
    /// `IN` has printed its prompt and waits for the byte that it is to echo
    /// and to place in R0.
    In,
}

/// What the attempt to execute one instruction led to.
#[derive(Clone, Copy, PartialEq, Eq, Structural, Debug)]
pub enum Outcome {
    /// The instruction was executed.
    Completed,
    /// A trap routine needs a typed byte and the keyboard queue is empty.
    /// The machine waits: the host types a byte and lets the machine go on.
    AwaitingInput,
}

/// Why the fetch/execute loop has handed control back without a fault.
#[derive(Clone, Copy, PartialEq, Eq, Structural, Debug)]
pub enum RunStatus {
    /// The clock is disabled: the program has halted.
    Halted,
    /// A trap routine waits for a typed byte.
    AwaitingInput,
    /// The clock is enabled and the steps that were granted are used up.
    StepLimit,
}

/// The sum of two words, modulo 2^16.
pub open spec fn wrapping_sum(a: u16, b: u16) -> u16 {
    ((a + b) % 0x1_0000) as u16
}

/// Adds two words, modulo 2^16.
pub fn add_words(a: u16, b: u16) -> (sum: u16)
    ensures
        sum == wrapping_sum(a, b),
{
    a.wrapping_add(b)
}

/// What a machine holds.
#[verifier::ext_equal]
pub struct VmView {
    pub registers: RegistersView,
    pub memory: MemoryView,
    pub waiting: Waiting,
}

impl VmView {
    pub open spec fn wf(self) -> bool {
        self.registers.wf() && self.memory.wf()
    }

    /// The word in the general-purpose register `id`.
    pub open spec fn gpr(self, id: u16) -> u16 {
        self.registers.general[id as int]
    }

    /// The machine after `value` is written to the general-purpose register
    /// `id`, the condition register left as it is.
    pub open spec fn with_gpr(self, id: u16, value: u16) -> VmView {
        VmView {
            registers: RegistersView {
                general: self.registers.general.update(id as int, value),
                ..self.registers
            },
            ..self
        }
    }

    /// The machine after an instruction has produced `value` for the
    /// general-purpose register `id`: the register holds the value and the
    /// condition register holds the flag of the value.
    pub open spec fn with_result(self, id: u16, value: u16) -> VmView {
        VmView {
            registers: RegistersView {
                general: self.registers.general.update(id as int, value),
                cond: ConditionFlag::of_word(value).encoding(),
                ..self.registers
            },
            ..self
        }
    }

    /// The machine after a jump to `pc`.
    pub open spec fn with_pc(self, pc: u16) -> VmView {
        VmView { registers: RegistersView { pc, ..self.registers }, ..self }
    }

    /// The machine with another memory.
    pub open spec fn with_memory(self, memory: MemoryView) -> VmView {
        VmView { memory, ..self }
    }
}

/// The word made of two bytes, the high byte first.
pub open spec fn be_word(high: u8, low: u8) -> u16 {
    (high * 0x100 + low) as u16
}

/// The address at which a program image asks to be placed: its first word.
pub open spec fn image_origin(image: Seq<u8>) -> u16 {
    be_word(image[0], image[1])
}

/// The words of a program image that follow its origin.
pub open spec fn image_words(image: Seq<u8>) -> Seq<u16> {
    Seq::new(
        ((image.len() - 2) / 2) as nat,
        |k: int| be_word(image[2 + 2 * k], image[2 + 2 * k + 1]),
    )
}

/// Whether a program image holds an origin and then whole words.
pub open spec fn image_well_formed(image: Seq<u8>) -> bool {
    image.len() >= 2 && image.len() % 2 == 0
}

/// Whether a program of `program_len` words fits between `origin` and the
/// end of memory: whether its last word has an address.
pub open spec fn program_fits(program_len: int, origin: u16) -> bool {
    program_len <= 0 || origin + (program_len - 1) <= 0xffff
}

/// Whether the words of a program image fit between its origin and the end
/// of memory.
pub open spec fn image_fits(image: Seq<u8>) -> bool {
    program_fits(image_words(image).len() as int, image_origin(image))
}

/// The memory after `words` are written at `address` and the addresses that
/// follow it, and what the last write returned. Each word is written as a
/// store instruction would write it, through the device registers where its
/// address leads to one; the first write that is refused ends the loading.
pub open spec fn store_words(memory: MemoryView, address: u16, words: Seq<u16>) -> (
    MemoryView,
    Result<(), VmError>,
)
    decreases words.len(),
{
    if words.len() == 0 {
        (memory, Ok(()))
    } else {
        match memory.write_result(address, words[0]) {
            Err(e) => (memory, Err(e)),
            Ok(()) => store_words(
                memory.after_write(address, words[0]),
                wrapping_sum(address, 1),
                words.skip(1),
            ),
        }
    }
}

/// What `load_program` returns for a program image.
pub open spec fn load_result(memory: MemoryView, image: Seq<u8>) -> Result<(), VmError> {
    if !image_well_formed(image) {
        Err(VmError::MalformedImage)
    } else if !image_fits(image) {
        Err(VmError::LoadOverflow)
    } else {
        store_words(memory, image_origin(image), image_words(image)).1
    }
}

/// The machine after `load_program` on a program image. An image that is
/// refused before its first word is written changes nothing; the program
/// counter moves to the origin only when every word is in place.
pub open spec fn load_spec(s: VmView, image: Seq<u8>) -> VmView {
    if !image_well_formed(image) || !image_fits(image) {
        s
    } else {
        let loaded = s.with_memory(
            store_words(s.memory, image_origin(image), image_words(image)).0,
        );
        if load_result(s.memory, image) is Ok {
            loaded.with_pc(image_origin(image))
        } else {
            loaded
        }
    }
}

/// The machine after the fetch of an instruction: the word at the program
/// counter is read, and the program counter moves to the next address, from
/// `0xFFFF` to `0`.
pub open spec fn fetch_spec(s: VmView) -> VmView {
    s.with_memory(s.memory.after_read(s.registers.pc)).with_pc(wrapping_sum(s.registers.pc, 1))
}

/// The machine after one step. A machine that waits for a typed byte looks
/// for the byte again; any other machine fetches the instruction at the
/// program counter and executes it.
pub open spec fn step_spec(s: VmView) -> VmView {
    if s.waiting != Waiting::Nothing {
        resume_spec(s)
    } else {
        run_op_spec(fetch_spec(s), s.memory.read_value(s.registers.pc))
    }
}

/// What one step returns.
pub open spec fn step_result(s: VmView) -> Result<Outcome, VmError> {
    if s.waiting != Waiting::Nothing {
        Ok(read_byte_outcome(s))
    } else {
        run_op_result(fetch_spec(s), s.memory.read_value(s.registers.pc))
    }
}

/// The machine after the fetch/execute loop has run for at most `steps`
/// steps: it steps while the clock is enabled, and stops at the first step
/// that does not complete.
pub open spec fn run_spec(s: VmView, steps: nat) -> VmView
    decreases steps,
{
    if !s.memory.clock_enabled() || steps == 0 {
        s
    } else {
        match step_result(s) {
            Ok(Outcome::Completed) => run_spec(step_spec(s), (steps - 1) as nat),
            _ => step_spec(s),
        }
    }
}

/// What the fetch/execute loop returns after at most `steps` steps.
pub open spec fn run_result(s: VmView, steps: nat) -> Result<RunStatus, VmError>
    decreases steps,
{
    if !s.memory.clock_enabled() {
        Ok(RunStatus::Halted)
    } else if steps == 0 {
        Ok(RunStatus::StepLimit)
    } else {
        match step_result(s) {
            Ok(Outcome::Completed) => run_result(step_spec(s), (steps - 1) as nat),
            Ok(Outcome::AwaitingInput) => Ok(RunStatus::AwaitingInput),
            Err(e) => Err(e),
        }
    }
}

pub struct Lc3Vm {
    pub registers: Registers,
    pub memory: Memory,
    pub waiting: Waiting,
}

impl View for Lc3Vm {
    type V = VmView;

    open spec fn view(&self) -> VmView {
        VmView { registers: self.registers@, memory: self.memory@, waiting: self.waiting }
    }
}

impl Lc3Vm {
    /// The address at which a machine that was just built starts to execute.
    pub const DEFAULT_PC_START: u16 = 0x3000;

    /// A machine with zeros in its registers and its memory, the program
    /// counter at `0x3000`, the clock enabled and an empty console.
    pub fn new() -> (vm: Lc3Vm)
        ensures
            vm@.wf(),
            vm@.registers.pc == Lc3Vm::DEFAULT_PC_START,
            vm@.registers.cond == 0,
            forall|i: int| 0 <= i < GENERAL_REGISTER_COUNT ==> vm@.registers.general[i] == 0,
            vm@.memory.blank(),
            vm@.waiting == Waiting::Nothing,
    {
        let registers = Registers::new();
        let memory = Memory::new();
        let mut vm = Self { registers, memory, waiting: Waiting::Nothing };
        vm.registers.set_program_counter(Self::DEFAULT_PC_START);
        vm
    }

    /// Load a compiled LC3 program for execution.
    ///
    /// A given LC3 program will have its first 16 bits set to the memory
    /// address where the start of the program instructions should be loaded
    /// to. Subsequent bytes are then the program instructions. The program
    /// counter is left at that address.
    pub fn load_program(&mut self, image: &[u8]) -> (loaded: Result<(), VmError>)
        ensures
            final(self)@ == load_spec(old(self)@, image@),
            loaded == load_result(old(self)@.memory, image@),
    {
        let len = image.len();
        if len < 2 || len % 2 != 0 {
            return Err(VmError::MalformedImage);
        }
        // Read the origin first
        let origin = Self::read_u16(slice_subrange(image, 0, 2));
        let program_len = (len - 2) / 2;
        if Self::validate_file_len(program_len as u64, origin).is_err() {
            return Err(VmError::LoadOverflow);
        }
        let ghost words = image_words(image@);
        let mut current_address = origin;
        let mut index: usize = 2;
        assert(words.skip(0) =~= words);
        while index < len
            invariant
                2 <= index <= len,
                index % 2 == 0,
                len == image@.len(),
                image_well_formed(image@),
                image_fits(image@),
                origin == image_origin(image@),
                words == image_words(image@),
                self.registers@ == old(self).registers@,
                self.waiting == old(self).waiting,
                store_words(self.memory@, current_address, words.skip((index - 2) / 2))
                    == store_words(old(self)@.memory, origin, words),
            decreases len - index,
        {
            let mem_data = Self::read_u16(slice_subrange(image, index, index + 2));
            assert(words.skip((index - 2) / 2).skip(1) =~= words.skip((index + 2 - 2) / 2));
            match self.memory.write(current_address, mem_data) {
                Err(e) => {
                    return Err(e);
                },
                Ok(()) => {},
            }
            current_address = add_words(current_address, 1);
            index += 2;
        }
        self.registers.set_program_counter(origin);
        Ok(())
    }

    /// Reads the first two bytes of a slice as one word. A program file
    /// holds its words with the high byte first.
    pub fn read_u16(program_data_slice: &[u8]) -> (word: u16)
        requires
            program_data_slice@.len() >= 2,
        ensures
            word == be_word(program_data_slice@[0], program_data_slice@[1]),
    {
        let high = program_data_slice[0];
        let low = program_data_slice[1];
        assert(((high as u16) << 8) | (low as u16) == high * 0x100 + low) by (bit_vector);
        ((high as u16) << 8) | (low as u16)
    }

    /// Validate that the program is small enough to fit in the memory of the
    /// LC3 VM, from the address `origin` on. `program_len` is the number of
    /// words that follow the origin in the program file, and comes back in
    /// the error.
    pub fn validate_file_len(program_len: u64, origin: u16) -> (valid: Result<(), u64>)
        ensures
            valid == (if program_fits(program_len as int, origin) {
                Ok::<(), u64>(())
            } else {
                Err::<(), u64>(program_len)
            }),
    {
        if program_len > (u16::MAX - origin) as u64 + 1 {
            Err(program_len)
        } else {
            Ok(())
        }
    }

    /// Executes one step: fetches the instruction at the program counter,
    /// moves the program counter past it and executes the instruction. Where
    /// a trap routine waits for a typed byte, the step lets the routine look
    /// for the byte instead.
    pub fn step(&mut self) -> (outcome: Result<Outcome, VmError>)
        ensures
            final(self)@ == step_spec(old(self)@),
            outcome == step_result(old(self)@),
    {
        match self.waiting {
            Waiting::Nothing => {
                let instr = self.memory.read(self.registers.program_counter());
                self.registers.increment_program_counter();
                // First 4 bits of an instruction are the opcodes
                self.run_op(instr)
            },
            _ => Ok(self.resume()),
        }
    }

    /// The fetch/execute loop: steps while the clock is enabled, for at most
    /// `max_steps` steps, and stops at the first step that does not
    /// complete.
    pub fn run(&mut self, max_steps: u64) -> (status: Result<RunStatus, VmError>)
        ensures
            final(self)@ == run_spec(old(self)@, max_steps as nat),
            status == run_result(old(self)@, max_steps as nat),
    {
        let mut remaining = max_steps;
        while remaining > 0 && self.running()
            invariant
                run_spec(self@, remaining as nat) == run_spec(old(self)@, max_steps as nat),
                run_result(self@, remaining as nat) == run_result(old(self)@, max_steps as nat),
            decreases remaining,
        {
            match self.step() {
                Ok(Outcome::Completed) => {},
                Ok(Outcome::AwaitingInput) => {
                    return Ok(RunStatus::AwaitingInput);
                },
                Err(e) => {
                    return Err(e);
                },
            }
            remaining -= 1;
        }
        if self.running() {
            Ok(RunStatus::StepLimit)
        } else {
            Ok(RunStatus::Halted)
        }
    }

    /// Queues bytes typed at the keyboard, for the keyboard status register
    /// and the trap routines to find.
    pub fn type_bytes(&mut self, bytes: &[u8])
        ensures
            final(self)@ == old(self)@.with_memory(
                MemoryView { input: old(self)@.memory.input + bytes@, ..old(self)@.memory },
            ),
    {
        let mut index: usize = 0;
        while index < bytes.len()
            invariant
                index <= bytes@.len(),
                self.registers@ == old(self).registers@,
                self.waiting == old(self).waiting,
                self.memory@ == (MemoryView {
                    input: old(self)@.memory.input + bytes@.take(index as int),
                    ..old(self)@.memory
                }),
            decreases bytes@.len() - index,
        {
            self.memory.type_byte(bytes[index]);
            index += 1;
        }
    }

    /// Hands over everything that the machine has printed since the last
    /// call.
    pub fn take_output(&mut self) -> (printed: Vec<u8>)
        ensures
            printed@ == old(self)@.memory.output,
            final(self)@ == old(self)@.with_memory(
                MemoryView { output: Seq::empty(), ..old(self)@.memory },
            ),
    {
        self.memory.take_output()
    }

    /// Every machine holds eight general-purpose registers and one word of
    /// storage for each address.
    pub proof fn lemma_view_wf(&self)
        ensures
            self@.wf(),
    {
        self.registers.lemma_view_wf();
        self.memory.lemma_view_wf();
    }

    /// Whether the clock is enabled, that is whether the machine has not
    /// halted.
    pub fn running(&self) -> (running: bool)
        ensures
            running == self@.memory.clock_enabled(),
    {
        !self.memory.mcr_is_cleared()
    }

    /// The word in the general-purpose register with the three-bit number
    /// `reg_id`.
    pub fn get_reg_val_by_id(&self, reg_id: u16) -> (value: u16)
        requires
            reg_id < 8,
        ensures
            value == self@.gpr(reg_id),
    {
        match RegisterName::from(reg_id) {
            Some(register) => self.registers.get_reg_value(register),
            None => unreached(),
        }
    }

    /// Writes the general-purpose register with the three-bit number
    /// `reg_id`. The condition register is left as it is.
    pub fn set_reg_val_by_id(&mut self, reg_id: u16, value: u16)
        requires
            reg_id < 8,
        ensures
            final(self)@ == old(self)@.with_gpr(reg_id, value),
    {
        match RegisterName::from(reg_id) {
            Some(register) => self.registers.set_reg_value(register, value),
            None => unreached(),
        }
    }

    /// The flag in the condition register, if the register holds one.
    pub fn get_cond_flag(&self) -> (flag: Option<ConditionFlag>)
        ensures
            flag == ConditionFlag::decode(self@.registers.cond),
    {
        let flag_reg_val = self.registers.cond_reg();
        ConditionFlag::from(flag_reg_val)
    }
}

} // verus!
