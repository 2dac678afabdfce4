//! The trap service routines: terminal input and output, and halt. Each runs
//! in the host, on the state of the machine.

use super::console::print_result;
use super::error::VmError;
use super::memory::{low_byte, DeviceRegister, MemoryView};
use super::registers::RegisterName;
use super::{add_words, wrapping_sum, Lc3Vm, Outcome, VmView, Waiting};
use vstd::prelude::*;
use vstd::string::{is_ascii, is_ascii_spec_bytes, StringSliceAdditionalSpecFns};

verus! {

/// What `IN` prints before it reads.
pub const IN_TROUTINE_PROMPT: &'static str = "Enter a character: ";

/// The prompt of `IN`, byte by byte: nineteen ASCII characters.
pub proof fn lemma_prompt_bytes()
    ensures
        IN_TROUTINE_PROMPT.spec_bytes() == seq![
            0x45u8, 0x6e, 0x74, 0x65, 0x72, 0x20, 0x61, 0x20, 0x63, 0x68, 0x61, 0x72, 0x61, 0x63,
            0x74, 0x65, 0x72, 0x3a, 0x20,
        ],
{
    reveal_strlit("Enter a character: ");
    is_ascii_spec_bytes(IN_TROUTINE_PROMPT);
    assert(is_ascii(IN_TROUTINE_PROMPT));
    assert(IN_TROUTINE_PROMPT.spec_bytes() =~= seq![
        0x45u8, 0x6e, 0x74, 0x65, 0x72, 0x20, 0x61, 0x20, 0x63, 0x68, 0x61, 0x72, 0x61, 0x63,
        0x74, 0x65, 0x72, 0x3a, 0x20,
    ]);
}

/// The high eight bits of a word: the second character of a packed word.
pub open spec fn high_byte(value: u16) -> u8 {
    (value >> 8) as u8
}

/// How many addresses lie between `address` and the display data register,
/// going upwards and round the end of memory. A read of that register
/// returns 0, so no string goes past it.
pub open spec fn words_before_display(address: u16) -> int {
    if address <= DeviceRegister::DDR_ADDR {
        DeviceRegister::DDR_ADDR - address
    } else {
        DeviceRegister::DDR_ADDR + 0x1_0000 - address
    }
}

/// The memory after `PUTS` has printed the string at `address`, and what the
/// routine returns. Words are read one after the other, each through the
/// device registers where its address leads to one. A word of 0 ends the
/// string. The low byte of any other word is printed; where it is above
/// `0x7F`, the routine stops there with `NonAscii`.
pub open spec fn puts_scan(memory: MemoryView, address: u16) -> (MemoryView, Result<(), VmError>)
    decreases words_before_display(address),
{
    let word = memory.read_value(address);
    let read = memory.after_read(address);
    if word == 0 {
        (read, Ok(()))
    } else if low_byte(word) > 0x7f {
        (read, Err(VmError::NonAscii))
    } else {
        puts_scan(read.after_print(low_byte(word)), wrapping_sum(address, 1))
    }
}

/// The memory after `PUTSP` has printed the packed string at `address`, and
/// what the routine returns. A word of 0 ends the string. Of any other word
/// the low byte is printed first, then the high byte; a high byte of 0 ends
/// the string in the middle of the word. The routine stops with `NonAscii`
/// at the first byte above `0x7F`.
pub open spec fn putsp_scan(memory: MemoryView, address: u16) -> (MemoryView, Result<(), VmError>)
    decreases words_before_display(address),
{
    let word = memory.read_value(address);
    let read = memory.after_read(address);
    if word == 0 {
        (read, Ok(()))
    } else if low_byte(word) > 0x7f {
        (read, Err(VmError::NonAscii))
    } else if high_byte(word) == 0 {
        (read.after_print(low_byte(word)), Ok(()))
    } else if high_byte(word) > 0x7f {
        (read.after_print(low_byte(word)), Err(VmError::NonAscii))
    } else {
        putsp_scan(
            read.after_print(low_byte(word)).after_print(high_byte(word)),
            wrapping_sum(address, 1),
        )
    }
}

/// The only error of `PUTS` and of `PUTSP` is `NonAscii`.
pub proof fn lemma_scan_errors(memory: MemoryView, address: u16)
    ensures
        puts_scan(memory, address).1 is Err ==> puts_scan(memory, address).1 == Err::<
            (),
            VmError,
        >(VmError::NonAscii),
        putsp_scan(memory, address).1 is Err ==> putsp_scan(memory, address).1 == Err::<
            (),
            VmError,
        >(VmError::NonAscii),
    decreases words_before_display(address),
{
    let word = memory.read_value(address);
    let read = memory.after_read(address);
    if word != 0 && low_byte(word) <= 0x7f {
        lemma_scan_errors(read.after_print(low_byte(word)), wrapping_sum(address, 1));
        if high_byte(word) != 0 && high_byte(word) <= 0x7f {
            lemma_scan_errors(
                read.after_print(low_byte(word)).after_print(high_byte(word)),
                wrapping_sum(address, 1),
            );
        }
    }
}

/// The machine after a routine has looked for a typed byte: the oldest byte
/// leaves the queue and R0 holds it, zero-extended, and with `echo` the byte
/// is printed as it is. Where no byte is there, the machine waits for one
/// instead, as `otherwise` says.
pub open spec fn read_byte_spec(s: VmView, echo: bool, otherwise: Waiting) -> VmView {
    if s.memory.input.len() > 0 {
        let byte = s.memory.input[0];
        VmView {
            memory: MemoryView {
                input: s.memory.input.skip(1),
                output: if echo {
                    s.memory.output.push(byte)
                } else {
                    s.memory.output
                },
                ..s.memory
            },
            waiting: Waiting::Nothing,
            ..s
        }.with_gpr(0, byte as u16)
    } else {
        VmView { waiting: otherwise, ..s }
    }
}

/// What a routine that looks for a typed byte returns.
pub open spec fn read_byte_outcome(s: VmView) -> Outcome {
    if s.memory.input.len() > 0 {
        Outcome::Completed
    } else {
        Outcome::AwaitingInput
    }
}

/// The machine after `GETC`.
pub open spec fn getc_spec(s: VmView) -> VmView {
    read_byte_spec(s, false, Waiting::Getc)
}

/// The machine after `OUT`.
pub open spec fn out_spec(s: VmView) -> VmView {
    s.with_memory(s.memory.after_print(low_byte(s.gpr(0))))
}

/// The machine after `PUTS`.
pub open spec fn puts_spec(s: VmView) -> VmView {
    s.with_memory(puts_scan(s.memory, s.gpr(0)).0)
}

/// The machine after `IN` has printed its prompt.
pub open spec fn prompted(s: VmView) -> VmView {
    s.with_memory(
        MemoryView { output: s.memory.output + IN_TROUTINE_PROMPT.spec_bytes(), ..s.memory },
    )
}

/// The machine after `IN`.
pub open spec fn in_spec(s: VmView) -> VmView {
    read_byte_spec(prompted(s), true, Waiting::In)
}

/// The machine after `PUTSP`.
pub open spec fn putsp_spec(s: VmView) -> VmView {
    s.with_memory(putsp_scan(s.memory, s.gpr(0)).0)
}

/// The machine after `HALT`.
pub open spec fn halt_spec(s: VmView) -> VmView {
    s.with_memory(MemoryView { mcr: 0, ..s.memory })
}

/// The machine after it was let go on while a routine waited for a byte.
pub open spec fn resume_spec(s: VmView) -> VmView {
    match s.waiting {
        Waiting::Nothing => s,
        Waiting::Getc => read_byte_spec(s, false, Waiting::Getc),
        Waiting::In => read_byte_spec(s, true, Waiting::In),
    }
}

impl Lc3Vm {
    /// Takes the oldest typed byte into R0, with the high eight bits of R0
    /// cleared, and with `echo` prints it.
    fn read_byte(&mut self, echo: bool, otherwise: Waiting) -> (outcome: Outcome)
        ensures
            final(self)@ == read_byte_spec(old(self)@, echo, otherwise),
            outcome == read_byte_outcome(old(self)@),
    {
        match self.memory.take_input() {
            Some(byte) => {
                if echo {
                    let echoed: [u8; 1] = [byte];
                    self.memory.write_all(echoed.as_slice());
                }
                self.registers.set_reg_value(RegisterName::R0, byte as u16);
                self.waiting = Waiting::Nothing;
                Outcome::Completed
            },
            None => {
                self.waiting = otherwise;
                Outcome::AwaitingInput
            },
        }
    }

    /// Read a single character from the keyboard. The character is not echoed
    /// onto the console. Its ASCII code is copied into R0. The high eight bits
    /// of R0 are cleared. Where no character has been typed, the machine
    /// waits for one.
    pub fn getc_troutine(&mut self) -> (outcome: Outcome)
        ensures
            final(self)@ == getc_spec(old(self)@),
            outcome == read_byte_outcome(old(self)@),
    {
        self.read_byte(false, Waiting::Getc)
    }

    /// Write a character in R0[7:0] to the console display.
    pub fn out_troutine(&mut self) -> (printed: Result<(), VmError>)
        ensures
            final(self)@ == out_spec(old(self)@),
            printed == print_result(low_byte(old(self)@.gpr(0))),
    {
        let read_data = self.registers.get_reg_value(RegisterName::R0);
        self.memory.write_ddr(read_data)
    }

    /// Write a string of ASCII characters to the console display. The
    /// characters are contained in consecutive memory locations, one
    /// character per memory location, starting with the address specified in
    /// R0. Writing terminates with the occurrence of x0000 in a memory
    /// location.
    pub fn puts_troutine(&mut self) -> (printed: Result<(), VmError>)
        ensures
            final(self)@ == puts_spec(old(self)@),
            printed == puts_scan(old(self)@.memory, old(self)@.gpr(0)).1,
    {
        let str_start_addr = self.registers.get_reg_value(RegisterName::R0);
        let mut current_addr = str_start_addr;
        let mut printed: Result<(), VmError> = Ok(());
        loop
            invariant_except_break
                printed == Ok::<(), VmError>(()),
                self.registers@ == old(self).registers@,
                self.waiting == old(self).waiting,
                puts_scan(self.memory@, current_addr) == puts_scan(
                    old(self)@.memory,
                    str_start_addr,
                ),
            ensures
                self.registers@ == old(self).registers@,
                self.waiting == old(self).waiting,
                (self.memory@, printed) == puts_scan(old(self)@.memory, str_start_addr),
            decreases words_before_display(current_addr),
        {
            let mem_data = self.memory.read(current_addr);
            // If null character (0) then terminate
            if mem_data == 0 {
                break ;
            }
            assert(mem_data & 0xff <= 0xff) by (bit_vector);
            let char_byte = (mem_data & 0xff) as u8;
            match self.memory.print(char_byte) {
                Err(e) => {
                    printed = Err(e);
                    break ;
                },
                Ok(()) => {},
            }
            current_addr = add_words(current_addr, 1);
        }
        printed
    }

    /// Print a prompt on the screen and read a single character from the
    /// keyboard. The character is echoed onto the console monitor, and its
    /// ASCII code is copied into R0. The high eight bits of R0 are cleared.
    /// Where no character has been typed, the prompt stays printed and the
    /// machine waits for one.
    pub fn in_troutine(&mut self) -> (outcome: Outcome)
        ensures
            final(self)@ == in_spec(old(self)@),
            outcome == read_byte_outcome(old(self)@),
    {
        self.memory.write_all(IN_TROUTINE_PROMPT.as_bytes());
        self.read_byte(true, Waiting::In)
    }

    /// Write a string of ASCII characters to the console. The characters are
    /// contained in consecutive memory locations, two characters per memory
    /// location, starting with the address specified in R0. The ASCII code
    /// contained in bits [7:0] of a memory location is written to the console
    /// first. Then the ASCII code contained in bits [15:8] of that memory
    /// location is written to the console.
    ///
    /// (A character string consisting of an odd number of characters to be
    /// written will have x00 in bits [15:8] of the memory location containing
    /// the last character to be written.)
    ///
    /// Writing terminates with the occurrence of x0000 in a memory location.
    pub fn putsp_troutine(&mut self) -> (printed: Result<(), VmError>)
        ensures
            final(self)@ == putsp_spec(old(self)@),
            printed == putsp_scan(old(self)@.memory, old(self)@.gpr(0)).1,
    {
        let start_address = self.registers.get_reg_value(RegisterName::R0);
        let mut current_address = start_address;
        let mut printed: Result<(), VmError> = Ok(());
        loop
            invariant_except_break
                printed == Ok::<(), VmError>(()),
                self.registers@ == old(self).registers@,
                self.waiting == old(self).waiting,
                putsp_scan(self.memory@, current_address) == putsp_scan(
                    old(self)@.memory,
                    start_address,
                ),
            ensures
                self.registers@ == old(self).registers@,
                self.waiting == old(self).waiting,
                (self.memory@, printed) == putsp_scan(old(self)@.memory, start_address),
            decreases words_before_display(current_address),
        {
            let mem_data = self.memory.read(current_address);
            if mem_data == 0 {
                break ;
            }
            assert(mem_data & 0xff <= 0xff && mem_data >> 8u16 <= 0xff) by (bit_vector);
            let first_char = (mem_data & 0xff) as u8;
            let second_char = (mem_data >> 8) as u8;
            match self.memory.print(first_char) {
                Err(e) => {
                    printed = Err(e);
                    break ;
                },
                Ok(()) => {},
            }
            if second_char == 0 {
                break ;
            }
            match self.memory.print(second_char) {
                Err(e) => {
                    printed = Err(e);
                    break ;
                },
                Ok(()) => {},
            }
            current_address = add_words(current_address, 1);
        }
        printed
    }

    /// Stops the clock, so that the fetch/execute loop ends.
    pub fn halt_troutine(&mut self)
        ensures
            final(self)@ == halt_spec(old(self)@),
    {
        self.memory.clear_mcr();
    }

    /// Lets a routine that waits for a typed byte look for it again.
    pub fn resume(&mut self) -> (outcome: Outcome)
        ensures
            final(self)@ == resume_spec(old(self)@),
            outcome == (if old(self)@.waiting == Waiting::Nothing {
                Outcome::Completed
            } else {
                read_byte_outcome(old(self)@)
            }),
    {
        match self.waiting {
            Waiting::Nothing => Outcome::Completed,
            Waiting::Getc => self.read_byte(false, Waiting::Getc),
            Waiting::In => self.read_byte(true, Waiting::In),
        }
    }
}

} // verus!
