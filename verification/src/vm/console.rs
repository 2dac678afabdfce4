//! The console: bytes typed at the keyboard and not yet read by the machine,
//! and bytes printed by the machine and not yet collected by the host.

use super::error::VmError;
use ascii::AsciiChar;
use std::collections::VecDeque;
use vstd::prelude::*;

verus! {

/// The error of `ascii::AsciiChar::from_ascii`. Nothing is known of what it
/// holds.
#[verifier::external_type_specification]
#[verifier::external_body]
pub struct ExToAsciiCharError(ascii::ToAsciiCharError);

/// Calls `ascii::AsciiChar::from_ascii` on a byte and hands back the code of
/// the character it made, read with `AsciiChar::as_byte`.
///
/// Trusted: the call succeeds exactly on the bytes `0x00..=0x7F`, and the
/// character then has the byte as its code.
#[verifier::external_body]
fn ascii_code(byte: u8) -> (code: Result<u8, ascii::ToAsciiCharError>)
    ensures
        code is Ok <==> byte <= 0x7f,
        code matches Ok(c) ==> c == byte,
{
    match AsciiChar::from_ascii(byte) {
        Ok(ch) => Ok(ch.as_byte()),
        Err(e) => Err(e),
    }
}

/// What a console holds.
#[verifier::ext_equal]
pub struct ConsoleView {
    /// Typed and not yet read, oldest first.
    pub input: Seq<u8>,
    /// Printed and not yet collected, oldest first.
    pub output: Seq<u8>,
}

impl ConsoleView {
    /// The console after an attempt to print `byte`.
    pub open spec fn after_print(self, byte: u8) -> ConsoleView {
        if byte <= 0x7f {
            ConsoleView { output: self.output.push(byte), ..self }
        } else {
            self
        }
    }
}

/// What an attempt to print `byte` returns: only the ASCII characters,
/// `0x00..=0x7F`, can be printed.
pub open spec fn print_result(byte: u8) -> Result<(), VmError> {
    if byte <= 0x7f {
        Ok(())
    } else {
        Err(VmError::NonAscii)
    }
}

pub struct Console {
    input: VecDeque<u8>,
    output: Vec<u8>,
}

impl View for Console {
    type V = ConsoleView;

    closed spec fn view(&self) -> ConsoleView {
        ConsoleView { input: self.input@, output: self.output@ }
    }
}

impl Console {
    pub fn new() -> (console: Console)
        ensures
            console@.input.len() == 0,
            console@.output.len() == 0,
    {
        Console { input: VecDeque::new(), output: Vec::new() }
    }

    /// Queues a byte typed at the keyboard.
    pub fn type_byte(&mut self, byte: u8)
        ensures
            final(self)@ == (ConsoleView { input: old(self)@.input.push(byte), ..old(self)@ }),
    {
        self.input.push_back(byte);
    }

    /// Whether a typed byte waits to be read.
    pub fn has_input(&self) -> (waiting: bool)
        ensures
            waiting == (self@.input.len() > 0),
    {
        self.input.len() > 0
    }

    /// Takes the oldest typed byte, if there is one.
    pub fn poll(&mut self) -> (byte: Option<u8>)
        ensures
            old(self)@.input.len() == 0 ==> byte is None && final(self)@ == old(self)@,
            old(self)@.input.len() > 0 ==> byte == Some(old(self)@.input[0]) && final(self)@ == (
            ConsoleView { input: old(self)@.input.skip(1), ..old(self)@ }),
    {
        let byte = self.input.pop_front();
        byte
    }

    /// Prints one character. A byte above `0x7F` is no ASCII character: it
    /// is refused and nothing is printed.
    pub fn print(&mut self, byte: u8) -> (printed: Result<(), VmError>)
        ensures
            printed == print_result(byte),
            final(self)@ == old(self)@.after_print(byte),
    {
        match ascii_code(byte) {
            Ok(code) => {
                self.output.push(code);
                Ok(())
            },
            Err(_) => Err(VmError::NonAscii),
        }
    }

    /// Appends bytes to what is printed, as they are.
    pub fn write_all(&mut self, bytes: &[u8])
        ensures
            final(self)@ == (ConsoleView { output: old(self)@.output + bytes@, ..old(self)@ }),
    {
        self.output.extend_from_slice(bytes);
    }

    /// Hands over everything printed so far and starts an empty buffer.
    pub fn take_output(&mut self) -> (printed: Vec<u8>)
        ensures
            printed@ == old(self)@.output,
            final(self)@ == (ConsoleView { output: Seq::empty(), ..old(self)@ }),
    {
        let mut printed: Vec<u8> = Vec::new();
        std::mem::swap(&mut printed, &mut self.output);
        printed
    }
}

} // verus!
