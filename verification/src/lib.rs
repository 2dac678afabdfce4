//! A bit-accurate core of the LC-3 virtual machine.
//!
//! The machine is a deterministic state machine over its register file, its
//! 65,536-word memory, the two device latches, and a console made of a queue
//! of typed bytes and a buffer of printed bytes. Every executable function
//! carries a contract over a mathematical view of that state.

pub mod bitwise_utils;

pub mod vm;
