//! A small register machine with an accumulator and a backup register,
//! programmed in a line-oriented assembly language with labels and jumps.
//!
//! [`Emulator::load_program`] reads a program text, one instruction for each
//! line, and [`Emulator::run`] executes it. What a line stands for is
//! [`parser::decode_line`], and what an instruction does is
//! [`machine::Machine::step`]: the executable code is verified against both.
//! What holds of every machine and every line is proved in [`laws`] and
//! [`round_trip`].
//!
//! Two functions of the standard library are taken on trust,
//! `char::is_whitespace` and `str::to_lowercase`. They are asked only about
//! text outside ASCII, and nothing is assumed of their answers: see [`text`].

pub mod emulator;
pub mod error;
pub mod instruction;
pub mod laws;
pub mod machine;
pub mod number;
pub mod parser;
pub mod printer;
pub mod round_trip;
pub mod text;

pub use emulator::{Emulator, RunStatus};
pub use error::{ExecError, RunError};
pub use instruction::{Instruction, Operand};
