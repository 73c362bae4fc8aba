//! The instruction set: operands, instructions, and the mathematical values
//! that contracts speak of in their place.

use vstd::prelude::*;

verus! {

/// Something an instruction reads from or writes to.
#[derive(Debug, PartialEq, Eq)]
pub enum Operand {
    /// The accumulator.
    Acc,
    /// The backup register.
    Bak,
    /// A literal integer.
    Imm(i32),
    /// A name that is neither a register nor a number.
    Label(String),
}

/// An [`Operand`] as contracts see it.
pub enum OperandView {
    Acc,
    Bak,
    Imm(int),
    Label(Seq<char>),
}

impl View for Operand {
    type V = OperandView;

    open spec fn view(&self) -> OperandView {
        match self {
            Operand::Acc => OperandView::Acc,
            Operand::Bak => OperandView::Bak,
            Operand::Imm(v) => OperandView::Imm(*v as int),
            Operand::Label(name) => OperandView::Label(name@),
        }
    }
}

impl Clone for Operand {
    fn clone(&self) -> (copy: Operand)
        ensures
            copy == *self,
    {
        match self {
            Operand::Acc => Operand::Acc,
            Operand::Bak => Operand::Bak,
            Operand::Imm(v) => Operand::Imm(*v),
            Operand::Label(name) => Operand::Label(name.clone()),
        }
    }
}

/// One line of a program.
#[derive(Debug, PartialEq, Eq)]
pub enum Instruction {
    /// Copies the value of the first operand into the second.
    Mov(Operand, Operand),
    /// Exchanges the accumulator and the backup register.
    Swp,
    /// Copies the accumulator into the backup register.
    Save,
    /// Adds the value of the operand to the accumulator.
    Add(Operand),
    /// Jumps to a label.
    Jmp(String),
    /// Jumps to a label if the accumulator is zero.
    Jez(String),
    /// Jumps to a label if the accumulator is not zero.
    Jnz(String),
    /// Jumps to a label if the accumulator is greater than zero.
    Jgz(String),
    /// Jumps to a label if the accumulator is less than zero.
    Jlz(String),
    /// Ends the run.
    Ret,
    /// Declares a label at this line.
    Label(String),
    /// Does nothing.
    Nop,
}

/// An [`Instruction`] as contracts see it.
pub enum InstructionView {
    Mov(OperandView, OperandView),
    Swp,
    Save,
    Add(OperandView),
    Jmp(Seq<char>),
    Jez(Seq<char>),
    Jnz(Seq<char>),
    Jgz(Seq<char>),
    Jlz(Seq<char>),
    Ret,
    Label(Seq<char>),
    Nop,
}

impl View for Instruction {
    type V = InstructionView;

    open spec fn view(&self) -> InstructionView {
        match self {
            Instruction::Mov(src, dst) => InstructionView::Mov(src@, dst@),
            Instruction::Swp => InstructionView::Swp,
            Instruction::Save => InstructionView::Save,
            Instruction::Add(src) => InstructionView::Add(src@),
            Instruction::Jmp(label) => InstructionView::Jmp(label@),
            Instruction::Jez(label) => InstructionView::Jez(label@),
            Instruction::Jnz(label) => InstructionView::Jnz(label@),
            Instruction::Jgz(label) => InstructionView::Jgz(label@),
            Instruction::Jlz(label) => InstructionView::Jlz(label@),
            Instruction::Ret => InstructionView::Ret,
            Instruction::Label(name) => InstructionView::Label(name@),
            Instruction::Nop => InstructionView::Nop,
        }
    }
}

impl Clone for Instruction {
    fn clone(&self) -> (copy: Instruction)
        ensures
            copy == *self,
    {
        match self {
            Instruction::Mov(src, dst) => Instruction::Mov(src.clone(), dst.clone()),
            Instruction::Swp => Instruction::Swp,
            Instruction::Save => Instruction::Save,
            Instruction::Add(src) => Instruction::Add(src.clone()),
            Instruction::Jmp(label) => Instruction::Jmp(label.clone()),
            Instruction::Jez(label) => Instruction::Jez(label.clone()),
            Instruction::Jnz(label) => Instruction::Jnz(label.clone()),
            Instruction::Jgz(label) => Instruction::Jgz(label.clone()),
            Instruction::Jlz(label) => Instruction::Jlz(label.clone()),
            Instruction::Ret => Instruction::Ret,
            Instruction::Label(name) => Instruction::Label(name.clone()),
            Instruction::Nop => Instruction::Nop,
        }
    }
}

/// The instructions of a program as contracts see them.
pub open spec fn program_view(program: Seq<Instruction>) -> Seq<InstructionView> {
    Seq::new(program.len(), |i: int| program[i]@)
}

} // verus!
