//! Source text for instructions: the line that spells an instruction.

use vstd::prelude::*;
use vstd::string::StringExecFns;
use crate::instruction::{Instruction, InstructionView, Operand, OperandView};
use crate::number::{decimal_string, decimal_text};
use crate::text::joined;

verus! {

/// The word that spells an operand.
pub open spec fn operand_text(operand: OperandView) -> Seq<char> {
    match operand {
        OperandView::Acc => "acc"@,
        OperandView::Bak => "bak"@,
        OperandView::Imm(v) => decimal_text(v),
        OperandView::Label(name) => name,
    }
}

/// The words that spell an instruction: its mnemonic and its operands. A
/// label declaration is the label and a colon, and `Nop` is no word at all.
pub open spec fn source_words(instr: InstructionView) -> Seq<Seq<char>> {
    match instr {
        InstructionView::Mov(src, dst) => seq!["mov"@, operand_text(src), operand_text(dst)],
        InstructionView::Swp => seq!["swp"@],
        InstructionView::Save => seq!["save"@],
        InstructionView::Add(src) => seq!["add"@, operand_text(src)],
        InstructionView::Jmp(label) => seq!["jmp"@, label],
        InstructionView::Jez(label) => seq!["jez"@, label],
        InstructionView::Jnz(label) => seq!["jnz"@, label],
        InstructionView::Jgz(label) => seq!["jgz"@, label],
        InstructionView::Jlz(label) => seq!["jlz"@, label],
        InstructionView::Ret => seq!["ret"@],
        InstructionView::Label(name) => seq![name.push(':')],
        InstructionView::Nop => Seq::empty(),
    }
}

/// The line that spells an instruction: its words with one space between
/// them.
pub open spec fn source_text(instr: InstructionView) -> Seq<char> {
    joined(source_words(instr))
}

/// Spells a mnemonic and the words that follow it, with one space before
/// each of them.
fn spell(mnemonic: &str, first: Option<&str>, second: Option<&str>) -> (line: String)
    requires
        second is Some ==> first is Some,
    ensures
        line@ == joined(
            match (first, second) {
                (Some(a), Some(b)) => seq![mnemonic@, a@, b@],
                (Some(a), None) => seq![mnemonic@, a@],
                _ => seq![mnemonic@],
            },
        ),
{
    proof {
        reveal_strlit(" ");
    }
    let mut line = mnemonic.to_owned();
    match first {
        Some(a) => {
            line.append(" ");
            line.append(a);
            match second {
                Some(b) => {
                    line.append(" ");
                    line.append(b);
                    proof {
                        let w = seq![mnemonic@, a@, b@];
                        assert(w.drop_first() =~= seq![a@, b@]);
                        assert(w.drop_first().drop_first() =~= seq![b@]);
                        assert(joined(seq![b@]) == b@);
                        assert(joined(seq![a@, b@]) == a@ + seq![' '] + b@);
                    }
                },
                None => {
                    proof {
                        let w = seq![mnemonic@, a@];
                        assert(w.drop_first() =~= seq![a@]);
                        assert(joined(seq![a@]) == a@);
                    }
                },
            }
        },
        None => {},
    }
    line
}

impl Operand {
    /// The word that spells this operand.
    pub fn to_source(&self) -> (word: String)
        ensures
            word@ == operand_text(self@),
    {
        match self {
            Operand::Acc => "acc".to_owned(),
            Operand::Bak => "bak".to_owned(),
            Operand::Imm(v) => decimal_string(*v),
            Operand::Label(name) => name.clone(),
        }
    }
}

impl Instruction {
    /// The line that spells this instruction.
    pub fn to_source(&self) -> (line: String)
        ensures
            line@ == source_text(self@),
    {
        match self {
            Instruction::Mov(src, dst) => {
                let read = src.to_source();
                let written = dst.to_source();
                spell("mov", Some(read.as_str()), Some(written.as_str()))
            },
            Instruction::Swp => spell("swp", None, None),
            Instruction::Save => spell("save", None, None),
            Instruction::Add(src) => {
                let read = src.to_source();
                spell("add", Some(read.as_str()), None)
            },
            Instruction::Jmp(label) => spell("jmp", Some(label.as_str()), None),
            Instruction::Jez(label) => spell("jez", Some(label.as_str()), None),
            Instruction::Jnz(label) => spell("jnz", Some(label.as_str()), None),
            Instruction::Jgz(label) => spell("jgz", Some(label.as_str()), None),
            Instruction::Jlz(label) => spell("jlz", Some(label.as_str()), None),
            Instruction::Ret => spell("ret", None, None),
            Instruction::Label(name) => {
                proof {
                    reveal_strlit(":");
                }
                let mut line = name.clone();
                line.append(":");
                line
            },
            Instruction::Nop => String::new(),
        }
    }
}

} // verus!
