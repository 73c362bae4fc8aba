//! The assembly language: what instruction each source line stands for.

use vstd::prelude::*;
use crate::emulator::Emulator;
use crate::instruction::{Instruction, InstructionView, Operand, OperandView};
use crate::number::{integer_of, parse_i32};
use crate::text::{
    begins_with, ends_in, ends_with_char, fold, fold_word, is_space, lemma_word_end,
    lemma_words_skip_spaces, spells, starts_with_char, strip_trailing, texts, tokenize,
    trim_trailing, words,
};

verus! {

/// The operations that source text can name.
#[derive(Debug, Clone, Copy, PartialEq, Eq)]
pub enum Mnemonic {
    Mov,
    Swp,
    Save,
    Add,
    Jmp,
    Jez,
    Jnz,
    Jgz,
    Jlz,
    Ret,
}

/// The operation that a folded word names, if any.
pub open spec fn mnemonic_of(folded: Seq<char>) -> Option<Mnemonic> {
    if folded == "mov"@ {
        Some(Mnemonic::Mov)
    } else if folded == "swp"@ {
        Some(Mnemonic::Swp)
    } else if folded == "save"@ {
        Some(Mnemonic::Save)
    } else if folded == "add"@ {
        Some(Mnemonic::Add)
    } else if folded == "jmp"@ {
        Some(Mnemonic::Jmp)
    } else if folded == "jez"@ {
        Some(Mnemonic::Jez)
    } else if folded == "jnz"@ {
        Some(Mnemonic::Jnz)
    } else if folded == "jgz"@ {
        Some(Mnemonic::Jgz)
    } else if folded == "jlz"@ {
        Some(Mnemonic::Jlz)
    } else if folded == "ret"@ {
        Some(Mnemonic::Ret)
    } else {
        None
    }
}

/// The operand that a word with the given folded form stands for: a
/// register where the folded form names one, else an immediate where the word
/// writes an integer, else a label of that name.
pub open spec fn operand_with(word: Seq<char>, folded: Seq<char>) -> OperandView {
    if folded == "acc"@ {
        OperandView::Acc
    } else if folded == "bak"@ {
        OperandView::Bak
    } else {
        match integer_of(word) {
            Some(v) => OperandView::Imm(v),
            None => OperandView::Label(word),
        }
    }
}

/// The operand that a word stands for: a register where the word names one
/// in any letter case, else an immediate where the word writes an integer,
/// else a label of that name.
pub open spec fn operand_of(word: Seq<char>) -> OperandView {
    operand_with(word, fold(word))
}

/// The instruction that the words of a line stand for.
///
/// A line without words, or whose first word begins with `#`, stands for
/// `Nop`. Otherwise the first word decides: a mnemonic, in any letter case,
/// with as many further words as it takes, gives its instruction; a mnemonic
/// with any other number of words gives `Nop`; a word that is no mnemonic and
/// ends in a colon declares the label before the colon, whatever follows it
/// on the line; any other word gives `Nop`.
///
/// No line is refused: one that cannot be read is a line that does nothing.
pub open spec fn decode_words(w: Seq<Seq<char>>) -> InstructionView {
    if w.len() == 0 || begins_with(w[0], '#') {
        InstructionView::Nop
    } else {
        match mnemonic_of(fold(w[0])) {
            Some(Mnemonic::Mov) => if w.len() == 3 {
                InstructionView::Mov(operand_of(strip_trailing(w[1], ',')), operand_of(w[2]))
            } else {
                InstructionView::Nop
            },
            Some(Mnemonic::Add) => if w.len() == 2 {
                InstructionView::Add(operand_of(w[1]))
            } else {
                InstructionView::Nop
            },
            Some(Mnemonic::Jmp) => if w.len() == 2 {
                InstructionView::Jmp(w[1])
            } else {
                InstructionView::Nop
            },
            Some(Mnemonic::Jez) => if w.len() == 2 {
                InstructionView::Jez(w[1])
            } else {
                InstructionView::Nop
            },
            Some(Mnemonic::Jnz) => if w.len() == 2 {
                InstructionView::Jnz(w[1])
            } else {
                InstructionView::Nop
            },
            Some(Mnemonic::Jgz) => if w.len() == 2 {
                InstructionView::Jgz(w[1])
            } else {
                InstructionView::Nop
            },
            Some(Mnemonic::Jlz) => if w.len() == 2 {
                InstructionView::Jlz(w[1])
            } else {
                InstructionView::Nop
            },
            Some(Mnemonic::Swp) => if w.len() == 1 {
                InstructionView::Swp
            } else {
                InstructionView::Nop
            },
            Some(Mnemonic::Save) => if w.len() == 1 {
                InstructionView::Save
            } else {
                InstructionView::Nop
            },
            Some(Mnemonic::Ret) => if w.len() == 1 {
                InstructionView::Ret
            } else {
                InstructionView::Nop
            },
            None => if ends_in(w[0], ':') {
                InstructionView::Label(strip_trailing(w[0], ':'))
            } else {
                InstructionView::Nop
            },
        }
    }
}

/// The instruction that a source line stands for.
pub open spec fn decode_line(line: Seq<char>) -> InstructionView {
    decode_words(words(line))
}

/// A line that holds nothing but separators stands for `Nop`.
pub proof fn lemma_blank_line_is_nop(line: Seq<char>)
    requires
        forall|k: int| 0 <= k < line.len() ==> is_space(#[trigger] line[k]),
    ensures
        decode_line(line) == InstructionView::Nop,
{
    lemma_words_skip_spaces(line, 0, line.len() as int);
}

/// A line whose first character after any separators is `#` stands for
/// `Nop`, whatever follows.
pub proof fn lemma_comment_line_is_nop(line: Seq<char>, at: int)
    requires
        0 <= at < line.len(),
        forall|k: int| 0 <= k < at ==> is_space(#[trigger] line[k]),
        line[at] == '#',
    ensures
        decode_line(line) == InstructionView::Nop,
{
    lemma_words_skip_spaces(line, 0, at);
    lemma_word_end(line, at);
}

impl Mnemonic {
    /// Finds the operation that `word` names, in any letter case.
    pub fn recognise(word: &str) -> (m: Option<Mnemonic>)
        ensures
            m == mnemonic_of(fold(word@)),
    {
        Self::from_folded(&fold_word(word))
    }

    /// Finds the operation that a folded word names.
    pub fn from_folded(folded: &Vec<char>) -> (m: Option<Mnemonic>)
        ensures
            m == mnemonic_of(folded@),
    {
        if spells(folded, "mov") {
            Some(Mnemonic::Mov)
        } else if spells(folded, "swp") {
            Some(Mnemonic::Swp)
        } else if spells(folded, "save") {
            Some(Mnemonic::Save)
        } else if spells(folded, "add") {
            Some(Mnemonic::Add)
        } else if spells(folded, "jmp") {
            Some(Mnemonic::Jmp)
        } else if spells(folded, "jez") {
            Some(Mnemonic::Jez)
        } else if spells(folded, "jnz") {
            Some(Mnemonic::Jnz)
        } else if spells(folded, "jgz") {
            Some(Mnemonic::Jgz)
        } else if spells(folded, "jlz") {
            Some(Mnemonic::Jlz)
        } else if spells(folded, "ret") {
            Some(Mnemonic::Ret)
        } else {
            None
        }
    }
}

/// Builds the instruction that the words of a line stand for.
pub fn decode(w: &Vec<&str>) -> (instr: Instruction)
    ensures
        instr@ == decode_words(texts(w@)),
{
    if w.len() == 0 || starts_with_char(w[0], '#') {
        return Instruction::Nop;
    }
    match Mnemonic::recognise(w[0]) {
        Some(Mnemonic::Mov) => if w.len() == 3 {
            let src = trim_trailing(w[1], ',');
            Instruction::Mov(Emulator::parse_operand(src), Emulator::parse_operand(w[2]))
        } else {
            Instruction::Nop
        },
        Some(Mnemonic::Add) => if w.len() == 2 {
            Instruction::Add(Emulator::parse_operand(w[1]))
        } else {
            Instruction::Nop
        },
        Some(Mnemonic::Jmp) => if w.len() == 2 {
            Instruction::Jmp(w[1].to_owned())
        } else {
            Instruction::Nop
        },
        Some(Mnemonic::Jez) => if w.len() == 2 {
            Instruction::Jez(w[1].to_owned())
        } else {
            Instruction::Nop
        },
        Some(Mnemonic::Jnz) => if w.len() == 2 {
            Instruction::Jnz(w[1].to_owned())
        } else {
            Instruction::Nop
        },
        Some(Mnemonic::Jgz) => if w.len() == 2 {
            Instruction::Jgz(w[1].to_owned())
        } else {
            Instruction::Nop
        },
        Some(Mnemonic::Jlz) => if w.len() == 2 {
            Instruction::Jlz(w[1].to_owned())
        } else {
            Instruction::Nop
        },
        Some(Mnemonic::Swp) => if w.len() == 1 {
            Instruction::Swp
        } else {
            Instruction::Nop
        },
        Some(Mnemonic::Save) => if w.len() == 1 {
            Instruction::Save
        } else {
            Instruction::Nop
        },
        Some(Mnemonic::Ret) => if w.len() == 1 {
            Instruction::Ret
        } else {
            Instruction::Nop
        },
        None => if ends_with_char(w[0], ':') {
            Instruction::Label(trim_trailing(w[0], ':').to_owned())
        } else {
            Instruction::Nop
        },
    }
}

impl Operand {
    /// Reads an operand from a word of source text and the folded form of
    /// that word.
    pub fn from_folded(token: &str, folded: &Vec<char>) -> (operand: Operand)
        ensures
            operand@ == operand_with(token@, folded@),
    {
        if spells(folded, "acc") {
            Operand::Acc
        } else if spells(folded, "bak") {
            Operand::Bak
        } else {
            match parse_i32(token) {
                Some(v) => Operand::Imm(v),
                None => Operand::Label(token.to_owned()),
            }
        }
    }
}

impl Emulator {
    /// Reads an operand from a word of source text.
    pub fn parse_operand(token: &str) -> (operand: Operand)
        ensures
            operand@ == operand_of(token@),
    {
        Operand::from_folded(token, &fold_word(token))
    }

    /// Reads an instruction from a line of source text.
    pub fn parse_line(line: &str) -> (instr: Instruction)
        ensures
            instr@ == decode_line(line@),
    {
        let w = tokenize(line);
        decode(&w)
    }
}

} // verus!
