//! Laws that tie the reading of source text to its writing.

use vstd::prelude::*;
use vstd::utf8::is_ascii_chars;
use crate::instruction::{InstructionView, OperandView};
use crate::parser::{decode_line, mnemonic_of, operand_of, Mnemonic};
use crate::printer::{operand_text, source_text, source_words};
use crate::number::{
    decimal_text, digits_of, is_digit, lemma_digits_of, lemma_integer_of_decimal_text,
};
use crate::text::{
    begins_with, ends_in, fold, is_space, is_word, lemma_strip_trailing, lemma_words_are_words,
    lemma_words_of_joined, strip_trailing, words,
};

verus! {

/// Whether an operand is one that source text can spell: an immediate fits
/// in an `i32`, and a label is a word that names no register and writes no
/// integer.
pub open spec fn operand_spellable(operand: OperandView) -> bool {
    match operand {
        OperandView::Acc => true,
        OperandView::Bak => true,
        OperandView::Imm(v) => i32::MIN <= v <= i32::MAX,
        OperandView::Label(name) => is_word(name) && operand_of(name) is Label,
    }
}

/// Whether an instruction is one that source text can spell: its operands
/// can be spelled, the label it jumps to is a word, and the label that a move
/// reads from does not end in a comma. A label can be declared where it holds
/// no separator, does not begin with `#`, does not end in a colon, and is with
/// its colon no mnemonic.
pub open spec fn spellable(instr: InstructionView) -> bool {
    match instr {
        InstructionView::Mov(src, dst) => {
            &&& operand_spellable(src)
            &&& operand_spellable(dst)
            &&& !(src matches OperandView::Label(name) && ends_in(name, ','))
        },
        InstructionView::Add(src) => operand_spellable(src),
        InstructionView::Jmp(label) => is_word(label),
        InstructionView::Jez(label) => is_word(label),
        InstructionView::Jnz(label) => is_word(label),
        InstructionView::Jgz(label) => is_word(label),
        InstructionView::Jlz(label) => is_word(label),
        InstructionView::Label(name) => {
            &&& is_word(name.push(':'))
            &&& !begins_with(name.push(':'), '#')
            &&& !ends_in(name, ':')
            &&& mnemonic_of(fold(name.push(':'))) is None
        },
        _ => true,
    }
}

/// A text of lowercase ASCII letters is a word, is its own folded form, and
/// does not begin with `#`.
proof fn lemma_lowercase_word(s: Seq<char>)
    requires
        s.len() > 0,
        forall|i: int| 0 <= i < s.len() ==> 'a' <= #[trigger] s[i] <= 'z',
    ensures
        is_word(s),
        fold(s) == s,
        !begins_with(s, '#'),
        !ends_in(s, ':'),
        !ends_in(s, ','),
{
}

/// The keywords of the language are words that fold to themselves, and
/// each names its own operation or register.
proof fn lemma_keywords()
    ensures
        is_word("mov"@) && mnemonic_of(fold("mov"@)) == Some(Mnemonic::Mov),
        is_word("swp"@) && mnemonic_of(fold("swp"@)) == Some(Mnemonic::Swp),
        is_word("save"@) && mnemonic_of(fold("save"@)) == Some(Mnemonic::Save),
        is_word("add"@) && mnemonic_of(fold("add"@)) == Some(Mnemonic::Add),
        is_word("jmp"@) && mnemonic_of(fold("jmp"@)) == Some(Mnemonic::Jmp),
        is_word("jez"@) && mnemonic_of(fold("jez"@)) == Some(Mnemonic::Jez),
        is_word("jnz"@) && mnemonic_of(fold("jnz"@)) == Some(Mnemonic::Jnz),
        is_word("jgz"@) && mnemonic_of(fold("jgz"@)) == Some(Mnemonic::Jgz),
        is_word("jlz"@) && mnemonic_of(fold("jlz"@)) == Some(Mnemonic::Jlz),
        is_word("ret"@) && mnemonic_of(fold("ret"@)) == Some(Mnemonic::Ret),
        is_word("acc"@) && operand_of("acc"@) == OperandView::Acc,
        is_word("bak"@) && operand_of("bak"@) == OperandView::Bak,
        !begins_with("mov"@, '#') && !begins_with("swp"@, '#') && !begins_with("save"@, '#'),
        !begins_with("add"@, '#') && !begins_with("jmp"@, '#') && !begins_with("jez"@, '#'),
        !begins_with("jnz"@, '#') && !begins_with("jgz"@, '#') && !begins_with("jlz"@, '#'),
        !begins_with("ret"@, '#'),
        strip_trailing("acc"@, ',') == "acc"@,
        strip_trailing("bak"@, ',') == "bak"@,
{
    reveal_strlit("mov");
    reveal_strlit("swp");
    reveal_strlit("save");
    reveal_strlit("add");
    reveal_strlit("jmp");
    reveal_strlit("jez");
    reveal_strlit("jnz");
    reveal_strlit("jgz");
    reveal_strlit("jlz");
    reveal_strlit("ret");
    reveal_strlit("acc");
    reveal_strlit("bak");
    lemma_lowercase_word("mov"@);
    lemma_lowercase_word("swp"@);
    lemma_lowercase_word("save"@);
    lemma_lowercase_word("add"@);
    lemma_lowercase_word("jmp"@);
    lemma_lowercase_word("jez"@);
    lemma_lowercase_word("jnz"@);
    lemma_lowercase_word("jgz"@);
    lemma_lowercase_word("jlz"@);
    lemma_lowercase_word("ret"@);
    lemma_lowercase_word("acc"@);
    lemma_lowercase_word("bak"@);
    assert("jmp"@[1] == 'm' && "jez"@[1] == 'e' && "jnz"@[1] == 'n' && "jgz"@[1] == 'g');
}

/// The text of an integer is a word that stands for that integer as an
/// operand.
proof fn lemma_decimal_operand(v: int)
    requires
        i32::MIN <= v <= i32::MAX,
    ensures
        is_word(decimal_text(v)),
        operand_of(decimal_text(v)) == OperandView::Imm(v),
        strip_trailing(decimal_text(v), ',') == decimal_text(v),
{
    let t = decimal_text(v);
    lemma_digits_of(if v < 0 { (-v) as nat } else { v as nat });
    assert(forall|i: int| 0 <= i < t.len() ==> is_digit(#[trigger] t[i]) || t[i] == '-');
    assert(is_digit(t.last()));
    reveal_strlit("acc");
    reveal_strlit("bak");
    assert("acc"@[0] == 'a' && "bak"@[0] == 'b');
    lemma_integer_of_decimal_text(v);
}

/// An operand that can be spelled is spelled by a word, and that word
/// stands for the operand.
proof fn lemma_operand_round_trip(operand: OperandView)
    requires
        operand_spellable(operand),
    ensures
        is_word(operand_text(operand)),
        operand_of(operand_text(operand)) == operand,
        !(operand matches OperandView::Label(name) && ends_in(name, ',')) ==> strip_trailing(
            operand_text(operand),
            ',',
        ) == operand_text(operand),
{
    lemma_keywords();
    if let OperandView::Imm(v) = operand {
        lemma_decimal_operand(v);
    }
}

/// Reading the line that spells an instruction gives the instruction back.
pub proof fn lemma_source_round_trip(instr: InstructionView)
    requires
        spellable(instr),
    ensures
        decode_line(source_text(instr)) == instr,
{
    lemma_keywords();
    let w = source_words(instr);
    match instr {
        InstructionView::Mov(src, dst) => {
            lemma_operand_round_trip(src);
            lemma_operand_round_trip(dst);
        },
        InstructionView::Add(src) => {
            lemma_operand_round_trip(src);
        },
        InstructionView::Label(name) => {
            assert(name.push(':').drop_last() =~= name);
            assert(strip_trailing(name, ':') == name);
        },
        _ => {},
    }
    assert(forall|i: int| 0 <= i < w.len() ==> is_word(#[trigger] w[i]));
    lemma_words_of_joined(w);
}

/// Whether an instruction is a move, an addition or a jump.
pub open spec fn moves_adds_or_jumps(instr: InstructionView) -> bool {
    instr is Mov || instr is Add || instr is Jmp || instr is Jez || instr is Jnz || instr is Jgz
        || instr is Jlz
}

/// Whether an instruction is a move that reads from a label without a name.
/// A line such as `mov , acc` stands for one, and no line spells it.
pub open spec fn reads_nameless_label(instr: InstructionView) -> bool {
    instr matches InstructionView::Mov(OperandView::Label(name), _) && name.len() == 0
}

/// The operand that a word stands for can be spelled.
proof fn lemma_operand_of_word(word: Seq<char>)
    requires
        is_word(word),
    ensures
        operand_spellable(operand_of(word)),
{
}

/// A move, an addition or a jump that a line stands for can be spelled,
/// but for a move that reads from a label without a name.
pub proof fn lemma_decoded_is_spellable(line: Seq<char>)
    requires
        moves_adds_or_jumps(decode_line(line)),
        !reads_nameless_label(decode_line(line)),
    ensures
        spellable(decode_line(line)),
{
    let w = words(line);
    lemma_words_are_words(line, 0);
    match decode_line(line) {
        InstructionView::Mov(src, dst) => {
            lemma_operand_of_word(w[2]);
            let read = strip_trailing(w[1], ',');
            lemma_strip_trailing(w[1], ',');
            assert(forall|i: int| 0 <= i < read.len() ==> !is_space(#[trigger] read[i]));
            if read.len() > 0 {
                lemma_operand_of_word(read);
            } else {
                reveal_strlit("acc");
                reveal_strlit("bak");
            }
        },
        InstructionView::Add(src) => {
            lemma_operand_of_word(w[1]);
        },
        _ => {},
    }
}

/// To read a line, write down the instruction it stands for and read that
/// again gives the same instruction, where the instruction is a move, an
/// addition or a jump, but for a move that reads from a label without a name.
pub proof fn lemma_decode_round_trip(line: Seq<char>)
    requires
        moves_adds_or_jumps(decode_line(line)),
        !reads_nameless_label(decode_line(line)),
    ensures
        decode_line(source_text(decode_line(line))) == decode_line(line),
{
    lemma_decoded_is_spellable(line);
    lemma_source_round_trip(decode_line(line));
}

} // verus!
