use tis_emulator::parser::{decode, Mnemonic};
use tis_emulator::number::parse_i32;
use tis_emulator::text::{
    char_is_space, chars_of, ends_with_char, fold_word, spells, starts_with_char, tokenize,
    trim_trailing,
};
use tis_emulator::{Emulator, Instruction, Operand};

fn label(name: &str) -> Operand {
    Operand::Label(name.to_string())
}

#[test]
fn operand_registers_in_any_case() {
    for word in ["acc", "ACC", "Acc", "aCc", "acC", "ACc", "AcC", "aCC"] {
        assert_eq!(Emulator::parse_operand(word), Operand::Acc, "{}", word);
    }
    for word in ["bak", "BAK", "Bak", "bAk", "baK", "BAk", "BaK", "bAK"] {
        assert_eq!(Emulator::parse_operand(word), Operand::Bak, "{}", word);
    }
}

#[test]
fn operand_register_with_letter_outside_ascii() {
    // U+212A, the Kelvin sign, has `k` as its lowercase form.
    assert_eq!(Emulator::parse_operand("ba\u{212A}"), Operand::Bak);
    assert_eq!(Emulator::parse_operand("BA\u{212A}"), Operand::Bak);
    assert_eq!(Emulator::parse_operand("\u{212A}"), label("\u{212A}"));
}

#[test]
fn operand_integers() {
    assert_eq!(Emulator::parse_operand("0"), Operand::Imm(0));
    assert_eq!(Emulator::parse_operand("5"), Operand::Imm(5));
    assert_eq!(Emulator::parse_operand("-5"), Operand::Imm(-5));
    assert_eq!(Emulator::parse_operand("+5"), Operand::Imm(5));
    assert_eq!(Emulator::parse_operand("-0"), Operand::Imm(0));
    assert_eq!(Emulator::parse_operand("007"), Operand::Imm(7));
    assert_eq!(Emulator::parse_operand("1000"), Operand::Imm(1000));
    assert_eq!(Emulator::parse_operand("2147483647"), Operand::Imm(i32::MAX));
    assert_eq!(Emulator::parse_operand("-2147483648"), Operand::Imm(i32::MIN));
    assert_eq!(Emulator::parse_operand("+2147483647"), Operand::Imm(i32::MAX));
    assert_eq!(Emulator::parse_operand("00000000000000000000000012"), Operand::Imm(12));
}

#[test]
fn operand_that_is_no_integer_is_a_label() {
    for word in [
        "2147483648",
        "-2147483649",
        "99999999999999999999999999",
        "-",
        "+",
        "--5",
        "+-5",
        "5-",
        "1_000",
        "0x10",
        "1.5",
        "12a",
        "a12",
        "\u{0663}",
        "loop",
        "accu",
        "ac",
        "bak,",
        "",
    ] {
        assert_eq!(Emulator::parse_operand(word), label(word), "{:?}", word);
    }
}

#[test]
fn parse_i32_agrees_with_the_standard_parser() {
    let words = [
        "", "0", "-0", "+0", "1", "-1", "+1", "42", "-42", "999", "-999", "1000", "2147483647",
        "2147483648", "-2147483648", "-2147483649", "4294967296", "00012", "-00012", "+", "-",
        "++1", "--1", "+-1", "-+1", "1+", "1-", " 1", "1 ", "1 2", "0x1f", "1e3", "१२", "٣", "a",
        "9223372036854775807", "9223372036854775808", "-9223372036854775809",
        "000000000000000000000000000000002147483647", "2147483647000",
    ];
    for word in words {
        assert_eq!(parse_i32(word), word.parse::<i32>().ok(), "{:?}", word);
    }
    for value in [i32::MIN, i32::MIN + 1, -1000, -999, -1, 0, 1, 999, 1000, i32::MAX - 1, i32::MAX] {
        assert_eq!(parse_i32(&value.to_string()), Some(value));
    }
}

#[test]
fn blank_and_comment_lines_are_nop() {
    for line in ["", " ", "\t", "   \t  ", "#", "# a comment", "   # indented", "#mov 1 acc", "\u{a0}"] {
        assert_eq!(Emulator::parse_line(line), Instruction::Nop, "{:?}", line);
    }
}

#[test]
fn mov_takes_two_operands() {
    assert_eq!(Emulator::parse_line("mov 5 acc"), Instruction::Mov(Operand::Imm(5), Operand::Acc));
    assert_eq!(Emulator::parse_line("mov 5, acc"), Instruction::Mov(Operand::Imm(5), Operand::Acc));
    assert_eq!(Emulator::parse_line("mov 5,,, acc"), Instruction::Mov(Operand::Imm(5), Operand::Acc));
    assert_eq!(Emulator::parse_line("  MOV   bak,\tACC  "), Instruction::Mov(Operand::Bak, Operand::Acc));
    assert_eq!(Emulator::parse_line("mov acc bak"), Instruction::Mov(Operand::Acc, Operand::Bak));
    assert_eq!(Emulator::parse_line("mov x y"), Instruction::Mov(label("x"), label("y")));
    assert_eq!(Emulator::parse_line("mov 1 acc,"), Instruction::Mov(Operand::Imm(1), label("acc,")));
    assert_eq!(Emulator::parse_line("mov , acc"), Instruction::Mov(label(""), Operand::Acc));
    assert_eq!(Emulator::parse_line("mov -1000 acc"), Instruction::Mov(Operand::Imm(-1000), Operand::Acc));
}

#[test]
fn add_takes_one_operand() {
    assert_eq!(Emulator::parse_line("add -1"), Instruction::Add(Operand::Imm(-1)));
    assert_eq!(Emulator::parse_line("ADD Bak"), Instruction::Add(Operand::Bak));
    assert_eq!(Emulator::parse_line("add acc"), Instruction::Add(Operand::Acc));
    assert_eq!(Emulator::parse_line("add 5,"), Instruction::Add(label("5,")));
    assert_eq!(Emulator::parse_line("add x"), Instruction::Add(label("x")));
}

#[test]
fn jumps_take_one_label_as_written() {
    let text = |name: &str| name.to_string();
    assert_eq!(Emulator::parse_line("jmp loop"), Instruction::Jmp(text("loop")));
    assert_eq!(Emulator::parse_line("JEZ Loop"), Instruction::Jez(text("Loop")));
    assert_eq!(Emulator::parse_line("jnz LOOP"), Instruction::Jnz(text("LOOP")));
    assert_eq!(Emulator::parse_line("Jgz acc"), Instruction::Jgz(text("acc")));
    assert_eq!(Emulator::parse_line("jlz 12"), Instruction::Jlz(text("12")));
    assert_eq!(Emulator::parse_line("jmp loop:"), Instruction::Jmp(text("loop:")));
}

#[test]
fn bare_mnemonics() {
    assert_eq!(Emulator::parse_line("swp"), Instruction::Swp);
    assert_eq!(Emulator::parse_line("SAVE"), Instruction::Save);
    assert_eq!(Emulator::parse_line(" Ret "), Instruction::Ret);
}

#[test]
fn wrong_number_of_words_is_nop() {
    for line in [
        "mov", "mov 5", "mov 5 acc bak", "add", "add 1 2", "jmp", "jmp a b", "jez", "jez a b",
        "jnz", "jnz a b", "jgz", "jgz a b", "jlz", "jlz a b", "swp acc", "save 1", "ret 0",
        "ret # done",
    ] {
        assert_eq!(Emulator::parse_line(line), Instruction::Nop, "{:?}", line);
    }
}

#[test]
fn unknown_words_are_nop() {
    for line in ["nop", "halt", "move 1 acc", "mov5 acc", "sub 1", "jmpx a", "loop", "1 2 3", "mov: 1 acc"] {
        let expected = if line == "mov: 1 acc" {
            Instruction::Label("mov".to_string())
        } else {
            Instruction::Nop
        };
        assert_eq!(Emulator::parse_line(line), expected, "{:?}", line);
    }
}

#[test]
fn label_declarations() {
    let declared = |name: &str| Instruction::Label(name.to_string());
    assert_eq!(Emulator::parse_line("loop:"), declared("loop"));
    assert_eq!(Emulator::parse_line("  Loop:  "), declared("Loop"));
    assert_eq!(Emulator::parse_line("loop::"), declared("loop"));
    assert_eq!(Emulator::parse_line(":"), declared(""));
    assert_eq!(Emulator::parse_line("a:b:"), declared("a:b"));
    assert_eq!(Emulator::parse_line("loop: add -1"), declared("loop"));
    assert_eq!(Emulator::parse_line("loop: # top"), declared("loop"));
    assert_eq!(Emulator::parse_line("l\u{f6}\u{f6}p:"), declared("l\u{f6}\u{f6}p"));
    assert_eq!(Emulator::parse_line("loop :"), Instruction::Nop);
}

#[test]
fn words_are_split_as_the_standard_library_splits() {
    let lines = [
        "",
        " ",
        "mov 5 acc",
        "  mov   5,\tacc  ",
        "a\u{b}b\u{c}c\rd\ne",
        "a\u{1c}b\u{1f}c",
        "a\u{85}b\u{a0}c\u{1680}d\u{2003}e\u{2028}f\u{3000}g",
        "a\u{200b}b\u{feff}c",
        "\u{3000}jmp\u{a0}loop\u{2009}",
    ];
    for line in lines {
        let expected: Vec<&str> = line.split_whitespace().collect();
        assert_eq!(tokenize(line), expected, "{:?}", line);
    }
    for code in 0u32..0x3100 {
        if let Some(c) = char::from_u32(code) {
            assert_eq!(char_is_space(c), c.is_whitespace(), "U+{:04X}", code);
            let line = format!("a{}b", c);
            let expected: Vec<&str> = line.split_whitespace().collect();
            assert_eq!(tokenize(&line), expected, "U+{:04X}", code);
        }
    }
}

#[test]
fn lines_split_at_spaces_outside_ascii() {
    assert_eq!(
        Emulator::parse_line("mov\u{a0}5\u{2003}acc"),
        Instruction::Mov(Operand::Imm(5), Operand::Acc)
    );
    assert_eq!(Emulator::parse_line("\u{3000}swp\u{3000}"), Instruction::Swp);
}

#[test]
fn folding_agrees_with_the_standard_library() {
    let mut words: Vec<String> = vec![
        "".to_string(),
        "MOV".to_string(),
        "Save".to_string(),
        "jMp".to_string(),
        "A1_z:".to_string(),
        "STRASSE".to_string(),
        "Stra\u{df}e".to_string(),
        "\u{130}".to_string(),
        "\u{3a3}\u{391}\u{3a3}".to_string(),
        "BA\u{212A}".to_string(),
    ];
    for code in 0u32..128 {
        words.push(format!("x{}y", char::from_u32(code).unwrap()));
    }
    for word in words {
        let expected: Vec<char> = word.to_lowercase().chars().collect();
        assert_eq!(fold_word(&word), expected, "{:?}", word);
    }
}

#[test]
fn mnemonics_in_any_case() {
    let table = [
        ("mov", Mnemonic::Mov),
        ("swp", Mnemonic::Swp),
        ("save", Mnemonic::Save),
        ("add", Mnemonic::Add),
        ("jmp", Mnemonic::Jmp),
        ("jez", Mnemonic::Jez),
        ("jnz", Mnemonic::Jnz),
        ("jgz", Mnemonic::Jgz),
        ("jlz", Mnemonic::Jlz),
        ("ret", Mnemonic::Ret),
    ];
    for (word, mnemonic) in table {
        assert_eq!(Mnemonic::recognise(word), Some(mnemonic));
        assert_eq!(Mnemonic::recognise(&word.to_uppercase()), Some(mnemonic));
        let mut mixed = word.to_string();
        mixed[..1].make_ascii_uppercase();
        assert_eq!(Mnemonic::recognise(&mixed), Some(mnemonic));
    }
    for word in ["", "mo", "movv", "acc", "bak", "jm p", "nop", "mov,", "ret:"] {
        assert_eq!(Mnemonic::recognise(word), None, "{:?}", word);
    }
}

#[test]
fn folded_form_alone_decides_keywords() {
    let chars = |text: &str| -> Vec<char> { text.chars().collect() };
    assert_eq!(Mnemonic::from_folded(&chars("mov")), Some(Mnemonic::Mov));
    assert_eq!(Mnemonic::from_folded(&chars("ret")), Some(Mnemonic::Ret));
    assert_eq!(Mnemonic::from_folded(&chars("MOV")), None);
    assert_eq!(Mnemonic::from_folded(&chars("")), None);
    assert_eq!(Operand::from_folded("ACC", &chars("acc")), Operand::Acc);
    assert_eq!(Operand::from_folded("ACC", &chars("ACC")), label("ACC"));
    assert_eq!(Operand::from_folded("Bak", &chars("bak")), Operand::Bak);
    assert_eq!(Operand::from_folded("12", &chars("12")), Operand::Imm(12));
    assert_eq!(Operand::from_folded("Loop", &chars("loop")), label("Loop"));
}

#[test]
fn decode_works_on_words_as_given() {
    assert_eq!(decode(&vec![]), Instruction::Nop);
    assert_eq!(decode(&vec!["mov", "1,", "acc"]), Instruction::Mov(Operand::Imm(1), Operand::Acc));
    assert_eq!(decode(&vec!["jmp", "two words"]), Instruction::Jmp("two words".to_string()));
    assert_eq!(decode(&vec!["#", "mov", "1"]), Instruction::Nop);
    assert_eq!(decode(&vec!["x:", "y"]), Instruction::Label("x".to_string()));
}

#[test]
fn text_helpers() {
    assert_eq!(trim_trailing("5,", ','), "5");
    assert_eq!(trim_trailing("5,,,", ','), "5");
    assert_eq!(trim_trailing(",5", ','), ",5");
    assert_eq!(trim_trailing(",,", ','), "");
    assert_eq!(trim_trailing("", ','), "");
    assert_eq!(trim_trailing("\u{e9}t\u{e9}::", ':'), "\u{e9}t\u{e9}");
    for text in ["", ",", ",,", "a", "a,", "a,,", ",a", "a,b,", "\u{e9},", ",\u{e9}"] {
        assert_eq!(trim_trailing(text, ','), text.trim_end_matches(','), "{:?}", text);
        assert_eq!(starts_with_char(text, ','), text.starts_with(','), "{:?}", text);
        assert_eq!(ends_with_char(text, ','), text.ends_with(','), "{:?}", text);
    }
    assert!(starts_with_char("#x", '#'));
    assert!(!starts_with_char("x#", '#'));
    assert!(!starts_with_char("", '#'));
    assert!(ends_with_char("x:", ':'));
    assert!(!ends_with_char(":x", ':'));
    assert!(!ends_with_char("", ':'));
    let chars: Vec<char> = chars_of("mov");
    assert_eq!(chars, vec!['m', 'o', 'v']);
    assert_eq!(chars_of("l\u{f6}\u{f6}p:"), vec!['l', '\u{f6}', '\u{f6}', 'p', ':']);
    assert!(chars_of("").is_empty());
    assert!(spells(&chars, "mov"));
    assert!(!spells(&chars, "mo"));
    assert!(!spells(&chars, "mow"));
    assert!(!spells(&chars, "movs"));
    assert!(spells(&Vec::new(), ""));
}
