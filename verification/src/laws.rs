//! Laws of the machine: what holds of every state and every program.

use vstd::prelude::*;
use crate::error::ExecErrorView;
use crate::instruction::{InstructionView, OperandView};
use crate::machine::{in_register_range, label_table, Machine};

verus! {

/// The machine after it has added each of `values` to the accumulator, from
/// the first to the last.
pub open spec fn after_adds(m: Machine, values: Seq<int>) -> Machine
    decreases values.len(),
{
    if values.len() == 0 {
        m
    } else {
        after_adds(m, values.drop_last()).step(
            InstructionView::Add(OperandView::Imm(values.last())),
        )->Ok_0
    }
}

/// Whatever the machine held before, after an `Add` or a `Mov` into the
/// accumulator that succeeds the accumulator lies in the register range.
pub proof fn lemma_accumulator_clamped(m: Machine, instr: InstructionView)
    requires
        instr is Add || (instr matches InstructionView::Mov(_, dst) && dst is Acc),
        m.step(instr) is Ok,
    ensures
        in_register_range(m.step(instr)->Ok_0.acc),
{
}

/// After any sequence of additions, however long and of whatever values,
/// the accumulator lies in the register range.
pub proof fn lemma_adds_clamped(m: Machine, values: Seq<int>)
    requires
        values.len() > 0,
    ensures
        in_register_range(after_adds(m, values).acc),
{
}

/// No instruction takes a register out of the register range.
pub proof fn lemma_step_keeps_registers_in_range(m: Machine, instr: InstructionView)
    requires
        m.registers_in_range(),
        m.step(instr) is Ok,
    ensures
        m.step(instr)->Ok_0.registers_in_range(),
{
}

/// No run takes a register out of the register range.
pub proof fn lemma_run_keeps_registers_in_range(m: Machine, steps: nat)
    requires
        m.registers_in_range(),
    ensures
        m.run(steps).machine.registers_in_range(),
    decreases steps,
{
    if steps > 0 && !m.halted() {
        if let Ok(next) = m.step(m.current()) {
            lemma_step_keeps_registers_in_range(m, m.current());
            lemma_run_keeps_registers_in_range(next, (steps - 1) as nat);
        }
    }
}

/// A move into the backup register fails whatever its source, and so does
/// every instruction that reads a label as a value. A failed instruction has
/// no successor state.
pub proof fn lemma_misuse_rejected(m: Machine, src: OperandView, dst: OperandView, name: Seq<char>)
    ensures
        m.step(InstructionView::Mov(src, OperandView::Bak)) is Err,
        m.step(InstructionView::Mov(OperandView::Label(name), dst)) is Err,
        m.step(InstructionView::Add(OperandView::Label(name))) is Err,
        m.write(OperandView::Bak, 0) is Err,
        m.read(OperandView::Label(name)) is Err,
{
}

/// Two swaps in a row give both registers their first values back.
pub proof fn lemma_swap_twice(m: Machine)
    ensures
        m.step(InstructionView::Swp) is Ok,
        m.step(InstructionView::Swp)->Ok_0.step(InstructionView::Swp) == Ok::<Machine, ExecErrorView>(
            Machine { pc: m.pc + 2, ..m },
        ),
{
}

/// What the label table of a program holds: the labels that some line
/// declares, each bound to the last line that declares it.
pub proof fn lemma_label_table(program: Seq<InstructionView>, name: Seq<char>)
    ensures
        label_table(program).contains_key(name) <==> exists|i: int|
            0 <= i < program.len() && program[i] == InstructionView::Label(name),
        label_table(program).contains_key(name) ==> {
            let line = label_table(program)[name] as int;
            &&& line < program.len()
            &&& program[line] == InstructionView::Label(name)
            &&& forall|j: int| line < j < program.len() ==> program[j] != InstructionView::Label(name)
        },
    decreases program.len(),
{
    if program.len() > 0 {
        let earlier = program.drop_last();
        let last = program.len() - 1;
        lemma_label_table(earlier, name);
        if program[last] != InstructionView::Label(name) {
            if label_table(program).contains_key(name) {
                let line = label_table(earlier)[name] as int;
                assert forall|j: int| line < j < program.len() implies program[j]
                    != InstructionView::Label(name) by {
                    if j < last {
                        assert(earlier[j] == program[j]);
                    }
                }
            }
            if exists|i: int| 0 <= i < program.len() && program[i] == InstructionView::Label(name) {
                let i = choose|i: int| 0 <= i < program.len() && program[i] == InstructionView::Label(name);
                assert(earlier[i] == InstructionView::Label(name));
            }
        }
    }
}

/// An unconditional jump to a label sets the program counter to the line
/// that declares the label (the last such line, where there are several),
/// whatever the accumulator holds, and changes nothing else.
pub proof fn lemma_jump_lands_on_declaration(m: Machine, acc: int, label: Seq<char>, line: int)
    requires
        m.labels == label_table(m.program),
        0 <= line < m.program.len(),
        m.program[line] == InstructionView::Label(label),
        forall|j: int| line < j < m.program.len() ==> m.program[j] != InstructionView::Label(label),
    ensures
        (Machine { acc, ..m }).step(InstructionView::Jmp(label)) == Ok::<Machine, ExecErrorView>(
            Machine { acc, pc: line as nat, ..m },
        ),
{
    lemma_label_table(m.program, label);
}

/// A jump to a label that no line declares fails.
pub proof fn lemma_jump_to_unknown_label(m: Machine, label: Seq<char>)
    requires
        m.labels == label_table(m.program),
        forall|j: int| 0 <= j < m.program.len() ==> m.program[j] != InstructionView::Label(label),
    ensures
        m.step(InstructionView::Jmp(label)) == Err::<Machine, ExecErrorView>(
            ExecErrorView::UnknownLabel(label),
        ),
{
    lemma_label_table(m.program, label);
}

/// In a machine whose label table is that of its program, no instruction
/// executed on a line of the program takes the program counter further than
/// just past the last line.
pub proof fn lemma_counter_stays_in_program(m: Machine, instr: InstructionView)
    requires
        m.labels == label_table(m.program),
        m.pc < m.program.len(),
        m.step(instr) is Ok,
    ensures
        m.step(instr)->Ok_0.pc <= m.program.len(),
{
    match instr {
        InstructionView::Jmp(label) => lemma_label_table(m.program, label),
        InstructionView::Jez(label) => lemma_label_table(m.program, label),
        InstructionView::Jnz(label) => lemma_label_table(m.program, label),
        InstructionView::Jgz(label) => lemma_label_table(m.program, label),
        InstructionView::Jlz(label) => lemma_label_table(m.program, label),
        _ => {},
    }
}

/// Each conditional jump does what the unconditional jump does where its
/// condition holds of the accumulator: zero for `Jez`, not zero for `Jnz`,
/// above zero for `Jgz`, below zero for `Jlz`. Where the condition does not
/// hold it only moves the program counter to the next line.
pub proof fn lemma_conditional_jumps(m: Machine, label: Seq<char>)
    ensures
        m.step(InstructionView::Jez(label)) == (if m.acc == 0 {
            m.step(InstructionView::Jmp(label))
        } else {
            Ok(Machine { pc: m.pc + 1, ..m })
        }),
        m.step(InstructionView::Jnz(label)) == (if m.acc != 0 {
            m.step(InstructionView::Jmp(label))
        } else {
            Ok(Machine { pc: m.pc + 1, ..m })
        }),
        m.step(InstructionView::Jgz(label)) == (if m.acc > 0 {
            m.step(InstructionView::Jmp(label))
        } else {
            Ok(Machine { pc: m.pc + 1, ..m })
        }),
        m.step(InstructionView::Jlz(label)) == (if m.acc < 0 {
            m.step(InstructionView::Jmp(label))
        } else {
            Ok(Machine { pc: m.pc + 1, ..m })
        }),
{
}

/// A run can be taken up where an earlier run stopped: to run for `first`
/// instructions and then, if no error came, for `second` more is to run for
/// `first + second`.
pub proof fn lemma_run_resumes(m: Machine, first: nat, second: nat)
    ensures
        m.run(first + second) == (if m.run(first).fault is None {
            m.run(first).machine.run(second)
        } else {
            m.run(first)
        }),
    decreases first,
{
    if first > 0 && !m.halted() {
        if let Ok(next) = m.step(m.current()) {
            lemma_run_resumes(next, (first - 1) as nat, second);
        }
    }
}

} // verus!
