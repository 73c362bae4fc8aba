//! The machine itself: its registers, its program, and how it runs.

use vstd::prelude::*;
use vstd::hash_map::StringHashMap;
use crate::error::{line_outcome, value_outcome, ExecError, ExecErrorView, RunError};
use crate::instruction::{program_view, Instruction, InstructionView, Operand, OperandView};
use crate::machine::{clamp, in_register_range, label_table, Machine, REGISTER_MAX, REGISTER_MIN};
use crate::parser::decode_line;

verus! {

/// A machine with its program.
pub struct Emulator {
    /// The accumulator.
    pub acc: i32,
    /// The backup register.
    pub bak: i32,
    /// Index of the line to execute next.
    pub pc: usize,
    /// The line at which each label was declared.
    pub labels: StringHashMap<usize>,
    /// The program, one instruction for each line.
    pub program: Vec<Instruction>,
}

/// How a call of [`Emulator::run`] ended, where no instruction raised an
/// error.
#[derive(Debug, Clone, Copy, PartialEq, Eq)]
pub enum RunStatus {
    /// The program counter is past the last line: the run is over.
    Halted,
    /// The machine has executed as many instructions as the call allowed,
    /// and can go on.
    Paused,
}

/// Saturates `v` into the register range.
pub fn clamp_value(v: i64) -> (r: i32)
    ensures
        r == clamp(v as int),
{
    if v > REGISTER_MAX as i64 {
        REGISTER_MAX
    } else if v < REGISTER_MIN as i64 {
        REGISTER_MIN
    } else {
        v as i32
    }
}

/// The instructions that the lines of a program text stand for.
pub open spec fn decode_lines(lines: Seq<String>) -> Seq<InstructionView> {
    Seq::new(lines.len(), |i: int| decode_line(lines[i]@))
}

/// A label table as contracts see it.
pub open spec fn addresses(labels: Map<Seq<char>, usize>) -> Map<Seq<char>, nat> {
    Map::new(|name: Seq<char>| labels.contains_key(name), |name: Seq<char>| labels[name] as nat)
}

/// What an operation that changes the machine gave, as contracts see it:
/// the machine it left, or the error it raised.
pub open spec fn state_outcome(r: Result<(), ExecError>, after: Machine) -> Result<Machine, ExecErrorView> {
    match r {
        Ok(()) => Ok(after),
        Err(e) => Err(e@),
    }
}

impl View for Emulator {
    type V = Machine;

    open spec fn view(&self) -> Machine {
        Machine {
            acc: self.acc as int,
            bak: self.bak as int,
            pc: self.pc as nat,
            program: program_view(self.program@),
            labels: addresses(self.labels@),
        }
    }
}

impl Emulator {
    /// A machine with both registers at zero and no program.
    pub fn new() -> (emulator: Emulator)
        ensures
            emulator@ == (Machine {
                acc: 0,
                bak: 0,
                pc: 0,
                program: Seq::empty(),
                labels: Map::empty(),
            }),
    {
        let emulator = Emulator {
            acc: 0,
            bak: 0,
            pc: 0,
            labels: StringHashMap::new(),
            program: Vec::new(),
        };
        assert(emulator@.program =~= Seq::empty());
        assert(emulator@.labels =~= Map::empty());
        emulator
    }

    /// Brings the accumulator back into the register range, and leaves the
    /// rest of the machine as it is.
    pub fn clamp_acc(&mut self)
        ensures
            *final(self) == (Emulator { acc: clamp(old(self).acc as int) as i32, ..*old(self) }),
            in_register_range(final(self).acc as int),
    {
        self.acc = clamp_value(self.acc as i64);
    }

    /// Reads the value of an operand.
    pub fn read_value(&self, src: &Operand) -> (r: Result<i32, ExecError>)
        ensures
            value_outcome(r) == self@.read(src@),
    {
        match src {
            Operand::Acc => Ok(self.acc),
            Operand::Bak => Ok(self.bak),
            Operand::Imm(v) => Ok(*v),
            Operand::Label(name) => Err(ExecError::LabelAsValue(name.clone())),
        }
    }

    /// Writes a value to an operand. Only the accumulator takes one, and
    /// holds it clamped; any other operand is an error, and nothing changes.
    pub fn write_value(&mut self, dst: &Operand, value: i32) -> (r: Result<(), ExecError>)
        ensures
            state_outcome(r, final(self)@) == old(self)@.write(dst@, value as int),
            r is Ok <==> dst@ is Acc,
            r is Ok ==> in_register_range(final(self).acc as int),
            final(self).program == old(self).program,
            final(self).labels == old(self).labels,
            r is Err ==> *final(self) == *old(self),
    {
        match dst {
            Operand::Acc => {
                self.acc = value;
                self.clamp_acc();
                Ok(())
            },
            Operand::Bak => Err(ExecError::WriteToBackup),
            Operand::Imm(_) => Err(ExecError::WriteToImmediate),
            Operand::Label(name) => Err(ExecError::WriteToLabel(name.clone())),
        }
    }

    /// Finds the line bound to a label.
    pub fn lookup(&self, label: &str) -> (r: Result<usize, ExecError>)
        ensures
            line_outcome(r) == self@.lookup(label@),
    {
        match self.labels.get(label) {
            Some(target) => Ok(*target),
            None => Err(ExecError::UnknownLabel(label.to_owned())),
        }
    }

    /// Moves the program counter to the line bound to a label.
    fn jump(&mut self, label: &String) -> (r: Result<(), ExecError>)
        ensures
            state_outcome(r, final(self)@) == old(self)@.jumped(label@),
            final(self).program == old(self).program,
            final(self).labels == old(self).labels,
            r is Err ==> *final(self) == *old(self),
    {
        match self.lookup(label.as_str()) {
            Ok(target) => {
                self.pc = target;
                Ok(())
            },
            Err(e) => Err(e),
        }
    }

    /// Executes one instruction.
    ///
    /// On success the machine is the one that [`Machine::step`] gives. On an
    /// error nothing has changed. After an addition or a move into the
    /// accumulator, the accumulator lies in the register range.
    pub fn execute(&mut self, instr: &Instruction) -> (r: Result<(), ExecError>)
        requires
            old(self).pc < usize::MAX,
        ensures
            state_outcome(r, final(self)@) == old(self)@.step(instr@),
            final(self).program == old(self).program,
            final(self).labels == old(self).labels,
            r is Err ==> *final(self) == *old(self),
            r is Ok && (instr@ is Add || instr@ matches InstructionView::Mov(_, OperandView::Acc))
                ==> in_register_range(final(self).acc as int),
    {
        match instr {
            Instruction::Mov(src, dst) => {
                let value = match self.read_value(src) {
                    Ok(value) => value,
                    Err(e) => {
                        return Err(e);
                    },
                };
                match self.write_value(dst, value) {
                    Ok(()) => {},
                    Err(e) => {
                        return Err(e);
                    },
                }
                self.pc = self.pc + 1;
            },
            Instruction::Swp => {
                let acc = self.acc;
                self.acc = self.bak;
                self.bak = acc;
                self.pc = self.pc + 1;
            },
            Instruction::Save => {
                self.bak = self.acc;
                self.pc = self.pc + 1;
            },
            Instruction::Add(src) => {
                let value = match self.read_value(src) {
                    Ok(value) => value,
                    Err(e) => {
                        return Err(e);
                    },
                };
                self.acc = clamp_value(self.acc as i64 + value as i64);
                self.pc = self.pc + 1;
            },
            Instruction::Jmp(label) => {
                return self.jump(label);
            },
            Instruction::Jez(label) => {
                if self.acc == 0 {
                    return self.jump(label);
                }
                self.pc = self.pc + 1;
            },
            Instruction::Jnz(label) => {
                if self.acc != 0 {
                    return self.jump(label);
                }
                self.pc = self.pc + 1;
            },
            Instruction::Jgz(label) => {
                if self.acc > 0 {
                    return self.jump(label);
                }
                self.pc = self.pc + 1;
            },
            Instruction::Jlz(label) => {
                if self.acc < 0 {
                    return self.jump(label);
                }
                self.pc = self.pc + 1;
            },
            Instruction::Ret => {
                self.pc = self.program.len();
            },
            Instruction::Label(_) => {
                self.pc = self.pc + 1;
            },
            Instruction::Nop => {
                self.pc = self.pc + 1;
            },
        }
        Ok(())
    }

    /// Replaces the program by the one that `lines` spell, one instruction
    /// for each line, binds each label to the line that declares it, and
    /// sets the program counter to the first line. The registers keep their
    /// values.
    pub fn load_program(&mut self, lines: Vec<String>)
        ensures
            final(self)@.program == decode_lines(lines@),
            final(self)@.labels == label_table(final(self)@.program),
            final(self).pc == 0,
            final(self).acc == old(self).acc,
            final(self).bak == old(self).bak,
    {
        self.program.clear();
        self.labels.clear();
        let mut idx: usize = 0;
        while idx < lines.len()
            invariant
                idx <= lines.len(),
                self.program@.len() == idx,
                program_view(self.program@) == decode_lines(lines@.take(idx as int)),
                addresses(self.labels@) == label_table(program_view(self.program@)),
                self.acc == old(self).acc,
                self.bak == old(self).bak,
            decreases lines.len() - idx,
        {
            let instr = Self::parse_line(lines[idx].as_str());
            let ghost before = program_view(self.program@);
            match &instr {
                Instruction::Label(name) => {
                    self.labels.insert(name.clone(), idx);
                },
                _ => {},
            }
            self.program.push(instr);
            idx = idx + 1;
            proof {
                let after = program_view(self.program@);
                assert(after =~= before.push(instr@));
                assert(after.drop_last() =~= before);
            }
        }
        self.pc = 0;
    }

    /// Runs the program from the current line for at most `max_steps`
    /// instructions.
    ///
    /// The run ends when the program counter passes the last line, when an
    /// instruction raises an error, or when `max_steps` instructions have been
    /// executed. After an error the machine stands before the failing
    /// instruction, whose line is reported with the error.
    pub fn run(&mut self, max_steps: u64) -> (r: Result<RunStatus, RunError>)
        ensures
            final(self)@ == old(self)@.run(max_steps as nat).machine,
            match r {
                Ok(status) => old(self)@.run(max_steps as nat).fault is None
                    && (status == RunStatus::Halted <==> final(self)@.halted()),
                Err(e) => old(self)@.run(max_steps as nat).fault == Some(e.error@)
                    && e.line == final(self).pc + 1,
            },
            final(self).program == old(self).program,
            final(self).labels == old(self).labels,
    {
        let mut done: u64 = 0;
        while done < max_steps && self.pc < self.program.len()
            invariant
                done <= max_steps,
                self@.run((max_steps - done) as nat) == old(self)@.run(max_steps as nat),
                self.program == old(self).program,
                self.labels == old(self).labels,
            decreases max_steps - done,
        {
            let instr = self.program[self.pc].clone();
            match self.execute(&instr) {
                Ok(()) => {},
                Err(error) => {
                    return Err(RunError { line: self.pc + 1, error });
                },
            }
            done = done + 1;
        }
        if self.pc < self.program.len() {
            Ok(RunStatus::Paused)
        } else {
            Ok(RunStatus::Halted)
        }
    }
}

} // verus!
