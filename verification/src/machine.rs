//! The machine as a mathematical object: its state, and what each
//! instruction does to it. The executable machine is specified against this
//! model.

use vstd::prelude::*;
use crate::error::ExecErrorView;
use crate::instruction::{InstructionView, OperandView};

verus! {

/// Lowest value a register holds.
pub const REGISTER_MIN: i32 = -999;

/// Highest value a register holds.
pub const REGISTER_MAX: i32 = 999;

/// `v` where it lies between [`REGISTER_MIN`] and [`REGISTER_MAX`], else the
/// nearer of the two.
pub open spec fn clamp(v: int) -> int {
    if v > REGISTER_MAX {
        REGISTER_MAX as int
    } else if v < REGISTER_MIN {
        REGISTER_MIN as int
    } else {
        v
    }
}

/// Whether `v` is a value that a register holds.
pub open spec fn in_register_range(v: int) -> bool {
    REGISTER_MIN <= v <= REGISTER_MAX
}

/// The table that maps each label declared in `program` to the line of its
/// declaration. A label declared on several lines is bound to the last.
pub open spec fn label_table(program: Seq<InstructionView>) -> Map<Seq<char>, nat>
    decreases program.len(),
{
    if program.len() == 0 {
        Map::empty()
    } else {
        let earlier = label_table(program.drop_last());
        match program.last() {
            InstructionView::Label(name) => earlier.insert(name, (program.len() - 1) as nat),
            _ => earlier,
        }
    }
}

/// The state of a machine.
pub struct Machine {
    /// The accumulator.
    pub acc: int,
    /// The backup register.
    pub bak: int,
    /// Index of the line to execute next.
    pub pc: nat,
    /// The program, one instruction for each line.
    pub program: Seq<InstructionView>,
    /// The line bound to each label.
    pub labels: Map<Seq<char>, nat>,
}

/// Where a run of bounded length leaves a machine.
pub struct Stop {
    /// The machine as the run left it.
    pub machine: Machine,
    /// The error that ended the run, if one did.
    pub fault: Option<ExecErrorView>,
}

impl Machine {
    /// The value that `operand` yields when read.
    pub open spec fn read(self, operand: OperandView) -> Result<int, ExecErrorView> {
        match operand {
            OperandView::Acc => Ok(self.acc),
            OperandView::Bak => Ok(self.bak),
            OperandView::Imm(v) => Ok(v),
            OperandView::Label(name) => Err(ExecErrorView::LabelAsValue(name)),
        }
    }

    /// The machine after `value` is written to `operand`. Only the
    /// accumulator can be written, and it keeps the value clamped.
    pub open spec fn write(self, operand: OperandView, value: int) -> Result<Machine, ExecErrorView> {
        match operand {
            OperandView::Acc => Ok(Machine { acc: clamp(value), ..self }),
            OperandView::Bak => Err(ExecErrorView::WriteToBackup),
            OperandView::Imm(_) => Err(ExecErrorView::WriteToImmediate),
            OperandView::Label(name) => Err(ExecErrorView::WriteToLabel(name)),
        }
    }

    /// The line bound to `label`.
    pub open spec fn lookup(self, label: Seq<char>) -> Result<nat, ExecErrorView> {
        if self.labels.contains_key(label) {
            Ok(self.labels[label])
        } else {
            Err(ExecErrorView::UnknownLabel(label))
        }
    }

    /// The machine with its program counter on the next line.
    pub open spec fn advanced(self) -> Machine {
        Machine { pc: self.pc + 1, ..self }
    }

    /// The machine after a jump to `label`.
    pub open spec fn jumped(self, label: Seq<char>) -> Result<Machine, ExecErrorView> {
        match self.lookup(label) {
            Ok(target) => Ok(Machine { pc: target, ..self }),
            Err(e) => Err(e),
        }
    }

    /// The machine after it has executed `instr`, or the error that `instr`
    /// raises. An error leaves no successor state: the machine stays as it is.
    pub open spec fn step(self, instr: InstructionView) -> Result<Machine, ExecErrorView> {
        match instr {
            InstructionView::Mov(src, dst) => match self.read(src) {
                Ok(value) => match self.write(dst, value) {
                    Ok(written) => Ok(written.advanced()),
                    Err(e) => Err(e),
                },
                Err(e) => Err(e),
            },
            InstructionView::Swp => Ok(Machine { acc: self.bak, bak: self.acc, ..self }.advanced()),
            InstructionView::Save => Ok(Machine { bak: self.acc, ..self }.advanced()),
            InstructionView::Add(src) => match self.read(src) {
                Ok(value) => Ok(Machine { acc: clamp(self.acc + value), ..self }.advanced()),
                Err(e) => Err(e),
            },
            InstructionView::Jmp(label) => self.jumped(label),
            InstructionView::Jez(label) => if self.acc == 0 {
                self.jumped(label)
            } else {
                Ok(self.advanced())
            },
            InstructionView::Jnz(label) => if self.acc != 0 {
                self.jumped(label)
            } else {
                Ok(self.advanced())
            },
            InstructionView::Jgz(label) => if self.acc > 0 {
                self.jumped(label)
            } else {
                Ok(self.advanced())
            },
            InstructionView::Jlz(label) => if self.acc < 0 {
                self.jumped(label)
            } else {
                Ok(self.advanced())
            },
            InstructionView::Ret => Ok(Machine { pc: self.program.len(), ..self }),
            InstructionView::Label(_) => Ok(self.advanced()),
            InstructionView::Nop => Ok(self.advanced()),
        }
    }

    /// Whether the run is over: the program counter is past the last line.
    pub open spec fn halted(self) -> bool {
        self.pc >= self.program.len()
    }

    /// The instruction on the line that the program counter points to.
    pub open spec fn current(self) -> InstructionView {
        self.program[self.pc as int]
    }

    /// Where the machine stands after it has run for at most `steps`
    /// instructions. The run ends early when the machine halts, and when an
    /// instruction raises an error: the machine then stays as it was before
    /// that instruction.
    pub open spec fn run(self, steps: nat) -> Stop
        decreases steps,
    {
        if steps == 0 || self.halted() {
            Stop { machine: self, fault: None }
        } else {
            match self.step(self.current()) {
                Ok(next) => next.run((steps - 1) as nat),
                Err(e) => Stop { machine: self, fault: Some(e) },
            }
        }
    }

    /// Whether both registers hold values in the register range.
    pub open spec fn registers_in_range(self) -> bool {
        in_register_range(self.acc) && in_register_range(self.bak)
    }
}

} // verus!
