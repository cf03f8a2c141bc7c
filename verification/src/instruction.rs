//! Instructions: what a program is made of, and how a run of it ends.

use crate::addressing_modes::{Arguments, DestinationKind, SourceKind};
use crate::instruction_handlers::pointer::PtrOpKind;
use crate::predication::Predicate;
use vstd::prelude::*;

verus! {

/// The family an instruction belongs to. It serves to classify and to trace
/// instructions; it has no part in what they do.
#[derive(Clone, Copy, Debug, PartialEq, Eq, PartialOrd, Ord, Hash)]
pub enum InstructionVariant {
    Invalid,
    Nop,
    Add,
    Sub,
    Mul,
    Div,
    Jump,
    Context,
    Shift,
    Binop,
    Ptr,
    NearCall,
    Log,
    FarCall,
    Ret,
    Panic,
    Revert,
    UMA,
    LogSRead,
}

/// What an instruction does, settled when the instruction is built. A
/// pointer operation is settled together with the places of its first
/// operand and of its result and with the order of its operands, so that
/// running it looks at none of them again.
#[derive(Clone, Copy, Debug, PartialEq, Eq, Structural)]
pub enum Handler {
    EndExecution,
    JumpToBeginning,
    Ptr { op: PtrOpKind, source: SourceKind, destination: DestinationKind, swap: bool },
    PrecompileCall,
    NearCall,
    Ret,
    Revert,
    Panic,
}

/// What a jump costs.
pub const JUMP_GAS_COST: u32 = 6;

/// One instruction of a program.
#[derive(Clone, Copy, Debug)]
pub struct Instruction {
    pub(crate) handler: Handler,
    pub(crate) arguments: Arguments,
    pub variant: InstructionVariant,
}

impl Instruction {
    /// What the instruction does.
    pub open(crate) spec fn handler(self) -> Handler {
        self.handler
    }

    /// The family the instruction belongs to.
    pub open(crate) spec fn tag(self) -> InstructionVariant {
        self.variant
    }

    /// The instruction's argument block.
    pub open(crate) spec fn arguments(self) -> Arguments {
        self.arguments
    }

    /// An instruction that can make the machine run on, a jump or a call,
    /// costs gas.
    pub open spec fn wf(self) -> bool {
        (self.handler() == Handler::JumpToBeginning || self.handler() == Handler::NearCall)
            ==> self.arguments()@.static_gas_cost >= 1
    }

    /// The instruction's predicate.
    pub fn predicate(&self) -> (p: Predicate)
        ensures
            p == self.arguments()@.predicate,
    {
        self.arguments.predicate
    }

    /// What the instruction costs before it does anything.
    pub fn static_gas_cost(&self) -> (cost: u32)
        ensures
            cost == self.arguments()@.static_gas_cost,
    {
        self.arguments.static_gas_cost
    }
}

/// How a run ends.
#[derive(Debug, PartialEq)]
pub enum ExecutionEnd {
    ProgramFinished(Vec<u8>),
    Reverted(Vec<u8>),
    Panicked,
    /// The run stopped for the host to act. It goes on at `pc_to_resume_from`.
    SuspendedOnHook { hook: u32, pc_to_resume_from: u16 },
}

/// How a run ends, with the output as a sequence of bytes.
pub enum End {
    ProgramFinished(Seq<u8>),
    Reverted(Seq<u8>),
    Panicked,
    SuspendedOnHook { hook: u32, pc_to_resume_from: u16 },
}

impl View for ExecutionEnd {
    type V = End;

    open spec fn view(&self) -> End {
        match *self {
            ExecutionEnd::ProgramFinished(output) => End::ProgramFinished(output@),
            ExecutionEnd::Reverted(output) => End::Reverted(output@),
            ExecutionEnd::Panicked => End::Panicked,
            ExecutionEnd::SuspendedOnHook { hook, pc_to_resume_from } => End::SuspendedOnHook {
                hook,
                pc_to_resume_from,
            },
        }
    }
}

/// What running one instruction gives: the number of the instruction to go
/// on with, or the end of the run.
pub type InstructionResult = Result<u16, ExecutionEnd>;

/// What running one instruction gives, with the output as a sequence.
pub open spec fn result_view(result: InstructionResult) -> Result<u16, End> {
    match result {
        Ok(pc) => Ok(pc),
        Err(end) => Err(end@),
    }
}

/// The instruction that ends the run with success and no output.
pub fn end_execution() -> (instruction: Instruction)
    ensures
        instruction.wf(),
        instruction.handler() == Handler::EndExecution,
        instruction.tag() == InstructionVariant::Ret,
        instruction.arguments()@ == crate::addressing_modes::Operands::empty(Predicate::Always, 0),
{
    Instruction {
        handler: Handler::EndExecution,
        arguments: Arguments::default(),
        variant: InstructionVariant::Ret,
    }
}

/// The instruction that goes on with the first instruction of the program.
pub fn jump_to_beginning() -> (instruction: Instruction)
    ensures
        instruction.wf(),
        instruction.handler() == Handler::JumpToBeginning,
        instruction.tag() == InstructionVariant::Jump,
        instruction.arguments()@ == crate::addressing_modes::Operands::empty(
            Predicate::Always,
            JUMP_GAS_COST,
        ),
{
    Instruction {
        handler: Handler::JumpToBeginning,
        arguments: Arguments::new(Predicate::Always, JUMP_GAS_COST),
        variant: InstructionVariant::Jump,
    }
}

} // verus!
