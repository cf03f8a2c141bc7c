//! The three ways in which a frame ends: it returns, it reverts, or it
//! panics.

use crate::addressing_modes::{Arguments, Operands, Register1, SourceWriter};
use crate::fat_pointer::FatPointer;
use crate::heaps::read_bytes;
use crate::instruction::{
    result_view, End, ExecutionEnd, Handler, Instruction, InstructionResult, InstructionVariant,
};
use crate::predication::Predicate;
use crate::state::{frames_gas, lemma_popped_unwound, State, StateModel};
use vstd::prelude::*;

verus! {

/// What it costs a frame to end.
pub const RET_GAS_COST: u32 = 5;

/// The bytes that the outermost frame hands out when it ends. The first
/// source register must be marked as a fat pointer into one of the frame's
/// two heaps; there is no output otherwise. The output is what lies between
/// the pointer's offset and the end of its region, and zero where the page
/// has ended before.
pub open spec fn output(ops: Operands, s: StateModel) -> Option<Seq<u8>> {
    let pointer = FatPointer::of_word(s.registers[ops.source1]);
    if !s.register_pointer_flags[ops.source1] {
        None
    } else if pointer.memory_page != s.current_frame.heap && pointer.memory_page
        != s.current_frame.aux_heap {
        None
    } else if pointer.offset >= pointer.length {
        Some(Seq::empty())
    } else {
        Some(
            read_bytes(
                s.heaps[pointer.memory_page as int],
                pointer.start + pointer.offset,
                pointer.length - pointer.offset,
            ),
        )
    }
}

/// How the run ends when the outermost frame ends with `output`: as
/// `finished` says where there is an output, and with a panic where the
/// register names none.
pub open spec fn end_with(finished: bool, output: Option<Seq<u8>>) -> End {
    match output {
        Some(bytes) => if finished {
            End::ProgramFinished(bytes)
        } else {
            End::Reverted(bytes)
        },
        None => End::Panicked,
    }
}

/// What a return does. A frame that a call has made ends, and its caller
/// goes on after the call with the gas that is left. The outermost frame
/// ends the run.
pub open spec fn ret_outcome(ops: Operands, s: StateModel) -> (StateModel, Result<u16, End>) {
    if s.previous_frames.len() > 0 {
        (s.popped(), Ok(s.previous_frames.last().0))
    } else {
        (s, Err(end_with(true, output(ops, s))))
    }
}

/// What a revert does. A frame that a call has made ends, and its caller
/// goes on at the place that the call named for this, with the gas that is
/// left. The outermost frame ends the run.
pub open spec fn revert_outcome(ops: Operands, s: StateModel) -> (StateModel, Result<u16, End>) {
    if s.previous_frames.len() > 0 {
        (s.popped(), Ok(s.current_frame.exception_handler))
    } else {
        (s, Err(end_with(false, output(ops, s))))
    }
}

/// What a panic does: every frame ends, and so does the run.
pub open spec fn panic_outcome(s: StateModel) -> (StateModel, Result<u16, End>) {
    (s.unwound(), Err(End::Panicked))
}

/// Ending every frame but the outermost keeps the machine sound and its gas.
pub proof fn lemma_unwound(s: StateModel)
    requires
        s.wf(),
    ensures
        s.unwound().wf(),
        s.unwound().total_gas() == s.total_gas(),
        s.unwound().previous_frames.len() == 0,
{
    if s.previous_frames.len() > 0 {
        assert(s.previous_frames[0].1.wf(s.heaps.len()));
        assert(frames_gas(s.unwound().previous_frames) == 0);
    }
}

/// Ending the running frame keeps the machine sound and its gas, and takes
/// one frame away.
pub proof fn lemma_popped(s: StateModel)
    requires
        s.wf(),
        s.previous_frames.len() > 0,
    ensures
        s.popped().wf(),
        s.popped().total_gas() == s.total_gas(),
        s.popped().previous_frames.len() == s.previous_frames.len() - 1,
{
    lemma_popped_unwound(s);
    assert(s.previous_frames.last().1.wf(s.heaps.len()));
    assert forall|i: int| 0 <= i < s.popped().previous_frames.len() implies (
    #[trigger] s.popped().previous_frames[i]).1.wf(s.popped().heaps.len()) by {
        assert(s.popped().previous_frames[i] == s.previous_frames[i]);
    }
}

fn read_output(state: &State, args: &Arguments) -> (bytes: Option<Vec<u8>>)
    requires
        state.wf(),
    ensures
        bytes is Some == output(args@, state@) is Some,
        bytes is Some ==> bytes.unwrap()@ == output(args@, state@).unwrap(),
{
    let register: u8 = args.source1();
    if !state.register_is_pointer(register) {
        return None;
    }
    let pointer = FatPointer::from(state.register(register));
    if pointer.memory_page != state.heap() && pointer.memory_page != state.aux_heap() {
        return None;
    }
    if pointer.offset >= pointer.length {
        Some(Vec::new())
    } else {
        Some(
            state.heaps.read_range(
                pointer.memory_page,
                pointer.start as u64 + pointer.offset as u64,
                pointer.length - pointer.offset,
            ),
        )
    }
}

/// Runs a return.
pub fn ret(state: &mut State, args: &Arguments) -> (result: InstructionResult)
    requires
        old(state).wf(),
    ensures
        final(state).wf(),
        (final(state)@, result_view(result)) == ret_outcome(args@, old(state)@),
        final(state)@.total_gas() == old(state)@.total_gas(),
{
    match state.pop_frame() {
        Some(return_pc) => Ok(return_pc),
        None => match read_output(state, args) {
            Some(bytes) => Err(ExecutionEnd::ProgramFinished(bytes)),
            None => Err(ExecutionEnd::Panicked),
        },
    }
}

/// Runs a revert.
pub fn revert(state: &mut State, args: &Arguments) -> (result: InstructionResult)
    requires
        old(state).wf(),
    ensures
        final(state).wf(),
        (final(state)@, result_view(result)) == revert_outcome(args@, old(state)@),
        final(state)@.total_gas() == old(state)@.total_gas(),
{
    let handler: u16 = state.exception_handler();
    match state.pop_frame() {
        Some(_) => Ok(handler),
        None => match read_output(state, args) {
            Some(bytes) => Err(ExecutionEnd::Reverted(bytes)),
            None => Err(ExecutionEnd::Panicked),
        },
    }
}

/// Runs a panic.
pub fn panic(state: &mut State) -> (result: InstructionResult)
    requires
        old(state).wf(),
    ensures
        final(state).wf(),
        (final(state)@, result_view(result)) == panic_outcome(old(state)@),
{
    state.unwind();
    Err(ExecutionEnd::Panicked)
}

impl Instruction {
    /// A return. Where it ends the run, `src1` names the output.
    pub fn from_ret(src1: Register1, predicate: Predicate) -> (instruction: Instruction)
        ensures
            instruction.wf(),
            instruction.handler() == Handler::Ret,
            instruction.tag() == InstructionVariant::Ret,
            instruction.arguments()@ == src1.as_source(Operands::empty(predicate, RET_GAS_COST)),
    {
        Instruction {
            handler: Handler::Ret,
            arguments: Arguments::new(predicate, RET_GAS_COST).write_source(&src1),
            variant: InstructionVariant::Ret,
        }
    }

    /// A revert. Where it ends the run, `src1` names the output.
    pub fn from_revert(src1: Register1, predicate: Predicate) -> (instruction: Instruction)
        ensures
            instruction.wf(),
            instruction.handler() == Handler::Revert,
            instruction.tag() == InstructionVariant::Revert,
            instruction.arguments()@ == src1.as_source(Operands::empty(predicate, RET_GAS_COST)),
    {
        Instruction {
            handler: Handler::Revert,
            arguments: Arguments::new(predicate, RET_GAS_COST).write_source(&src1),
            variant: InstructionVariant::Revert,
        }
    }

    /// A panic.
    pub fn from_panic(predicate: Predicate) -> (instruction: Instruction)
        ensures
            instruction.wf(),
            instruction.handler() == Handler::Panic,
            instruction.tag() == InstructionVariant::Panic,
            instruction.arguments()@ == Operands::empty(predicate, RET_GAS_COST),
    {
        Instruction {
            handler: Handler::Panic,
            arguments: Arguments::new(predicate, RET_GAS_COST),
            variant: InstructionVariant::Panic,
        }
    }
}

} // verus!
