//! Calls within a program: a new frame runs the same program from another
//! instruction, on a share of the caller's gas.

use crate::addressing_modes::{
    Arguments, Immediate1, Immediate2, Operands, Register1, Source, SourceWriter,
};
use crate::instruction::{result_view, End, Handler, Instruction, InstructionResult, InstructionVariant};
use crate::predication::Predicate;
use crate::state::{lemma_frames_gas_push, State, StateModel};
use vstd::prelude::*;

verus! {

/// What a call costs the caller before it hands any gas on.
pub const NEAR_CALL_GAS_COST: u32 = 25;

/// The gas that a call hands on: what the caller asks for, and all that the
/// caller has where it asks for nothing or for more than it has.
pub open spec fn gas_to_pass(requested: u32, available: u32) -> u32 {
    if requested == 0 || requested > available {
        available
    } else {
        requested
    }
}

/// What a call at `pc` does to the machine whose running frame has paid for
/// the instruction. The low 32 bits of the first source register ask for
/// gas. The new frame starts at the instruction that the first constant
/// names, the caller waits to go on after the call, and the second constant
/// is where the caller goes on if the new frame reverts.
pub open spec fn near_call_outcome(ops: Operands, s: StateModel, pc: u16) -> (
    StateModel,
    Result<u16, End>,
) {
    let requested = (s.registers[ops.source1].limb0 % 0x1_0000_0000) as u32;
    (
        s.pushed((pc + 1) as u16, gas_to_pass(requested, s.current_frame.gas), ops.immediate2),
        Ok(ops.immediate1),
    )
}

/// A call keeps the machine sound and its gas, and adds one frame.
pub proof fn lemma_near_call_outcome(ops: Operands, s: StateModel, pc: u16)
    requires
        s.wf(),
    ensures
        near_call_outcome(ops, s, pc).0.wf(),
        near_call_outcome(ops, s, pc).0.total_gas() == s.total_gas(),
        near_call_outcome(ops, s, pc).0.previous_frames.len() == s.previous_frames.len() + 1,
        near_call_outcome(ops, s, pc).1 is Ok,
{
    let after = near_call_outcome(ops, s, pc).0;
    lemma_frames_gas_push(s.previous_frames, after.previous_frames.last());
    assert(after.previous_frames.drop_last() =~= s.previous_frames);
    assert forall|i: int| 0 <= i < after.previous_frames.len() implies (
    #[trigger] after.previous_frames[i]).1.wf(after.heaps.len()) by {
        if i < s.previous_frames.len() {
            assert(after.previous_frames[i] == s.previous_frames[i]);
        }
    }
}

/// Runs a call that stands at `pc`.
pub fn near_call(state: &mut State, args: &Arguments, pc: u16) -> (result: InstructionResult)
    requires
        old(state).wf(),
        pc < u16::MAX,
    ensures
        final(state).wf(),
        (final(state)@, result_view(result)) == near_call_outcome(args@, old(state)@, pc),
        final(state)@.total_gas() == old(state)@.total_gas(),
{
    let requested: u32 = Register1::get(args, state).low_u32();
    let available: u32 = state.gas();
    let gas: u32 = if requested == 0 || requested > available {
        available
    } else {
        requested
    };
    state.push_frame(pc + 1, gas, args.immediate2());
    Ok(args.immediate1())
}

impl Instruction {
    /// A call. The new frame gets the gas that `gas` asks for and starts at
    /// `destination`; if it reverts, the caller goes on at `error_handler`.
    pub fn from_near_call(
        gas: Register1,
        destination: Immediate1,
        error_handler: Immediate2,
        predicate: Predicate,
    ) -> (instruction: Instruction)
        ensures
            instruction.wf(),
            instruction.handler() == Handler::NearCall,
            instruction.tag() == InstructionVariant::NearCall,
            instruction.arguments()@ == error_handler.as_source(
                destination.as_source(
                    gas.as_source(Operands::empty(predicate, NEAR_CALL_GAS_COST)),
                ),
            ),
    {
        Instruction {
            handler: Handler::NearCall,
            arguments: Arguments::new(predicate, NEAR_CALL_GAS_COST).write_source(&gas).write_source(
                &destination,
            ).write_source(&error_handler),
            variant: InstructionVariant::NearCall,
        }
    }
}

} // verus!
