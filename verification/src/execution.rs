//! The execution loop: one instruction after the other, until one of them
//! ends the run.

use crate::addressing_modes::Operands;
use crate::instruction::{
    result_view, End, ExecutionEnd, Handler, Instruction, InstructionResult,
};
use crate::instruction_handlers::near_call::{
    lemma_near_call_outcome, near_call, near_call_outcome,
};
use crate::instruction_handlers::pointer::{lemma_ptr_outcome, ptr_outcome, run_ptr};
use crate::instruction_handlers::precompiles::{
    lemma_precompile_outcome, precompile_call, precompile_outcome,
};
use crate::instruction_handlers::ret;
use crate::instruction_handlers::ret::{
    lemma_popped, lemma_unwound, panic_outcome, ret_outcome, revert_outcome,
};
use crate::state::{State, StateModel};
use vstd::prelude::*;

verus! {

/// What the instruction at `pc` does once its predicate has held and the
/// running frame has paid for it, and how the run goes on.
pub open spec fn handler_outcome(handler: Handler, ops: Operands, s: StateModel, pc: u16) -> (
    StateModel,
    Result<u16, End>,
) {
    match handler {
        Handler::EndExecution => (s, Err(End::ProgramFinished(Seq::empty()))),
        Handler::JumpToBeginning => (s, Ok(0)),
        Handler::Ptr { op, source, destination, swap } => {
            let (after, ok) = ptr_outcome(op, source, destination, swap, ops, s);
            if ok {
                (after, Ok((pc + 1) as u16))
            } else {
                panic_outcome(after)
            }
        },
        Handler::PrecompileCall => precompile_outcome(ops, s, pc),
        Handler::NearCall => near_call_outcome(ops, s, pc),
        Handler::Ret => ret_outcome(ops, s),
        Handler::Revert => revert_outcome(ops, s),
        Handler::Panic => panic_outcome(s),
    }
}

/// One step of the machine at `pc`.
///
/// Where the program has no instruction `pc`, the machine panics. An
/// instruction whose predicate does not hold of the flags as they stand is
/// passed over: nothing changes, and the run goes on with the next one. An
/// instruction whose predicate holds is paid for and run; a frame that
/// cannot pay loses what it has, and the machine panics.
pub open spec fn step_outcome(s: StateModel, pc: u16) -> (StateModel, Result<u16, End>) {
    if pc >= s.current_frame.program.len() {
        panic_outcome(s)
    } else {
        let instruction = s.current_frame.program[pc as int];
        let ops = instruction.arguments()@;
        if !ops.predicate.holds(s.flags) {
            (s, Ok((pc + 1) as u16))
        } else if s.current_frame.gas < ops.static_gas_cost {
            panic_outcome(s.with_gas(0))
        } else {
            handler_outcome(
                instruction.handler(),
                ops,
                s.with_gas((s.current_frame.gas - ops.static_gas_cost) as u32),
                pc,
            )
        }
    }
}

/// Whether the instruction at `pc` runs in the machine `s`: whether its
/// predicate holds of the flags as they stand in `s`.
pub open spec fn runs(s: StateModel, pc: u16) -> bool {
    s.current_frame.program[pc as int].arguments()@.predicate.holds(s.flags)
}

/// Whether a step runs the instruction at `pc` or passes over it is decided
/// by the instruction's predicate and by the flags as they stand when the
/// step begins, whatever has set them. An instruction that is passed over
/// changes nothing. One that runs is paid for first.
pub proof fn lemma_predication(s: StateModel, pc: u16)
    requires
        pc < s.current_frame.program.len(),
    ensures
        !runs(s, pc) ==> step_outcome(s, pc) == (s, Ok::<u16, End>((pc + 1) as u16)),
        runs(s, pc) ==> step_outcome(s, pc) == ({
            let instruction = s.current_frame.program[pc as int];
            let cost = instruction.arguments()@.static_gas_cost;
            if s.current_frame.gas < cost {
                panic_outcome(s.with_gas(0))
            } else {
                handler_outcome(
                    instruction.handler(),
                    instruction.arguments()@,
                    s.with_gas((s.current_frame.gas - cost) as u32),
                    pc,
                )
            }
        }),
        forall|t: StateModel|
            t.current_frame.program == s.current_frame.program && t.flags == s.flags ==> runs(t, pc)
                == runs(s, pc),
{
}

/// A run that comes upon the instruction that ends it finishes there, with
/// no output: the frame pays for the instruction, and nothing else changes.
pub proof fn lemma_end_execution(s: StateModel, pc: u16)
    requires
        s.wf(),
        pc < s.current_frame.program.len(),
        s.current_frame.program[pc as int].handler() == Handler::EndExecution,
        runs(s, pc),
        s.current_frame.gas >= s.current_frame.program[pc as int].arguments()@.static_gas_cost,
    ensures
        run_outcome(s, pc) == (
            s.with_gas(
                (s.current_frame.gas
                    - s.current_frame.program[pc as int].arguments()@.static_gas_cost) as u32,
            ),
            End::ProgramFinished(Seq::empty()),
        ),
{
    lemma_run_unfold(s, pc);
}

/// A pointer instruction whose operand in the pointer's place is not marked
/// as a fat pointer, or whose other operand is, ends the run with a panic.
pub proof fn lemma_untagged_operand_panics(s: StateModel, pc: u16)
    requires
        s.wf(),
        pc < s.current_frame.program.len(),
        s.current_frame.program[pc as int].handler() is Ptr,
        runs(s, pc),
        s.current_frame.gas >= s.current_frame.program[pc as int].arguments()@.static_gas_cost,
        ({
            let instruction = s.current_frame.program[pc as int];
            let ops = instruction.arguments()@;
            let source = instruction.handler()->source;
            let read = crate::addressing_modes::source_state(source, ops, s);
            let first = crate::addressing_modes::source_is_pointer(source, ops, read);
            let second = read.register_pointer_flags[ops.source2];
            if instruction.handler()->swap {
                !second || first
            } else {
                !first || second
            }
        }),
    ensures
        run_outcome(s, pc).1 == End::Panicked,
        step_outcome(s, pc).1 == Err::<u16, End>(End::Panicked),
        step_outcome(s, pc).0.registers == s.registers,
        step_outcome(s, pc).0.register_pointer_flags == s.register_pointer_flags,
{
    let instruction = s.current_frame.program[pc as int];
    let ops = instruction.arguments()@;
    instruction.arguments().lemma_in_range();
    let paid = s.with_gas((s.current_frame.gas - ops.static_gas_cost) as u32);
    match instruction.handler() {
        Handler::Ptr { op, source, destination, swap } => {
            crate::instruction_handlers::pointer::lemma_untagged_operand_fails(
                op,
                source,
                destination,
                swap,
                ops,
                paid,
            );
        },
        _ => {},
    }
    lemma_run_unfold(s, pc);
}

/// Gas across a call and the return from it. `s` is the machine before a
/// call at `pc` that it can pay for, and `callee` is the machine at the
/// moment at which the frame that the call has made ends: a machine in
/// which the caller still waits and in which that frame has at most the gas
/// that the call gave it. After the frame has ended, the caller has what it
/// had before the call, less the cost of the call and less what the frame
/// has used, and the machine as a whole has neither gained nor lost gas.
pub proof fn lemma_gas_across_call(s: StateModel, pc: u16, callee: StateModel)
    requires
        s.wf(),
        pc < s.current_frame.program.len(),
        s.current_frame.program[pc as int].handler() == Handler::NearCall,
        runs(s, pc),
        s.current_frame.gas >= s.current_frame.program[pc as int].arguments()@.static_gas_cost,
        callee.wf(),
        callee.previous_frames == step_outcome(s, pc).0.previous_frames,
        callee.current_frame.gas <= step_outcome(s, pc).0.current_frame.gas,
    ensures
        ({
            let cost = s.current_frame.program[pc as int].arguments()@.static_gas_cost;
            let called = step_outcome(s, pc).0;
            let used = called.current_frame.gas - callee.current_frame.gas;
            let back = callee.popped();
            &&& called.total_gas() == s.total_gas() - cost
            &&& back.current_frame.gas == s.current_frame.gas - cost - used
            &&& back.current_frame.gas <= s.current_frame.gas - cost
            &&& back.total_gas() == callee.total_gas()
            &&& back.previous_frames == s.previous_frames
        }),
{
    let ops = s.current_frame.program[pc as int].arguments()@;
    let paid = s.with_gas((s.current_frame.gas - ops.static_gas_cost) as u32);
    lemma_near_call_outcome(ops, paid, pc);
    lemma_popped(callee);
    assert(callee.popped().previous_frames =~= s.previous_frames);
}

/// A call to an instruction that returns at once gives the caller back
/// everything but the gas. `s` is the machine before a call at `pc` whose
/// target is a return; both run, and the gas suffices for both. After the
/// two steps the run goes on behind the call, and the machine is `s` with
/// the cost of the call and the cost of the return taken from its gas:
/// registers, flags, stack, stack pointer, heaps and waiting frames are as
/// they were.
pub proof fn lemma_call_then_return(s: StateModel, pc: u16)
    requires
        s.wf(),
        pc < s.current_frame.program.len(),
        s.current_frame.program[pc as int].handler() == Handler::NearCall,
        runs(s, pc),
        ({
            let call = s.current_frame.program[pc as int].arguments()@;
            let target = call.immediate1;
            &&& target < s.current_frame.program.len()
            &&& s.current_frame.program[target as int].handler() == Handler::Ret
            &&& runs(s, target)
            &&& s.current_frame.gas >= call.static_gas_cost
            &&& crate::instruction_handlers::near_call::gas_to_pass(
                (s.registers[call.source1].limb0 % 0x1_0000_0000) as u32,
                (s.current_frame.gas - call.static_gas_cost) as u32,
            ) >= s.current_frame.program[target as int].arguments()@.static_gas_cost
        }),
    ensures
        ({
            let call = s.current_frame.program[pc as int].arguments()@;
            let target = call.immediate1;
            let ret = s.current_frame.program[target as int].arguments()@;
            let (called, first) = step_outcome(s, pc);
            let (back, second) = step_outcome(called, target);
            &&& first == Ok::<u16, End>(target)
            &&& second == Ok::<u16, End>((pc + 1) as u16)
            &&& back == s.with_gas(
                (s.current_frame.gas - call.static_gas_cost - ret.static_gas_cost) as u32,
            )
        }),
{
    let call = s.current_frame.program[pc as int].arguments()@;
    let target = call.immediate1;
    let ret = s.current_frame.program[target as int].arguments()@;
    let paid = s.with_gas((s.current_frame.gas - call.static_gas_cost) as u32);
    lemma_near_call_outcome(call, paid, pc);
    let (called, first) = step_outcome(s, pc);
    assert(called == near_call_outcome(call, paid, pc).0);
    let callee = called.with_gas((called.current_frame.gas - ret.static_gas_cost) as u32);
    let (back, second) = step_outcome(called, target);
    assert(callee.previous_frames.drop_last() =~= s.previous_frames);
    assert(back == callee.popped());
    assert(back =~~= s.with_gas(
        (s.current_frame.gas - call.static_gas_cost - ret.static_gas_cost) as u32,
    ));
}

/// How far the machine at `pc` is from the end of its program.
pub open spec fn distance(s: StateModel, pc: u16) -> nat {
    if pc >= s.current_frame.program.len() {
        0
    } else {
        (s.current_frame.program.len() - pc) as nat
    }
}

/// Whether the machine `t` at `next` is nearer to the end of every run than
/// the machine `s` at `pc`: it has less gas in all, or as much and fewer
/// frames, or as much and as many and is nearer to the end of its program.
pub open spec fn nearer(t: StateModel, next: u16, s: StateModel, pc: u16) -> bool {
    ||| t.total_gas() < s.total_gas()
    ||| t.total_gas() == s.total_gas() && t.previous_frames.len() < s.previous_frames.len()
    ||| t.total_gas() == s.total_gas() && t.previous_frames.len() == s.previous_frames.len()
        && distance(t, next) < distance(s, pc)
}

/// A step keeps the machine sound and, where the run goes on, brings it
/// nearer to its end. No step makes gas.
pub proof fn lemma_step(s: StateModel, pc: u16)
    requires
        s.wf(),
    ensures
        step_outcome(s, pc).0.wf(),
        step_outcome(s, pc).0.total_gas() <= s.total_gas(),
        step_outcome(s, pc).1 is Ok ==> nearer(
            step_outcome(s, pc).0,
            step_outcome(s, pc).1->Ok_0,
            s,
            pc,
        ),
{
    lemma_unwound(s);
    if pc < s.current_frame.program.len() {
        let instruction = s.current_frame.program[pc as int];
        let ops = instruction.arguments()@;
        instruction.arguments().lemma_in_range();
        assert(instruction.wf());
        if !ops.predicate.holds(s.flags) {
        } else if s.current_frame.gas < ops.static_gas_cost {
            lemma_unwound(s.with_gas(0));
        } else {
            let paid = s.with_gas((s.current_frame.gas - ops.static_gas_cost) as u32);
            assert(paid.wf());
            lemma_handler(instruction.handler(), ops, paid, pc);
        }
    }
}

/// What `lemma_step` says, of an instruction that was paid for: where the
/// run goes on, the machine has come nearer to its end, unless the
/// instruction is a jump or a call.
proof fn lemma_handler(handler: Handler, ops: Operands, paid: StateModel, pc: u16)
    requires
        paid.wf(),
        ops.in_range(),
        pc < paid.current_frame.program.len(),
    ensures
        handler_outcome(handler, ops, paid, pc).0.wf(),
        handler_outcome(handler, ops, paid, pc).0.total_gas() <= paid.total_gas(),
        handler_outcome(handler, ops, paid, pc).1 is Ok && handler != Handler::JumpToBeginning
            && handler != Handler::NearCall ==> nearer(
            handler_outcome(handler, ops, paid, pc).0,
            handler_outcome(handler, ops, paid, pc).1->Ok_0,
            paid,
            pc,
        ),
{
    lemma_unwound(paid);
    match handler {
        Handler::Ptr { op, source, destination, swap } => {
            lemma_ptr_outcome(op, source, destination, swap, ops, paid);
            lemma_unwound(ptr_outcome(op, source, destination, swap, ops, paid).0);
        },
        Handler::PrecompileCall => {
            lemma_precompile_outcome(ops, paid, pc);
            lemma_unwound(paid.with_gas(0));
        },
        Handler::NearCall => {
            lemma_near_call_outcome(ops, paid, pc);
        },
        Handler::Ret => {
            if paid.previous_frames.len() > 0 {
                lemma_popped(paid);
            }
        },
        Handler::Revert => {
            if paid.previous_frames.len() > 0 {
                lemma_popped(paid);
            }
        },
        _ => {},
    }
}

/// A run is its first step and, where that step does not end it, the run
/// from where the step has led.
pub proof fn lemma_run_unfold(s: StateModel, pc: u16)
    requires
        s.wf(),
    ensures
        run_outcome(s, pc) == (match step_outcome(s, pc).1 {
            Ok(next) => run_outcome(step_outcome(s, pc).0, next),
            Err(end) => (step_outcome(s, pc).0, end),
        }),
{
    lemma_step(s, pc);
    let (after, next) = step_outcome(s, pc);
    match next {
        Ok(next_pc) => {
            assert(run_outcome(s, pc) == run_outcome(after, next_pc));
        },
        Err(end) => {
            assert(run_outcome(s, pc) == (after, end));
        },
    }
}

/// A run leaves the machine sound and makes no gas.
pub proof fn lemma_run(s: StateModel, pc: u16)
    requires
        s.wf(),
    ensures
        run_outcome(s, pc).0.wf(),
        run_outcome(s, pc).0.total_gas() <= s.total_gas(),
    decreases s.total_gas(), s.previous_frames.len(), distance(s, pc),
{
    lemma_step(s, pc);
    lemma_run_unfold(s, pc);
    match step_outcome(s, pc).1 {
        Ok(next) => {
            lemma_run(step_outcome(s, pc).0, next);
        },
        Err(_) => {},
    }
}

/// The machine and the end of the run that starts at `pc`: step after step,
/// until a step ends the run.
pub open spec fn run_outcome(s: StateModel, pc: u16) -> (StateModel, End)
    decreases s.total_gas(), s.previous_frames.len(), distance(s, pc),
    when s.wf()
    via run_outcome_decreases
{
    let (after, next) = step_outcome(s, pc);
    match next {
        Ok(next_pc) => run_outcome(after, next_pc),
        Err(end) => (after, end),
    }
}

#[via_fn]
proof fn run_outcome_decreases(s: StateModel, pc: u16) {
    lemma_step(s, pc);
}

impl<'a> State<'a> {
    /// Runs the instruction at `pc`, or passes over it.
    pub fn step(&mut self, pc: u16) -> (result: InstructionResult)
        requires
            old(self).wf(),
        ensures
            final(self).wf(),
            (final(self)@, result_view(result)) == step_outcome(old(self)@, pc),
            (pc as int) < old(self)@.current_frame.program.len() && !old(
                self,
            )@.current_frame.program[pc as int].arguments()@.predicate.holds(old(self)@.flags)
                ==> final(self)@ == old(self)@ && result_view(result) == Ok::<u16, End>(
                (pc + 1) as u16,
            ),
    {
        let program = self.current_frame.program;
        if pc as usize >= program.len() {
            return ret::panic(self);
        }
        let instruction: &Instruction = &program[pc as usize];
        if !instruction.arguments.predicate.satisfied(&self.flags) {
            return Ok(pc + 1);
        }
        if self.use_gas(instruction.arguments.static_gas_cost).is_err() {
            return ret::panic(self);
        }
        match instruction.handler {
            Handler::EndExecution => Err(ExecutionEnd::ProgramFinished(Vec::new())),
            Handler::JumpToBeginning => Ok(0),
            Handler::Ptr { op, source, destination, swap } => {
                if run_ptr(op, source, destination, swap, self, &instruction.arguments) {
                    Ok(pc + 1)
                } else {
                    ret::panic(self)
                }
            },
            Handler::PrecompileCall => precompile_call(self, &instruction.arguments, pc),
            Handler::NearCall => near_call(self, &instruction.arguments, pc),
            Handler::Ret => ret::ret(self, &instruction.arguments),
            Handler::Revert => ret::revert(self, &instruction.arguments),
            Handler::Panic => ret::panic(self),
        }
    }

    /// Runs the program from the instruction `pc` on, until an instruction
    /// ends the run. This is how a run goes on after it was suspended.
    pub fn resume_from(&mut self, pc: u16) -> (end: ExecutionEnd)
        requires
            old(self).wf(),
        ensures
            final(self).wf(),
            (final(self)@, end@) == run_outcome(old(self)@, pc),
            final(self)@.total_gas() <= old(self)@.total_gas(),
    {
        proof {
            lemma_run(self@, pc);
        }
        let mut at: u16 = pc;
        loop
            invariant
                self.wf(),
                run_outcome(self@, at) == run_outcome(old(self)@, pc),
                run_outcome(old(self)@, pc).0.total_gas() <= old(self)@.total_gas(),
            decreases self@.total_gas(), self@.previous_frames.len(), distance(self@, at),
        {
            proof {
                lemma_step(self@, at);
                lemma_run_unfold(self@, at);
            }
            match self.step(at) {
                Ok(next) => {
                    at = next;
                },
                Err(end) => {
                    return end;
                },
            }
        }
    }

    /// Runs the program from its first instruction on.
    pub fn run(&mut self) -> (end: ExecutionEnd)
        requires
            old(self).wf(),
        ensures
            final(self).wf(),
            (final(self)@, end@) == run_outcome(old(self)@, 0),
            final(self)@.total_gas() <= old(self)@.total_gas(),
    {
        self.resume_from(0)
    }
}

} // verus!
