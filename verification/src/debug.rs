//! What a tracer gets to see of the machine before each step.

use crate::instruction::InstructionVariant;
use crate::state::{State, StateModel};
use crate::word::Word;
use vstd::prelude::*;

verus! {

/// The machine as it stands before the instruction at `pc`.
#[derive(Clone, Copy, Debug)]
pub struct Inspection {
    /// The family of the instruction.
    pub variant: InstructionVariant,
    pub pc: u16,
    /// The gas that the running frame has left.
    pub gas: u32,
    pub sp: u16,
    pub registers: [Word; 16],
    /// For each register, whether it holds a fat pointer.
    pub register_pointer_flags: [bool; 16],
}

impl Inspection {
    /// Whether the record shows the machine `s` before the instruction `pc`.
    pub open spec fn shows(self, s: StateModel, pc: u16) -> bool {
        &&& self.variant == s.current_frame.program[pc as int].tag()
        &&& self.pc == pc
        &&& self.gas == s.current_frame.gas
        &&& self.sp == s.current_frame.sp
        &&& self.registers@ == s.registers
        &&& self.register_pointer_flags@ == s.register_pointer_flags
    }
}

impl<'a> State<'a> {
    /// What a tracer gets to see before the instruction at `pc`, and nothing
    /// where the program has no such instruction.
    pub fn inspect(&self, pc: u16) -> (inspection: Option<Inspection>)
        requires
            self.wf(),
        ensures
            inspection is Some == ((pc as int) < self@.current_frame.program.len()),
            inspection is Some ==> inspection.unwrap().shows(self@, pc),
    {
        let program = self.current_frame.program;
        if pc as usize >= program.len() {
            return None;
        }
        let mut register_pointer_flags: [bool; 16] = [false; 16];
        let mut i: u8 = 0;
        while i < 16
            invariant
                i <= 16,
                self.wf(),
                forall|k: int|
                    0 <= k < i ==> #[trigger] register_pointer_flags@[k]
                        == self@.register_pointer_flags[k],
            decreases 16 - i,
        {
            register_pointer_flags[i as usize] = self.register_is_pointer(i);
            i = i + 1;
        }
        assert(register_pointer_flags@ =~= self@.register_pointer_flags);
        Some(
            Inspection {
                variant: program[pc as usize].variant,
                pc,
                gas: self.current_frame.gas,
                sp: self.current_frame.sp,
                registers: self.registers,
                register_pointer_flags,
            },
        )
    }
}

} // verus!
