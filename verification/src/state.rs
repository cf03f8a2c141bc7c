//! The state of the machine: registers, flags, the running call frame, the
//! frames of the callers that wait for it, and the heaps.

use crate::bitset::{lemma_mask_bit_zero, mask_bit, mask_get, mask_with, Bitset};
use crate::heaps::{Heaps, MemoryQuery};
use crate::instruction::Instruction;
use crate::instruction_handlers::precompiles::PrecompileRequest;
use crate::predication::Flags;
use crate::word::Word;
use vstd::prelude::*;

verus! {

/// Where the stack pointer of a new frame stands.
pub const INITIAL_SP: u16 = 1000;

/// The exception handler of a frame that no call has made.
pub const NO_EXCEPTION_HANDLER: u16 = 0xffff;

/// What a call frame holds.
#[verifier::ext_equal]
pub struct FrameModel {
    pub program: Seq<Instruction>,
    pub code_page: Seq<Word>,
    pub stack: Seq<Word>,
    /// For each stack slot, whether it holds a fat pointer.
    pub stack_pointer_flags: Seq<bool>,
    pub sp: u16,
    pub gas: u32,
    pub heap: u32,
    pub aux_heap: u32,
    pub address: Seq<u8>,
    /// Where the caller goes on if this frame reverts.
    pub exception_handler: u16,
}

/// What the machine holds.
#[verifier::ext_equal]
pub struct StateModel {
    pub registers: Seq<Word>,
    /// For each register, whether it holds a fat pointer.
    pub register_pointer_flags: Seq<bool>,
    pub flags: Flags,
    pub current_frame: FrameModel,
    /// The frames of the callers, the outermost first, each with the number
    /// of the instruction at which it goes on.
    pub previous_frames: Seq<(u16, FrameModel)>,
    pub heaps: Seq<Seq<u8>>,
    /// The call of a primitive that the host has yet to carry out.
    pub pending_precompile: Option<PrecompileRequest>,
}

/// The gas of all the frames in `frames` together.
pub open spec fn frames_gas(frames: Seq<(u16, FrameModel)>) -> nat
    decreases frames.len(),
{
    if frames.len() == 0 {
        0
    } else {
        frames_gas(frames.drop_last()) + frames.last().1.gas as nat
    }
}

/// Adding a frame adds its gas.
pub proof fn lemma_frames_gas_push(frames: Seq<(u16, FrameModel)>, entry: (u16, FrameModel))
    ensures
        frames_gas(frames.push(entry)) == frames_gas(frames) + entry.1.gas,
{
    assert(frames.push(entry).drop_last() =~= frames);
}

impl FrameModel {
    /// A frame as a call or the start of the machine makes it: an empty stack
    /// without any pointer, the stack pointer at its first place.
    pub open spec fn fresh(
        address: Seq<u8>,
        program: Seq<Instruction>,
        code_page: Seq<Word>,
        gas: u32,
        heap: u32,
        aux_heap: u32,
        exception_handler: u16,
    ) -> FrameModel {
        FrameModel {
            program,
            code_page,
            stack: Seq::new(65536, |i: int| Word { limb0: 0, limb1: 0, limb2: 0, limb3: 0 }),
            stack_pointer_flags: Seq::new(65536, |i: int| false),
            sp: INITIAL_SP,
            gas,
            heap,
            aux_heap,
            address,
            exception_handler,
        }
    }

    /// The frame is sound in a machine with `pages` heap pages.
    pub open spec fn wf(self, pages: nat) -> bool {
        &&& self.program.len() <= u16::MAX
        &&& forall|i: int| 0 <= i < self.program.len() ==> (#[trigger] self.program[i]).wf()
        &&& self.stack.len() == 65536
        &&& self.stack_pointer_flags.len() == 65536
        &&& self.heap < pages
        &&& self.aux_heap < pages
        &&& self.address.len() == 20
    }
}

impl StateModel {
    /// The machine before it has run anything.
    pub open spec fn fresh(
        address: Seq<u8>,
        program: Seq<Instruction>,
        code_page: Seq<Word>,
        gas: u32,
    ) -> StateModel {
        StateModel {
            registers: Seq::new(16, |i: int| Word { limb0: 0, limb1: 0, limb2: 0, limb3: 0 }),
            register_pointer_flags: Seq::new(16, |i: int| false),
            flags: Flags { lt_of: false, eq: false, gt: false },
            current_frame: FrameModel::fresh(
                address,
                program,
                code_page,
                gas,
                0,
                1,
                NO_EXCEPTION_HANDLER,
            ),
            previous_frames: Seq::empty(),
            heaps: seq![Seq::<u8>::empty(), Seq::<u8>::empty()],
            pending_precompile: None,
        }
    }

    /// The gas of all the frames together.
    pub open spec fn total_gas(self) -> nat {
        self.current_frame.gas as nat + frames_gas(self.previous_frames)
    }

    /// The machine is sound: it has 16 registers, each of its frames is
    /// sound, and all its gas together fits in 32 bits.
    pub open spec fn wf(self) -> bool {
        &&& self.registers.len() == 16
        &&& self.register_pointer_flags.len() == 16
        &&& self.current_frame.wf(self.heaps.len())
        &&& forall|i: int|
            0 <= i < self.previous_frames.len() ==> (#[trigger] self.previous_frames[i]).1.wf(
                self.heaps.len(),
            )
        &&& self.total_gas() <= u32::MAX
    }

    /// The machine with the gas of the running frame set to `gas`.
    pub open spec fn with_gas(self, gas: u32) -> StateModel {
        StateModel { current_frame: FrameModel { gas, ..self.current_frame }, ..self }
    }

    /// The machine with the stack pointer at `sp`.
    pub open spec fn with_sp(self, sp: u16) -> StateModel {
        StateModel { current_frame: FrameModel { sp, ..self.current_frame }, ..self }
    }

    /// The machine with a register and its pointer flag set.
    pub open spec fn with_register(self, i: int, value: Word, is_pointer: bool) -> StateModel {
        StateModel {
            registers: self.registers.update(i, value),
            register_pointer_flags: self.register_pointer_flags.update(i, is_pointer),
            ..self
        }
    }

    /// The machine with a stack slot and its pointer flag set.
    pub open spec fn with_stack_slot(self, i: int, value: Word, is_pointer: bool) -> StateModel {
        StateModel {
            current_frame: FrameModel {
                stack: self.current_frame.stack.update(i, value),
                stack_pointer_flags: self.current_frame.stack_pointer_flags.update(i, is_pointer),
                ..self.current_frame
            },
            ..self
        }
    }

    /// Whether this machine is sound and has the frames, the program and
    /// the gas of `before`: it can differ from it in registers, stack,
    /// heaps and in the call it has left for the host.
    pub open spec fn continues(self, before: StateModel) -> bool {
        &&& self.wf()
        &&& self.previous_frames == before.previous_frames
        &&& self.current_frame.program == before.current_frame.program
        &&& self.current_frame.gas == before.current_frame.gas
        &&& self.current_frame.heap == before.current_frame.heap
        &&& self.current_frame.aux_heap == before.current_frame.aux_heap
        &&& self.current_frame.address == before.current_frame.address
        &&& self.heaps == before.heaps
    }

    /// The machine with the given call to carry out, or none.
    pub open spec fn with_pending(self, request: Option<PrecompileRequest>) -> StateModel {
        StateModel { pending_precompile: request, ..self }
    }

    /// The word of the running frame's code page with number `i`, and zero
    /// where the page has no such word.
    pub open spec fn code_word(self, i: int) -> Word {
        if i < self.current_frame.code_page.len() {
            self.current_frame.code_page[i]
        } else {
            Word { limb0: 0, limb1: 0, limb2: 0, limb3: 0 }
        }
    }

    /// The machine after a call: a fresh frame runs the same program with
    /// `gas` of the caller's gas, and the caller waits with the rest, to go
    /// on at `return_pc`.
    pub open spec fn pushed(self, return_pc: u16, gas: u32, exception_handler: u16) -> StateModel {
        let caller = self.current_frame;
        StateModel {
            current_frame: FrameModel::fresh(
                caller.address,
                caller.program,
                caller.code_page,
                gas,
                caller.heap,
                caller.aux_heap,
                exception_handler,
            ),
            previous_frames: self.previous_frames.push(
                (return_pc, FrameModel { gas: (caller.gas - gas) as u32, ..caller }),
            ),
            ..self
        }
    }

    /// The machine after every frame but the outermost has ended: the
    /// outermost frame runs, with the gas of all the frames.
    pub open spec fn unwound(self) -> StateModel {
        if self.previous_frames.len() == 0 {
            self
        } else {
            StateModel {
                current_frame: FrameModel {
                    gas: self.total_gas() as u32,
                    ..self.previous_frames[0].1
                },
                previous_frames: Seq::empty(),
                ..self
            }
        }
    }

    /// The machine after the running frame has ended: the caller that waited
    /// last runs again, with its own gas and what the frame has left.
    pub open spec fn popped(self) -> StateModel {
        let caller = self.previous_frames.last().1;
        StateModel {
            current_frame: FrameModel {
                gas: (caller.gas + self.current_frame.gas) as u32,
                ..caller
            },
            previous_frames: self.previous_frames.drop_last(),
            ..self
        }
    }
}

/// Ending the running frame first does not change where unwinding leads.
pub proof fn lemma_popped_unwound(s: StateModel)
    requires
        s.wf(),
        s.previous_frames.len() > 0,
    ensures
        s.popped().unwound() == s.unwound(),
        s.popped().total_gas() == s.total_gas(),
{
    let frames = s.previous_frames;
    if frames.len() == 1 {
        assert(frames.drop_last() =~= Seq::<(u16, FrameModel)>::empty());
        assert(frames_gas(frames.drop_last()) == 0);
        assert(frames.last() == frames[0]);
        assert(s.popped().unwound() =~~= s.unwound());
    } else {
        assert(frames.drop_last()[0] == frames[0]);
        assert(s.popped().unwound() =~~= s.unwound());
    }
}

/// One call's own context: its program, its constants, its stack, its gas
/// and its heaps.
pub struct Callframe<'a> {
    pub(crate) program: &'a [Instruction],
    pub(crate) code_page: Vec<Word>,
    pub(crate) stack: Vec<Word>,
    pub(crate) stack_pointer_flags: Bitset,
    pub(crate) sp: u16,
    pub(crate) gas: u32,
    pub(crate) heap: u32,
    pub(crate) aux_heap: u32,
    pub(crate) address: [u8; 20],
    pub(crate) exception_handler: u16,
}

impl<'a> View for Callframe<'a> {
    type V = FrameModel;

    open(crate) spec fn view(&self) -> FrameModel {
        FrameModel {
            program: self.program@,
            code_page: self.code_page@,
            stack: self.stack@,
            stack_pointer_flags: self.stack_pointer_flags@,
            sp: self.sp,
            gas: self.gas,
            heap: self.heap,
            aux_heap: self.aux_heap,
            address: self.address@,
            exception_handler: self.exception_handler,
        }
    }
}

/// A copy of a sequence of words.
fn clone_words(words: &Vec<Word>) -> (copy: Vec<Word>)
    ensures
        copy@ == words@,
{
    let mut copy: Vec<Word> = Vec::new();
    let mut i: usize = 0;
    while i < words.len()
        invariant
            i <= words@.len(),
            copy@ == words@.subrange(0, i as int),
        decreases words@.len() - i,
    {
        copy.push(words[i]);
        i = i + 1;
        assert(copy@ =~= words@.subrange(0, i as int));
    }
    assert(copy@ =~= words@);
    copy
}

/// A stack of 65536 zero words.
fn empty_stack() -> (stack: Vec<Word>)
    ensures
        stack@ == Seq::new(65536, |i: int| Word { limb0: 0, limb1: 0, limb2: 0, limb3: 0 }),
{
    let stack = vec![Word::zero(); 65536];
    assert(stack@ =~= Seq::new(65536, |i: int| Word { limb0: 0, limb1: 0, limb2: 0, limb3: 0 }));
    stack
}

impl<'a> Callframe<'a> {
    /// The parts of the frame that its view does not show are sound.
    pub open(crate) spec fn wf(&self) -> bool {
        self.stack_pointer_flags.wf()
    }

    /// A frame that is about to run `program` from its first instruction,
    /// with an empty stack.
    pub fn new(
        address: [u8; 20],
        program: &'a [Instruction],
        code_page: Vec<Word>,
        gas: u32,
        heap: u32,
        aux_heap: u32,
        exception_handler: u16,
    ) -> (frame: Callframe<'a>)
        ensures
            frame.wf(),
            frame@ == FrameModel::fresh(
                address@,
                program@,
                code_page@,
                gas,
                heap,
                aux_heap,
                exception_handler,
            ),
    {
        let frame = Callframe {
            program,
            code_page,
            stack: empty_stack(),
            stack_pointer_flags: Bitset::new(),
            sp: INITIAL_SP,
            gas,
            heap,
            aux_heap,
            address,
            exception_handler,
        };
        assert(frame@.stack_pointer_flags =~= Seq::new(65536, |i: int| false));
        frame
    }
}

/// The pointer flags of the registers, one for each bit of the mask.
pub open spec fn mask_bits(mask: u16) -> Seq<bool> {
    Seq::new(16, |i: int| mask_bit(mask, i))
}

/// The frames that wait, each as what it holds.
pub open(crate) spec fn frames_view<'a>(frames: Seq<(u16, Callframe<'a>)>) -> Seq<
    (u16, FrameModel),
> {
    Seq::new(frames.len(), |i: int| (frames[i].0, frames[i].1@))
}

/// The whole machine.
pub struct State<'a> {
    pub(crate) registers: [Word; 16],
    pub(crate) register_pointer_flags: u16,
    pub(crate) flags: Flags,
    pub(crate) current_frame: Callframe<'a>,
    pub(crate) previous_frames: Vec<(u16, Callframe<'a>)>,
    pub(crate) heaps: Heaps,
    pub(crate) pending_precompile: Option<PrecompileRequest>,
}

impl<'a> View for State<'a> {
    type V = StateModel;

    open(crate) spec fn view(&self) -> StateModel {
        StateModel {
            registers: self.registers@,
            register_pointer_flags: mask_bits(self.register_pointer_flags),
            flags: self.flags,
            current_frame: self.current_frame@,
            previous_frames: frames_view(self.previous_frames@),
            heaps: self.heaps@,
            pending_precompile: self.pending_precompile,
        }
    }
}

impl<'a> State<'a> {
    /// The machine is sound: what it holds is, and so are the parts of its
    /// frames that their views do not show.
    pub open(crate) spec fn wf(&self) -> bool {
        &&& self@.wf()
        &&& self.current_frame.wf()
        &&& forall|i: int|
            0 <= i < self.previous_frames@.len() ==> (#[trigger] self.previous_frames@[i]).1.wf()
    }

    /// The machine before it has run anything: every register zero and no
    /// pointer, no flag set, two empty heap pages, and one frame with all
    /// the gas.
    pub fn new(
        address: [u8; 20],
        program: &'a [Instruction],
        code_page: Vec<Word>,
        gas: u32,
    ) -> (state: State<'a>)
        requires
            program@.len() <= u16::MAX,
            forall|i: int| 0 <= i < program@.len() ==> (#[trigger] program@[i]).wf(),
        ensures
            state.wf(),
            state@ == StateModel::fresh(address@, program@, code_page@, gas),
    {
        let mut heaps = Heaps::new();
        let heap: u32 = heaps.allocate();
        let aux_heap: u32 = heaps.allocate();
        let state = State {
            registers: [Word::zero(); 16],
            register_pointer_flags: 0,
            flags: Flags::new(false, false, false),
            current_frame: Callframe::new(
                address,
                program,
                code_page,
                gas,
                heap,
                aux_heap,
                NO_EXCEPTION_HANDLER,
            ),
            previous_frames: Vec::new(),
            heaps,
            pending_precompile: None,
        };
        proof {
            lemma_mask_bit_zero();
            let fresh = StateModel::fresh(address@, program@, code_page@, gas);
            assert(state@.registers =~= fresh.registers);
            assert(state@.register_pointer_flags =~= fresh.register_pointer_flags);
            assert(state@.previous_frames =~= fresh.previous_frames);
            assert(state@.heaps =~= fresh.heaps);
            assert(frames_gas(state@.previous_frames) == 0);
        }
        state
    }

    /// The gas that the running frame has left.
    pub fn gas(&self) -> (gas: u32)
        ensures
            gas == self@.current_frame.gas,
    {
        self.current_frame.gas
    }

    /// The stack pointer of the running frame.
    pub fn sp(&self) -> (sp: u16)
        ensures
            sp == self@.current_frame.sp,
    {
        self.current_frame.sp
    }

    pub fn flags(&self) -> (flags: Flags)
        ensures
            flags == self@.flags,
    {
        self.flags
    }

    /// Sets the condition flags.
    pub fn set_flags(&mut self, flags: Flags)
        requires
            old(self).wf(),
        ensures
            final(self).wf(),
            final(self)@ == (StateModel { flags, ..old(self)@ }),
    {
        self.flags = flags;
    }

    /// How many callers wait for the running frame.
    pub fn depth(&self) -> (depth: usize)
        ensures
            depth == self@.previous_frames.len(),
    {
        self.previous_frames.len()
    }

    /// The number of the running frame's heap page.
    pub fn heap(&self) -> (page: u32)
        ensures
            page == self@.current_frame.heap,
    {
        self.current_frame.heap
    }

    /// The number of the running frame's auxiliary heap page.
    pub fn aux_heap(&self) -> (page: u32)
        ensures
            page == self@.current_frame.aux_heap,
    {
        self.current_frame.aux_heap
    }

    /// Where the caller of the running frame goes on if the frame reverts.
    pub fn exception_handler(&self) -> (pc: u16)
        ensures
            pc == self@.current_frame.exception_handler,
    {
        self.current_frame.exception_handler
    }

    /// The address of the running frame.
    pub fn address(&self) -> (address: [u8; 20])
        ensures
            address@ == self@.current_frame.address,
    {
        self.current_frame.address
    }

    pub fn register(&self, i: u8) -> (value: Word)
        requires
            self.wf(),
            i < 16,
        ensures
            value == self@.registers[i as int],
    {
        self.registers[i as usize]
    }

    /// Whether a register holds a fat pointer.
    pub fn register_is_pointer(&self, i: u8) -> (r: bool)
        requires
            self.wf(),
            i < 16,
        ensures
            r == self@.register_pointer_flags[i as int],
    {
        mask_get(self.register_pointer_flags, i)
    }

    /// Sets a register and, with it, its pointer flag.
    pub fn set_register(&mut self, i: u8, value: Word, is_pointer: bool)
        requires
            old(self).wf(),
            i < 16,
        ensures
            final(self).wf(),
            final(self)@ == old(self)@.with_register(i as int, value, is_pointer),
    {
        self.registers[i as usize] = value;
        self.register_pointer_flags = mask_with(self.register_pointer_flags, i, is_pointer);
        proof {
            assert(self@.register_pointer_flags =~= old(self)@.register_pointer_flags.update(
                i as int,
                is_pointer,
            ));
            assert(self@.registers =~= old(self)@.registers.update(i as int, value));
        }
    }

    pub fn stack_slot(&self, i: u16) -> (value: Word)
        requires
            self.wf(),
        ensures
            value == self@.current_frame.stack[i as int],
    {
        self.current_frame.stack[i as usize]
    }

    /// Whether a stack slot holds a fat pointer.
    pub fn stack_slot_is_pointer(&self, i: u16) -> (r: bool)
        requires
            self.wf(),
        ensures
            r == self@.current_frame.stack_pointer_flags[i as int],
    {
        self.current_frame.stack_pointer_flags.get(i)
    }

    /// Sets a stack slot and, with it, its pointer flag.
    pub fn set_stack_slot(&mut self, i: u16, value: Word, is_pointer: bool)
        requires
            old(self).wf(),
        ensures
            final(self).wf(),
            final(self)@ == old(self)@.with_stack_slot(i as int, value, is_pointer),
    {
        self.current_frame.stack.set(i as usize, value);
        self.current_frame.stack_pointer_flags.put(i, is_pointer);
    }

    pub fn set_sp(&mut self, sp: u16)
        requires
            old(self).wf(),
        ensures
            final(self).wf(),
            final(self)@ == old(self)@.with_sp(sp),
    {
        self.current_frame.sp = sp;
    }

    /// The word of the code page with number `i`, and zero where the page
    /// has no such word.
    pub fn code_word(&self, i: u16) -> (value: Word)
        ensures
            value == self@.code_word(i as int),
    {
        if (i as usize) < self.current_frame.code_page.len() {
            self.current_frame.code_page[i as usize]
        } else {
            Word::zero()
        }
    }

    /// Takes `amount` from the gas of the running frame. Where the frame has
    /// less, it loses what it has and the call fails.
    pub fn use_gas(&mut self, amount: u32) -> (r: Result<(), ()>)
        requires
            old(self).wf(),
        ensures
            final(self).wf(),
            old(self)@.current_frame.gas >= amount ==> r is Ok && final(self)@ == old(self)@.with_gas(
                (old(self)@.current_frame.gas - amount) as u32,
            ),
            old(self)@.current_frame.gas < amount ==> r is Err && final(self)@ == old(
                self,
            )@.with_gas(0),
    {
        if self.current_frame.gas >= amount {
            self.current_frame.gas = self.current_frame.gas - amount;
            Ok(())
        } else {
            self.current_frame.gas = 0;
            Err(())
        }
    }

    /// Starts a frame for a call. It runs the caller's program on the
    /// caller's heaps, with a stack of its own and `gas` of the caller's gas.
    pub fn push_frame(&mut self, return_pc: u16, gas: u32, exception_handler: u16)
        requires
            old(self).wf(),
            gas <= old(self)@.current_frame.gas,
        ensures
            final(self).wf(),
            final(self)@ == old(self)@.pushed(return_pc, gas, exception_handler),
            final(self)@.total_gas() == old(self)@.total_gas(),
    {
        let code_page = clone_words(&self.current_frame.code_page);
        let mut frame = Callframe::new(
            self.current_frame.address,
            self.current_frame.program,
            code_page,
            gas,
            self.current_frame.heap,
            self.current_frame.aux_heap,
            exception_handler,
        );
        self.current_frame.gas = self.current_frame.gas - gas;
        core::mem::swap(&mut self.current_frame, &mut frame);
        self.previous_frames.push((return_pc, frame));
        proof {
            let entry = (return_pc, frame@);
            assert(self@.previous_frames =~= old(self)@.previous_frames.push(entry));
            lemma_frames_gas_push(old(self)@.previous_frames, entry);
            assert(self@ =~~= old(self)@.pushed(return_pc, gas, exception_handler));
        }
    }

    /// Ends the running frame. The caller that waited last runs again and
    /// gets the gas that the frame has left; the result is the number of the
    /// instruction at which it goes on. With no caller nothing changes.
    pub fn pop_frame(&mut self) -> (return_pc: Option<u16>)
        requires
            old(self).wf(),
        ensures
            final(self).wf(),
            old(self)@.previous_frames.len() == 0 ==> return_pc is None && final(self)@ == old(
                self,
            )@,
            old(self)@.previous_frames.len() > 0 ==> return_pc == Some(
                old(self)@.previous_frames.last().0,
            ) && final(self)@ == old(self)@.popped(),
            final(self)@.total_gas() == old(self)@.total_gas(),
    {
        let leftover: u32 = self.current_frame.gas;
        match self.previous_frames.pop() {
            Some((return_pc, frame)) => {
                proof {
                    let frames = old(self)@.previous_frames;
                    assert(frames.last() == (return_pc, frame@));
                    assert(self@.previous_frames =~= frames.drop_last());
                    assert(frames_gas(frames) == frames_gas(frames.drop_last()) + frame@.gas);
                }
                self.current_frame = frame;
                self.current_frame.gas = self.current_frame.gas + leftover;
                proof {
                    assert(self@ =~~= old(self)@.popped());
                }
                Some(return_pc)
            },
            None => None,
        }
    }

    /// Ends every frame but the outermost, each as `pop_frame` does.
    pub fn unwind(&mut self)
        requires
            old(self).wf(),
        ensures
            final(self).wf(),
            final(self)@ == old(self)@.unwound(),
            final(self)@.previous_frames.len() == 0,
    {
        while self.previous_frames.len() > 0
            invariant
                self.wf(),
                self@.unwound() == old(self)@.unwound(),
            decreases self.previous_frames@.len(),
        {
            proof {
                lemma_popped_unwound(self@);
            }
            let _ = self.pop_frame();
        }
    }

    /// Leaves a call of a primitive for the host.
    pub fn set_precompile_request(&mut self, request: PrecompileRequest)
        requires
            old(self).wf(),
        ensures
            final(self).wf(),
            final(self)@ == old(self)@.with_pending(Some(request)),
    {
        self.pending_precompile = Some(request);
    }

    /// The call of a primitive that waits for the host, which is then no
    /// longer waiting.
    pub fn take_precompile_request(&mut self) -> (request: Option<PrecompileRequest>)
        requires
            old(self).wf(),
        ensures
            final(self).wf(),
            request == old(self)@.pending_precompile,
            final(self)@ == old(self)@.with_pending(None),
    {
        let request = self.pending_precompile;
        self.pending_precompile = None;
        request
    }

    /// How many heap pages there are.
    pub fn heap_pages(&self) -> (pages: usize)
        ensures
            pages == self@.heaps.len(),
    {
        self.heaps.len()
    }

    /// The `len` bytes of a heap page from `start` on, with zero for what
    /// lies beyond its end.
    pub fn read_heap(&self, page: u32, start: u64, len: u32) -> (bytes: Vec<u8>)
        requires
            self.wf(),
            page < self@.heaps.len(),
            start + len <= u64::MAX,
        ensures
            bytes@ == crate::heaps::read_bytes(self@.heaps[page as int], start as int, len as int),
    {
        self.heaps.read_range(page, start, len)
    }

    /// Carries out a query on the heaps.
    pub fn execute_partial_query(&mut self, query: MemoryQuery) -> (answer: MemoryQuery)
        requires
            old(self).wf(),
            query.page < old(self)@.heaps.len(),
            query.index * 32 + 32 <= usize::MAX,
        ensures
            final(self).wf(),
            (final(self)@.heaps, answer) == crate::heaps::query_result(old(self)@.heaps, query),
            final(self)@ == (StateModel { heaps: final(self)@.heaps, ..old(self)@ }),
    {
        self.heaps.execute_partial_query(query)
    }
}

} // verus!
