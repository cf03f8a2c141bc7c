//! Arithmetic on fat pointers. Every operation takes the word that holds the
//! pointer and a plain word, and gives the new word or nothing.

use crate::addressing_modes::{
    destination_state, lemma_destination_state, lemma_source_state, source_is_pointer,
    source_state, source_value, AbsoluteStack,
    AdvanceStackPointer, AnyDestination, AnySource, Arguments, CodePage, Destination,
    DestinationKind, DestinationWriter, Immediate1, Operands, Register1, Register2, RelativeStack,
    Source, SourceKind, SourceWriter,
};
use crate::fat_pointer::FatPointer;
use crate::instruction::{Handler, Instruction, InstructionVariant};
use crate::predication::Predicate;
use crate::state::{State, StateModel};
use crate::word::Word;
use vstd::prelude::*;

verus! {

/// The operations on a fat pointer.
#[derive(Clone, Copy, Debug, PartialEq, Eq, Structural)]
pub enum PtrOpKind {
    Add,
    Sub,
    Pack,
    Shrink,
}

/// `in1` with its offset moved up by `in2`: nothing if `in2` does not fit in
/// 32 bits or the new offset does not.
pub open spec fn ptr_add(in1: Word, in2: Word) -> Option<Word> {
    let p = FatPointer::of_word(in1);
    if in2@ > u32::MAX || p.offset + in2@ > u32::MAX {
        None
    } else {
        Some(FatPointer { offset: (p.offset + in2@) as u32, ..p }.stored_in(in1))
    }
}

/// `in1` with its offset moved down by `in2`: nothing if `in2` does not fit
/// in 32 bits or is more than the offset.
pub open spec fn ptr_sub(in1: Word, in2: Word) -> Option<Word> {
    let p = FatPointer::of_word(in1);
    if in2@ > u32::MAX || in2@ > p.offset {
        None
    } else {
        Some(FatPointer { offset: (p.offset - in2@) as u32, ..p }.stored_in(in1))
    }
}

/// The low 128 bits of `in1` under the high 128 bits of `in2`: nothing
/// unless the low 128 bits of `in2` are all zero.
pub open spec fn ptr_pack(in1: Word, in2: Word) -> Option<Word> {
    if in2.low_128() != 0 {
        None
    } else {
        Some(Word { limb0: in1.limb0, limb1: in1.limb1, limb2: in2.limb2, limb3: in2.limb3 })
    }
}

/// `in1` with its length made shorter by `in2`: nothing if `in2` is more
/// than the length.
pub open spec fn ptr_shrink(in1: Word, in2: Word) -> Option<Word> {
    let p = FatPointer::of_word(in1);
    if in2@ > p.length {
        None
    } else {
        Some(FatPointer { length: (p.length - in2@) as u32, ..p }.stored_in(in1))
    }
}

/// What the operation `kind` gives on the pointer word `in1` and the plain
/// word `in2`.
pub open spec fn ptr_result(kind: PtrOpKind, in1: Word, in2: Word) -> Option<Word> {
    match kind {
        PtrOpKind::Add => ptr_add(in1, in2),
        PtrOpKind::Sub => ptr_sub(in1, in2),
        PtrOpKind::Pack => ptr_pack(in1, in2),
        PtrOpKind::Shrink => ptr_shrink(in1, in2),
    }
}

/// An operation on a fat pointer, chosen by type.
pub trait PtrOp {
    spec fn kind_spec() -> PtrOpKind;

    fn kind() -> (k: PtrOpKind)
        ensures
            k == Self::kind_spec(),
    ;

    fn perform(in1: Word, in2: Word) -> (r: Option<Word>)
        ensures
            r == ptr_result(Self::kind_spec(), in1, in2),
    ;
}

pub struct PtrAddSub<const IS_ADD: bool>;

pub type PtrAdd = PtrAddSub<true>;

pub type PtrSub = PtrAddSub<false>;

impl<const IS_ADD: bool> PtrOp for PtrAddSub<IS_ADD> {
    open spec fn kind_spec() -> PtrOpKind {
        if IS_ADD {
            PtrOpKind::Add
        } else {
            PtrOpKind::Sub
        }
    }

    fn kind() -> (k: PtrOpKind) {
        if IS_ADD {
            PtrOpKind::Add
        } else {
            PtrOpKind::Sub
        }
    }

    fn perform(in1: Word, in2: Word) -> (r: Option<Word>) {
        if !in2.fits_u32() {
            return None;
        }
        let mut pointer = FatPointer::from(in1);
        let delta: u32 = in2.low_u32();
        let new_offset: u32 = if IS_ADD {
            match pointer.offset.checked_add(delta) {
                Some(offset) => offset,
                None => {
                    return None;
                },
            }
        } else {
            match pointer.offset.checked_sub(delta) {
                Some(offset) => offset,
                None => {
                    return None;
                },
            }
        };
        pointer.offset = new_offset;
        Some(pointer.store_in(in1))
    }
}

pub struct PtrPack;

impl PtrOp for PtrPack {
    open spec fn kind_spec() -> PtrOpKind {
        PtrOpKind::Pack
    }

    fn kind() -> (k: PtrOpKind) {
        PtrOpKind::Pack
    }

    fn perform(in1: Word, in2: Word) -> (r: Option<Word>) {
        if !in2.low_128_is_zero() {
            return None;
        }
        Some(Word { limb0: in1.limb0, limb1: in1.limb1, limb2: in2.limb2, limb3: in2.limb3 })
    }
}

pub struct PtrShrink;

impl PtrOp for PtrShrink {
    open spec fn kind_spec() -> PtrOpKind {
        PtrOpKind::Shrink
    }

    fn kind() -> (k: PtrOpKind) {
        PtrOpKind::Shrink
    }

    fn perform(in1: Word, in2: Word) -> (r: Option<Word>) {
        let mut pointer = FatPointer::from(in1);
        if !in2.fits_u32() {
            return None;
        }
        let new_length: u32 = match pointer.length.checked_sub(in2.low_u32()) {
            Some(length) => length,
            None => {
                return None;
            },
        };
        pointer.length = new_length;
        Some(pointer.store_in(in1))
    }
}

/// Moving the offset down by `d` and up again by `d` gives the word back,
/// whenever `d` is at most the offset.
pub proof fn lemma_sub_then_add(p: Word, d: Word)
    requires
        d@ <= FatPointer::of_word(p).offset,
    ensures
        ptr_sub(p, d) is Some,
        ptr_add(ptr_sub(p, d).unwrap(), d) == Some(p),
{
}

/// Moving the offset fails exactly when `d` does not fit in 32 bits or the
/// new offset would leave the range of 32 bits, below for `ptr_sub` and
/// above for `ptr_add`.
pub proof fn lemma_offset_failure(p: Word, d: Word)
    ensures
        ptr_sub(p, d) is None <==> d@ > FatPointer::of_word(p).offset,
        ptr_add(p, d) is None <==> FatPointer::of_word(p).offset + d@ > u32::MAX,
{
}

/// Packing fails exactly when the low 128 bits of `q` are not all zero.
/// Otherwise the result has the low 128 bits of `p` and the high 128 bits of
/// `q`: its offset and page are those of `p`, its start and length those of
/// `q`.
pub proof fn lemma_pack(p: Word, q: Word)
    ensures
        q.low_128() != 0 <==> ptr_pack(p, q) is None,
        q.low_128() == 0 ==> {
            let r = ptr_pack(p, q).unwrap();
            &&& r.low_128() == p.low_128()
            &&& r.high_128() == q.high_128()
            &&& FatPointer::of_word(r).offset == FatPointer::of_word(p).offset
            &&& FatPointer::of_word(r).memory_page == FatPointer::of_word(p).memory_page
            &&& FatPointer::of_word(r).start == FatPointer::of_word(q).start
            &&& FatPointer::of_word(r).length == FatPointer::of_word(q).length
        },
{
}

/// Shrinking fails exactly when `d` is more than the length. Otherwise the
/// length goes down by `d` and nothing else in the word changes.
pub proof fn lemma_shrink(p: Word, d: Word)
    ensures
        d@ > FatPointer::of_word(p).length <==> ptr_shrink(p, d) is None,
        d@ <= FatPointer::of_word(p).length ==> {
            let r = ptr_shrink(p, d).unwrap();
            &&& FatPointer::of_word(r).length == FatPointer::of_word(p).length - d@
            &&& FatPointer::of_word(r).offset == FatPointer::of_word(p).offset
            &&& FatPointer::of_word(r).memory_page == FatPointer::of_word(p).memory_page
            &&& FatPointer::of_word(r).start == FatPointer::of_word(p).start
            &&& r.limb1 == p.limb1
            &&& r.limb3 == p.limb3
        },
{
}

/// What a pointer instruction does to the machine, and whether it succeeds.
///
/// It reads its first operand from `source` and its second from the second
/// source register. With `swap` the two change places. The operand that
/// then comes first must be marked as a fat pointer and the other must not;
/// the operation `op` must give a word. That word goes to `destination`,
/// marked as a fat pointer. Otherwise the instruction fails, and the
/// machine is as reading the operands has left it.
pub open spec fn ptr_outcome(
    op: PtrOpKind,
    source: SourceKind,
    destination: DestinationKind,
    swap: bool,
    ops: Operands,
    s: StateModel,
) -> (StateModel, bool) {
    let read = source_state(source, ops, s);
    let first = (source_value(source, ops, read), source_is_pointer(source, ops, read));
    let second = (read.registers[ops.source2], read.register_pointer_flags[ops.source2]);
    let (pointer, plain) = if swap {
        (second, first)
    } else {
        (first, second)
    };
    if !pointer.1 || plain.1 {
        (read, false)
    } else {
        match ptr_result(op, pointer.0, plain.0) {
            Some(result) => (destination_state(destination, ops, read, result, true), true),
            None => (read, false),
        }
    }
}

/// A pointer instruction leaves the frames, the program and the gas alone,
/// whether it succeeds or not.
pub proof fn lemma_ptr_outcome(
    op: PtrOpKind,
    source: SourceKind,
    destination: DestinationKind,
    swap: bool,
    ops: Operands,
    s: StateModel,
)
    requires
        s.wf(),
        ops.in_range(),
    ensures
        ptr_outcome(op, source, destination, swap, ops, s).0.continues(s),
{
    let read = source_state(source, ops, s);
    lemma_source_state(source, ops, s);
    let first = (source_value(source, ops, read), source_is_pointer(source, ops, read));
    let second = (read.registers[ops.source2], read.register_pointer_flags[ops.source2]);
    let (pointer, plain) = if swap {
        (second, first)
    } else {
        (first, second)
    };
    match ptr_result(op, pointer.0, plain.0) {
        Some(result) => {
            lemma_destination_state(destination, ops, read, result, true);
        },
        None => {},
    }
}

/// No pointer instruction takes a word for a pointer that is not marked as
/// one. Where the operand in the pointer's place is not marked as a fat
/// pointer, or the other operand is, the instruction fails, whatever the
/// words hold: no register and no stack slot is written, and no pointer
/// flag changes.
pub proof fn lemma_untagged_operand_fails(
    op: PtrOpKind,
    source: SourceKind,
    destination: DestinationKind,
    swap: bool,
    ops: Operands,
    s: StateModel,
)
    requires
        s.wf(),
        ops.in_range(),
        ({
            let read = source_state(source, ops, s);
            let first = source_is_pointer(source, ops, read);
            let second = read.register_pointer_flags[ops.source2];
            if swap {
                !second || first
            } else {
                !first || second
            }
        }),
    ensures
        ({
            let (after, ok) = ptr_outcome(op, source, destination, swap, ops, s);
            &&& !ok
            &&& after == source_state(source, ops, s)
            &&& after.registers == s.registers
            &&& after.register_pointer_flags == s.register_pointer_flags
            &&& after.current_frame.stack == s.current_frame.stack
            &&& after.current_frame.stack_pointer_flags == s.current_frame.stack_pointer_flags
        }),
{
}

/// A pointer instruction that writes to a register and succeeds marks the
/// register as a fat pointer, and what it has written there is what the
/// operation gives.
pub proof fn lemma_result_is_tagged(
    op: PtrOpKind,
    source: SourceKind,
    swap: bool,
    ops: Operands,
    s: StateModel,
)
    requires
        s.wf(),
        ops.in_range(),
        ptr_outcome(op, source, DestinationKind::Register1, swap, ops, s).1,
    ensures
        ({
            let read = source_state(source, ops, s);
            let first = source_value(source, ops, read);
            let second = read.registers[ops.source2];
            let after = ptr_outcome(op, source, DestinationKind::Register1, swap, ops, s).0;
            &&& after.register_pointer_flags[ops.destination1]
            &&& Some(after.registers[ops.destination1]) == (if swap {
                ptr_result(op, second, first)
            } else {
                ptr_result(op, first, second)
            })
        }),
{
    lemma_source_state(source, ops, s);
}

/// Runs the pointer instruction that the type parameters name.
fn ptr<Op: PtrOp, In1: Source, Out: Destination, const SWAP: bool>(
    state: &mut State,
    args: &Arguments,
) -> (ok: bool)
    requires
        old(state).wf(),
    ensures
        final(state).wf(),
        (final(state)@, ok) == ptr_outcome(
            Op::kind_spec(),
            In1::kind_spec(),
            Out::kind_spec(),
            SWAP,
            args@,
            old(state)@,
        ),
{
    let a = (In1::get(args, state), In1::is_fat_pointer(args, state));
    let b = (Register2::get(args, state), Register2::is_fat_pointer(args, state));
    let (a, b) = if SWAP {
        (b, a)
    } else {
        (a, b)
    };
    let (a, a_is_pointer) = a;
    let (b, b_is_pointer) = b;

    if !a_is_pointer || b_is_pointer {
        return false;
    }
    let result = match Op::perform(a, b) {
        Some(result) => result,
        None => {
            return false;
        },
    };
    Out::set_fat_ptr(args, state, result);
    true
}

impl Instruction {
    /// The pointer instruction `Op` with the given operands. What it will
    /// do is settled here, once, from the kinds of `src1` and `out` and from
    /// `swap`.
    pub fn from_ptr<Op: PtrOp>(
        src1: AnySource,
        src2: Register2,
        out: AnyDestination,
        predicate: Predicate,
        swap: bool,
    ) -> (instruction: Instruction)
        ensures
            instruction.wf(),
            instruction.tag() == InstructionVariant::Ptr,
            instruction.handler() == (Handler::Ptr {
                op: Op::kind_spec(),
                source: src1.kind_spec(),
                destination: out.kind_spec(),
                swap,
            }),
            instruction.arguments()@ == out.as_destination(
                src2.as_source(src1.as_source(Operands::empty(predicate, 0))),
            ),
    {
        let mut arguments = Arguments::new(predicate, 0);
        src1.write_source(&mut arguments);
        src2.write_source(&mut arguments);
        out.write_destination(&mut arguments);

        Instruction {
            handler: choose_ptr_handler::<Op>(src1, out, swap),
            arguments,
            variant: InstructionVariant::Ptr,
        }
    }
}

/// Maps what is known when the instruction is built to the handler that is
/// made for exactly that combination.
fn choose_ptr_handler<Op: PtrOp>(input_type: AnySource, output_type: AnyDestination, swap: bool) -> (h:
    Handler)
    ensures
        h == (Handler::Ptr {
            op: Op::kind_spec(),
            source: input_type.kind_spec(),
            destination: output_type.kind_spec(),
            swap,
        }),
{
    match input_type {
        AnySource::Register1(_) => match_output_type::<Op, Register1>(output_type, swap),
        AnySource::Immediate1(_) => match_output_type::<Op, Immediate1>(output_type, swap),
        AnySource::AbsoluteStack(_) => match_output_type::<Op, AbsoluteStack>(output_type, swap),
        AnySource::RelativeStack(_) => match_output_type::<Op, RelativeStack>(output_type, swap),
        AnySource::AdvanceStackPointer(_) => match_output_type::<Op, AdvanceStackPointer>(
            output_type,
            swap,
        ),
        AnySource::CodePage(_) => match_output_type::<Op, CodePage>(output_type, swap),
    }
}

fn match_output_type<Op: PtrOp, In1: Source>(output_type: AnyDestination, swap: bool) -> (h: Handler)
    ensures
        h == (Handler::Ptr {
            op: Op::kind_spec(),
            source: In1::kind_spec(),
            destination: output_type.kind_spec(),
            swap,
        }),
{
    match output_type {
        AnyDestination::Register1(_) => match_swap::<Op, In1, Register1>(swap),
        AnyDestination::AbsoluteStack(_) => match_swap::<Op, In1, AbsoluteStack>(swap),
        AnyDestination::RelativeStack(_) => match_swap::<Op, In1, RelativeStack>(swap),
        AnyDestination::AdvanceStackPointer(_) => match_swap::<Op, In1, AdvanceStackPointer>(swap),
    }
}

fn match_swap<Op: PtrOp, In1: Source, Out: Destination>(swap: bool) -> (h: Handler)
    ensures
        h == (Handler::Ptr {
            op: Op::kind_spec(),
            source: In1::kind_spec(),
            destination: Out::kind_spec(),
            swap,
        }),
{
    Handler::Ptr { op: Op::kind(), source: In1::kind(), destination: Out::kind(), swap }
}

/// Runs a pointer instruction: finds the handler that was settled when the
/// instruction was built, and runs it.
pub fn run_ptr(
    op: PtrOpKind,
    source: SourceKind,
    destination: DestinationKind,
    swap: bool,
    state: &mut State,
    args: &Arguments,
) -> (ok: bool)
    requires
        old(state).wf(),
    ensures
        final(state).wf(),
        (final(state)@, ok) == ptr_outcome(op, source, destination, swap, args@, old(state)@),
{
    match op {
        PtrOpKind::Add => run_ptr_op::<PtrAdd>(source, destination, swap, state, args),
        PtrOpKind::Sub => run_ptr_op::<PtrSub>(source, destination, swap, state, args),
        PtrOpKind::Pack => run_ptr_op::<PtrPack>(source, destination, swap, state, args),
        PtrOpKind::Shrink => run_ptr_op::<PtrShrink>(source, destination, swap, state, args),
    }
}

fn run_ptr_op<Op: PtrOp>(
    source: SourceKind,
    destination: DestinationKind,
    swap: bool,
    state: &mut State,
    args: &Arguments,
) -> (ok: bool)
    requires
        old(state).wf(),
    ensures
        final(state).wf(),
        (final(state)@, ok) == ptr_outcome(
            Op::kind_spec(),
            source,
            destination,
            swap,
            args@,
            old(state)@,
        ),
{
    match source {
        SourceKind::Register1 => run_ptr_from::<Op, Register1>(destination, swap, state, args),
        SourceKind::Immediate1 => run_ptr_from::<Op, Immediate1>(destination, swap, state, args),
        SourceKind::AbsoluteStack => run_ptr_from::<Op, AbsoluteStack>(
            destination,
            swap,
            state,
            args,
        ),
        SourceKind::RelativeStack => run_ptr_from::<Op, RelativeStack>(
            destination,
            swap,
            state,
            args,
        ),
        SourceKind::AdvanceStackPointer => run_ptr_from::<Op, AdvanceStackPointer>(
            destination,
            swap,
            state,
            args,
        ),
        SourceKind::CodePage => run_ptr_from::<Op, CodePage>(destination, swap, state, args),
    }
}

fn run_ptr_from<Op: PtrOp, In1: Source>(
    destination: DestinationKind,
    swap: bool,
    state: &mut State,
    args: &Arguments,
) -> (ok: bool)
    requires
        old(state).wf(),
    ensures
        final(state).wf(),
        (final(state)@, ok) == ptr_outcome(
            Op::kind_spec(),
            In1::kind_spec(),
            destination,
            swap,
            args@,
            old(state)@,
        ),
{
    match destination {
        DestinationKind::Register1 => run_ptr_to::<Op, In1, Register1>(swap, state, args),
        DestinationKind::AbsoluteStack => run_ptr_to::<Op, In1, AbsoluteStack>(swap, state, args),
        DestinationKind::RelativeStack => run_ptr_to::<Op, In1, RelativeStack>(swap, state, args),
        DestinationKind::AdvanceStackPointer => run_ptr_to::<Op, In1, AdvanceStackPointer>(
            swap,
            state,
            args,
        ),
    }
}

fn run_ptr_to<Op: PtrOp, In1: Source, Out: Destination>(
    swap: bool,
    state: &mut State,
    args: &Arguments,
) -> (ok: bool)
    requires
        old(state).wf(),
    ensures
        final(state).wf(),
        (final(state)@, ok) == ptr_outcome(
            Op::kind_spec(),
            In1::kind_spec(),
            Out::kind_spec(),
            swap,
            args@,
            old(state)@,
        ),
{
    if swap {
        ptr::<Op, In1, Out, true>(state, args)
    } else {
        ptr::<Op, In1, Out, false>(state, args)
    }
}

} // verus!
