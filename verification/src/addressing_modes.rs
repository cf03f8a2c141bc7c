//! Where the operands of an instruction live, and how an instruction's
//! argument block encodes them.

use crate::predication::Predicate;
use crate::state::{State, StateModel};
use crate::word::Word;
use vstd::prelude::*;

verus! {

/// One of the 16 registers.
#[derive(Clone, Copy, Debug, PartialEq, Eq, Structural)]
pub struct Register(u8);

impl Register {
    #[verifier::type_invariant]
    spec fn in_range(self) -> bool {
        self.0 < 16
    }

    /// The register's number.
    pub closed spec fn number(self) -> int {
        self.0 as int
    }

    /// The register with the number `n`, if there is one.
    pub fn new(n: u8) -> (r: Option<Register>)
        ensures
            r is Some <==> n < 16,
            r is Some ==> r.unwrap().number() == n,
    {
        if n < 16 {
            Some(Register(n))
        } else {
            None
        }
    }

    pub fn index(&self) -> (i: u8)
        ensures
            i < 16,
            i == self.number(),
    {
        proof {
            use_type_invariant(self);
        }
        self.0
    }
}

/// The first source or destination operand, in a register.
#[derive(Clone, Copy, Debug)]
pub struct Register1(pub Register);

/// The second source operand, in a register.
#[derive(Clone, Copy, Debug)]
pub struct Register2(pub Register);

/// A constant in the instruction itself.
#[derive(Clone, Copy, Debug)]
pub struct Immediate1(pub u16);

/// A second constant in the instruction itself.
#[derive(Clone, Copy, Debug)]
pub struct Immediate2(pub u16);

/// The stack slot with the given index.
#[derive(Clone, Copy, Debug)]
pub struct AbsoluteStack(pub u16);

/// The stack slot that lies the given number of slots below the stack pointer.
#[derive(Clone, Copy, Debug)]
pub struct RelativeStack(pub u16);

/// As a source, moves the stack pointer down by the given number of slots and
/// reads the slot it then points to. As a destination, writes the slot the
/// stack pointer points to and moves the pointer up by that number.
#[derive(Clone, Copy, Debug)]
pub struct AdvanceStackPointer(pub u16);

/// The word of the code page with the given index.
#[derive(Clone, Copy, Debug)]
pub struct CodePage(pub u16);

/// The places an operand can be read from.
#[derive(Clone, Copy, Debug, PartialEq, Eq, Structural)]
pub enum SourceKind {
    Register1,
    Immediate1,
    AbsoluteStack,
    RelativeStack,
    AdvanceStackPointer,
    CodePage,
}

/// The places a result can be written to.
#[derive(Clone, Copy, Debug, PartialEq, Eq, Structural)]
pub enum DestinationKind {
    Register1,
    AbsoluteStack,
    RelativeStack,
    AdvanceStackPointer,
}

/// A source operand of any kind.
#[derive(Clone, Copy, Debug)]
pub enum AnySource {
    Register1(Register1),
    Immediate1(Immediate1),
    AbsoluteStack(AbsoluteStack),
    RelativeStack(RelativeStack),
    AdvanceStackPointer(AdvanceStackPointer),
    CodePage(CodePage),
}

/// A destination operand of any kind.
#[derive(Clone, Copy, Debug)]
pub enum AnyDestination {
    Register1(Register1),
    AbsoluteStack(AbsoluteStack),
    RelativeStack(RelativeStack),
    AdvanceStackPointer(AdvanceStackPointer),
}

impl AnySource {
    pub open spec fn kind_spec(self) -> SourceKind {
        match self {
            AnySource::Register1(_) => SourceKind::Register1,
            AnySource::Immediate1(_) => SourceKind::Immediate1,
            AnySource::AbsoluteStack(_) => SourceKind::AbsoluteStack,
            AnySource::RelativeStack(_) => SourceKind::RelativeStack,
            AnySource::AdvanceStackPointer(_) => SourceKind::AdvanceStackPointer,
            AnySource::CodePage(_) => SourceKind::CodePage,
        }
    }
}

impl AnyDestination {
    pub open spec fn kind_spec(self) -> DestinationKind {
        match self {
            AnyDestination::Register1(_) => DestinationKind::Register1,
            AnyDestination::AbsoluteStack(_) => DestinationKind::AbsoluteStack,
            AnyDestination::RelativeStack(_) => DestinationKind::RelativeStack,
            AnyDestination::AdvanceStackPointer(_) => DestinationKind::AdvanceStackPointer,
        }
    }
}

/// The argument block of an instruction: its operands, its predicate and
/// what it costs to run. Two registers share a byte, the first in the low
/// four bits.
#[derive(Clone, Copy, Debug, PartialEq, Eq, Structural)]
pub struct Arguments {
    pub(crate) source_registers: u8,
    pub(crate) destination_registers: u8,
    pub(crate) immediate1: u16,
    pub(crate) immediate2: u16,
    pub(crate) predicate: Predicate,
    pub(crate) static_gas_cost: u32,
}

/// What an argument block holds, decoded.
pub struct Operands {
    pub source1: int,
    pub source2: int,
    pub destination1: int,
    pub immediate1: u16,
    pub immediate2: u16,
    pub predicate: Predicate,
    pub static_gas_cost: u32,
}

impl View for Arguments {
    type V = Operands;

    open(crate) spec fn view(&self) -> Operands {
        Operands {
            source1: self.source_registers as int % 16,
            source2: self.source_registers as int / 16,
            destination1: self.destination_registers as int % 16,
            immediate1: self.immediate1,
            immediate2: self.immediate2,
            predicate: self.predicate,
            static_gas_cost: self.static_gas_cost,
        }
    }
}

impl Operands {
    /// The operands of an instruction that names none.
    pub open spec fn empty(predicate: Predicate, static_gas_cost: u32) -> Operands {
        Operands {
            source1: 0,
            source2: 0,
            destination1: 0,
            immediate1: 0,
            immediate2: 0,
            predicate,
            static_gas_cost,
        }
    }

    /// Whether each register number names one of the 16 registers.
    pub open spec fn in_range(self) -> bool {
        0 <= self.source1 < 16 && 0 <= self.source2 < 16 && 0 <= self.destination1 < 16
    }
}

impl Arguments {
    /// An argument block holds only numbers of registers that exist.
    pub proof fn lemma_in_range(self)
        ensures
            self@.in_range(),
    {
    }

    /// An argument block that names no operand.
    pub fn new(predicate: Predicate, gas_cost: u32) -> (args: Arguments)
        ensures
            args@ == Operands::empty(predicate, gas_cost),
    {
        Arguments {
            source_registers: 0,
            destination_registers: 0,
            immediate1: 0,
            immediate2: 0,
            predicate,
            static_gas_cost: gas_cost,
        }
    }

    /// The block with `source` written into it as a source.
    pub fn write_source<S: SourceWriter>(self, source: &S) -> (args: Arguments)
        ensures
            args@ == source.as_source(self@),
    {
        let mut args = self;
        source.write_source(&mut args);
        args
    }

    /// The block with `destination` written into it as the destination.
    pub fn write_destination<D: DestinationWriter>(self, destination: &D) -> (args: Arguments)
        ensures
            args@ == destination.as_destination(self@),
    {
        let mut args = self;
        destination.write_destination(&mut args);
        args
    }

    pub fn predicate(&self) -> (p: Predicate)
        ensures
            p == self@.predicate,
    {
        self.predicate
    }

    pub fn static_gas_cost(&self) -> (cost: u32)
        ensures
            cost == self@.static_gas_cost,
    {
        self.static_gas_cost
    }

    /// The number of the first source register.
    pub fn source1(&self) -> (i: u8)
        ensures
            i == self@.source1,
            i < 16,
    {
        self.source_registers % 16
    }

    /// The number of the second source register.
    pub fn source2(&self) -> (i: u8)
        ensures
            i == self@.source2,
            i < 16,
    {
        self.source_registers / 16
    }

    /// The number of the destination register.
    pub fn destination1(&self) -> (i: u8)
        ensures
            i == self@.destination1,
            i < 16,
    {
        self.destination_registers % 16
    }

    pub fn immediate1(&self) -> (v: u16)
        ensures
            v == self@.immediate1,
    {
        self.immediate1
    }

    pub fn immediate2(&self) -> (v: u16)
        ensures
            v == self@.immediate2,
    {
        self.immediate2
    }
}

impl Default for Arguments {
    fn default() -> (args: Arguments)
        ensures
            args@ == Operands::empty(Predicate::Always, 0),
    {
        Arguments::new(Predicate::Always, 0)
    }
}

/// An operand that can be written into an argument block as a source.
pub trait SourceWriter {
    /// The operands `ops` with this one as a source.
    spec fn as_source(&self, ops: Operands) -> Operands;

    fn write_source(&self, args: &mut Arguments)
        ensures
            final(args)@ == self.as_source(old(args)@),
    ;
}

/// An operand that can be written into an argument block as a destination.
pub trait DestinationWriter {
    /// The operands `ops` with this one as the destination.
    spec fn as_destination(&self, ops: Operands) -> Operands;

    fn write_destination(&self, args: &mut Arguments)
        ensures
            final(args)@ == self.as_destination(old(args)@),
    ;
}

impl SourceWriter for Register1 {
    open spec fn as_source(&self, ops: Operands) -> Operands {
        Operands { source1: self.0.number(), ..ops }
    }

    fn write_source(&self, args: &mut Arguments) {
        let second: u8 = args.source_registers / 16;
        args.source_registers = second * 16 + self.0.index();
    }
}

impl SourceWriter for Register2 {
    open spec fn as_source(&self, ops: Operands) -> Operands {
        Operands { source2: self.0.number(), ..ops }
    }

    fn write_source(&self, args: &mut Arguments) {
        let first: u8 = args.source_registers % 16;
        args.source_registers = self.0.index() * 16 + first;
    }
}

impl SourceWriter for Immediate1 {
    open spec fn as_source(&self, ops: Operands) -> Operands {
        Operands { immediate1: self.0, ..ops }
    }

    fn write_source(&self, args: &mut Arguments) {
        args.immediate1 = self.0;
    }
}

impl SourceWriter for Immediate2 {
    open spec fn as_source(&self, ops: Operands) -> Operands {
        Operands { immediate2: self.0, ..ops }
    }

    fn write_source(&self, args: &mut Arguments) {
        args.immediate2 = self.0;
    }
}

impl SourceWriter for AbsoluteStack {
    open spec fn as_source(&self, ops: Operands) -> Operands {
        Operands { immediate1: self.0, ..ops }
    }

    fn write_source(&self, args: &mut Arguments) {
        args.immediate1 = self.0;
    }
}

impl SourceWriter for RelativeStack {
    open spec fn as_source(&self, ops: Operands) -> Operands {
        Operands { immediate1: self.0, ..ops }
    }

    fn write_source(&self, args: &mut Arguments) {
        args.immediate1 = self.0;
    }
}

impl SourceWriter for AdvanceStackPointer {
    open spec fn as_source(&self, ops: Operands) -> Operands {
        Operands { immediate1: self.0, ..ops }
    }

    fn write_source(&self, args: &mut Arguments) {
        args.immediate1 = self.0;
    }
}

impl SourceWriter for CodePage {
    open spec fn as_source(&self, ops: Operands) -> Operands {
        Operands { immediate1: self.0, ..ops }
    }

    fn write_source(&self, args: &mut Arguments) {
        args.immediate1 = self.0;
    }
}

impl SourceWriter for AnySource {
    open spec fn as_source(&self, ops: Operands) -> Operands {
        match *self {
            AnySource::Register1(r) => r.as_source(ops),
            AnySource::Immediate1(i) => i.as_source(ops),
            AnySource::AbsoluteStack(s) => s.as_source(ops),
            AnySource::RelativeStack(s) => s.as_source(ops),
            AnySource::AdvanceStackPointer(s) => s.as_source(ops),
            AnySource::CodePage(c) => c.as_source(ops),
        }
    }

    fn write_source(&self, args: &mut Arguments) {
        match self {
            AnySource::Register1(r) => r.write_source(args),
            AnySource::Immediate1(i) => i.write_source(args),
            AnySource::AbsoluteStack(s) => s.write_source(args),
            AnySource::RelativeStack(s) => s.write_source(args),
            AnySource::AdvanceStackPointer(s) => s.write_source(args),
            AnySource::CodePage(c) => c.write_source(args),
        }
    }
}

impl DestinationWriter for Register1 {
    open spec fn as_destination(&self, ops: Operands) -> Operands {
        Operands { destination1: self.0.number(), ..ops }
    }

    fn write_destination(&self, args: &mut Arguments) {
        let second: u8 = args.destination_registers / 16;
        args.destination_registers = second * 16 + self.0.index();
    }
}

impl DestinationWriter for AbsoluteStack {
    open spec fn as_destination(&self, ops: Operands) -> Operands {
        Operands { immediate2: self.0, ..ops }
    }

    fn write_destination(&self, args: &mut Arguments) {
        args.immediate2 = self.0;
    }
}

impl DestinationWriter for RelativeStack {
    open spec fn as_destination(&self, ops: Operands) -> Operands {
        Operands { immediate2: self.0, ..ops }
    }

    fn write_destination(&self, args: &mut Arguments) {
        args.immediate2 = self.0;
    }
}

impl DestinationWriter for AdvanceStackPointer {
    open spec fn as_destination(&self, ops: Operands) -> Operands {
        Operands { immediate2: self.0, ..ops }
    }

    fn write_destination(&self, args: &mut Arguments) {
        args.immediate2 = self.0;
    }
}

impl DestinationWriter for AnyDestination {
    open spec fn as_destination(&self, ops: Operands) -> Operands {
        match *self {
            AnyDestination::Register1(r) => r.as_destination(ops),
            AnyDestination::AbsoluteStack(s) => s.as_destination(ops),
            AnyDestination::RelativeStack(s) => s.as_destination(ops),
            AnyDestination::AdvanceStackPointer(s) => s.as_destination(ops),
        }
    }

    fn write_destination(&self, args: &mut Arguments) {
        match self {
            AnyDestination::Register1(r) => r.write_destination(args),
            AnyDestination::AbsoluteStack(s) => s.write_destination(args),
            AnyDestination::RelativeStack(s) => s.write_destination(args),
            AnyDestination::AdvanceStackPointer(s) => s.write_destination(args),
        }
    }
}

/// The slot that lies `offset` slots below `sp`. The stack is a ring: below
/// slot 0 comes the last slot.
pub open spec fn slot_below(sp: u16, offset: u16) -> u16 {
    if sp >= offset {
        (sp - offset) as u16
    } else {
        (sp - offset + 65536) as u16
    }
}

/// The slot that lies `offset` slots above `sp`, in the same ring.
pub open spec fn slot_above(sp: u16, offset: u16) -> u16 {
    if sp + offset < 65536 {
        (sp + offset) as u16
    } else {
        (sp + offset - 65536) as u16
    }
}

fn below(sp: u16, offset: u16) -> (slot: u16)
    ensures
        slot == slot_below(sp, offset),
{
    if sp >= offset {
        sp - offset
    } else {
        0xffff - (offset - sp) + 1
    }
}

fn above(sp: u16, offset: u16) -> (slot: u16)
    ensures
        slot == slot_above(sp, offset),
{
    if offset <= 0xffff - sp {
        sp + offset
    } else {
        offset - (0xffff - sp) - 1
    }
}

/// The machine after an operand of kind `kind` was read: reading moves the
/// stack pointer where the operand says so, and changes nothing else.
pub open spec fn source_state(kind: SourceKind, ops: Operands, s: StateModel) -> StateModel {
    match kind {
        SourceKind::AdvanceStackPointer => s.with_sp(slot_below(s.current_frame.sp, ops.immediate1)),
        _ => s,
    }
}

/// The word that an operand of kind `kind` gives, in the machine as reading
/// has left it.
pub open spec fn source_value(kind: SourceKind, ops: Operands, s: StateModel) -> Word {
    match kind {
        SourceKind::Register1 => s.registers[ops.source1],
        SourceKind::Immediate1 => Word { limb0: ops.immediate1 as u64, limb1: 0, limb2: 0, limb3: 0 },
        SourceKind::AbsoluteStack => s.current_frame.stack[ops.immediate1 as int],
        SourceKind::RelativeStack => s.current_frame.stack[slot_below(
            s.current_frame.sp,
            ops.immediate1,
        ) as int],
        SourceKind::AdvanceStackPointer => s.current_frame.stack[s.current_frame.sp as int],
        SourceKind::CodePage => s.code_word(ops.immediate1 as int),
    }
}

/// Whether the place that an operand of kind `kind` names is marked as
/// holding a fat pointer, in the machine as reading has left it. A constant
/// never is.
pub open spec fn source_is_pointer(kind: SourceKind, ops: Operands, s: StateModel) -> bool {
    match kind {
        SourceKind::Register1 => s.register_pointer_flags[ops.source1],
        SourceKind::Immediate1 => false,
        SourceKind::AbsoluteStack => s.current_frame.stack_pointer_flags[ops.immediate1 as int],
        SourceKind::RelativeStack => s.current_frame.stack_pointer_flags[slot_below(
            s.current_frame.sp,
            ops.immediate1,
        ) as int],
        SourceKind::AdvanceStackPointer => s.current_frame.stack_pointer_flags[s.current_frame.sp as int],
        SourceKind::CodePage => false,
    }
}

/// The machine after `value` was written to a destination of kind `kind`:
/// the place holds the value, its pointer flag is `is_pointer`, and the
/// stack pointer has moved where the operand says so.
pub open spec fn destination_state(
    kind: DestinationKind,
    ops: Operands,
    s: StateModel,
    value: Word,
    is_pointer: bool,
) -> StateModel {
    match kind {
        DestinationKind::Register1 => s.with_register(ops.destination1, value, is_pointer),
        DestinationKind::AbsoluteStack => s.with_stack_slot(
            ops.immediate2 as int,
            value,
            is_pointer,
        ),
        DestinationKind::RelativeStack => s.with_stack_slot(
            slot_below(s.current_frame.sp, ops.immediate2) as int,
            value,
            is_pointer,
        ),
        DestinationKind::AdvanceStackPointer => s.with_stack_slot(
            s.current_frame.sp as int,
            value,
            is_pointer,
        ).with_sp(slot_above(s.current_frame.sp, ops.immediate2)),
    }
}

/// Reading an operand leaves the frames, the program and the gas alone.
pub proof fn lemma_source_state(kind: SourceKind, ops: Operands, s: StateModel)
    requires
        s.wf(),
    ensures
        source_state(kind, ops, s).continues(s),
{
}

/// Writing a result leaves the frames, the program and the gas alone.
pub proof fn lemma_destination_state(
    kind: DestinationKind,
    ops: Operands,
    s: StateModel,
    value: Word,
    is_pointer: bool,
)
    requires
        s.wf(),
        ops.in_range(),
    ensures
        destination_state(kind, ops, s, value, is_pointer).continues(s),
{
}

/// A place that an instruction's first operand can be read from.
pub trait Source {
    spec fn kind_spec() -> SourceKind;

    fn kind() -> (k: SourceKind)
        ensures
            k == Self::kind_spec(),
    ;

    /// Reads the operand.
    fn get(args: &Arguments, state: &mut State) -> (value: Word)
        requires
            old(state).wf(),
        ensures
            final(state).wf(),
            final(state)@ == source_state(Self::kind_spec(), args@, old(state)@),
            value == source_value(Self::kind_spec(), args@, final(state)@),
    ;

    /// Whether the operand's place is marked as holding a fat pointer. To
    /// be asked after `get`.
    fn is_fat_pointer(args: &Arguments, state: &State) -> (r: bool)
        requires
            state.wf(),
        ensures
            r == source_is_pointer(Self::kind_spec(), args@, state@),
    ;
}

/// A place that an instruction's result can be written to.
pub trait Destination {
    spec fn kind_spec() -> DestinationKind;

    fn kind() -> (k: DestinationKind)
        ensures
            k == Self::kind_spec(),
    ;

    /// Writes a plain word and marks the place as holding no pointer.
    fn set(args: &Arguments, state: &mut State, value: Word)
        requires
            old(state).wf(),
        ensures
            final(state).wf(),
            final(state)@ == destination_state(Self::kind_spec(), args@, old(state)@, value, false),
    ;

    /// Writes a fat pointer and marks the place as holding one.
    fn set_fat_ptr(args: &Arguments, state: &mut State, value: Word)
        requires
            old(state).wf(),
        ensures
            final(state).wf(),
            final(state)@ == destination_state(Self::kind_spec(), args@, old(state)@, value, true),
    ;
}

impl Source for Register1 {
    open spec fn kind_spec() -> SourceKind {
        SourceKind::Register1
    }

    fn kind() -> (k: SourceKind) {
        SourceKind::Register1
    }

    fn get(args: &Arguments, state: &mut State) -> (value: Word) {
        state.register(args.source1())
    }

    fn is_fat_pointer(args: &Arguments, state: &State) -> (r: bool) {
        state.register_is_pointer(args.source1())
    }
}

impl Register2 {
    /// The word in the second source register.
    pub fn get(args: &Arguments, state: &State) -> (value: Word)
        requires
            state.wf(),
        ensures
            value == state@.registers[args@.source2],
    {
        state.register(args.source2())
    }

    /// Whether the second source register holds a fat pointer.
    pub fn is_fat_pointer(args: &Arguments, state: &State) -> (r: bool)
        requires
            state.wf(),
        ensures
            r == state@.register_pointer_flags[args@.source2],
    {
        state.register_is_pointer(args.source2())
    }
}

impl Source for Immediate1 {
    open spec fn kind_spec() -> SourceKind {
        SourceKind::Immediate1
    }

    fn kind() -> (k: SourceKind) {
        SourceKind::Immediate1
    }

    fn get(args: &Arguments, state: &mut State) -> (value: Word) {
        Word::from_u64(args.immediate1() as u64)
    }

    fn is_fat_pointer(args: &Arguments, state: &State) -> (r: bool) {
        false
    }
}

impl Source for AbsoluteStack {
    open spec fn kind_spec() -> SourceKind {
        SourceKind::AbsoluteStack
    }

    fn kind() -> (k: SourceKind) {
        SourceKind::AbsoluteStack
    }

    fn get(args: &Arguments, state: &mut State) -> (value: Word) {
        state.stack_slot(args.immediate1())
    }

    fn is_fat_pointer(args: &Arguments, state: &State) -> (r: bool) {
        state.stack_slot_is_pointer(args.immediate1())
    }
}

impl Source for RelativeStack {
    open spec fn kind_spec() -> SourceKind {
        SourceKind::RelativeStack
    }

    fn kind() -> (k: SourceKind) {
        SourceKind::RelativeStack
    }

    fn get(args: &Arguments, state: &mut State) -> (value: Word) {
        state.stack_slot(below(state.sp(), args.immediate1()))
    }

    fn is_fat_pointer(args: &Arguments, state: &State) -> (r: bool) {
        state.stack_slot_is_pointer(below(state.sp(), args.immediate1()))
    }
}

impl Source for AdvanceStackPointer {
    open spec fn kind_spec() -> SourceKind {
        SourceKind::AdvanceStackPointer
    }

    fn kind() -> (k: SourceKind) {
        SourceKind::AdvanceStackPointer
    }

    fn get(args: &Arguments, state: &mut State) -> (value: Word) {
        let sp: u16 = below(state.sp(), args.immediate1());
        state.set_sp(sp);
        state.stack_slot(sp)
    }

    fn is_fat_pointer(args: &Arguments, state: &State) -> (r: bool) {
        state.stack_slot_is_pointer(state.sp())
    }
}

impl Source for CodePage {
    open spec fn kind_spec() -> SourceKind {
        SourceKind::CodePage
    }

    fn kind() -> (k: SourceKind) {
        SourceKind::CodePage
    }

    fn get(args: &Arguments, state: &mut State) -> (value: Word) {
        state.code_word(args.immediate1())
    }

    fn is_fat_pointer(args: &Arguments, state: &State) -> (r: bool) {
        false
    }
}

impl Destination for Register1 {
    open spec fn kind_spec() -> DestinationKind {
        DestinationKind::Register1
    }

    fn kind() -> (k: DestinationKind) {
        DestinationKind::Register1
    }

    fn set(args: &Arguments, state: &mut State, value: Word) {
        state.set_register(args.destination1(), value, false);
    }

    fn set_fat_ptr(args: &Arguments, state: &mut State, value: Word) {
        state.set_register(args.destination1(), value, true);
    }
}

impl Destination for AbsoluteStack {
    open spec fn kind_spec() -> DestinationKind {
        DestinationKind::AbsoluteStack
    }

    fn kind() -> (k: DestinationKind) {
        DestinationKind::AbsoluteStack
    }

    fn set(args: &Arguments, state: &mut State, value: Word) {
        state.set_stack_slot(args.immediate2(), value, false);
    }

    fn set_fat_ptr(args: &Arguments, state: &mut State, value: Word) {
        state.set_stack_slot(args.immediate2(), value, true);
    }
}

impl Destination for RelativeStack {
    open spec fn kind_spec() -> DestinationKind {
        DestinationKind::RelativeStack
    }

    fn kind() -> (k: DestinationKind) {
        DestinationKind::RelativeStack
    }

    fn set(args: &Arguments, state: &mut State, value: Word) {
        let slot: u16 = below(state.sp(), args.immediate2());
        state.set_stack_slot(slot, value, false);
    }

    fn set_fat_ptr(args: &Arguments, state: &mut State, value: Word) {
        let slot: u16 = below(state.sp(), args.immediate2());
        state.set_stack_slot(slot, value, true);
    }
}

impl Destination for AdvanceStackPointer {
    open spec fn kind_spec() -> DestinationKind {
        DestinationKind::AdvanceStackPointer
    }

    fn kind() -> (k: DestinationKind) {
        DestinationKind::AdvanceStackPointer
    }

    fn set(args: &Arguments, state: &mut State, value: Word) {
        let sp: u16 = state.sp();
        state.set_stack_slot(sp, value, false);
        state.set_sp(above(sp, args.immediate2()));
    }

    fn set_fat_ptr(args: &Arguments, state: &mut State, value: Word) {
        let sp: u16 = state.sp();
        state.set_stack_slot(sp, value, true);
        state.set_sp(above(sp, args.immediate2()));
    }
}

} // verus!
