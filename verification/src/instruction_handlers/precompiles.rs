//! Calls of precompiles: cryptographic primitives that the host provides and
//! that a call reaches by the address of the frame it is made from.

use crate::addressing_modes::{
    Arguments, Destination, DestinationWriter, Operands, Register1, Register2, Source,
    SourceWriter,
};
use crate::instruction::{End, ExecutionEnd, Handler, Instruction, InstructionResult, InstructionVariant};
use crate::instruction::result_view;
use crate::predication::Predicate;
use crate::state::{State, StateModel};
use crate::word::Word;
use primitive_types::U256;
use vstd::prelude::*;
use zkevm_opcode_defs::{PrecompileAuxData, PrecompileCallABI};

verus! {

/// The low 16 bits of the address at which the Keccak-256 round function lives.
pub const KECCAK256_ROUND_FUNCTION_PRECOMPILE_ADDRESS: u16 = 0x8010;

/// The low 16 bits of the address at which the SHA-256 round function lives.
pub const SHA256_ROUND_FUNCTION_PRECOMPILE_ADDRESS: u16 = 0x02;

/// The low 16 bits of the address at which the recovery of a signer lives.
pub const ECRECOVER_INNER_FUNCTION_PRECOMPILE_ADDRESS: u16 = 0x01;

/// The low 16 bits of the address at which the secp256r1 check lives.
pub const SECP256R1_VERIFY_PRECOMPILE_ADDRESS: u16 = 0x100;

/// What a precompile call costs before it burns the gas that its caller names.
pub const PRECOMPILE_CALL_GAS_COST: u32 = 6;

/// The primitives that a precompile call can reach.
#[derive(Clone, Copy, Debug, PartialEq, Eq, Structural)]
pub enum Precompile {
    Keccak256,
    Sha256,
    Ecrecover,
    Secp256r1Verify,
}

impl Precompile {
    /// The primitive that lives at an address with the given low 16 bits.
    pub open spec fn at(address_low: u16) -> Option<Precompile> {
        if address_low == KECCAK256_ROUND_FUNCTION_PRECOMPILE_ADDRESS {
            Some(Precompile::Keccak256)
        } else if address_low == SHA256_ROUND_FUNCTION_PRECOMPILE_ADDRESS {
            Some(Precompile::Sha256)
        } else if address_low == ECRECOVER_INNER_FUNCTION_PRECOMPILE_ADDRESS {
            Some(Precompile::Ecrecover)
        } else if address_low == SECP256R1_VERIFY_PRECOMPILE_ADDRESS {
            Some(Precompile::Secp256r1Verify)
        } else {
            None
        }
    }

    /// The primitive that lives at an address with the given low 16 bits.
    pub fn at_address(address_low: u16) -> (p: Option<Precompile>)
        ensures
            p == Precompile::at(address_low),
    {
        if address_low == KECCAK256_ROUND_FUNCTION_PRECOMPILE_ADDRESS {
            Some(Precompile::Keccak256)
        } else if address_low == SHA256_ROUND_FUNCTION_PRECOMPILE_ADDRESS {
            Some(Precompile::Sha256)
        } else if address_low == ECRECOVER_INNER_FUNCTION_PRECOMPILE_ADDRESS {
            Some(Precompile::Ecrecover)
        } else if address_low == SECP256R1_VERIFY_PRECOMPILE_ADDRESS {
            Some(Precompile::Secp256r1Verify)
        } else {
            None
        }
    }

    /// The low 16 bits of the address at which the primitive lives.
    pub fn address(self) -> (address_low: u16)
        ensures
            Precompile::at(address_low) == Some(self),
    {
        match self {
            Precompile::Keccak256 => KECCAK256_ROUND_FUNCTION_PRECOMPILE_ADDRESS,
            Precompile::Sha256 => SHA256_ROUND_FUNCTION_PRECOMPILE_ADDRESS,
            Precompile::Ecrecover => ECRECOVER_INNER_FUNCTION_PRECOMPILE_ADDRESS,
            Precompile::Secp256r1Verify => SECP256R1_VERIFY_PRECOMPILE_ADDRESS,
        }
    }
}

/// The low 16 bits of a 20-byte address, whose last byte is the lowest.
pub open spec fn address_low_bits(address: Seq<u8>) -> u16 {
    (address[19] + 256 * address[18]) as u16
}

/// The low 16 bits of an address.
pub fn address_low(address: &[u8; 20]) -> (low: u16)
    ensures
        low == address_low_bits(address@),
{
    address[19] as u16 + 256 * (address[18] as u16)
}

/// The parameters of a precompile call, as the caller packs them into a word.
#[derive(Clone, Copy, Debug, PartialEq, Eq, Structural)]
pub struct PrecompileAbi {
    pub input_memory_offset: u32,
    pub input_memory_length: u32,
    pub output_memory_offset: u32,
    pub output_memory_length: u32,
    pub memory_page_to_read: u32,
    pub memory_page_to_write: u32,
    pub precompile_interpreted_data: u64,
}

impl PrecompileAbi {
    /// The parameters that a word holds: two to a limb, the first in the low
    /// half, and the interpreted data in the highest limb.
    pub open spec fn decode(raw: Word) -> PrecompileAbi {
        PrecompileAbi {
            input_memory_offset: (raw.limb0 % 0x1_0000_0000) as u32,
            input_memory_length: (raw.limb0 / 0x1_0000_0000) as u32,
            output_memory_offset: (raw.limb1 % 0x1_0000_0000) as u32,
            output_memory_length: (raw.limb1 / 0x1_0000_0000) as u32,
            memory_page_to_read: (raw.limb2 % 0x1_0000_0000) as u32,
            memory_page_to_write: (raw.limb2 / 0x1_0000_0000) as u32,
            precompile_interpreted_data: raw.limb3,
        }
    }

    /// The word that holds the parameters.
    pub open spec fn encode(self) -> Word {
        Word {
            limb0: (self.input_memory_offset + self.input_memory_length * 0x1_0000_0000) as u64,
            limb1: (self.output_memory_offset + self.output_memory_length * 0x1_0000_0000) as u64,
            limb2: (self.memory_page_to_read + self.memory_page_to_write * 0x1_0000_0000) as u64,
            limb3: self.precompile_interpreted_data,
        }
    }

    /// The parameters with each page that is 0 replaced by `heap`.
    pub open spec fn with_default_pages(self, heap: u32) -> PrecompileAbi {
        PrecompileAbi {
            memory_page_to_read: if self.memory_page_to_read == 0 {
                heap
            } else {
                self.memory_page_to_read
            },
            memory_page_to_write: if self.memory_page_to_write == 0 {
                heap
            } else {
                self.memory_page_to_write
            },
            ..self
        }
    }

    /// Unpacks the parameters that a word holds.
    pub fn from_word(raw: Word) -> (abi: PrecompileAbi)
        ensures
            abi == PrecompileAbi::decode(raw),
    {
        abi_from_u256(raw)
    }

    /// Packs the parameters into a word.
    pub fn to_word(self) -> (raw: Word)
        ensures
            raw == self.encode(),
    {
        abi_to_u256(self)
    }
}

/// What a precompile call burns on top of its own cost.
#[derive(Clone, Copy, Debug, PartialEq, Eq, Structural)]
pub struct PrecompileAux {
    pub extra_ergs_cost: u32,
    pub extra_pubdata_cost: u32,
}

impl PrecompileAux {
    /// The two amounts that a word holds, in the halves of its lowest limb.
    pub open spec fn decode(raw: Word) -> PrecompileAux {
        PrecompileAux {
            extra_ergs_cost: (raw.limb0 % 0x1_0000_0000) as u32,
            extra_pubdata_cost: (raw.limb0 / 0x1_0000_0000) as u32,
        }
    }

    /// Unpacks the two amounts that a word holds.
    pub fn from_word(raw: Word) -> (aux: PrecompileAux)
        ensures
            aux == PrecompileAux::decode(raw),
    {
        aux_from_u256(raw)
    }
}

/// A call of a primitive that the host is to carry out on the heaps.
#[derive(Clone, Copy, Debug, PartialEq, Eq, Structural)]
pub struct PrecompileRequest {
    pub precompile: Precompile,
    /// The parameters of the call, packed, with the pages filled in.
    pub key: Word,
}

/// Packing parameters and unpacking them again gives the parameters.
pub proof fn lemma_abi_round_trip(abi: PrecompileAbi)
    ensures
        PrecompileAbi::decode(abi.encode()) == abi,
{
}

/// Calls `PrecompileCallABI::from_u256` of `zkevm_opcode_defs`. Trusted: the
/// low and the high 32 bits of the three lower limbs give the six 32-bit
/// parameters in the order of the fields, and the highest limb gives the
/// interpreted data.
#[verifier::external_body]
fn abi_from_u256(raw: Word) -> (abi: PrecompileAbi)
    ensures
        abi == PrecompileAbi::decode(raw),
{
    let abi = PrecompileCallABI::from_u256(U256([raw.limb0, raw.limb1, raw.limb2, raw.limb3]));
    PrecompileAbi {
        input_memory_offset: abi.input_memory_offset,
        input_memory_length: abi.input_memory_length,
        output_memory_offset: abi.output_memory_offset,
        output_memory_length: abi.output_memory_length,
        memory_page_to_read: abi.memory_page_to_read,
        memory_page_to_write: abi.memory_page_to_write,
        precompile_interpreted_data: abi.precompile_interpreted_data,
    }
}

/// Calls `PrecompileCallABI::to_u256` of `zkevm_opcode_defs`. Trusted: each of
/// the three lower limbs holds two of the 32-bit parameters, the earlier
/// field in the low half, and the highest limb holds the interpreted data.
#[verifier::external_body]
fn abi_to_u256(abi: PrecompileAbi) -> (raw: Word)
    ensures
        raw == abi.encode(),
{
    let raw = PrecompileCallABI {
        input_memory_offset: abi.input_memory_offset,
        input_memory_length: abi.input_memory_length,
        output_memory_offset: abi.output_memory_offset,
        output_memory_length: abi.output_memory_length,
        memory_page_to_read: abi.memory_page_to_read,
        memory_page_to_write: abi.memory_page_to_write,
        precompile_interpreted_data: abi.precompile_interpreted_data,
    }.to_u256();
    Word { limb0: raw.0[0], limb1: raw.0[1], limb2: raw.0[2], limb3: raw.0[3] }
}

/// Calls `PrecompileAuxData::from_u256` of `zkevm_opcode_defs`. Trusted: the
/// low 32 bits of the lowest limb are the gas to burn, the high 32 bits of
/// that limb the cost in public data.
#[verifier::external_body]
fn aux_from_u256(raw: Word) -> (aux: PrecompileAux)
    ensures
        aux == PrecompileAux::decode(raw),
{
    let aux = PrecompileAuxData::from_u256(U256([raw.limb0, raw.limb1, raw.limb2, raw.limb3]));
    PrecompileAux {
        extra_ergs_cost: aux.extra_ergs_cost,
        extra_pubdata_cost: aux.extra_pubdata_cost,
    }
}

/// What a precompile call does to the machine whose running frame has paid
/// for the instruction, and how the run goes on.
///
/// The second source register names the gas to burn. A frame that has less
/// loses what it has, and the machine panics. Otherwise the gas is taken,
/// and the destination register is set to 1, as a plain word. Where the low
/// 16 bits of the frame's address name a primitive, the call is left for the
/// host: its parameters come from the first source register, with the
/// frame's heap in place of each page that is 0, and the run is suspended on
/// the hook with the number of those 16 bits. At any other address nothing
/// more happens, and the run goes on with the next instruction.
pub open spec fn precompile_outcome(ops: Operands, s: StateModel, pc: u16) -> (
    StateModel,
    Result<u16, End>,
) {
    let aux = PrecompileAux::decode(s.registers[ops.source2]);
    if s.current_frame.gas < aux.extra_ergs_cost {
        (s.with_gas(0).unwound(), Err(End::Panicked))
    } else {
        let paid = s.with_gas((s.current_frame.gas - aux.extra_ergs_cost) as u32);
        let abi = PrecompileAbi::decode(paid.registers[ops.source1]).with_default_pages(
            paid.current_frame.heap,
        );
        let low = address_low_bits(paid.current_frame.address);
        let done = paid.with_register(
            ops.destination1,
            Word { limb0: 1, limb1: 0, limb2: 0, limb3: 0 },
            false,
        );
        match Precompile::at(low) {
            Some(precompile) => (
                done.with_pending(Some(PrecompileRequest { precompile, key: abi.encode() })),
                Err(End::SuspendedOnHook { hook: low as u32, pc_to_resume_from: (pc + 1) as u16 }),
            ),
            None => (done, Ok((pc + 1) as u16)),
        }
    }
}

/// A precompile call that does not panic leaves the frames and the program
/// alone and takes from the running frame exactly the gas that it burns.
pub proof fn lemma_precompile_outcome(ops: Operands, s: StateModel, pc: u16)
    requires
        s.wf(),
        ops.in_range(),
    ensures
        ({
            let burn = PrecompileAux::decode(s.registers[ops.source2]).extra_ergs_cost;
            let (after, next) = precompile_outcome(ops, s, pc);
            if s.current_frame.gas < burn {
                after == s.with_gas(0).unwound() && next == Err::<u16, End>(End::Panicked)
            } else {
                &&& after.continues(s.with_gas((s.current_frame.gas - burn) as u32))
                &&& next is Ok ==> next == Ok::<u16, End>((pc + 1) as u16)
            }
        }),
{
}

/// A precompile call from an address at which no primitive lives still
/// burns the gas that its caller names and still sets the destination
/// register to 1. Nothing else changes, nothing is left for the host, and
/// the run goes on with the next instruction.
pub proof fn lemma_unrecognized_address(ops: Operands, s: StateModel, pc: u16)
    requires
        s.wf(),
        ops.in_range(),
        Precompile::at(address_low_bits(s.current_frame.address)) is None,
        s.current_frame.gas >= PrecompileAux::decode(s.registers[ops.source2]).extra_ergs_cost,
    ensures
        ({
            let burn = PrecompileAux::decode(s.registers[ops.source2]).extra_ergs_cost;
            let (after, next) = precompile_outcome(ops, s, pc);
            &&& next == Ok::<u16, End>((pc + 1) as u16)
            &&& after.current_frame.gas == s.current_frame.gas - burn
            &&& after.registers[ops.destination1] == (Word { limb0: 1, limb1: 0, limb2: 0, limb3: 0 })
            &&& !after.register_pointer_flags[ops.destination1]
            &&& after == s.with_gas((s.current_frame.gas - burn) as u32).with_register(
                ops.destination1,
                Word { limb0: 1, limb1: 0, limb2: 0, limb3: 0 },
                false,
            )
        }),
{
}

/// A precompile call from an address at which a primitive lives, by a frame
/// that can burn the gas, is left for the host: the run is suspended on the
/// hook that the low 16 bits of the address name, to go on with the next
/// instruction, and the request names that primitive. Its key unpacks to the
/// parameters in the first source register, with the frame's heap in place
/// of each page that is 0.
pub proof fn lemma_recognized_address(ops: Operands, s: StateModel, pc: u16)
    requires
        s.wf(),
        ops.in_range(),
        pc < u16::MAX,
        Precompile::at(address_low_bits(s.current_frame.address)) is Some,
        s.current_frame.gas >= PrecompileAux::decode(s.registers[ops.source2]).extra_ergs_cost,
    ensures
        ({
            let low = address_low_bits(s.current_frame.address);
            let (after, next) = precompile_outcome(ops, s, pc);
            &&& next == Err::<u16, End>(
                End::SuspendedOnHook { hook: low as u32, pc_to_resume_from: (pc + 1) as u16 },
            )
            &&& after.pending_precompile is Some
            &&& Precompile::at(low) == Some(after.pending_precompile.unwrap().precompile)
            &&& PrecompileAbi::decode(after.pending_precompile.unwrap().key) == PrecompileAbi::decode(
                s.registers[ops.source1],
            ).with_default_pages(s.current_frame.heap)
            &&& after.registers[ops.destination1] == (Word { limb0: 1, limb1: 0, limb2: 0, limb3: 0 })
        }),
{
    lemma_abi_round_trip(
        PrecompileAbi::decode(s.registers[ops.source1]).with_default_pages(s.current_frame.heap),
    );
}

/// Runs a precompile call that stands at `pc`.
pub fn precompile_call(state: &mut State, args: &Arguments, pc: u16) -> (result: InstructionResult)
    requires
        old(state).wf(),
        pc < u16::MAX,
    ensures
        final(state).wf(),
        (final(state)@, result_view(result)) == precompile_outcome(args@, old(state)@, pc),
{
    // The caller decides how much gas to burn.
    let aux_data = PrecompileAux::from_word(Register2::get(args, state));
    if state.use_gas(aux_data.extra_ergs_cost).is_err() {
        state.unwind();
        return Err(ExecutionEnd::Panicked);
    }
    let mut abi = PrecompileAbi::from_word(Register1::get(args, state));
    if abi.memory_page_to_read == 0 {
        abi.memory_page_to_read = state.heap();
    }
    if abi.memory_page_to_write == 0 {
        abi.memory_page_to_write = state.heap();
    }
    let key = abi.to_word();

    let address = state.address();
    let low: u16 = address_low(&address);
    let precompile = Precompile::at_address(low);

    Register1::set(args, state, Word::from_u64(1));

    match precompile {
        Some(precompile) => {
            state.set_precompile_request(PrecompileRequest { precompile, key });
            Err(ExecutionEnd::SuspendedOnHook { hook: low as u32, pc_to_resume_from: pc + 1 })
        },
        None => Ok(pc + 1),
    }
}

impl Instruction {
    /// A precompile call. It takes the parameters of the call from `abi`
    /// and the gas to burn from `burn`, and writes 1 to `out`.
    pub fn from_precompile_call(
        abi: Register1,
        burn: Register2,
        out: Register1,
        predicate: Predicate,
    ) -> (instruction: Instruction)
        ensures
            instruction.wf(),
            instruction.handler() == Handler::PrecompileCall,
            instruction.tag() == InstructionVariant::Log,
            instruction.arguments()@ == out.as_destination(
                burn.as_source(abi.as_source(Operands::empty(predicate, PRECOMPILE_CALL_GAS_COST))),
            ),
    {
        Instruction {
            arguments: Arguments::new(predicate, PRECOMPILE_CALL_GAS_COST).write_source(
                &abi,
            ).write_source(&burn).write_destination(&out),
            handler: Handler::PrecompileCall,
            variant: InstructionVariant::Log,
        }
    }
}

} // verus!
