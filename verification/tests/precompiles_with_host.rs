use primitive_types::U256;
use std::fmt;
use vm2::addressing_modes::{Register, Register1, Register2};
use vm2::instruction_handlers::precompiles::{Precompile, PrecompileAbi};
use vm2::{end_execution, ExecutionEnd, Instruction, MemoryQuery, Predicate, State, Word};
use zk_evm_abstractions::aux::Timestamp;
use zk_evm_abstractions::precompiles::keccak256::keccak256_rounds_function;
use zk_evm_abstractions::precompiles::sha256::sha256_rounds_function;
use zk_evm_abstractions::queries::{LogQuery, MemoryQuery as PrimitiveQuery};
use zk_evm_abstractions::vm::Memory;

struct HostMemory<'a, 'b> {
    state: &'a mut State<'b>,
}

impl fmt::Debug for HostMemory<'_, '_> {
    fn fmt(&self, f: &mut fmt::Formatter<'_>) -> fmt::Result {
        f.write_str("HostMemory")
    }
}

impl Memory for HostMemory<'_, '_> {
    fn execute_partial_query(&mut self, _cycle: u32, mut query: PrimitiveQuery) -> PrimitiveQuery {
        let answer = self.state.execute_partial_query(MemoryQuery {
            page: query.location.page.0,
            index: query.location.index.0,
            value: Word {
                limb0: query.value.0[0],
                limb1: query.value.0[1],
                limb2: query.value.0[2],
                limb3: query.value.0[3],
            },
            rw_flag: query.rw_flag,
            value_is_pointer: query.value_is_pointer,
        });
        query.value =
            U256([answer.value.limb0, answer.value.limb1, answer.value.limb2, answer.value.limb3]);
        query.value_is_pointer = answer.value_is_pointer;
        query
    }

    fn specialized_code_query(&mut self, _cycle: u32, _query: PrimitiveQuery) -> PrimitiveQuery {
        unreachable!()
    }

    fn read_code_query(&self, _cycle: u32, _query: PrimitiveQuery) -> PrimitiveQuery {
        unreachable!()
    }
}

fn log_query(key: Word) -> LogQuery {
    LogQuery {
        timestamp: Timestamp(0),
        key: U256([key.limb0, key.limb1, key.limb2, key.limb3]),
        tx_number_in_block: Default::default(),
        aux_byte: Default::default(),
        shard_id: Default::default(),
        address: Default::default(),
        read_value: Default::default(),
        written_value: Default::default(),
        rw_flag: Default::default(),
        rollback: Default::default(),
        is_service: Default::default(),
    }
}

fn address_with_low_bits(low: u16) -> [u8; 20] {
    let mut address = [0u8; 20];
    address[18] = (low >> 8) as u8;
    address[19] = low as u8;
    address
}

fn call_program() -> Vec<Instruction> {
    vec![
        Instruction::from_precompile_call(
            Register1(Register::new(1).unwrap()),
            Register2(Register::new(2).unwrap()),
            Register1(Register::new(3).unwrap()),
            Predicate::Always,
        ),
        end_execution(),
    ]
}

fn write_word(state: &mut State, page: u32, index: u32, value: Word) {
    state.execute_partial_query(MemoryQuery {
        page,
        index,
        value,
        rw_flag: true,
        value_is_pointer: false,
    });
}

#[test]
fn sha256_of_the_empty_message_through_the_heaps() {
    let program = call_program();
    let mut state = State::new(address_with_low_bits(0x02), &program, vec![], 1000);
    // One padded block: the bit that ends the message, then zeros, then the length 0.
    write_word(&mut state, 0, 0, Word { limb0: 0, limb1: 0, limb2: 0, limb3: 1 << 63 });
    write_word(&mut state, 0, 1, Word::zero());
    let abi = PrecompileAbi {
        input_memory_offset: 0,
        input_memory_length: 2,
        output_memory_offset: 2,
        output_memory_length: 1,
        memory_page_to_read: 0,
        memory_page_to_write: 0,
        precompile_interpreted_data: 1,
    };
    state.set_register(1, abi.to_word(), false);

    let end = state.run();
    assert_eq!(end, ExecutionEnd::SuspendedOnHook { hook: 2, pc_to_resume_from: 1 });
    let request = state.take_precompile_request().unwrap();
    assert_eq!(request.precompile, Precompile::Sha256);
    sha256_rounds_function::<_, false>(
        0,
        log_query(request.key),
        &mut HostMemory { state: &mut state },
    );
    assert_eq!(state.resume_from(1), ExecutionEnd::ProgramFinished(vec![]));

    assert_eq!(
        state.read_heap(0, 64, 32),
        vec![
            0xe3, 0xb0, 0xc4, 0x42, 0x98, 0xfc, 0x1c, 0x14, 0x9a, 0xfb, 0xf4, 0xc8, 0x99, 0x6f,
            0xb9, 0x24, 0x27, 0xae, 0x41, 0xe4, 0x64, 0x9b, 0x93, 0x4c, 0xa4, 0x95, 0x99, 0x1b,
            0x78, 0x52, 0xb8, 0x55
        ]
    );
    assert_eq!(state.register(3), Word::from_u32(1));
    assert_eq!(state.gas(), 1000 - 6);
}

#[test]
fn sha256_writes_to_the_page_that_the_call_names() {
    let program = call_program();
    let mut state = State::new(address_with_low_bits(0x02), &program, vec![], 1000);
    write_word(&mut state, 0, 0, Word { limb0: 0, limb1: 0, limb2: 0, limb3: 1 << 63 });
    let abi = PrecompileAbi {
        input_memory_offset: 0,
        input_memory_length: 2,
        output_memory_offset: 0,
        output_memory_length: 1,
        memory_page_to_read: 0,
        memory_page_to_write: 1,
        precompile_interpreted_data: 1,
    };
    state.set_register(1, abi.to_word(), false);
    assert_eq!(state.run(), ExecutionEnd::SuspendedOnHook { hook: 2, pc_to_resume_from: 1 });
    let request = state.take_precompile_request().unwrap();
    sha256_rounds_function::<_, false>(
        0,
        log_query(request.key),
        &mut HostMemory { state: &mut state },
    );
    assert_eq!(state.read_heap(1, 0, 4), vec![0xe3, 0xb0, 0xc4, 0x42]);
    // The page that was read is as it was.
    assert_eq!(state.read_heap(0, 0, 4), vec![0x80, 0, 0, 0]);
    assert_eq!(state.read_heap(0, 32, 4), vec![0, 0, 0, 0]);
}

#[test]
fn keccak256_request_reaches_the_primitive() {
    let program = call_program();
    let mut state = State::new(address_with_low_bits(0x8010), &program, vec![], 1000);
    // No bytes to hash: the primitive pads the empty message itself.
    let abi = PrecompileAbi {
        input_memory_offset: 0,
        input_memory_length: 0,
        output_memory_offset: 3,
        output_memory_length: 1,
        memory_page_to_read: 0,
        memory_page_to_write: 0,
        precompile_interpreted_data: 0,
    };
    state.set_register(1, abi.to_word(), false);
    assert_eq!(
        state.run(),
        ExecutionEnd::SuspendedOnHook { hook: 0x8010, pc_to_resume_from: 1 }
    );
    let request = state.take_precompile_request().unwrap();
    assert_eq!(request.precompile, Precompile::Keccak256);
    keccak256_rounds_function::<_, false>(
        0,
        log_query(request.key),
        &mut HostMemory { state: &mut state },
    );
    assert_eq!(
        state.read_heap(0, 96, 32),
        vec![
            0xc5, 0xd2, 0x46, 0x01, 0x86, 0xf7, 0x23, 0x3c, 0x92, 0x7e, 0x7d, 0xb2, 0xdc, 0xc7,
            0x03, 0xc0, 0xe5, 0x00, 0xb6, 0x53, 0xca, 0x82, 0x27, 0x3b, 0x7b, 0xfa, 0xd8, 0x04,
            0x5d, 0x85, 0xa4, 0x70
        ]
    );
    assert_eq!(state.resume_from(1), ExecutionEnd::ProgramFinished(vec![]));
}
