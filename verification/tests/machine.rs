use vm2::addressing_modes::{
    AbsoluteStack, AdvanceStackPointer, AnyDestination, AnySource, CodePage, Immediate1,
    Immediate2, Register, Register1, Register2, RelativeStack,
};
use vm2::instruction_handlers::precompiles::{Precompile, PrecompileAbi, PrecompileRequest};
use vm2::{
    end_execution, jump_to_beginning, ExecutionEnd, FatPointer, Flags, Instruction,
    InstructionVariant, MemoryQuery, Predicate, PtrAdd, PtrPack, PtrShrink, PtrSub, State, Word,
};

const ADDRESS: [u8; 20] = [0; 20];

fn r1(n: u8) -> Register1 {
    Register1(Register::new(n).unwrap())
}

fn r2(n: u8) -> Register2 {
    Register2(Register::new(n).unwrap())
}

fn pointer_word(offset: u32, memory_page: u32, start: u32, length: u32) -> Word {
    FatPointer { offset, memory_page, start, length }.into_word()
}

fn address_with_low_bits(low: u16) -> [u8; 20] {
    let mut address = [0u8; 20];
    address[18] = (low >> 8) as u8;
    address[19] = low as u8;
    address
}

#[test]
fn single_end_execution_finishes_with_empty_output() {
    let program = vec![end_execution()];
    let mut state = State::new(ADDRESS, &program, vec![], 0);
    assert_eq!(state.run(), ExecutionEnd::ProgramFinished(vec![]));
    assert_eq!(state.gas(), 0);
    assert_eq!(state.depth(), 0);
}

#[test]
fn fresh_state_is_zeroed() {
    let program = vec![end_execution()];
    let state = State::new(ADDRESS, &program, vec![], 77);
    for i in 0..16 {
        assert_eq!(state.register(i), Word::zero());
        assert!(!state.register_is_pointer(i));
    }
    assert_eq!(state.flags(), Flags::new(false, false, false));
    assert_eq!(state.sp(), 1000);
    assert_eq!(state.gas(), 77);
    assert_eq!(state.heap(), 0);
    assert_eq!(state.aux_heap(), 1);
    assert_eq!(state.heap_pages(), 2);
    assert_eq!(state.stack_slot(0), Word::zero());
    assert_eq!(state.stack_slot(65535), Word::zero());
    assert!(!state.stack_slot_is_pointer(1000));
    assert_eq!(state.read_heap(0, 0, 4), vec![0, 0, 0, 0]);
}

#[test]
fn add_zero_on_untagged_register_panics() {
    let program = vec![
        Instruction::from_ptr::<PtrAdd>(
            AnySource::Register1(r1(1)),
            r2(2),
            AnyDestination::Register1(r1(3)),
            Predicate::Always,
            false,
        ),
        end_execution(),
    ];
    let mut state = State::new(ADDRESS, &program, vec![], 100);
    state.set_register(1, pointer_word(4, 0, 0, 32), false);
    assert_eq!(state.run(), ExecutionEnd::Panicked);
    assert_eq!(state.register(3), Word::zero());
    assert!(!state.register_is_pointer(3));
}

#[test]
fn add_on_tagged_register_gives_tagged_pointer() {
    let program = vec![
        Instruction::from_ptr::<PtrAdd>(
            AnySource::Register1(r1(1)),
            r2(2),
            AnyDestination::Register1(r1(3)),
            Predicate::Always,
            false,
        ),
        end_execution(),
    ];
    let mut state = State::new(ADDRESS, &program, vec![], 100);
    state.set_register(1, pointer_word(4, 0, 0, 32), true);
    state.set_register(2, Word::from_u32(6), false);
    assert_eq!(state.run(), ExecutionEnd::ProgramFinished(vec![]));
    assert_eq!(state.register(3), pointer_word(10, 0, 0, 32));
    assert!(state.register_is_pointer(3));
    assert_eq!(state.gas(), 100);
}

#[test]
fn plain_operand_tagged_as_pointer_panics() {
    let program = vec![
        Instruction::from_ptr::<PtrAdd>(
            AnySource::Register1(r1(1)),
            r2(2),
            AnyDestination::Register1(r1(3)),
            Predicate::Always,
            false,
        ),
        end_execution(),
    ];
    let mut state = State::new(ADDRESS, &program, vec![], 100);
    state.set_register(1, pointer_word(4, 0, 0, 32), true);
    state.set_register(2, Word::from_u32(6), true);
    assert_eq!(state.run(), ExecutionEnd::Panicked);
}

#[test]
fn failing_pointer_arithmetic_panics() {
    let program = vec![
        Instruction::from_ptr::<PtrSub>(
            AnySource::Register1(r1(1)),
            r2(2),
            AnyDestination::Register1(r1(3)),
            Predicate::Always,
            false,
        ),
        end_execution(),
    ];
    let mut state = State::new(ADDRESS, &program, vec![], 100);
    state.set_register(1, pointer_word(4, 0, 0, 32), true);
    state.set_register(2, Word::from_u32(5), false);
    assert_eq!(state.run(), ExecutionEnd::Panicked);
    assert_eq!(state.register(3), Word::zero());
}

#[test]
fn swapped_operands_give_the_same_result() {
    let straight = vec![
        Instruction::from_ptr::<PtrSub>(
            AnySource::Register1(r1(1)),
            r2(2),
            AnyDestination::Register1(r1(3)),
            Predicate::Always,
            false,
        ),
        end_execution(),
    ];
    let swapped = vec![
        Instruction::from_ptr::<PtrSub>(
            AnySource::Register1(r1(2)),
            r2(1),
            AnyDestination::Register1(r1(3)),
            Predicate::Always,
            true,
        ),
        end_execution(),
    ];
    let mut first = State::new(ADDRESS, &straight, vec![], 100);
    let mut second = State::new(ADDRESS, &swapped, vec![], 100);
    for state in [&mut first, &mut second] {
        state.set_register(1, pointer_word(9, 1, 2, 30), true);
        state.set_register(2, Word::from_u32(4), false);
        assert_eq!(state.run(), ExecutionEnd::ProgramFinished(vec![]));
    }
    assert_eq!(first.register(3), pointer_word(5, 1, 2, 30));
    assert_eq!(second.register(3), first.register(3));
    assert!(second.register_is_pointer(3));
}

#[test]
fn swapped_immediate_is_the_plain_operand() {
    let program = vec![
        Instruction::from_ptr::<PtrShrink>(
            AnySource::Immediate1(Immediate1(12)),
            r2(5),
            AnyDestination::Register1(r1(6)),
            Predicate::Always,
            true,
        ),
        end_execution(),
    ];
    let mut state = State::new(ADDRESS, &program, vec![], 100);
    state.set_register(5, pointer_word(0, 0, 0, 32), true);
    assert_eq!(state.run(), ExecutionEnd::ProgramFinished(vec![]));
    assert_eq!(state.register(6), pointer_word(0, 0, 0, 20));
    assert!(state.register_is_pointer(6));
}

#[test]
fn immediate_as_pointer_operand_panics() {
    let program = vec![
        Instruction::from_ptr::<PtrAdd>(
            AnySource::Immediate1(Immediate1(12)),
            r2(5),
            AnyDestination::Register1(r1(6)),
            Predicate::Always,
            false,
        ),
        end_execution(),
    ];
    let mut state = State::new(ADDRESS, &program, vec![], 100);
    assert_eq!(state.run(), ExecutionEnd::Panicked);
}

#[test]
fn pack_instruction_joins_two_registers() {
    let program = vec![
        Instruction::from_ptr::<PtrPack>(
            AnySource::Register1(r1(1)),
            r2(2),
            AnyDestination::Register1(r1(1)),
            Predicate::Always,
            false,
        ),
        end_execution(),
    ];
    let mut state = State::new(ADDRESS, &program, vec![], 100);
    state.set_register(1, Word { limb0: 7, limb1: 8, limb2: 1, limb3: 2 }, true);
    state.set_register(2, Word { limb0: 0, limb1: 0, limb2: 9, limb3: 10 }, false);
    assert_eq!(state.run(), ExecutionEnd::ProgramFinished(vec![]));
    assert_eq!(state.register(1), Word { limb0: 7, limb1: 8, limb2: 9, limb3: 10 });
    assert!(state.register_is_pointer(1));
}

#[test]
fn absolute_stack_source_and_destination() {
    let program = vec![
        Instruction::from_ptr::<PtrAdd>(
            AnySource::AbsoluteStack(AbsoluteStack(40)),
            r2(2),
            AnyDestination::AbsoluteStack(AbsoluteStack(41)),
            Predicate::Always,
            false,
        ),
        end_execution(),
    ];
    let mut state = State::new(ADDRESS, &program, vec![], 100);
    state.set_stack_slot(40, pointer_word(1, 0, 0, 8), true);
    state.set_register(2, Word::from_u32(2), false);
    assert_eq!(state.run(), ExecutionEnd::ProgramFinished(vec![]));
    assert_eq!(state.stack_slot(41), pointer_word(3, 0, 0, 8));
    assert!(state.stack_slot_is_pointer(41));
    assert!(state.stack_slot_is_pointer(40));
    assert_eq!(state.sp(), 1000);
}

#[test]
fn relative_stack_counts_down_from_the_stack_pointer() {
    let program = vec![
        Instruction::from_ptr::<PtrAdd>(
            AnySource::RelativeStack(RelativeStack(1)),
            r2(2),
            AnyDestination::RelativeStack(RelativeStack(2)),
            Predicate::Always,
            false,
        ),
        end_execution(),
    ];
    let mut state = State::new(ADDRESS, &program, vec![], 100);
    state.set_stack_slot(999, pointer_word(1, 0, 0, 8), true);
    state.set_register(2, Word::from_u32(2), false);
    assert_eq!(state.run(), ExecutionEnd::ProgramFinished(vec![]));
    assert_eq!(state.stack_slot(998), pointer_word(3, 0, 0, 8));
    assert!(state.stack_slot_is_pointer(998));
    assert_eq!(state.sp(), 1000);
}

#[test]
fn relative_stack_wraps_below_slot_zero() {
    let program = vec![
        Instruction::from_ptr::<PtrAdd>(
            AnySource::RelativeStack(RelativeStack(3)),
            r2(2),
            AnyDestination::Register1(r1(4)),
            Predicate::Always,
            false,
        ),
        end_execution(),
    ];
    let mut state = State::new(ADDRESS, &program, vec![], 100);
    state.set_sp(1);
    state.set_stack_slot(65534, pointer_word(1, 0, 0, 8), true);
    assert_eq!(state.run(), ExecutionEnd::ProgramFinished(vec![]));
    assert_eq!(state.register(4), pointer_word(1, 0, 0, 8));
}

#[test]
fn advance_stack_pointer_pops_and_pushes() {
    let program = vec![
        Instruction::from_ptr::<PtrAdd>(
            AnySource::AdvanceStackPointer(AdvanceStackPointer(3)),
            r2(2),
            AnyDestination::AdvanceStackPointer(AdvanceStackPointer(5)),
            Predicate::Always,
            false,
        ),
        end_execution(),
    ];
    let mut state = State::new(ADDRESS, &program, vec![], 100);
    state.set_stack_slot(997, pointer_word(1, 0, 0, 8), true);
    state.set_register(2, Word::from_u32(2), false);
    assert_eq!(state.run(), ExecutionEnd::ProgramFinished(vec![]));
    // Read at 1000 - 3, written back to the same slot, pointer moved up by 5.
    assert_eq!(state.stack_slot(997), pointer_word(3, 0, 0, 8));
    assert!(state.stack_slot_is_pointer(997));
    assert_eq!(state.sp(), 1002);
}

#[test]
fn advance_stack_pointer_keeps_its_move_when_the_instruction_panics() {
    let program = vec![
        Instruction::from_ptr::<PtrAdd>(
            AnySource::AdvanceStackPointer(AdvanceStackPointer(3)),
            r2(2),
            AnyDestination::Register1(r1(1)),
            Predicate::Always,
            false,
        ),
        end_execution(),
    ];
    let mut state = State::new(ADDRESS, &program, vec![], 100);
    assert_eq!(state.run(), ExecutionEnd::Panicked);
    assert_eq!(state.sp(), 997);
}

#[test]
fn code_page_word_is_a_plain_operand() {
    let program = vec![
        Instruction::from_ptr::<PtrAdd>(
            AnySource::CodePage(CodePage(1)),
            r2(2),
            AnyDestination::Register1(r1(3)),
            Predicate::Always,
            true,
        ),
        Instruction::from_ptr::<PtrAdd>(
            AnySource::CodePage(CodePage(9)),
            r2(2),
            AnyDestination::Register1(r1(4)),
            Predicate::Always,
            true,
        ),
        end_execution(),
    ];
    let mut state =
        State::new(ADDRESS, &program, vec![Word::from_u32(100), Word::from_u32(7)], 100);
    state.set_register(2, pointer_word(1, 0, 0, 8), true);
    assert_eq!(state.run(), ExecutionEnd::ProgramFinished(vec![]));
    assert_eq!(state.register(3), pointer_word(8, 0, 0, 8));
    // A word beyond the end of the code page reads as zero.
    assert_eq!(state.register(4), pointer_word(1, 0, 0, 8));
}

#[test]
fn unsatisfied_predicate_skips_the_instruction() {
    let program = vec![
        Instruction::from_ptr::<PtrAdd>(
            AnySource::Register1(r1(1)),
            r2(2),
            AnyDestination::Register1(r1(3)),
            Predicate::IfEQ,
            false,
        ),
        end_execution(),
    ];
    let mut state = State::new(ADDRESS, &program, vec![], 100);
    assert_eq!(state.run(), ExecutionEnd::ProgramFinished(vec![]));

    let mut state = State::new(ADDRESS, &program, vec![], 100);
    state.set_flags(Flags::new(false, true, false));
    assert_eq!(state.run(), ExecutionEnd::Panicked);
}

#[test]
fn first_instruction_has_its_predicate_checked() {
    let program = vec![Instruction::from_panic(Predicate::IfGT), end_execution()];
    let mut state = State::new(ADDRESS, &program, vec![], 100);
    assert_eq!(state.run(), ExecutionEnd::ProgramFinished(vec![]));
    assert_eq!(state.gas(), 100);
    let mut state = State::new(ADDRESS, &program, vec![], 100);
    state.set_flags(Flags::new(false, false, true));
    assert_eq!(state.run(), ExecutionEnd::Panicked);
}

#[test]
fn step_reports_the_next_instruction() {
    let program = vec![Instruction::from_panic(Predicate::IfGT), jump_to_beginning()];
    let mut state = State::new(ADDRESS, &program, vec![], 10);
    assert_eq!(state.step(0), Ok(1));
    assert_eq!(state.gas(), 10);
    assert_eq!(state.step(1), Ok(0));
    assert_eq!(state.gas(), 4);
    assert_eq!(state.step(1), Err(ExecutionEnd::Panicked));
    assert_eq!(state.gas(), 0);
    assert_eq!(state.step(2), Err(ExecutionEnd::Panicked));
}

#[test]
fn running_off_the_end_panics() {
    let program = vec![Instruction::from_panic(Predicate::IfGT)];
    let mut state = State::new(ADDRESS, &program, vec![], 100);
    assert_eq!(state.run(), ExecutionEnd::Panicked);
    let empty: Vec<Instruction> = vec![];
    let mut state = State::new(ADDRESS, &empty, vec![], 100);
    assert_eq!(state.run(), ExecutionEnd::Panicked);
}

#[test]
fn endless_jump_stops_when_the_gas_is_gone() {
    let program = vec![jump_to_beginning()];
    let mut state = State::new(ADDRESS, &program, vec![], 100);
    assert_eq!(state.run(), ExecutionEnd::Panicked);
    assert_eq!(state.gas(), 0);
}

#[test]
fn call_then_return_restores_the_caller() {
    let program = vec![
        Instruction::from_near_call(r1(1), Immediate1(2), Immediate2(3), Predicate::Always),
        end_execution(),
        Instruction::from_ret(r1(1), Predicate::Always),
        Instruction::from_panic(Predicate::Always),
    ];
    let mut state = State::new(ADDRESS, &program, vec![Word::from_u32(5)], 1000);
    state.set_register(1, Word::from_u32(100), false);
    state.set_register(7, pointer_word(1, 2, 3, 4), true);
    state.set_stack_slot(10, Word::from_u32(42), false);
    state.set_stack_slot(11, pointer_word(5, 6, 7, 8), true);
    state.set_sp(1234);

    assert_eq!(state.step(0), Ok(2));
    assert_eq!(state.depth(), 1);
    assert_eq!(state.gas(), 100);
    assert_eq!(state.sp(), 1000);
    assert_eq!(state.stack_slot(10), Word::zero());
    assert!(!state.stack_slot_is_pointer(11));

    assert_eq!(state.step(2), Ok(1));
    assert_eq!(state.depth(), 0);
    assert_eq!(state.gas(), 1000 - 25 - 5);
    assert_eq!(state.sp(), 1234);
    assert_eq!(state.register(1), Word::from_u32(100));
    assert_eq!(state.register(7), pointer_word(1, 2, 3, 4));
    assert!(state.register_is_pointer(7));
    assert_eq!(state.stack_slot(10), Word::from_u32(42));
    assert_eq!(state.stack_slot(11), pointer_word(5, 6, 7, 8));
    assert!(state.stack_slot_is_pointer(11));
    assert!(!state.stack_slot_is_pointer(10));

    assert_eq!(state.resume_from(1), ExecutionEnd::ProgramFinished(vec![]));
}

#[test]
fn call_passes_all_gas_when_asked_for_none_or_too_much() {
    let program = vec![
        Instruction::from_near_call(r1(1), Immediate1(1), Immediate2(1), Predicate::Always),
        end_execution(),
    ];
    let mut state = State::new(ADDRESS, &program, vec![], 1000);
    assert_eq!(state.step(0), Ok(1));
    assert_eq!(state.gas(), 975);

    let mut state = State::new(ADDRESS, &program, vec![], 1000);
    state.set_register(1, Word::from_u32(976), false);
    assert_eq!(state.step(0), Ok(1));
    assert_eq!(state.gas(), 975);

    let mut state = State::new(ADDRESS, &program, vec![], 1000);
    state.set_register(1, Word { limb0: (7 << 32) | 975, limb1: 3, limb2: 0, limb3: 0 }, false);
    assert_eq!(state.step(0), Ok(1));
    assert_eq!(state.gas(), 975);
}

#[test]
fn gas_is_accounted_for_across_call_and_return() {
    let program = vec![
        Instruction::from_near_call(r1(1), Immediate1(2), Immediate2(4), Predicate::Always),
        end_execution(),
        Instruction::from_precompile_call(r1(2), r2(3), r1(4), Predicate::Always),
        Instruction::from_ret(r1(1), Predicate::Always),
        Instruction::from_panic(Predicate::Always),
    ];
    let mut state = State::new(ADDRESS, &program, vec![], 1000);
    state.set_register(1, Word::from_u32(300), false);
    state.set_register(3, Word::from_u32(100), false);
    assert_eq!(state.step(0), Ok(2));
    assert_eq!(state.gas(), 300);
    assert_eq!(state.step(2), Ok(3));
    assert_eq!(state.gas(), 300 - 6 - 100);
    assert_eq!(state.step(3), Ok(1));
    // The caller kept 1000 - 25 - 300 and gets back what the callee left.
    assert_eq!(state.gas(), (1000 - 25 - 300) + (300 - 6 - 100 - 5));
    assert_eq!(state.depth(), 0);
}

#[test]
fn revert_in_callee_sends_the_caller_to_its_handler() {
    let program = vec![
        Instruction::from_near_call(r1(1), Immediate1(2), Immediate2(3), Predicate::Always),
        end_execution(),
        Instruction::from_revert(r1(1), Predicate::Always),
        Instruction::from_panic(Predicate::Always),
    ];
    let mut state = State::new(ADDRESS, &program, vec![], 1000);
    assert_eq!(state.step(0), Ok(2));
    assert_eq!(state.step(2), Ok(3));
    assert_eq!(state.depth(), 0);
    assert_eq!(state.gas(), 1000 - 25 - 5);
    let mut state = State::new(ADDRESS, &program, vec![], 1000);
    assert_eq!(state.run(), ExecutionEnd::Panicked);
}

#[test]
fn panic_in_callee_ends_every_frame() {
    let program = vec![
        Instruction::from_near_call(r1(1), Immediate1(1), Immediate2(3), Predicate::Always),
        Instruction::from_near_call(r1(1), Immediate1(2), Immediate2(3), Predicate::Always),
        Instruction::from_panic(Predicate::Always),
        end_execution(),
    ];
    let mut state = State::new(ADDRESS, &program, vec![], 1000);
    state.set_sp(77);
    assert_eq!(state.run(), ExecutionEnd::Panicked);
    assert_eq!(state.depth(), 0);
    assert_eq!(state.gas(), 1000 - 25 - 25 - 5);
    assert_eq!(state.sp(), 77);
}

#[test]
fn call_without_gas_for_it_panics() {
    let program = vec![
        Instruction::from_near_call(r1(1), Immediate1(1), Immediate2(1), Predicate::Always),
        end_execution(),
    ];
    let mut state = State::new(ADDRESS, &program, vec![], 24);
    assert_eq!(state.run(), ExecutionEnd::Panicked);
    assert_eq!(state.gas(), 0);
}

#[test]
fn precompile_call_to_unknown_address_burns_gas_and_succeeds() {
    let program = vec![
        Instruction::from_precompile_call(r1(1), r2(2), r1(3), Predicate::Always),
        end_execution(),
    ];
    let mut state = State::new(address_with_low_bits(0x1234), &program, vec![], 1000);
    state.set_register(2, Word { limb0: (9 << 32) | 50, limb1: 1, limb2: 2, limb3: 3 }, false);
    state.set_register(3, pointer_word(1, 1, 1, 1), true);
    assert_eq!(state.step(0), Ok(1));
    assert_eq!(state.gas(), 1000 - 6 - 50);
    assert_eq!(state.register(3), Word::from_u32(1));
    assert!(!state.register_is_pointer(3));
    assert_eq!(state.take_precompile_request(), None);
    assert_eq!(state.read_heap(0, 0, 8), vec![0; 8]);
    assert_eq!(state.resume_from(1), ExecutionEnd::ProgramFinished(vec![]));
}

#[test]
fn precompile_call_that_cannot_burn_panics() {
    let program = vec![
        Instruction::from_precompile_call(r1(1), r2(2), r1(3), Predicate::Always),
        end_execution(),
    ];
    let mut state = State::new(ADDRESS, &program, vec![], 55);
    state.set_register(2, Word::from_u32(50), false);
    assert_eq!(state.run(), ExecutionEnd::Panicked);
    assert_eq!(state.gas(), 0);
    assert_eq!(state.register(3), Word::zero());

    let mut state = State::new(ADDRESS, &program, vec![], 5);
    assert_eq!(state.run(), ExecutionEnd::Panicked);
}

#[test]
fn precompile_call_to_known_address_is_left_for_the_host() {
    let program = vec![
        Instruction::from_precompile_call(r1(1), r2(2), r1(1), Predicate::Always),
        end_execution(),
    ];
    for (low, precompile) in [
        (0x8010u16, Precompile::Keccak256),
        (0x02, Precompile::Sha256),
        (0x01, Precompile::Ecrecover),
        (0x100, Precompile::Secp256r1Verify),
    ] {
        let mut state = State::new(address_with_low_bits(low), &program, vec![], 1000);
        let abi = PrecompileAbi {
            input_memory_offset: 1,
            input_memory_length: 2,
            output_memory_offset: 3,
            output_memory_length: 4,
            memory_page_to_read: 0,
            memory_page_to_write: 1,
            precompile_interpreted_data: 5,
        };
        state.set_register(1, abi.to_word(), false);
        state.set_register(2, Word::from_u32(10), false);
        assert_eq!(
            state.run(),
            ExecutionEnd::SuspendedOnHook { hook: low as u32, pc_to_resume_from: 1 }
        );
        assert_eq!(state.gas(), 1000 - 6 - 10);
        assert_eq!(state.register(1), Word::from_u32(1));
        let expected = PrecompileAbi { memory_page_to_read: state.heap(), ..abi };
        assert_eq!(
            state.take_precompile_request(),
            Some(PrecompileRequest { precompile, key: expected.to_word() })
        );
        assert_eq!(state.take_precompile_request(), None);
        assert_eq!(state.resume_from(1), ExecutionEnd::ProgramFinished(vec![]));
    }
}

#[test]
fn return_from_the_outermost_frame_hands_out_the_pointed_bytes() {
    let program = vec![Instruction::from_ret(r1(1), Predicate::Always)];
    let mut state = State::new(ADDRESS, &program, vec![], 100);
    let value = Word {
        limb0: 0x1920_2122_2324_2526,
        limb1: 0x1112_1314_1516_1718,
        limb2: 0x090a_0b0c_0d0e_0f10,
        limb3: 0x0102_0304_0506_0708,
    };
    let query = MemoryQuery { page: 1, index: 1, value, rw_flag: true, value_is_pointer: false };
    assert_eq!(state.execute_partial_query(query), query);
    // The region is bytes 30..38 of the page, the offset skips two of them.
    state.set_register(1, pointer_word(2, 1, 30, 8), true);
    assert_eq!(state.run(), ExecutionEnd::ProgramFinished(vec![1, 2, 3, 4, 5, 6]));
    assert_eq!(state.gas(), 95);
}

#[test]
fn return_reads_zero_beyond_the_end_of_the_page() {
    let program = vec![Instruction::from_ret(r1(1), Predicate::Always)];
    let mut state = State::new(ADDRESS, &program, vec![], 100);
    let query = MemoryQuery {
        page: 0,
        index: 0,
        value: Word { limb0: 0xff, limb1: 0, limb2: 0, limb3: 0 },
        rw_flag: true,
        value_is_pointer: false,
    };
    state.execute_partial_query(query);
    state.set_register(1, pointer_word(0, 0, 31, 3), true);
    assert_eq!(state.run(), ExecutionEnd::ProgramFinished(vec![0xff, 0, 0]));
}

#[test]
fn return_with_offset_at_or_past_the_length_gives_no_bytes() {
    let program = vec![Instruction::from_ret(r1(1), Predicate::Always)];
    let mut state = State::new(ADDRESS, &program, vec![], 100);
    state.set_register(1, pointer_word(8, 0, 0, 8), true);
    assert_eq!(state.run(), ExecutionEnd::ProgramFinished(vec![]));
    let mut state = State::new(ADDRESS, &program, vec![], 100);
    state.set_register(1, pointer_word(9, 0, 0, 8), true);
    assert_eq!(state.run(), ExecutionEnd::ProgramFinished(vec![]));
}

#[test]
fn return_without_a_pointer_or_into_a_foreign_page_panics() {
    let program = vec![Instruction::from_ret(r1(1), Predicate::Always)];
    let mut state = State::new(ADDRESS, &program, vec![], 100);
    state.set_register(1, pointer_word(0, 0, 0, 8), false);
    assert_eq!(state.run(), ExecutionEnd::Panicked);
    let mut state = State::new(ADDRESS, &program, vec![], 100);
    state.set_register(1, pointer_word(0, 2, 0, 8), true);
    assert_eq!(state.run(), ExecutionEnd::Panicked);
}

#[test]
fn revert_from_the_outermost_frame_keeps_the_output() {
    let program = vec![Instruction::from_revert(r1(2), Predicate::Always)];
    let mut state = State::new(ADDRESS, &program, vec![], 100);
    state.set_register(2, pointer_word(0, 1, 0, 2), true);
    assert_eq!(state.run(), ExecutionEnd::Reverted(vec![0, 0]));
    let mut state = State::new(ADDRESS, &program, vec![], 100);
    assert_eq!(state.run(), ExecutionEnd::Panicked);
}

#[test]
fn inspection_shows_the_machine_before_a_step() {
    let program = vec![
        Instruction::from_near_call(r1(1), Immediate1(1), Immediate2(1), Predicate::Always),
        end_execution(),
    ];
    let mut state = State::new(ADDRESS, &program, vec![], 500);
    state.set_register(4, pointer_word(1, 2, 3, 4), true);
    state.set_register(15, Word::from_u32(9), false);
    state.set_sp(55);
    let inspection = state.inspect(0).unwrap();
    assert_eq!(inspection.variant, InstructionVariant::NearCall);
    assert_eq!(inspection.pc, 0);
    assert_eq!(inspection.gas, 500);
    assert_eq!(inspection.sp, 55);
    for i in 0..16 {
        assert_eq!(inspection.registers[i], state.register(i as u8));
        assert_eq!(inspection.register_pointer_flags[i], i == 4);
    }
    assert_eq!(inspection.registers[4], pointer_word(1, 2, 3, 4));
    assert_eq!(state.inspect(1).unwrap().variant, InstructionVariant::Ret);
    assert!(state.inspect(2).is_none());
}

#[test]
fn instructions_carry_their_family() {
    assert_eq!(jump_to_beginning().variant, InstructionVariant::Jump);
    assert_eq!(end_execution().variant, InstructionVariant::Ret);
    assert_eq!(Instruction::from_panic(Predicate::Always).variant, InstructionVariant::Panic);
    assert_eq!(Instruction::from_revert(r1(1), Predicate::Always).variant, InstructionVariant::Revert);
    assert_eq!(Instruction::from_ret(r1(1), Predicate::Always).variant, InstructionVariant::Ret);
    assert_eq!(
        Instruction::from_precompile_call(r1(1), r2(2), r1(3), Predicate::Always).variant,
        InstructionVariant::Log
    );
    assert_eq!(
        Instruction::from_ptr::<PtrPack>(
            AnySource::Register1(r1(1)),
            r2(2),
            AnyDestination::Register1(r1(3)),
            Predicate::IfLE,
            true
        )
        .variant,
        InstructionVariant::Ptr
    );
    assert_eq!(jump_to_beginning().static_gas_cost(), 6);
    assert_eq!(end_execution().static_gas_cost(), 0);
    assert_eq!(Instruction::from_panic(Predicate::IfGE).predicate(), Predicate::IfGE);
}

#[test]
fn panic_instruction_panics() {
    let program = vec![Instruction::from_panic(Predicate::Always)];
    let mut state = State::new(ADDRESS, &program, vec![], 100);
    assert_eq!(state.run(), ExecutionEnd::Panicked);
    assert_eq!(state.gas(), 95);
}
