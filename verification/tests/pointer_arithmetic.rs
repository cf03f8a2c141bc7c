use vm2::{FatPointer, PtrAdd, PtrOp, PtrPack, PtrShrink, PtrSub, Word};

fn pointer_word(offset: u32, memory_page: u32, start: u32, length: u32) -> Word {
    FatPointer { offset, memory_page, start, length }.into_word()
}

#[test]
fn fat_pointer_fields_sit_where_expected() {
    let word = pointer_word(0x11, 0x22, 0x33, 0x44);
    assert_eq!(
        word,
        Word { limb0: 0x0000_0022_0000_0011, limb1: 0, limb2: 0x0000_0044_0000_0033, limb3: 0 }
    );
    assert_eq!(
        FatPointer::from(word),
        FatPointer { offset: 0x11, memory_page: 0x22, start: 0x33, length: 0x44 }
    );
}

#[test]
fn store_in_keeps_the_other_limbs() {
    let word = Word { limb0: 1, limb1: 2, limb2: 3, limb3: 4 };
    let pointer = FatPointer { offset: 9, memory_page: 8, start: 7, length: 6 };
    let stored = pointer.store_in(word);
    assert_eq!(stored.limb1, 2);
    assert_eq!(stored.limb3, 4);
    assert_eq!(FatPointer::from(stored), pointer);
}

#[test]
fn add_moves_the_offset_up() {
    let word = pointer_word(10, 3, 100, 50);
    let result = PtrAdd::perform(word, Word::from_u32(5)).unwrap();
    assert_eq!(result, pointer_word(15, 3, 100, 50));
}

#[test]
fn sub_moves_the_offset_down() {
    let word = pointer_word(10, 3, 100, 50);
    let result = PtrSub::perform(word, Word::from_u32(4)).unwrap();
    assert_eq!(result, pointer_word(6, 3, 100, 50));
}

#[test]
fn sub_then_add_round_trips() {
    let word = Word { limb0: 0x0000_0007_0000_0064, limb1: 0xaa, limb2: 0x0000_0009_0000_0001, limb3: 0xbb };
    for d in [0u32, 1, 50, 100] {
        let down = PtrSub::perform(word, Word::from_u32(d)).unwrap();
        assert_eq!(FatPointer::from(down).offset, 100 - d);
        assert_eq!(PtrAdd::perform(down, Word::from_u32(d)), Some(word));
    }
}

#[test]
fn sub_below_zero_fails() {
    let word = pointer_word(10, 3, 100, 50);
    assert_eq!(PtrSub::perform(word, Word::from_u32(11)), None);
}

#[test]
fn add_above_u32_fails() {
    let word = pointer_word(u32::MAX - 1, 3, 100, 50);
    assert_eq!(PtrAdd::perform(word, Word::from_u32(1)), Some(pointer_word(u32::MAX, 3, 100, 50)));
    assert_eq!(PtrAdd::perform(word, Word::from_u32(2)), None);
}

#[test]
fn add_and_sub_reject_an_operand_wider_than_32_bits() {
    let word = pointer_word(10, 3, 100, 50);
    let wide = Word { limb0: 1 << 32, limb1: 0, limb2: 0, limb3: 0 };
    assert_eq!(PtrAdd::perform(word, wide), None);
    assert_eq!(PtrSub::perform(word, wide), None);
    let high = Word { limb0: 0, limb1: 0, limb2: 0, limb3: 1 };
    assert_eq!(PtrAdd::perform(word, high), None);
    assert_eq!(PtrSub::perform(word, high), None);
}

#[test]
fn pack_takes_low_half_from_first_and_high_half_from_second() {
    let p = Word { limb0: 0x0000_0005_0000_0006, limb1: 0x77, limb2: 0x1234, limb3: 0x5678 };
    let q = Word { limb0: 0, limb1: 0, limb2: 0x0000_0020_0000_0010, limb3: 0x99 };
    let packed = PtrPack::perform(p, q).unwrap();
    assert_eq!(
        packed,
        Word { limb0: 0x0000_0005_0000_0006, limb1: 0x77, limb2: 0x0000_0020_0000_0010, limb3: 0x99 }
    );
    let pointer = FatPointer::from(packed);
    assert_eq!(pointer.offset, FatPointer::from(p).offset);
    assert_eq!(pointer.memory_page, 5);
    assert_eq!(pointer.start, FatPointer::from(q).start);
    assert_eq!(pointer.length, 0x20);
}

#[test]
fn pack_fails_when_low_half_of_second_is_not_zero() {
    let p = pointer_word(1, 2, 3, 4);
    assert_eq!(PtrPack::perform(p, Word { limb0: 1, limb1: 0, limb2: 5, limb3: 0 }), None);
    assert_eq!(PtrPack::perform(p, Word { limb0: 0, limb1: 1, limb2: 5, limb3: 0 }), None);
}

#[test]
fn shrink_shortens_the_region() {
    let word = Word { limb0: 0x0000_0003_0000_000a, limb1: 0xaa, limb2: 0x0000_0032_0000_0064, limb3: 0xbb };
    let result = PtrShrink::perform(word, Word::from_u32(20)).unwrap();
    let before = FatPointer::from(word);
    let after = FatPointer::from(result);
    assert_eq!(after.length, 30);
    assert_eq!(after.offset, before.offset);
    assert_eq!(after.memory_page, before.memory_page);
    assert_eq!(after.start, before.start);
    assert_eq!(result.limb1, 0xaa);
    assert_eq!(result.limb3, 0xbb);
    assert_eq!(PtrShrink::perform(word, Word::from_u32(50)).map(|w| FatPointer::from(w).length), Some(0));
}

#[test]
fn shrink_past_zero_fails() {
    let word = pointer_word(10, 3, 100, 50);
    assert_eq!(PtrShrink::perform(word, Word::from_u32(51)), None);
    let wide = Word { limb0: 1 << 32, limb1: 0, limb2: 0, limb3: 0 };
    assert_eq!(PtrShrink::perform(word, wide), None);
    let high = Word { limb0: 0, limb1: 0, limb2: 1, limb3: 0 };
    assert_eq!(PtrShrink::perform(word, high), None);
}
