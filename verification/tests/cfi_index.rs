use stackwalk::cfi_index::DwarfCfiIndex;

#[test]
fn build_sorts_and_lookup_finds_the_nearest_start() {
    // Raw (initial_location, fde_offset) pairs in section order; the stated
    // base is 0x700, so the relative starts are 0x900, 0xa00 and 0x100.
    let pairs = vec![(0x1000u64, 0u64), (0x1100, 0x40), (0x0800, 0x20)];
    let index = DwarfCfiIndex::build(&pairs, 0x700);
    assert_eq!(index.fde_offset_for_relative_address(0x100), Some(0x20));
    assert_eq!(index.fde_offset_for_relative_address(0x8ff), Some(0x20));
    assert_eq!(index.fde_offset_for_relative_address(0x900), Some(0));
    assert_eq!(index.fde_offset_for_relative_address(0x950), Some(0));
    assert_eq!(index.fde_offset_for_relative_address(0xa00), Some(0x40));
    // Past the last function: the nearest FDE is still returned; range
    // checks are the CFI evaluation's job.
    assert_eq!(index.fde_offset_for_relative_address(0xffff), Some(0x40));
    // Below every function: nothing.
    assert_eq!(index.fde_offset_for_relative_address(0x50), None);
}

#[test]
fn round_trip_on_every_function_start() {
    let pairs = vec![(0x1000u64, 0u64), (0x1100, 0x40), (0x0800, 0x20)];
    let index = DwarfCfiIndex::build(&pairs, 0x700);
    for (initial_location, fde_offset) in &pairs {
        let rel = (initial_location - 0x700) as u32;
        assert_eq!(
            index.fde_offset_for_relative_address(rel),
            Some(*fde_offset as u32)
        );
    }
}

#[test]
fn pairs_outside_the_relative_space_are_left_out() {
    let pairs = vec![
        (0x600u64, 5u64),                  // below the base
        (0x700 + 0x1_0000_0000, 6),        // relative form does not fit 32 bits
        (0x800, 7),
    ];
    let index = DwarfCfiIndex::build(&pairs, 0x700);
    assert_eq!(index.fde_offset_for_relative_address(0), None);
    assert_eq!(index.fde_offset_for_relative_address(0x100), Some(7));
    assert_eq!(index.fde_offset_for_relative_address(u32::MAX), Some(7));
}

#[test]
fn empty_input_gives_an_empty_index() {
    let pairs: Vec<(u64, u64)> = Vec::new();
    let index = DwarfCfiIndex::build(&pairs, 0);
    assert_eq!(index.fde_offset_for_relative_address(0), None);
    assert_eq!(index.fde_offset_for_relative_address(u32::MAX), None);
}
