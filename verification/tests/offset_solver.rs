//! The address/offset solver addresses a unique bit group per interrupt.

use std::collections::HashSet;

use pynq_bsp::interrupt::gic::InterruptsPerAddress;
use pynq_bsp::interrupt::gic::SolvedAddressOffset;

#[test]
fn solver_is_injective_per_granularity() {
    for granularity in [
        InterruptsPerAddress::Count4,
        InterruptsPerAddress::Count16,
        InterruptsPerAddress::Count32,
    ] {
        let mut seen = HashSet::new();
        for id in 0..=92u32 {
            let solved = SolvedAddressOffset::solve(id, granularity);
            assert!(
                seen.insert((solved.offset_register, solved.offset_bit)),
                "two ids share ({}, {})",
                solved.offset_register,
                solved.offset_bit
            );
        }
    }
}

#[test]
fn solver_bit_groups_do_not_overlap() {
    // Concatenating the bank into one bit vector, each id's field must not
    // overlap any other id's field.
    for (granularity, width) in [
        (InterruptsPerAddress::Count4, 8u32),
        (InterruptsPerAddress::Count16, 2),
        (InterruptsPerAddress::Count32, 1),
    ] {
        let mut claimed = HashSet::new();
        for id in 0..=92u32 {
            let solved = SolvedAddressOffset::solve(id, granularity);
            for bit in 0..width {
                let flat = solved.offset_register as u32 * 32 + solved.offset_bit + bit;
                assert!(claimed.insert(flat), "bit {flat} claimed twice");
            }
        }
    }
}

#[test]
fn solver_matches_the_documented_layout() {
    let by_four = SolvedAddressOffset::solve(61, InterruptsPerAddress::Count4);
    assert_eq!((by_four.offset_register, by_four.offset_bit), (15, 8));
    let by_sixteen = SolvedAddressOffset::solve(61, InterruptsPerAddress::Count16);
    assert_eq!((by_sixteen.offset_register, by_sixteen.offset_bit), (3, 26));
    let by_thirty_two = SolvedAddressOffset::solve(61, InterruptsPerAddress::Count32);
    assert_eq!((by_thirty_two.offset_register, by_thirty_two.offset_bit), (1, 29));
    let first = SolvedAddressOffset::solve(0, InterruptsPerAddress::Count4);
    assert_eq!((first.offset_register, first.offset_bit), (0, 0));
    let last = SolvedAddressOffset::solve(95, InterruptsPerAddress::Count4);
    assert_eq!((last.offset_register, last.offset_bit), (23, 24));
}
