use posos::interrupts::x86::idt::{
    segment_selector, DescriptorTablePointer, Entry, EntryOptions, Idt, IndexError, TableState,
    ENTRIES, TABLE_BYTES,
};
use x86_64::registers::segmentation::{Segment, CS};

const HANDLERS: [u64; 8] = [
    0,
    1,
    0xffff,
    0x1_0000,
    0xffff_ffff,
    0x1_0000_0000,
    0xdead_beef_cafe_babe,
    u64::MAX,
];

#[test]
fn minimal_options_hold_only_the_reserved_ones() {
    let options = EntryOptions::minimal();
    assert_eq!(options.bits(), 0b0000_1110_0000_0000);
    assert!(!options.is_present());
    assert!(options.interrupts_disabled());
    assert_eq!(options.privilege_level(), 0);
    assert_eq!(options.stack_index(), 0);
}

#[test]
fn new_options_are_present_with_interrupts_masked() {
    let options = EntryOptions::new();
    assert_eq!(options.bits(), 0b1000_1110_0000_0000);
    assert!(options.is_present());
    assert!(options.interrupts_disabled());
    assert_eq!(options.privilege_level(), 0);
    assert_eq!(options.stack_index(), 0);
}

#[test]
fn set_present_moves_bit_fifteen() {
    let mut options = EntryOptions::minimal();
    options.set_present(true);
    assert_eq!(options.bits(), 0x8e00);
    options.set_present(true);
    assert_eq!(options.bits(), 0x8e00);
    options.set_present(false);
    assert_eq!(options.bits(), 0x0e00);
}

#[test]
fn disable_interrupts_clears_bit_eight() {
    let mut options = EntryOptions::minimal();
    options.disable_interrupts(false);
    assert_eq!(options.bits(), 0x0f00);
    assert!(!options.interrupts_disabled());
    options.disable_interrupts(true);
    assert_eq!(options.bits(), 0x0e00);
    assert!(options.interrupts_disabled());
}

#[test]
fn privilege_level_goes_to_bits_thirteen_and_fourteen() {
    for level in 0..4u16 {
        let mut options = EntryOptions::minimal();
        options.set_privilege_level(level);
        assert_eq!(options.bits(), 0x0e00 | (level << 13));
        assert_eq!(options.privilege_level(), level);
    }
}

#[test]
fn privilege_level_above_three_is_cut_to_two_bits() {
    for (given, stored) in [(4u16, 0u16), (5, 1), (6, 2), (7, 3), (0xfffe, 2), (0xffff, 3)] {
        let mut options = EntryOptions::new();
        options.set_privilege_level(given);
        assert_eq!(options.privilege_level(), stored);
        assert_eq!(options.bits(), 0x8e00 | (stored << 13));
    }
}

#[test]
fn stack_index_goes_to_the_low_three_bits() {
    for index in 0..8u16 {
        let mut options = EntryOptions::minimal();
        options.set_stack_index(index);
        assert_eq!(options.bits(), 0x0e00 | index);
        assert_eq!(options.stack_index(), index);
    }
}

#[test]
fn stack_index_above_seven_is_cut_to_three_bits() {
    for (given, stored) in [(8u16, 0u16), (9, 1), (15, 7), (0x10, 0), (0xffff, 7)] {
        let mut options = EntryOptions::new();
        options.set_stack_index(given);
        assert_eq!(options.stack_index(), stored);
        assert_eq!(options.bits(), 0x8e00 | stored);
    }
}

#[test]
fn setters_chain() {
    let mut options = EntryOptions::minimal();
    options
        .set_present(true)
        .disable_interrupts(false)
        .set_privilege_level(3)
        .set_stack_index(5);
    assert_eq!(options.bits(), 0b1110_1111_0000_0101);
    options.set_stack_index(0).set_privilege_level(0).disable_interrupts(true).set_present(false);
    assert_eq!(options.bits(), EntryOptions::minimal().bits());
}

fn configured(present: bool, disable: bool, level: u16, index: u16) -> EntryOptions {
    let mut options = EntryOptions::minimal();
    options
        .set_present(present)
        .disable_interrupts(disable)
        .set_privilege_level(level)
        .set_stack_index(index);
    options
}

fn assert_fields(options: &EntryOptions, present: bool, disable: bool, level: u16, index: u16) {
    assert_eq!(options.is_present(), present);
    assert_eq!(options.interrupts_disabled(), disable);
    assert_eq!(options.privilege_level(), level);
    assert_eq!(options.stack_index(), index);
    assert_eq!(options.bits() & 0x0e00, 0x0e00);
    assert_eq!(options.bits() & 0x10f8, 0);
}

#[test]
fn each_setter_leaves_the_other_fields_alone() {
    for present in [false, true] {
        for disable in [false, true] {
            for level in 0..4u16 {
                for index in 0..8u16 {
                    let start = configured(present, disable, level, index);
                    assert_fields(&start, present, disable, level, index);

                    let mut options = start;
                    options.set_present(!present);
                    assert_fields(&options, !present, disable, level, index);

                    let mut options = start;
                    options.disable_interrupts(!disable);
                    assert_fields(&options, present, !disable, level, index);

                    let mut options = start;
                    options.set_privilege_level(level + 1);
                    assert_fields(&options, present, disable, (level + 1) % 4, index);

                    let mut options = start;
                    options.set_stack_index(index + 1);
                    assert_fields(&options, present, disable, level, (index + 1) % 8);
                }
            }
        }
    }
}

#[test]
fn segment_selector_shifts_the_index_past_the_level() {
    assert_eq!(segment_selector(0, 0), Some(0));
    assert_eq!(segment_selector(1, 0), Some(8));
    assert_eq!(segment_selector(5, 3), Some(0x2b));
    assert_eq!(segment_selector(0x1fff, 2), Some(0xfffa));
    assert_eq!(segment_selector(0xffff, 0), Some(0xfff8));
    assert_eq!(segment_selector(1, 4), None);
    assert_eq!(segment_selector(0, u16::MAX), None);
}

#[test]
fn missing_entry_is_all_zero_but_the_reserved_ones() {
    let entry = Entry::missing();
    assert_eq!(entry.handler_address(), 0);
    assert_eq!(entry.gdt_selector(), 0);
    assert_eq!(entry.options().bits(), 0x0e00);
    assert!(!entry.options().is_present());
    assert_eq!(entry.to_bytes(), [0, 0, 0, 0, 0x00, 0x0e, 0, 0, 0, 0, 0, 0, 0, 0, 0, 0]);
}

#[test]
fn new_entry_gives_the_handler_address_back() {
    for handler in HANDLERS {
        let entry = Entry::new(8, handler);
        assert_eq!(entry.handler_address(), handler);
        assert_eq!(entry.gdt_selector(), 8);
        assert_eq!(entry.options().bits(), 0x8e00);
        assert!(entry.options().is_present());
        assert!(entry.options().interrupts_disabled());
    }
}

#[test]
fn entry_bytes_follow_the_hardware_layout() {
    let entry = Entry::new(0x1234, 0x0011_2233_4455_6677);
    assert_eq!(
        entry.to_bytes(),
        [
            0x77, 0x66, // pointer, bits 0 to 15
            0x34, 0x12, // selector
            0x00, 0x8e, // options
            0x55, 0x44, // pointer, bits 16 to 31
            0x33, 0x22, 0x11, 0x00, // pointer, bits 32 to 63
            0, 0, 0, 0, // reserved
        ]
    );
}

#[test]
fn new_table_has_no_handler_anywhere() {
    let table = Idt::new();
    assert_eq!(table.state(), TableState::Uninitialized);
    for vector in 0..ENTRIES as u8 {
        let entry = table.entry(vector).unwrap();
        assert!(!entry.options().is_present());
        assert_eq!(entry.handler_address(), 0);
        assert_eq!(entry.to_bytes(), Entry::missing().to_bytes());
    }
}

#[test]
fn set_handler_round_trips_the_address_on_every_vector() {
    for vector in 0..ENTRIES as u8 {
        for handler in HANDLERS {
            let mut table = Idt::new();
            let options = table.set_handler(vector, handler).unwrap();
            assert_eq!(options.bits(), 0x8e00);
            assert_eq!(table.state(), TableState::Populated);
            let entry = table.entry(vector).unwrap();
            assert_eq!(entry.handler_address(), handler);
            assert!(entry.options().is_present());
            assert_eq!(entry.gdt_selector(), CS::get_reg().0);
        }
    }
}

#[test]
fn set_handler_leaves_the_other_vectors_missing() {
    let mut table = Idt::new();
    table.set_handler(0, 0x1000).unwrap();
    table.set_handler(14, 0x2000).unwrap();
    for vector in 0..ENTRIES as u8 {
        let entry = table.entry(vector).unwrap();
        match vector {
            0 => assert_eq!(entry.handler_address(), 0x1000),
            14 => assert_eq!(entry.handler_address(), 0x2000),
            _ => {
                assert!(!entry.options().is_present());
                assert_eq!(entry.handler_address(), 0);
                assert_eq!(entry.gdt_selector(), 0);
            }
        }
    }
}

#[test]
fn set_handler_with_selector_stores_the_selector() {
    let mut table = Idt::new();
    table.set_handler_with_selector(6, 0x0008, 0xffff_8000_0010_2030).unwrap();
    let entry = table.entry(6).unwrap();
    assert_eq!(entry.gdt_selector(), 0x0008);
    assert_eq!(entry.handler_address(), 0xffff_8000_0010_2030);
    assert_eq!(
        entry.to_bytes(),
        [0x30, 0x20, 0x08, 0x00, 0x00, 0x8e, 0x10, 0x00, 0x00, 0x80, 0xff, 0xff, 0, 0, 0, 0]
    );
}

#[test]
fn set_handler_replaces_an_earlier_handler() {
    let mut table = Idt::new();
    table.set_handler(3, 0x1111).unwrap().set_present(false).set_stack_index(2);
    table.set_handler(3, 0x2222).unwrap();
    let entry = table.entry(3).unwrap();
    assert_eq!(entry.handler_address(), 0x2222);
    assert_eq!(entry.options().bits(), 0x8e00);
}

#[test]
fn options_handle_changes_the_stored_gate() {
    let mut table = Idt::new();
    table
        .set_handler_with_selector(14, 8, 0xabcd)
        .unwrap()
        .set_stack_index(1)
        .set_privilege_level(3)
        .disable_interrupts(false);
    let entry = table.entry(14).unwrap();
    assert_eq!(entry.options().bits(), 0b1110_1111_0000_0001);
    assert_eq!(entry.handler_address(), 0xabcd);
    assert_eq!(entry.gdt_selector(), 8);
}

#[test]
fn set_handler_refuses_a_vector_outside_the_table() {
    for vector in [16u8, 17, 100, 255] {
        let mut table = Idt::new();
        assert_eq!(table.set_handler(vector, 0x1000).err(), Some(IndexError { index: vector }));
        assert_eq!(
            table.set_handler_with_selector(vector, 8, 0x1000).err(),
            Some(IndexError { index: vector })
        );
        assert_eq!(table.state(), TableState::Uninitialized);
        assert_eq!(table.to_bytes(), Idt::new().to_bytes());
    }
    let mut table = Idt::new();
    assert!(table.set_handler(15, 0x1000).is_ok());
}

#[test]
fn entry_refuses_a_vector_outside_the_table() {
    let table = Idt::new();
    assert!(table.entry(15).is_ok());
    assert_eq!(table.entry(16).err(), Some(IndexError { index: 16 }));
    assert_eq!(table.entry(255).err(), Some(IndexError { index: 255 }));
}

#[test]
fn load_hands_out_base_and_size_less_one() {
    let mut table = Idt::new();
    table.set_handler(0, 0x1000).unwrap();
    let before = table.to_bytes();
    let pointer = table.load(0xffff_8000_0000_1000);
    assert_eq!(pointer, DescriptorTablePointer { limit: 255, base: 0xffff_8000_0000_1000 });
    assert_eq!(pointer.limit as usize, TABLE_BYTES - 1);
    assert_eq!(table.state(), TableState::Loaded);
    assert_eq!(table.to_bytes(), before);
}

#[test]
fn table_bytes_are_the_entries_in_vector_order() {
    let mut table = Idt::new();
    table.set_handler_with_selector(0, 8, 0x0011_2233_4455_6677).unwrap();
    table.set_handler_with_selector(15, 0x10, 0xffff_ffff_ffff_ffff).unwrap().set_stack_index(7);
    let bytes = table.to_bytes();
    assert_eq!(bytes.len(), TABLE_BYTES);
    for vector in 0..ENTRIES {
        let entry = table.entry(vector as u8).unwrap();
        assert_eq!(bytes[16 * vector..16 * vector + 16], entry.to_bytes());
    }
    assert_eq!(
        bytes[..16],
        [0x77, 0x66, 0x08, 0x00, 0x00, 0x8e, 0x55, 0x44, 0x33, 0x22, 0x11, 0x00, 0, 0, 0, 0]
    );
    assert_eq!(bytes[16..32], [0, 0, 0, 0, 0x00, 0x0e, 0, 0, 0, 0, 0, 0, 0, 0, 0, 0]);
    assert_eq!(
        bytes[240..],
        [0xff, 0xff, 0x10, 0x00, 0x07, 0x8e, 0xff, 0xff, 0xff, 0xff, 0xff, 0xff, 0, 0, 0, 0]
    );
}
