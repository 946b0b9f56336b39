//! The interrupt descriptor table: gate options, gate descriptors and the
//! table itself, each with the bit-exact layout that the CPU expects.

use bit_field::BitField;
use vstd::prelude::*;
use x86_64::registers::segmentation::{Segment, SegmentSelector, CS};
use x86_64::PrivilegeLevel;

verus! {

/// Bit 15 of the options word: set where a handler stands behind the descriptor.
pub const PRESENT: u16 = 0x8000;

/// Bits 13 and 14: the privilege level a caller needs.
pub const PRIVILEGE: u16 = 0x6000;

/// Bits 9 to 11, which the hardware wants set in every gate.
pub const RESERVED_ONES: u16 = 0x0e00;

/// Bit 8: clear for an interrupt gate, which masks interrupts on entry; set
/// for a trap gate, which leaves them enabled.
pub const TRAP_GATE: u16 = 0x0100;

/// Bits 0 to 2: index into the interrupt stack table, 0 for none.
pub const STACK_INDEX: u16 = 0x0007;

/// The bits that no setter touches and that stay zero: 3 to 7 and 12.
pub const UNUSED: u16 = 0x10f8;

/// The bits `start..end` of a 16-bit word, as a mask.
pub open spec fn range_mask(start: usize, end: usize) -> u16 {
    (0xffffu16 >> ((16 - end) as usize)) & (0xffffu16 << start)
}

/// Whether the present bit of an options word is set.
pub open spec fn present_flag(bits: u16) -> bool {
    bits & PRESENT == PRESENT
}

/// Whether a gate with these options masks interrupts on entry.
pub open spec fn interrupts_masked(bits: u16) -> bool {
    bits & TRAP_GATE == 0
}

/// The privilege level held in an options word, 0 to 3.
pub open spec fn privilege_of(bits: u16) -> u16 {
    (bits & PRIVILEGE) >> 13
}

/// The stack index held in an options word, 0 to 7.
pub open spec fn stack_index_of(bits: u16) -> u16 {
    bits & STACK_INDEX
}

/// Whether an options word has the shape of a gate: the must-be-one bits set
/// and the unused bits clear.
pub open spec fn well_formed(bits: u16) -> bool {
    bits & RESERVED_ONES == RESERVED_ONES && bits & UNUSED == 0
}

/// `after` agrees with `before` on every bit outside `mask`.
pub open spec fn same_outside(before: u16, after: u16, mask: u16) -> bool {
    after & !mask == before & !mask
}

/// `BitField::set_bit` of `bit_field` on a `u16`: bit `bit` becomes `value`
/// and no other bit changes. The outside function panics for `bit >= 16`.
#[verifier::external_body]
fn set_bit(bits: &mut u16, bit: usize, value: bool)
    requires
        bit < 16,
    ensures
        *final(bits) == if value {
            *old(bits) | (1u16 << bit)
        } else {
            *old(bits) & !(1u16 << bit)
        },
{
    bits.set_bit(bit, value);
}

/// `BitField::set_bits` of `bit_field` on a `u16`: the bits `start..end`
/// become the low `end - start` bits of `value` and no other bit changes.
/// The outside function panics for a range that leaves the word and for a
/// `value` with a bit set above the range's width.
#[verifier::external_body]
fn set_bits(bits: &mut u16, start: usize, end: usize, value: u16)
    requires
        start < end <= 16,
        value <= range_mask(start, end) >> start,
    ensures
        *final(bits) == (*old(bits) & !range_mask(start, end)) | (value << start),
{
    bits.set_bits(start..end, value);
}

/// The 16-bit options word of a gate descriptor.
#[derive(Debug, Clone, Copy, PartialEq, Eq, Structural)]
pub struct EntryOptions(u16);

impl View for EntryOptions {
    type V = u16;

    closed spec fn view(&self) -> u16 {
        self.0
    }
}

impl EntryOptions {
    /// Options with nothing but the must-be-one bits set: not present.
    pub fn minimal() -> (options: Self)
        ensures
            options@ == RESERVED_ONES,
            well_formed(options@),
            !present_flag(options@),
    {
        let mut bits: u16 = 0;
        assert(0x7u16 <= range_mask(9, 12) >> 9usize) by (bit_vector);
        set_bits(&mut bits, 9, 12, 0b111);
        assert((0u16 & !range_mask(9, 12)) | (0x7u16 << 9usize) == 0x0e00) by (bit_vector);
        assert(0x0e00u16 & 0x0e00 == 0x0e00 && 0x0e00u16 & 0x10f8 == 0 && 0x0e00u16 & 0x8000
            != 0x8000) by (bit_vector);
        EntryOptions(bits)
    }

    /// The options of a freshly registered handler: present, with interrupts
    /// masked on entry, at privilege level 0 and without a stack switch.
    pub fn new() -> (options: Self)
        ensures
            options@ == PRESENT | RESERVED_ONES,
            well_formed(options@),
            present_flag(options@),
            interrupts_masked(options@),
            privilege_of(options@) == 0,
            stack_index_of(options@) == 0,
    {
        let mut options = Self::minimal();
        options.set_present(true).disable_interrupts(true);
        assert((0x0e00u16 | 0x8000) & !0x0100u16 == 0x8e00) by (bit_vector);
        proof {
            lemma_new_options();
        }
        options
    }

    /// Sets or clears the present bit.
    pub fn set_present(&mut self, present: bool) -> (ret: &mut Self)
        ensures
            ret@ == if present {
                old(self)@ | PRESENT
            } else {
                old(self)@ & !PRESENT
            },
            present_flag(ret@) == present,
            same_outside(old(self)@, ret@, PRESENT),
            interrupts_masked(ret@) == interrupts_masked(old(self)@),
            privilege_of(ret@) == privilege_of(old(self)@),
            stack_index_of(ret@) == stack_index_of(old(self)@),
            well_formed(ret@) == well_formed(old(self)@),
            *final(self) == *final(ret),
    {
        let ghost before = self.0;
        set_bit(&mut self.0, 15, present);
        proof {
            let after = self.0;
            assert(1u16 << 15usize == 0x8000) by (bit_vector);
            assert(same_outside(before, after, PRESENT) && present_flag(after) == present)
                by (bit_vector)
                requires
                    after == if present {
                        before | 0x8000
                    } else {
                        before & !0x8000u16
                    },
            ;
            lemma_fields_isolated(before, after);
        }
        self
    }

    /// Chooses between an interrupt gate (`disable`: interrupts are masked
    /// while the handler runs) and a trap gate.
    pub fn disable_interrupts(&mut self, disable: bool) -> (ret: &mut Self)
        ensures
            ret@ == if disable {
                old(self)@ & !TRAP_GATE
            } else {
                old(self)@ | TRAP_GATE
            },
            interrupts_masked(ret@) == disable,
            same_outside(old(self)@, ret@, TRAP_GATE),
            present_flag(ret@) == present_flag(old(self)@),
            privilege_of(ret@) == privilege_of(old(self)@),
            stack_index_of(ret@) == stack_index_of(old(self)@),
            well_formed(ret@) == well_formed(old(self)@),
            *final(self) == *final(ret),
    {
        let ghost before = self.0;
        set_bit(&mut self.0, 8, !disable);
        proof {
            let after = self.0;
            assert(1u16 << 8usize == 0x0100) by (bit_vector);
            assert(same_outside(before, after, TRAP_GATE) && interrupts_masked(after) == disable)
                by (bit_vector)
                requires
                    after == if disable {
                        before & !0x0100u16
                    } else {
                        before | 0x0100
                    },
            ;
            lemma_fields_isolated(before, after);
        }
        self
    }

    /// Sets the privilege level to the low two bits of `dpl`.
    pub fn set_privilege_level(&mut self, dpl: u16) -> (ret: &mut Self)
        ensures
            ret@ == (old(self)@ & !PRIVILEGE) | ((dpl & 3) << 13),
            privilege_of(ret@) == dpl & 3,
            dpl <= 3 ==> privilege_of(ret@) == dpl,
            same_outside(old(self)@, ret@, PRIVILEGE),
            present_flag(ret@) == present_flag(old(self)@),
            interrupts_masked(ret@) == interrupts_masked(old(self)@),
            stack_index_of(ret@) == stack_index_of(old(self)@),
            well_formed(ret@) == well_formed(old(self)@),
            *final(self) == *final(ret),
    {
        let ghost before = self.0;
        let level: u16 = dpl & 3;
        assert(range_mask(13, 15) == 0x6000 && level <= range_mask(13, 15) >> 13usize && (dpl <= 3
            ==> level == dpl)) by (bit_vector)
            requires
                level == dpl & 3,
        ;
        set_bits(&mut self.0, 13, 15, level);
        proof {
            let after = self.0;
            assert(same_outside(before, after, PRIVILEGE) && privilege_of(after) == level)
                by (bit_vector)
                requires
                    after == (before & !0x6000u16) | (level << 13usize),
                    level == dpl & 3,
            ;
            lemma_fields_isolated(before, after);
        }
        self
    }

    /// Sets the interrupt-stack-table index to the low three bits of `index`.
    pub fn set_stack_index(&mut self, index: u16) -> (ret: &mut Self)
        ensures
            ret@ == (old(self)@ & !STACK_INDEX) | (index & 7),
            stack_index_of(ret@) == index & 7,
            index <= 7 ==> stack_index_of(ret@) == index,
            same_outside(old(self)@, ret@, STACK_INDEX),
            present_flag(ret@) == present_flag(old(self)@),
            interrupts_masked(ret@) == interrupts_masked(old(self)@),
            privilege_of(ret@) == privilege_of(old(self)@),
            well_formed(ret@) == well_formed(old(self)@),
            *final(self) == *final(ret),
    {
        let ghost before = self.0;
        let slot: u16 = index & 7;
        assert(range_mask(0, 3) == 0x0007 && slot <= range_mask(0, 3) >> 0usize && slot << 0usize
            == slot && (index <= 7 ==> slot == index)) by (bit_vector)
            requires
                slot == index & 7,
        ;
        set_bits(&mut self.0, 0, 3, slot);
        proof {
            let after = self.0;
            assert(same_outside(before, after, STACK_INDEX) && stack_index_of(after) == slot)
                by (bit_vector)
                requires
                    after == (before & !0x0007u16) | slot,
                    slot == index & 7,
            ;
            lemma_fields_isolated(before, after);
        }
        self
    }

    /// The options word as the descriptor stores it.
    pub fn bits(&self) -> (bits: u16)
        ensures
            bits == self@,
    {
        self.0
    }

    /// Whether the present bit is set.
    pub fn is_present(&self) -> (present: bool)
        ensures
            present == present_flag(self@),
    {
        self.0 & PRESENT == PRESENT
    }

    /// Whether interrupts are masked while the handler runs.
    pub fn interrupts_disabled(&self) -> (disabled: bool)
        ensures
            disabled == interrupts_masked(self@),
    {
        self.0 & TRAP_GATE == 0
    }

    /// The privilege level that a caller needs, 0 to 3.
    pub fn privilege_level(&self) -> (level: u16)
        ensures
            level == privilege_of(self@),
            level <= 3,
    {
        let bits = self.0;
        assert((bits & 0x6000) >> 13 <= 3) by (bit_vector);
        (bits & PRIVILEGE) >> 13
    }

    /// The index into the interrupt stack table, 0 to 7.
    pub fn stack_index(&self) -> (index: u16)
        ensures
            index == stack_index_of(self@),
            index <= 7,
    {
        let bits = self.0;
        assert(bits & 0x0007 <= 7) by (bit_vector);
        bits & STACK_INDEX
    }
}

/// The options of a freshly registered handler say: present, interrupts
/// masked on entry, privilege level 0, no stack switch.
pub proof fn lemma_new_options()
    ensures
        PRESENT | RESERVED_ONES == 0x8e00,
        well_formed(PRESENT | RESERVED_ONES),
        present_flag(PRESENT | RESERVED_ONES),
        interrupts_masked(PRESENT | RESERVED_ONES),
        privilege_of(PRESENT | RESERVED_ONES) == 0,
        stack_index_of(PRESENT | RESERVED_ONES) == 0,
{
    assert(0x8000u16 | 0x0e00 == 0x8e00 && well_formed(0x8e00) && present_flag(0x8e00)
        && interrupts_masked(0x8e00) && privilege_of(0x8e00) == 0 && stack_index_of(0x8e00) == 0)
        by (bit_vector);
}

/// Bit isolation: a change that stays inside one field of the options word
/// leaves every other field, the must-be-one bits and the unused bits as
/// they were.
pub proof fn lemma_fields_isolated(before: u16, after: u16)
    by (bit_vector)
    ensures
        same_outside(before, after, PRESENT) ==> {
            &&& interrupts_masked(after) == interrupts_masked(before)
            &&& privilege_of(after) == privilege_of(before)
            &&& stack_index_of(after) == stack_index_of(before)
            &&& well_formed(after) == well_formed(before)
        },
        same_outside(before, after, TRAP_GATE) ==> {
            &&& present_flag(after) == present_flag(before)
            &&& privilege_of(after) == privilege_of(before)
            &&& stack_index_of(after) == stack_index_of(before)
            &&& well_formed(after) == well_formed(before)
        },
        same_outside(before, after, PRIVILEGE) ==> {
            &&& present_flag(after) == present_flag(before)
            &&& interrupts_masked(after) == interrupts_masked(before)
            &&& stack_index_of(after) == stack_index_of(before)
            &&& well_formed(after) == well_formed(before)
        },
        same_outside(before, after, STACK_INDEX) ==> {
            &&& present_flag(after) == present_flag(before)
            &&& interrupts_masked(after) == interrupts_masked(before)
            &&& privilege_of(after) == privilege_of(before)
            &&& well_formed(after) == well_formed(before)
        },
{
}

/// `SegmentSelector::new` of `x86_64`: the selector of entry `index` of the
/// global descriptor table at requested privilege level `rpl`, which is the
/// index shifted left by three with the level in the two low bits. The level
/// goes through `PrivilegeLevel::from_u16`, which panics above 3.
#[verifier::external_body]
fn selector_bits(index: u16, rpl: u16) -> (bits: u16)
    requires
        rpl <= 3,
    ensures
        bits == (index << 3) | rpl,
{
    SegmentSelector::new(index, PrivilegeLevel::from_u16(rpl)).0
}

/// The selector of entry `index` of the global descriptor table at requested
/// privilege level `rpl`; none for a level above 3.
pub fn segment_selector(index: u16, rpl: u16) -> (selector: Option<u16>)
    ensures
        selector == if rpl <= 3 {
            Some((index << 3) | rpl)
        } else {
            None
        },
{
    if rpl <= 3 {
        Some(selector_bits(index, rpl))
    } else {
        None
    }
}

/// `CS::get_reg` of `x86_64`: the selector that the code-segment register
/// holds at the moment of the call. It is a reading of the machine, so
/// nothing is claimed of its value.
#[verifier::external_body]
fn code_segment() -> u16 {
    CS::get_reg().0
}

/// Byte `index` of `value`, counting from the least significant.
pub open spec fn le_byte(value: u64, index: usize) -> u8 {
    ((value >> ((8 * index) as usize)) & 0xff) as u8
}

/// What a gate descriptor holds, field by field in the order of the
/// hardware layout.
pub struct EntryView {
    /// Bits 0 to 15 of the handler's address.
    pub pointer_low: u16,
    /// The code-segment selector that the CPU loads on entry.
    pub gdt_selector: u16,
    /// The options word.
    pub options: u16,
    /// Bits 16 to 31 of the handler's address.
    pub pointer_middle: u16,
    /// Bits 32 to 63 of the handler's address.
    pub pointer_high: u32,
    /// Padding, always zero.
    pub reserved: u32,
}

impl EntryView {
    /// The handler's address, put together from its three parts.
    pub open spec fn handler_address(self) -> u64 {
        ((self.pointer_high as u64) << 32) | ((self.pointer_middle as u64) << 16) | (
        self.pointer_low as u64)
    }

    /// The descriptor of a handler at `handler`, reached through `selector`.
    pub open spec fn for_handler(selector: u16, handler: u64) -> EntryView {
        EntryView {
            pointer_low: (handler & 0xffff) as u16,
            gdt_selector: selector,
            options: PRESENT | RESERVED_ONES,
            pointer_middle: ((handler >> 16) & 0xffff) as u16,
            pointer_high: (handler >> 32) as u32,
            reserved: 0,
        }
    }

    /// The descriptor of a vector without a handler.
    pub open spec fn missing() -> EntryView {
        EntryView {
            pointer_low: 0,
            gdt_selector: 0,
            options: RESERVED_ONES,
            pointer_middle: 0,
            pointer_high: 0,
            reserved: 0,
        }
    }

    /// The sixteen bytes of the descriptor as the CPU reads them: each field
    /// little-endian at its hardware offset.
    pub open spec fn bytes(self) -> Seq<u8> {
        seq![
            le_byte(self.pointer_low as u64, 0),
            le_byte(self.pointer_low as u64, 1),
            le_byte(self.gdt_selector as u64, 0),
            le_byte(self.gdt_selector as u64, 1),
            le_byte(self.options as u64, 0),
            le_byte(self.options as u64, 1),
            le_byte(self.pointer_middle as u64, 0),
            le_byte(self.pointer_middle as u64, 1),
            le_byte(self.pointer_high as u64, 0),
            le_byte(self.pointer_high as u64, 1),
            le_byte(self.pointer_high as u64, 2),
            le_byte(self.pointer_high as u64, 3),
            le_byte(self.reserved as u64, 0),
            le_byte(self.reserved as u64, 1),
            le_byte(self.reserved as u64, 2),
            le_byte(self.reserved as u64, 3),
        ]
    }
}

/// Round trip of the handler's address: the descriptor of a handler gives
/// the handler's address back from its three pointer fields, whatever its
/// selector is and whatever its options are changed to.
pub proof fn lemma_handler_round_trip(selector: u16, handler: u64, options: u16)
    ensures
        EntryView::for_handler(selector, handler).handler_address() == handler,
        (EntryView { options, ..EntryView::for_handler(selector, handler) }).handler_address()
            == handler,
{
    let low = (handler & 0xffff) as u16;
    let middle = ((handler >> 16) & 0xffff) as u16;
    let high = (handler >> 32) as u32;
    assert(((high as u64) << 32) | ((middle as u64) << 16) | (low as u64) == handler)
        by (bit_vector)
        requires
            low == (handler & 0xffff) as u16,
            middle == ((handler >> 16) & 0xffff) as u16,
            high == (handler >> 32) as u32,
    ;
}

/// The missing descriptor is not present and points nowhere.
pub proof fn lemma_missing_is_null()
    ensures
        EntryView::missing().handler_address() == 0,
        !present_flag(EntryView::missing().options),
        well_formed(EntryView::missing().options),
{
    assert(((0u32 as u64) << 32) | ((0u16 as u64) << 16) | (0u16 as u64) == 0) by (bit_vector);
    assert(0x0e00u16 & 0x8000 != 0x8000 && 0x0e00u16 & 0x0e00 == 0x0e00 && 0x0e00u16 & 0x10f8 == 0)
        by (bit_vector);
}

/// One gate descriptor of the table.
#[derive(Debug, Clone, Copy, PartialEq, Eq, Structural)]
pub struct Entry {
    pointer_low: u16,
    gdt_selector: u16,
    options: EntryOptions,
    pointer_middle: u16,
    pointer_high: u32,
    reserved: u32,
}

impl View for Entry {
    type V = EntryView;

    closed spec fn view(&self) -> EntryView {
        EntryView {
            pointer_low: self.pointer_low,
            gdt_selector: self.gdt_selector,
            options: self.options@,
            pointer_middle: self.pointer_middle,
            pointer_high: self.pointer_high,
            reserved: self.reserved,
        }
    }
}

impl Entry {
    /// The descriptor of a handler at address `handler`, entered through the
    /// code segment `gdt_selector`: present, with interrupts masked.
    pub fn new(gdt_selector: u16, handler: u64) -> (entry: Self)
        ensures
            entry@ == EntryView::for_handler(gdt_selector, handler),
            entry@.handler_address() == handler,
            present_flag(entry@.options),
            interrupts_masked(entry@.options),
    {
        assert(handler & 0xffff <= 0xffff && (handler >> 16) & 0xffff <= 0xffff && handler >> 32
            <= 0xffff_ffff) by (bit_vector);
        proof {
            lemma_new_options();
            lemma_handler_round_trip(gdt_selector, handler, PRESENT | RESERVED_ONES);
        }
        Entry {
            gdt_selector,
            pointer_low: (handler & 0xffff) as u16,
            pointer_middle: ((handler >> 16) & 0xffff) as u16,
            pointer_high: (handler >> 32) as u32,
            options: EntryOptions::new(),
            reserved: 0,
        }
    }

    /// The descriptor of a vector that has no handler: not present, with a
    /// null pointer and the null selector.
    pub fn missing() -> (entry: Self)
        ensures
            entry@ == EntryView::missing(),
            entry@.handler_address() == 0,
            !present_flag(entry@.options),
    {
        let selector = selector_bits(0, 0);
        assert((0u16 << 3) | 0 == 0) by (bit_vector);
        proof {
            lemma_missing_is_null();
        }
        Entry {
            gdt_selector: selector,
            pointer_low: 0,
            pointer_middle: 0,
            pointer_high: 0,
            options: EntryOptions::minimal(),
            reserved: 0,
        }
    }

    /// The handler's address, put together from the three pointer fields.
    pub fn handler_address(&self) -> (address: u64)
        ensures
            address == self@.handler_address(),
    {
        ((self.pointer_high as u64) << 32) | ((self.pointer_middle as u64) << 16) | (
        self.pointer_low as u64)
    }

    /// The code-segment selector.
    pub fn gdt_selector(&self) -> (selector: u16)
        ensures
            selector == self@.gdt_selector,
    {
        self.gdt_selector
    }

    /// The options word.
    pub fn options(&self) -> (options: EntryOptions)
        ensures
            options@ == self@.options,
    {
        self.options
    }

    /// The descriptor in the layout that the CPU reads.
    pub fn to_bytes(&self) -> (bytes: [u8; 16])
        ensures
            bytes@ == self@.bytes(),
    {
        let low = self.pointer_low as u64;
        let selector = self.gdt_selector as u64;
        let options = self.options.0 as u64;
        let middle = self.pointer_middle as u64;
        let high = self.pointer_high as u64;
        let reserved = self.reserved as u64;
        let bytes = [
            byte_of(low, 0),
            byte_of(low, 1),
            byte_of(selector, 0),
            byte_of(selector, 1),
            byte_of(options, 0),
            byte_of(options, 1),
            byte_of(middle, 0),
            byte_of(middle, 1),
            byte_of(high, 0),
            byte_of(high, 1),
            byte_of(high, 2),
            byte_of(high, 3),
            byte_of(reserved, 0),
            byte_of(reserved, 1),
            byte_of(reserved, 2),
            byte_of(reserved, 3),
        ];
        assert(bytes@ =~= self@.bytes());
        bytes
    }
}

/// Byte `index` of `value`, counting from the least significant.
fn byte_of(value: u64, index: usize) -> (byte: u8)
    requires
        index < 8,
    ensures
        byte == le_byte(value, index),
{
    let shifted = value >> (8 * index);
    assert(shifted & 0xff <= 0xff) by (bit_vector);
    (shifted & 0xff) as u8
}

/// The number of gates in the table.
pub const ENTRIES: usize = 16;

/// The size of the table in bytes: sixteen descriptors of sixteen bytes.
pub const TABLE_BYTES: usize = 256;

/// Where a table stands in its life.
#[derive(Debug, Clone, Copy, PartialEq, Eq, Structural)]
pub enum TableState {
    /// No handler has been registered: every gate is missing.
    Uninitialized,
    /// At least one handler has been registered.
    Populated,
    /// The table has been handed to the CPU and must not change any more.
    Loaded,
}

/// A vector that lies outside the table.
#[derive(Debug, Clone, Copy, PartialEq, Eq, Structural)]
pub struct IndexError {
    /// The vector that was asked for.
    pub index: u8,
}

/// The operand of the instruction that installs a table.
#[derive(Debug, Clone, Copy, PartialEq, Eq, Structural)]
pub struct DescriptorTablePointer {
    /// The size of the table in bytes, less one.
    pub limit: u16,
    /// The address of the table's first byte.
    pub base: u64,
}

/// What a table holds.
pub struct IdtView {
    /// The sixteen descriptors, by vector.
    pub entries: Seq<EntryView>,
    /// The stage of the table's life.
    pub state: TableState,
    /// The vectors that a handler has been registered for.
    pub registered: Set<int>,
}

impl IdtView {
    /// The table's invariant: it has sixteen descriptors, those of the
    /// vectors without a registered handler are missing, and it is
    /// uninitialized exactly as long as no handler is registered.
    pub open spec fn wf(self) -> bool {
        &&& self.entries.len() == ENTRIES
        &&& forall|v: int| self.registered.contains(v) ==> 0 <= v < ENTRIES
        &&& forall|v: int|
            0 <= v < ENTRIES && !#[trigger] self.registered.contains(v) ==> self.entries[v]
                == EntryView::missing()
        &&& self.state is Uninitialized <==> forall|v: int| !self.registered.contains(v)
    }

    /// The table as the CPU reads it: the descriptors' bytes one after the
    /// other, by vector.
    pub open spec fn bytes(self) -> Seq<u8> {
        Seq::new(TABLE_BYTES as nat, |i: int| self.entries[i / 16].bytes()[i % 16])
    }
}

/// A vector without a registered handler reports a gate that is not present
/// and has a null handler address.
pub proof fn lemma_unregistered_is_missing(table: IdtView, vector: int)
    requires
        table.wf(),
        0 <= vector < ENTRIES,
        !table.registered.contains(vector),
    ensures
        table.entries[vector] == EntryView::missing(),
        !present_flag(table.entries[vector].options),
        table.entries[vector].handler_address() == 0,
{
    lemma_missing_is_null();
}

/// Registering a handler keeps the table's invariant, whatever descriptor is
/// stored for the vector.
proof fn lemma_registering_keeps_wf(before: IdtView, after: IdtView, vector: int, stored: EntryView)
    requires
        before.wf(),
        0 <= vector < ENTRIES,
        after.entries == before.entries.update(vector, stored),
        after.registered == before.registered.insert(vector),
        after.state is Populated,
    ensures
        after.wf(),
{
    assert(after.registered.contains(vector));
    assert forall|v: int| 0 <= v < ENTRIES && !#[trigger] after.registered.contains(v) implies
        after.entries[v] == EntryView::missing() by {
        assert(!before.registered.contains(v));
    }
}

/// The interrupt descriptor table.
pub struct Idt {
    entries: [Entry; 16],
    state: TableState,
    registered: Ghost<Set<int>>,
}

impl View for Idt {
    type V = IdtView;

    closed spec fn view(&self) -> IdtView {
        IdtView {
            entries: Seq::new(ENTRIES as nat, |v: int| self.entries@[v]@),
            state: self.state,
            registered: self.registered@,
        }
    }
}

impl Idt {
    /// A table without handlers.
    pub fn new() -> (table: Self)
        ensures
            table@.wf(),
            table@.state is Uninitialized,
            table@.registered == Set::<int>::empty(),
            table@.entries == Seq::new(ENTRIES as nat, |v: int| EntryView::missing()),
    {
        Idt {
            entries: [Entry::missing();16],
            state: TableState::Uninitialized,
            registered: Ghost(Set::empty()),
        }
    }

    /// Registers the handler at address `handler` for vector `entry`, to be
    /// entered through the code segment `gdt_selector`, and hands out the new
    /// descriptor's options for further changes. A vector outside the table
    /// is refused and leaves the table as it was.
    ///
    /// A loaded table must not change any more: the CPU reads it at any
    /// moment. Not to call this on one is the caller's obligation.
    pub fn set_handler_with_selector(
        &mut self,
        entry: u8,
        gdt_selector: u16,
        handler: u64,
    ) -> (ret: Result<&mut EntryOptions, IndexError>)
        requires
            old(self)@.wf(),
            !(old(self)@.state is Loaded),
        ensures
            match ret {
                Ok(options) => {
                    &&& entry < ENTRIES
                    &&& options@ == PRESENT | RESERVED_ONES
                    &&& final(self)@.entries == old(self)@.entries.update(
                        entry as int,
                        EntryView {
                            options: final(options)@,
                            ..EntryView::for_handler(gdt_selector, handler)
                        },
                    )
                    &&& final(self)@.entries[entry as int].handler_address() == handler
                    &&& final(self)@.state is Populated
                    &&& final(self)@.registered == old(self)@.registered.insert(entry as int)
                },
                Err(error) => {
                    &&& entry >= ENTRIES
                    &&& error.index == entry
                    &&& final(self)@ == old(self)@
                },
            },
            final(self)@.wf(),
    {
        if entry as usize >= ENTRIES {
            return Err(IndexError { index: entry });
        }
        self.entries[entry as usize] = Entry::new(gdt_selector, handler);
        self.state = TableState::Populated;
        proof {
            self.registered@ = self.registered@.insert(entry as int);
            lemma_handler_round_trip(gdt_selector, handler, PRESENT | RESERVED_ONES);
            assert(self.registered@.contains(entry as int));
            assert(self@.entries =~= old(self)@.entries.update(
                entry as int,
                EntryView::for_handler(gdt_selector, handler),
            ));
            lemma_registering_keeps_wf(
                old(self)@,
                self@,
                entry as int,
                EntryView::for_handler(gdt_selector, handler),
            );
        }
        Ok(&mut self.entries[entry as usize].options)
    }

    /// Registers the handler at address `handler` for vector `entry`, to be
    /// entered through the code segment that is current at the call, and
    /// hands out the new descriptor's options for further changes. A vector
    /// outside the table is refused and leaves the table as it was.
    ///
    /// A loaded table must not change any more: the CPU reads it at any
    /// moment. Not to call this on one is the caller's obligation.
    pub fn set_handler(
        &mut self,
        entry: u8,
        handler: u64,
    ) -> (ret: Result<&mut EntryOptions, IndexError>)
        requires
            old(self)@.wf(),
            !(old(self)@.state is Loaded),
        ensures
            match ret {
                Ok(options) => {
                    let stored = final(self)@.entries[entry as int];
                    &&& entry < ENTRIES
                    &&& options@ == PRESENT | RESERVED_ONES
                    &&& stored == EntryView {
                        options: final(options)@,
                        ..EntryView::for_handler(stored.gdt_selector, handler)
                    }
                    &&& stored.handler_address() == handler
                    &&& final(self)@.entries == old(self)@.entries.update(entry as int, stored)
                    &&& final(self)@.state is Populated
                    &&& final(self)@.registered == old(self)@.registered.insert(entry as int)
                },
                Err(error) => {
                    &&& entry >= ENTRIES
                    &&& error.index == entry
                    &&& final(self)@ == old(self)@
                },
            },
            final(self)@.wf(),
    {
        let selector = code_segment();
        self.set_handler_with_selector(entry, selector, handler)
    }

    /// Ends the table's configuration: from now on it must stay as it is and
    /// where it is. Returns the operand for the instruction that installs a
    /// table whose first byte stands at `base`.
    ///
    /// The caller answers for the table being populated and not loaded
    /// before, which `state` tells, and for what nothing here can see: that
    /// the bytes at `base` are the table's and stay there for as long as the
    /// machine runs.
    pub fn load(&mut self, base: u64) -> (pointer: DescriptorTablePointer)
        requires
            old(self)@.wf(),
            old(self)@.state is Populated,
        ensures
            final(self)@ == (IdtView { state: TableState::Loaded, ..old(self)@ }),
            final(self)@.wf(),
            pointer == (DescriptorTablePointer { limit: (TABLE_BYTES - 1) as u16, base }),
    {
        self.state = TableState::Loaded;
        proof {
            assert(self@.entries =~= old(self)@.entries);
            assert(self@.registered == old(self)@.registered);
        }
        DescriptorTablePointer { limit: (TABLE_BYTES - 1) as u16, base }
    }

    /// The stage of the table's life.
    pub fn state(&self) -> (state: TableState)
        ensures
            state == self@.state,
    {
        self.state
    }

    /// The descriptor of vector `vector`, if the table has one.
    pub fn entry(&self, vector: u8) -> (ret: Result<Entry, IndexError>)
        ensures
            match ret {
                Ok(entry) => vector < ENTRIES && entry@ == self@.entries[vector as int],
                Err(error) => vector >= ENTRIES && error.index == vector,
            },
    {
        if vector as usize >= ENTRIES {
            return Err(IndexError { index: vector });
        }
        Ok(self.entries[vector as usize])
    }

    /// The table in the layout that the CPU reads.
    pub fn to_bytes(&self) -> (bytes: [u8; 256])
        ensures
            bytes@ == self@.bytes(),
    {
        let mut bytes = [0u8;256];
        let mut vector: usize = 0;
        while vector < ENTRIES
            invariant
                vector <= ENTRIES,
                forall|i: int|
                    0 <= i < 16 * vector ==> bytes@[i] == self@.entries[i / 16].bytes()[i % 16],
            decreases ENTRIES - vector,
        {
            let descriptor = self.entries[vector].to_bytes();
            let mut offset: usize = 0;
            while offset < 16
                invariant
                    vector < ENTRIES,
                    offset <= 16,
                    descriptor@ == self@.entries[vector as int].bytes(),
                    forall|i: int|
                        0 <= i < 16 * vector + offset ==> bytes@[i] == self@.entries[i
                            / 16].bytes()[i % 16],
                decreases 16 - offset,
            {
                bytes[16 * vector + offset] = descriptor[offset];
                offset += 1;
            }
            vector += 1;
        }
        bytes
    }
}

} // verus!
