use vstd::prelude::*;
use crate::bootstrap::gdt::PrivilegeLevel;

verus! {

/// The number of entries of the interrupt descriptor table.
pub const IDT_ENTRIES: usize = 256;

/// The size in bytes of one descriptor.
pub const IDT_ENTRY_SIZE: usize = 8;

/// The vector of the keyboard interrupt (IRQ1 after the PIC remapping).
pub const KEYBOARD_VECTOR: usize = 33;

/// The selector of the kernel code segment: descriptor 1 of the GDT, ring 0.
pub const KERNEL_CODE_SELECTOR: u16 = 0x08;

/// The operand of `lidt`/`sidt`: the table's size minus one and its address.
#[derive(Debug, Clone, Copy, PartialEq, Eq, Structural)]
pub struct IdtPointer {
    pub limit: u16,
    pub base: u32,
}

impl IdtPointer {
    /// The pointer to a full table at `base`.
    pub fn for_table(base: u32) -> (r: Self)
        ensures
            r.limit == IDT_ENTRIES * IDT_ENTRY_SIZE - 1,
            r.base == base,
    {
        IdtPointer { limit: (IDT_ENTRIES * IDT_ENTRY_SIZE - 1) as u16, base }
    }
}

/// The kind of a gate.
#[derive(Debug, Clone, Copy, PartialEq, Eq, Structural)]
pub enum GateType {
    TaskGate,
    InterruptGate16,
    TrapGate16,
    InterruptGate32,
    TrapGate32,
}

impl GateType {
    /// The type nibble of this kind of descriptor.
    pub open spec fn value(self) -> u8 {
        match self {
            GateType::TaskGate => 0x5,
            GateType::InterruptGate16 => 0x6,
            GateType::TrapGate16 => 0x7,
            GateType::InterruptGate32 => 0xe,
            GateType::TrapGate32 => 0xf,
        }
    }

    /// The type nibble of this kind of descriptor.
    pub fn bits(self) -> (r: u8)
        ensures
            r == self.value(),
    {
        match self {
            GateType::TaskGate => 0x5,
            GateType::InterruptGate16 => 0x6,
            GateType::TrapGate16 => 0x7,
            GateType::InterruptGate32 => 0xe,
            GateType::TrapGate32 => 0xf,
        }
    }
}

/// The type and privilege of a gate.
#[derive(Debug, Clone, Copy, PartialEq, Eq, Structural)]
pub struct TypeAttributes {
    pub gate_type: GateType,
    pub privilege_level: PrivilegeLevel,
}

/// The attribute byte: gate type (bits 0-3), zero (bit 4), ring
/// (bits 5-6), present (bit 7).
pub open spec fn attribute_byte(attributes: TypeAttributes) -> u8 {
    (attributes.gate_type.value() + 32 * attributes.privilege_level.value() + 128) as u8
}

impl TypeAttributes {
    /// The attribute byte.
    pub fn bits(self) -> (r: u8)
        ensures
            r == attribute_byte(self),
    {
        let gate = self.gate_type.bits();
        let privilege = self.privilege_level.bits();
        let gate_type = gate << 0;
        let zero_bit = 0u8 << 4;
        let privilege_bits = privilege << 5;
        let present_bit = 1u8 << 7;
        let r = gate_type | zero_bit | privilege_bits | present_bit;
        assert(r == gate + 32 * privilege + 128) by (bit_vector)
            requires
                gate < 16,
                privilege <= 3,
                gate_type == gate << 0,
                zero_bit == 0u8 << 4,
                privilege_bits == privilege << 5,
                present_bit == 1u8 << 7,
                r == gate_type | zero_bit | privilege_bits | present_bit,
        ;
        r
    }
}

/// The 64-bit gate: handler offset bits 0-15, the segment selector, a
/// reserved zero byte, the attribute byte, handler offset bits 16-31.
pub open spec fn gate_value(handler_address: u32, segment_selector: u16, attributes: u8) -> u64 {
    ((handler_address % 0x1_0000) + segment_selector * 0x1_0000 + attributes * 0x100_0000_0000
        + (handler_address / 0x1_0000) * 0x1_0000_0000_0000) as u64
}

/// An interrupt descriptor.
#[derive(Debug, Clone, Copy, PartialEq, Eq, Structural)]
pub struct IdtEntry(u64);

impl IdtEntry {
    /// The descriptor's 64 bits.
    pub closed spec fn view(&self) -> u64 {
        self.0
    }

    /// The descriptor's 64 bits.
    pub fn bits(self) -> (r: u64)
        ensures
            r == self@,
    {
        self.0
    }

    /// An interrupt descriptor that sends the interrupt to the handler at `handler_address`
    /// in the code segment `segment_selector`.
    pub fn new(handler_address: u32, segment_selector: u16, type_attributes: TypeAttributes) -> (r:
        Self)
        ensures
            r@ == gate_value(handler_address, segment_selector, attribute_byte(type_attributes)),
    {
        let offset = handler_address as u64;
        let offset_low = offset & 0xffff;
        let offset_high = (offset >> 16) & 0xffff;
        let reserved = 0u64 << 0;
        let segment_selector = segment_selector as u64;
        let attribute_bits = type_attributes.bits() as u64;
        let value = (offset_low << 0) | (segment_selector << 16) | (reserved << 32) | (
        attribute_bits << 40) | (offset_high << 48);
        assert(value == (offset % 0x1_0000) + segment_selector * 0x1_0000 + attribute_bits
            * 0x100_0000_0000 + (offset / 0x1_0000) * 0x1_0000_0000_0000) by (bit_vector)
            requires
                offset < 0x1_0000_0000,
                segment_selector < 0x1_0000,
                attribute_bits < 0x100,
                offset_low == offset & 0xffff,
                offset_high == (offset >> 16) & 0xffff,
                reserved == 0u64 << 0,
                value == (offset_low << 0) | (segment_selector << 16) | (reserved << 32) | (
                attribute_bits << 40) | (offset_high << 48),
        ;
        Self(value)
    }
}

/// The descriptor for the keyboard interrupt: a 32-bit interrupt gate in
/// ring 0 to the handler at `handler_address` in the kernel code segment.
pub fn keyboard_gate(handler_address: u32) -> (r: IdtEntry)
    ensures
        r@ == gate_value(handler_address, 0x08, 0x8e),
{
    IdtEntry::new(
        handler_address,
        KERNEL_CODE_SELECTOR,
        TypeAttributes {
            gate_type: GateType::InterruptGate32,
            privilege_level: PrivilegeLevel::Kernel,
        },
    )
}

/// The interrupt descriptor table: the keyboard gate to the handler at
/// `keyboard_handler_address` at the keyboard's vector, and an empty (not
/// present) descriptor everywhere else.
pub fn interrupt_descriptor_table(keyboard_handler_address: u32) -> (r: [IdtEntry; 256])
    ensures
        r@[KEYBOARD_VECTOR as int]@ == gate_value(keyboard_handler_address, 0x08, 0x8e),
        forall|i: int| 0 <= i < IDT_ENTRIES && i != KEYBOARD_VECTOR ==> #[trigger] r@[i]@ == 0,
{
    let mut table = [IdtEntry(0); 256];
    table[KEYBOARD_VECTOR] = keyboard_gate(keyboard_handler_address);
    table
}

/// A gate gives back the handler address, selector and attributes it was
/// made from, and its reserved byte is zero.
pub proof fn law_gate_fields(handler_address: u32, segment_selector: u16, attributes: u8)
    ensures
        ({
            let v = gate_value(handler_address, segment_selector, attributes);
            &&& v % 0x1_0000 + (v / 0x1_0000_0000_0000) * 0x1_0000 == handler_address
            &&& (v / 0x1_0000) % 0x1_0000 == segment_selector
            &&& (v / 0x1_0000_0000) % 0x100 == 0
            &&& (v / 0x100_0000_0000) % 0x100 == attributes
        }),
{
    let h = handler_address as u64;
    let s = segment_selector as u64;
    let a = attributes as u64;
    assert({
        let v = ((h % 0x1_0000) + s * 0x1_0000 + a * 0x100_0000_0000 + (h / 0x1_0000)
            * 0x1_0000_0000_0000) as u64;
        &&& v % 0x1_0000 + (v / 0x1_0000_0000_0000) * 0x1_0000 == h
        &&& (v / 0x1_0000) % 0x1_0000 == s
        &&& (v / 0x1_0000_0000) % 0x100 == 0
        &&& (v / 0x100_0000_0000) % 0x100 == a
    }) by (bit_vector)
        requires
            h < 0x1_0000_0000,
            s < 0x1_0000,
            a < 0x100,
    ;
}

/// Gate types carry the x86 type nibbles (task 0x5, 16-bit interrupt 0x6,
/// 16-bit trap 0x7, 32-bit interrupt 0xE, 32-bit trap 0xF), distinct for
/// distinct kinds; the attribute byte holds the type in bits 0-3, a zero
/// in bit 4, the ring in bits 5-6 and the present flag in bit 7.
pub proof fn law_gate_attributes(gate_type: GateType, other: GateType, attributes: TypeAttributes)
    ensures
        GateType::TaskGate.value() == 0x5,
        GateType::InterruptGate16.value() == 0x6,
        GateType::TrapGate16.value() == 0x7,
        GateType::InterruptGate32.value() == 0xe,
        GateType::TrapGate32.value() == 0xf,
        gate_type.value() == other.value() ==> gate_type == other,
        attribute_byte(attributes) % 16 == attributes.gate_type.value(),
        (attribute_byte(attributes) / 16) % 2 == 0,
        (attribute_byte(attributes) / 32) % 4 == attributes.privilege_level.value(),
        attribute_byte(attributes) / 128 == 1,
        attribute_byte(TypeAttributes { gate_type: GateType::TrapGate32, privilege_level: PrivilegeLevel::Kernel }) == 0x8f,
        attribute_byte(TypeAttributes { gate_type: GateType::InterruptGate32, privilege_level: PrivilegeLevel::User }) == 0xee,
{
    crate::bootstrap::gdt::law_privilege_levels(attributes.privilege_level, attributes.privilege_level);
}

} // verus!
