use vstd::prelude::*;

verus! {

/// A descriptor's privilege level (ring).
#[derive(Debug, Clone, Copy, PartialEq, Eq, Structural)]
pub enum PrivilegeLevel {
    Kernel,
    User,
}

impl PrivilegeLevel {
    /// The ring number.
    pub open spec fn value(self) -> u8 {
        match self {
            PrivilegeLevel::Kernel => 0,
            PrivilegeLevel::User => 3,
        }
    }

    /// The ring number.
    pub fn bits(self) -> (r: u8)
        ensures
            r == self.value(),
    {
        match self {
            PrivilegeLevel::Kernel => 0,
            PrivilegeLevel::User => 3,
        }
    }
}

/// Which way a data segment grows.
#[derive(Debug, Clone, Copy, PartialEq, Eq, Structural)]
pub enum ExpansionDirection {
    Up,
    Down,
}

impl ExpansionDirection {
    /// The direction bit.
    pub open spec fn value(self) -> u8 {
        match self {
            ExpansionDirection::Up => 0,
            ExpansionDirection::Down => 1,
        }
    }

    /// The direction bit.
    pub fn bits(self) -> (r: u8)
        ensures
            r == self.value(),
    {
        match self {
            ExpansionDirection::Up => 0,
            ExpansionDirection::Down => 1,
        }
    }
}

/// The access byte of a segment descriptor.
pub trait Access {
    /// The access byte.
    spec fn access_value(&self) -> u8;

    /// The access byte.
    fn access_byte(self) -> (r: u8)
        ensures
            r == self.access_value(),
    ;
}

/// The access rights of a code segment.
#[derive(Debug, Clone, Copy, PartialEq, Eq, Structural)]
pub struct CodeAccess {
    pub readable: bool,
    pub conforming: bool,
    pub privilege_level: PrivilegeLevel,
}

/// The access rights of a data segment.
#[derive(Debug, Clone, Copy, PartialEq, Eq, Structural)]
pub struct DataAccess {
    pub writable: bool,
    pub direction: ExpansionDirection,
    pub privilage_level: PrivilegeLevel,
}

/// A bit's value for a flag.
pub open spec fn bit(flag: bool) -> u8 {
    if flag {
        1
    } else {
        0
    }
}

/// A bit's value for a flag.
fn flag_bit(flag: bool) -> (r: u8)
    ensures
        r == bit(flag),
{
    if flag {
        1
    } else {
        0
    }
}

impl Access for CodeAccess {
    /// Accessed (bit 0), readable (bit 1), conforming (bit 2), executable
    /// (bit 3), code/data descriptor (bit 4), ring (bits 5-6), present (bit 7).
    open spec fn access_value(&self) -> u8 {
        (1 + 2 * bit(self.readable) + 4 * bit(self.conforming) + 8 + 16 + 32
            * self.privilege_level.value() + 128) as u8
    }

    fn access_byte(self) -> (r: u8) {
        let accessed_bit = 1u8 << 0;
        let readable_bit = flag_bit(self.readable) << 1;
        let conforming_bit = flag_bit(self.conforming) << 2;
        let executable_bit = 1u8 << 3;
        let descriptor_type_bit = 1u8 << 4;
        let privilege_level = self.privilege_level.bits();
        let privilage_bits = privilege_level << 5;
        let present_bit = 1u8 << 7;
        let readable = flag_bit(self.readable);
        let conforming = flag_bit(self.conforming);
        let r = accessed_bit | readable_bit | conforming_bit | executable_bit | descriptor_type_bit
            | privilage_bits | present_bit;
        assert(r == 1 + 2 * readable + 4 * conforming + 8 + 16 + 32 * privilege_level + 128)
            by (bit_vector)
            requires
                readable <= 1,
                conforming <= 1,
                privilege_level <= 3,
                accessed_bit == 1u8 << 0,
                readable_bit == readable << 1,
                conforming_bit == conforming << 2,
                executable_bit == 1u8 << 3,
                descriptor_type_bit == 1u8 << 4,
                privilage_bits == privilege_level << 5,
                present_bit == 1u8 << 7,
                r == accessed_bit | readable_bit | conforming_bit | executable_bit
                    | descriptor_type_bit | privilage_bits | present_bit,
        ;
        r
    }
}

impl Access for DataAccess {
    /// Accessed (bit 0), writable (bit 1), expansion direction (bit 2), not
    /// executable (bit 3 clear), code/data descriptor (bit 4), ring
    /// (bits 5-6), present (bit 7).
    open spec fn access_value(&self) -> u8 {
        (1 + 2 * bit(self.writable) + 4 * self.direction.value() + 16 + 32
            * self.privilage_level.value() + 128) as u8
    }

    fn access_byte(self) -> (r: u8) {
        let accessed_bit = 1u8 << 0;
        let writable = flag_bit(self.writable);
        let writable_bit = writable << 1;
        let direction = self.direction.bits();
        let direction_bit = direction << 2;
        let executable_bit = 0u8 << 3;
        let descriptor_type_bit = 1u8 << 4;
        let privilege_level = self.privilage_level.bits();
        let privilage_bits = privilege_level << 5;
        let present_bit = 1u8 << 7;
        let r = accessed_bit | writable_bit | direction_bit | executable_bit | descriptor_type_bit
            | privilage_bits | present_bit;
        assert(r == 1 + 2 * writable + 4 * direction + 16 + 32 * privilege_level + 128)
            by (bit_vector)
            requires
                writable <= 1,
                direction <= 1,
                privilege_level <= 3,
                accessed_bit == 1u8 << 0,
                writable_bit == writable << 1,
                direction_bit == direction << 2,
                executable_bit == 0u8 << 3,
                descriptor_type_bit == 1u8 << 4,
                privilage_bits == privilege_level << 5,
                present_bit == 1u8 << 7,
                r == accessed_bit | writable_bit | direction_bit | executable_bit
                    | descriptor_type_bit | privilage_bits | present_bit,
        ;
        r
    }
}

/// Whether a segment's limit counts bytes or 4 KiB pages.
#[derive(Debug, Clone, Copy, PartialEq, Eq, Structural)]
pub enum Granularity {
    Byte,
    Page,
}

/// Whether a segment is 16- or 32-bit.
#[derive(Debug, Clone, Copy, PartialEq, Eq, Structural)]
pub enum SegmentSize {
    Size16,
    Size32,
}

/// The flags nibble of a segment descriptor.
#[derive(Debug, Clone, Copy, PartialEq, Eq, Structural)]
pub struct Flags {
    pub size: SegmentSize,
    pub granularity: Granularity,
}

impl Flags {
    /// Reserved (bit 0) and long mode (bit 1) clear, size (bit 2),
    /// granularity (bit 3).
    pub open spec fn value(self) -> u8 {
        (4 * (if self.size == SegmentSize::Size32 {
            1int
        } else {
            0int
        }) + 8 * (if self.granularity == Granularity::Page {
            1int
        } else {
            0int
        })) as u8
    }

    /// The flags nibble.
    pub fn flag_bits(self) -> (r: u8)
        ensures
            r == self.value(),
            r < 16,
    {
        let reserved_bit = 0u8 << 0;
        let long_mode_bit = 0u8 << 1;
        let size: u8 = match self.size {
            SegmentSize::Size16 => 0,
            SegmentSize::Size32 => 1,
        };
        let granularity: u8 = match self.granularity {
            Granularity::Byte => 0,
            Granularity::Page => 1,
        };
        let size_bit = size << 2;
        let granularity_bit = granularity << 3;
        let r = reserved_bit | long_mode_bit | size_bit | granularity_bit;
        assert(r == 4 * size + 8 * granularity) by (bit_vector)
            requires
                size <= 1,
                granularity <= 1,
                reserved_bit == 0u8 << 0,
                long_mode_bit == 0u8 << 1,
                size_bit == size << 2,
                granularity_bit == granularity << 3,
                r == reserved_bit | long_mode_bit | size_bit | granularity_bit,
        ;
        r
    }
}

/// The 64-bit descriptor of a segment: limit bits 0-15, base bits 0-15,
/// base bits 16-23, the access byte, limit bits 16-19, the flags, and base
/// bits 24-31, from the low bits up.
pub open spec fn descriptor_value(base: u32, limit: u32, access: u8, flags: u8) -> u64 {
    ((limit % 0x1_0000) + (base % 0x1_0000) * 0x1_0000 + ((base / 0x1_0000) % 0x100) * 0x1_0000_0000
        + access * 0x100_0000_0000 + (limit / 0x1_0000) * 0x1_0000_0000_0000 + flags
        * 0x10_0000_0000_0000 + (base / 0x100_0000) * 0x100_0000_0000_0000) as u64
}

/// A segment descriptor.
#[derive(Debug, Clone, Copy, PartialEq, Eq, Structural)]
pub struct GdtEntry(u64);

impl GdtEntry {
    /// The descriptor's 64 bits.
    pub closed spec fn view(&self) -> u64 {
        self.0
    }

    /// The descriptor's 64 bits.
    pub fn bits(self) -> (r: u64)
        ensures
            r == self@,
    {
        self.0
    }

    /// The null descriptor.
    pub fn null() -> (r: Self)
        ensures
            r@ == 0,
    {
        GdtEntry(0)
    }

    /// The descriptor of the segment at `base` with the 20-bit `limit`.
    pub fn new<A: Access>(base: u32, limit: u32, access: A, flags: Flags) -> (r: Self)
        requires
            limit < 0x10_0000,
        ensures
            r@ == descriptor_value(base, limit, access.access_value(), flags.value()),
    {
        let base = base as u64;
        let limit = limit as u64;
        let base_low = base & 0xffff;
        let base_mid = (base >> 16) & 0xff;
        let base_high = base >> 24;
        let limit_low = limit & 0xffff;
        let limit_high = limit >> 16;
        let access_byte = access.access_byte() as u64;
        let flag_bits = flags.flag_bits() as u64;
        let value = (limit_low << 0) | (base_low << 16) | (base_mid << 32) | (access_byte << 40) | (
        limit_high << 48) | (flag_bits << 52) | (base_high << 56);
        assert(value == (limit % 0x1_0000) + (base % 0x1_0000) * 0x1_0000 + ((base / 0x1_0000)
            % 0x100) * 0x1_0000_0000 + access_byte * 0x100_0000_0000 + (limit / 0x1_0000)
            * 0x1_0000_0000_0000 + flag_bits * 0x10_0000_0000_0000 + (base / 0x100_0000)
            * 0x100_0000_0000_0000) by (bit_vector)
            requires
                base < 0x1_0000_0000,
                limit < 0x10_0000,
                access_byte < 0x100,
                flag_bits < 0x10,
                base_low == base & 0xffff,
                base_mid == (base >> 16) & 0xff,
                base_high == base >> 24,
                limit_low == limit & 0xffff,
                limit_high == limit >> 16,
                value == (limit_low << 0) | (base_low << 16) | (base_mid << 32) | (access_byte
                    << 40) | (limit_high << 48) | (flag_bits << 52) | (base_high << 56),
        ;
        Self(value)
    }
}

/// The descriptor table: the null descriptor, a flat 4 GiB kernel code
/// segment and a flat 4 GiB kernel data segment.
pub fn global_descriptor_table() -> (r: [GdtEntry; 3])
    ensures
        r@[0]@ == 0,
        r@[1]@ == descriptor_value(0, 0xfffff, 0x9b, 0xc),
        r@[2]@ == descriptor_value(0, 0xfffff, 0x93, 0xc),
{
    let flags = Flags { size: SegmentSize::Size32, granularity: Granularity::Page };
    let code = CodeAccess {
        readable: true,
        conforming: false,
        privilege_level: PrivilegeLevel::Kernel,
    };
    let data = DataAccess {
        writable: true,
        direction: ExpansionDirection::Up,
        privilage_level: PrivilegeLevel::Kernel,
    };
    [GdtEntry::null(), GdtEntry::new(0, 0xfffff, code, flags), GdtEntry::new(0, 0xfffff, data, flags)]
}

/// A descriptor gives back the base, limit, access byte and flags it was
/// made from.
pub proof fn law_descriptor_fields(base: u32, limit: u32, access: u8, flags: u8)
    requires
        limit < 0x10_0000,
        flags < 0x10,
    ensures
        ({
            let v = descriptor_value(base, limit, access, flags);
            &&& (v / 0x1_0000) % 0x1_0000 + ((v / 0x1_0000_0000) % 0x100) * 0x1_0000 + (v
                / 0x100_0000_0000_0000) * 0x100_0000 == base
            &&& v % 0x1_0000 + ((v / 0x1_0000_0000_0000) % 0x10) * 0x1_0000 == limit
            &&& (v / 0x100_0000_0000) % 0x100 == access
            &&& (v / 0x10_0000_0000_0000) % 0x10 == flags
        }),
{
    let b = base as u64;
    let l = limit as u64;
    let a = access as u64;
    let f = flags as u64;
    assert({
        let v = ((l % 0x1_0000) + (b % 0x1_0000) * 0x1_0000 + ((b / 0x1_0000) % 0x100)
            * 0x1_0000_0000 + a * 0x100_0000_0000 + (l / 0x1_0000) * 0x1_0000_0000_0000 + f
            * 0x10_0000_0000_0000 + (b / 0x100_0000) * 0x100_0000_0000_0000) as u64;
        &&& (v / 0x1_0000) % 0x1_0000 + ((v / 0x1_0000_0000) % 0x100) * 0x1_0000 + (v
            / 0x100_0000_0000_0000) * 0x100_0000 == b
        &&& v % 0x1_0000 + ((v / 0x1_0000_0000_0000) % 0x10) * 0x1_0000 == l
        &&& (v / 0x100_0000_0000) % 0x100 == a
        &&& (v / 0x10_0000_0000_0000) % 0x10 == f
    }) by (bit_vector)
        requires
            b < 0x1_0000_0000,
            l < 0x10_0000,
            a < 0x100,
            f < 0x10,
    ;
}

/// Privilege levels are rings 0 and 3; the data segment's direction bit is
/// 0 for expand-up and 1 for expand-down.
pub proof fn law_privilege_levels(level: PrivilegeLevel, other: PrivilegeLevel)
    ensures
        PrivilegeLevel::Kernel.value() == 0,
        PrivilegeLevel::User.value() == 3,
        level.value() <= 3,
        level.value() == other.value() ==> level == other,
        ExpansionDirection::Up.value() == 0,
        ExpansionDirection::Down.value() == 1,
{
}

/// The flags nibble holds the size (D/B) flag in bit 2 and the granularity
/// flag in bit 3, with bits 0 (reserved) and 1 (long mode) clear.
pub proof fn law_flag_bits(flags: Flags)
    ensures
        flags.value() < 16,
        flags.value() % 4 == 0,
        (flags.value() / 4) % 2 == (if flags.size == SegmentSize::Size32 { 1int } else { 0int }),
        (flags.value() / 8) % 2 == (if flags.granularity == Granularity::Page { 1int } else { 0int }),
        (Flags { size: SegmentSize::Size32, granularity: Granularity::Byte }).value() == 4,
        (Flags { size: SegmentSize::Size16, granularity: Granularity::Page }).value() == 8,
{
}

/// A code segment's access byte: accessed (bit 0), readable (bit 1),
/// conforming (bit 2), executable (bit 3 set), code/data descriptor
/// (bit 4 set), ring (bits 5-6), present (bit 7 set). A data segment's:
/// accessed, writable (bit 1), direction (bit 2), executable clear, bit 4
/// set, ring, present.
pub proof fn law_access_bytes(code: CodeAccess, data: DataAccess)
    ensures
        code.access_value() % 2 == 1,
        (code.access_value() / 2) % 2 == bit(code.readable),
        (code.access_value() / 4) % 2 == bit(code.conforming),
        (code.access_value() / 8) % 2 == 1,
        (code.access_value() / 16) % 2 == 1,
        (code.access_value() / 32) % 4 == code.privilege_level.value(),
        code.access_value() / 128 == 1,
        data.access_value() % 2 == 1,
        (data.access_value() / 2) % 2 == bit(data.writable),
        (data.access_value() / 4) % 2 == data.direction.value(),
        (data.access_value() / 8) % 2 == 0,
        (data.access_value() / 16) % 2 == 1,
        (data.access_value() / 32) % 4 == data.privilage_level.value(),
        data.access_value() / 128 == 1,
{
    law_privilege_levels(code.privilege_level, code.privilege_level);
    law_privilege_levels(data.privilage_level, data.privilage_level);
}

} // verus!
