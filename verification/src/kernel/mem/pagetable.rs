use vstd::prelude::*;

verus! {

/// The number of entries of a page directory or page table.
pub const ENTRY_COUNT: usize = 1024;

/// Whether a page may be written.
#[derive(Debug, Clone, Copy, PartialEq, Eq, Structural)]
pub enum AccessMode {
    ReadOnly,
    ReadWrite,
}

impl AccessMode {
    /// The read/write bit.
    pub open spec fn value(self) -> u32 {
        match self {
            AccessMode::ReadOnly => 0,
            AccessMode::ReadWrite => 1,
        }
    }

    /// The read/write bit.
    pub fn bits(self) -> (r: u32)
        ensures
            r == self.value(),
    {
        match self {
            AccessMode::ReadOnly => 0,
            AccessMode::ReadWrite => 1,
        }
    }
}

/// Whether user mode may reach a page.
#[derive(Debug, Clone, Copy, PartialEq, Eq, Structural)]
pub enum PrivilegeLevel {
    Supervisor,
    User,
}

impl PrivilegeLevel {
    /// The user/supervisor bit.
    pub open spec fn value(self) -> u32 {
        match self {
            PrivilegeLevel::Supervisor => 0,
            PrivilegeLevel::User => 1,
        }
    }

    /// The user/supervisor bit.
    pub fn bits(self) -> (r: u32)
        ensures
            r == self.value(),
    {
        match self {
            PrivilegeLevel::Supervisor => 0,
            PrivilegeLevel::User => 1,
        }
    }
}

/// How the processor caches a page.
#[derive(Debug, Clone, Copy, PartialEq, Eq, Structural)]
pub enum CacheMode {
    Disabled,
    WriteThrough,
    WriteBack,
}

/// The cache-disable and write-through bits of a cache mode.
#[derive(Debug, Clone, Copy, PartialEq, Eq, Structural)]
pub struct CacheModeBits {
    pub pcd: bool,
    pub pwt: bool,
}

impl CacheMode {
    /// The cache-disable and write-through bits of this mode.
    pub open spec fn spec_bits(self) -> CacheModeBits {
        match self {
            CacheMode::Disabled => CacheModeBits { pcd: false, pwt: false },
            CacheMode::WriteBack => CacheModeBits { pcd: true, pwt: false },
            CacheMode::WriteThrough => CacheModeBits { pcd: true, pwt: true },
        }
    }

    /// The cache-disable and write-through bits of this mode.
    pub fn bits(self) -> (r: CacheModeBits)
        ensures
            r == self.spec_bits(),
    {
        match self {
            CacheMode::Disabled => CacheModeBits { pcd: false, pwt: false },
            CacheMode::WriteBack => CacheModeBits { pcd: true, pwt: false },
            CacheMode::WriteThrough => CacheModeBits { pcd: true, pwt: true },
        }
    }
}

/// The value of an entry that maps `base`: present (bit 0), the access
/// mode (bit 1), the privilege level (bit 2), caching disabled (bits 3 and
/// 4 clear), 4 KiB granularity (bit 7 clear), and the page-aligned address.
pub open spec fn entry_value(base: u32, access_mode: AccessMode, privilege_level: PrivilegeLevel) -> u32 {
    (base + 1 + 2 * access_mode.value() + 4 * privilege_level.value()) as u32
}

/// An entry of a page directory.
#[derive(Clone, Copy)]
pub struct PageDirectoryEntry(u32);

/// An entry of a page table.
#[derive(Clone, Copy)]
pub struct PageTableEntry(u32);

/// Packs the bits of an entry: present, access mode, privilege level, the
/// cache mode's bits, the page-size bit and the page-aligned address.
fn pack_entry(
    base: u32,
    access_mode: AccessMode,
    privilege_level: PrivilegeLevel,
    cache_mode: CacheMode,
    page_size: u32,
) -> (r: u32)
    requires
        base % 4096 == 0,
        cache_mode == CacheMode::Disabled,
        page_size == 0,
    ensures
        r == entry_value(base, access_mode, privilege_level),
{
    let present = true;
    let CacheModeBits { pcd, pwt } = cache_mode.bits();
    let p: u32 = if present {
        1
    } else {
        0
    };
    let a = access_mode.bits();
    let u = privilege_level.bits();
    let wt: u32 = if pwt {
        1
    } else {
        0
    };
    let cd: u32 = if pcd {
        1
    } else {
        0
    };
    let value = (p << 0) | (a << 1) | (u << 2) | (wt << 3) | (cd << 4) | (page_size << 7) | base;
    assert(value == base + 1 + 2 * a + 4 * u) by (bit_vector)
        requires
            base % 4096 == 0,
            p == 1,
            a <= 1,
            u <= 1,
            wt == 0,
            cd == 0,
            page_size == 0,
            value == (p << 0) | (a << 1) | (u << 2) | (wt << 3) | (cd << 4) | (page_size << 7)
                | base,
    ;
    value
}

impl PageDirectoryEntry {
    /// The entry's 32 bits.
    pub closed spec fn view(&self) -> u32 {
        self.0
    }

    /// An entry pointing at the page table at `physical_base_address`, which
    /// must be 4 KiB aligned; present, uncached, of 4 KiB pages.
    pub fn new(
        physical_base_address: u32,
        access_mode: AccessMode,
        privilege_level: PrivilegeLevel,
    ) -> (r: Self)
        requires
            physical_base_address % 4096 == 0,
        ensures
            r@ == entry_value(physical_base_address, access_mode, privilege_level),
    {
        Self(
            pack_entry(
                physical_base_address,
                access_mode,
                privilege_level,
                CacheMode::Disabled,
                0,
            ),
        )
    }

    /// The entry's 32 bits.
    pub fn bits(self) -> (r: u32)
        ensures
            r == self@,
    {
        self.0
    }
}

impl PageTableEntry {
    /// The entry's 32 bits.
    pub closed spec fn view(&self) -> u32 {
        self.0
    }

    /// An entry mapping the page frame at `base_address`, which must be
    /// 4 KiB aligned; present and uncached.
    pub fn new(base_address: u32, access_mode: AccessMode, privilege_level: PrivilegeLevel) -> (r:
        Self)
        requires
            base_address % 4096 == 0,
        ensures
            r@ == entry_value(base_address, access_mode, privilege_level),
    {
        Self(pack_entry(base_address, access_mode, privilege_level, CacheMode::Disabled, 0))
    }

    /// The entry's 32 bits.
    pub fn bits(self) -> (r: u32)
        ensures
            r == self@,
    {
        self.0
    }
}

/// A page directory: 1024 entries.
pub struct PageDirectory {
    table: [PageDirectoryEntry; 1024],
}

/// A page table: 1024 entries.
pub struct PageTable {
    table: [PageTableEntry; 1024],
}

impl PageDirectory {
    /// The entries' values.
    pub closed spec fn view(&self) -> Seq<u32> {
        self.table@.map_values(|e: PageDirectoryEntry| e@)
    }

    /// A directory whose entries are all zero (not present).
    pub fn empty() -> (r: Self)
        ensures
            r@ == Seq::new(1024, |i: int| 0u32),
    {
        let r = PageDirectory { table: [PageDirectoryEntry(0); 1024] };
        assert(r@ =~= Seq::new(1024, |i: int| 0u32));
        r
    }

    /// The entry at `index`.
    pub fn entry(&self, index: usize) -> (r: PageDirectoryEntry)
        requires
            index < ENTRY_COUNT,
        ensures
            r@ == self@[index as int],
    {
        self.table[index]
    }
}

impl PageTable {
    /// The entries' values.
    pub closed spec fn view(&self) -> Seq<u32> {
        self.table@.map_values(|e: PageTableEntry| e@)
    }

    /// The kernel's page table: entry `i` maps the page at `i * 4096` onto
    /// the frame at the same address, read-write, supervisor only.
    pub fn kernel_page_table() -> (r: Self)
        ensures
            r@.len() == ENTRY_COUNT,
            forall|i: int|
                0 <= i < ENTRY_COUNT ==> #[trigger] r@[i] == entry_value(
                    (i * 4096) as u32,
                    AccessMode::ReadWrite,
                    PrivilegeLevel::Supervisor,
                ),
    {
        let mut page_table = [PageTableEntry(0); 1024];
        let mut i: usize = 0;
        while i < 1024
            invariant
                i <= 1024,
                forall|j: int|
                    0 <= j < i ==> #[trigger] page_table@[j]@ == entry_value(
                        (j * 4096) as u32,
                        AccessMode::ReadWrite,
                        PrivilegeLevel::Supervisor,
                    ),
            decreases 1024 - i,
        {
            let page_start_physical = (i as u32) * 4096;
            page_table[i] = PageTableEntry::new(
                page_start_physical,
                AccessMode::ReadWrite,
                PrivilegeLevel::Supervisor,
            );
            i = i + 1;
        }
        PageTable { table: page_table }
    }

    /// The entry at `index`.
    pub fn entry(&self, index: usize) -> (r: PageTableEntry)
        requires
            index < ENTRY_COUNT,
        ensures
            r@ == self@[index as int],
    {
        self.table[index]
    }
}

/// Why a page fault happened.
#[derive(Debug, Clone, Copy, PartialEq, Eq, Structural)]
pub enum PageFaultReason {
    NonPresentPage,
    PageLevelProtectionViolation,
}

/// The access that faulted.
#[derive(Debug, Clone, Copy, PartialEq, Eq, Structural)]
pub enum PageFaultAccess {
    Read,
    Write,
}

impl PageFaultReason {
    /// The message for this reason.
    pub fn description(self) -> (r: &'static str)
        ensures
            self == PageFaultReason::NonPresentPage ==> r@ == "Page not present"@,
            self == PageFaultReason::PageLevelProtectionViolation ==> r@
                == "Insufficient permissions"@,
    {
        match self {
            PageFaultReason::NonPresentPage => "Page not present",
            PageFaultReason::PageLevelProtectionViolation => "Insufficient permissions",
        }
    }
}

impl PageFaultAccess {
    /// The name of this access.
    pub fn description(self) -> (r: &'static str)
        ensures
            self == PageFaultAccess::Read ==> r@ == "read"@,
            self == PageFaultAccess::Write ==> r@ == "write"@,
    {
        match self {
            PageFaultAccess::Read => "read",
            PageFaultAccess::Write => "write",
        }
    }
}

/// A decoded page fault.
#[derive(Debug, Clone, Copy, PartialEq, Eq, Structural)]
pub struct PageFaultErrorCode {
    pub address: u32,
    pub reason: PageFaultReason,
    pub access: PageFaultAccess,
}

impl PageFaultErrorCode {
    /// Decodes the error code of a page fault and the faulting address read
    /// from CR2: the page of the address, the reason from bit 0 of the code,
    /// and the access from bit 1, which must be clear: the access field is
    /// read as `flags & 2`, so a set bit gives 2, which names no access.
    pub fn new(error_code: u32, cr2: u32) -> (r: Self)
        requires
            (error_code / 2) % 2 == 0,
        ensures
            r.address == cr2 / 4096 * 4096,
            r.reason == (if error_code % 2 == 0 {
                PageFaultReason::NonPresentPage
            } else {
                PageFaultReason::PageLevelProtectionViolation
            }),
            r.access == PageFaultAccess::Read,
    {
        let flags = (error_code & 0xff) as u8;
        let reason_bit = flags & 1;
        let access_bits = flags & 2;
        let address = cr2 & !0xfffu32;
        assert(reason_bit == error_code % 2 && access_bits == 2 * ((error_code / 2) % 2) && address
            == cr2 / 4096 * 4096) by (bit_vector)
            requires
                flags == (error_code & 0xff) as u8,
                reason_bit == flags & 1,
                access_bits == flags & 2,
                address == cr2 & !0xfffu32,
        ;
        let reason = if reason_bit == 0 {
            PageFaultReason::NonPresentPage
        } else {
            PageFaultReason::PageLevelProtectionViolation
        };
        let access = if access_bits == 0 {
            PageFaultAccess::Read
        } else {
            PageFaultAccess::Write
        };
        Self { address, reason, access }
    }
}

/// An entry is present and its bits give back the frame address, the access
/// mode and the privilege level it was made with.
pub proof fn law_entry_fields(base: u32, access_mode: AccessMode, privilege_level: PrivilegeLevel)
    requires
        base % 4096 == 0,
    ensures
        entry_value(base, access_mode, privilege_level) % 2 == 1,
        (entry_value(base, access_mode, privilege_level) / 2) % 2 == access_mode.value(),
        (entry_value(base, access_mode, privilege_level) / 4) % 2 == privilege_level.value(),
        entry_value(base, access_mode, privilege_level) / 4096 * 4096 == base,
{
    let a = access_mode.value();
    let u = privilege_level.value();
    assert({
        let v = (base + 1 + 2 * a + 4 * u) as u32;
        &&& v % 2 == 1
        &&& (v / 2) % 2 == a
        &&& (v / 4) % 2 == u
        &&& v / 4096 * 4096 == base
    }) by (bit_vector)
        requires
            base % 4096 == 0,
            a <= 1,
            u <= 1,
    ;
}

/// The read/write bit is 1 for read-write pages and the user/supervisor
/// bit is 1 for user pages; the cache modes set PCD and PWT as the kernel
/// programs them: disabled clears both, write-back sets PCD, write-through
/// sets both.
pub proof fn law_entry_flag_codes()
    ensures
        AccessMode::ReadOnly.value() == 0,
        AccessMode::ReadWrite.value() == 1,
        PrivilegeLevel::Supervisor.value() == 0,
        PrivilegeLevel::User.value() == 1,
        CacheMode::Disabled.spec_bits() == (CacheModeBits { pcd: false, pwt: false }),
        CacheMode::WriteBack.spec_bits() == (CacheModeBits { pcd: true, pwt: false }),
        CacheMode::WriteThrough.spec_bits() == (CacheModeBits { pcd: true, pwt: true }),
        entry_value(0x1000, AccessMode::ReadWrite, PrivilegeLevel::User) == 0x1007,
{
}

} // verus!
