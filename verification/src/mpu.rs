//! The MPU core: region descriptors, per-process protection
//! configurations, the region allocator, and the synchronizer that
//! pushes a configuration into the hardware register table.
//!
//! The hardware has twelve region-descriptor slots; software manages
//! eleven descriptors per process and never touches the twelfth slot.
//! At boot, slot 0 carries a debugger/bootloader grant of the whole
//! address space: enabling protection withdraws its user-mode access
//! through the slot's alternate access-control word, and the first
//! synchronization replaces its descriptor words like any other
//! managed slot's. Regions are aligned to the hardware's 32-byte
//! granularity: a descriptor stores an aligned start address and an
//! aligned last-granule address `e`, and covers the byte range
//! `[s, e + 32)`.

use crate::regs::{Field, FieldValue, RO, RW};
use vstd::prelude::*;

verus! {

/// Index of the distinguished, growable app-memory region inside a
/// process's configuration.
pub const APP_MEMORY_REGION_NUM: usize = 0;

/// The access classes the hardware can grant to unprivileged code.
/// This is a closed set: no other read/write/execute combination is
/// representable in a region descriptor.
#[derive(Clone, Copy, PartialEq, Eq, Structural, Debug)]
pub enum Permissions {
    ReadWriteExecute,
    ReadWriteOnly,
    ReadExecuteOnly,
    ReadOnly,
    ExecuteOnly,
}

/// The 3-bit user-mode access code a permission class is encoded as in
/// a region descriptor's access-control word.
pub open spec fn perm_user_code(p: Permissions) -> u32 {
    match p {
        Permissions::ReadWriteExecute => 0b111,
        Permissions::ReadWriteOnly => 0b110,
        Permissions::ReadExecuteOnly => 0b101,
        Permissions::ReadOnly => 0b100,
        Permissions::ExecuteOnly => 0b001,
    }
}

/// Encodes a permission class as its 3-bit user-mode access code.
pub fn encode_permissions(p: Permissions) -> (code: u32)
    ensures
        code == perm_user_code(p),
{
    match p {
        Permissions::ReadWriteExecute => 0b111,
        Permissions::ReadWriteOnly => 0b110,
        Permissions::ReadExecuteOnly => 0b101,
        Permissions::ReadOnly => 0b100,
        Permissions::ExecuteOnly => 0b001,
    }
}

/// The permission class a 3-bit code stands for, `None` for the three
/// codes no class is encoded as.
pub open spec fn perm_from_code(code: u32) -> Option<Permissions> {
    if code == 0b111 {
        Some(Permissions::ReadWriteExecute)
    } else if code == 0b110 {
        Some(Permissions::ReadWriteOnly)
    } else if code == 0b101 {
        Some(Permissions::ReadExecuteOnly)
    } else if code == 0b100 {
        Some(Permissions::ReadOnly)
    } else if code == 0b001 {
        Some(Permissions::ExecuteOnly)
    } else {
        None
    }
}

/// Decodes a 3-bit user-mode access code back to its permission class.
pub fn decode_permissions(code: u32) -> (p: Option<Permissions>)
    ensures
        p == perm_from_code(code),
{
    if code == 0b111 {
        Some(Permissions::ReadWriteExecute)
    } else if code == 0b110 {
        Some(Permissions::ReadWriteOnly)
    } else if code == 0b101 {
        Some(Permissions::ReadExecuteOnly)
    } else if code == 0b100 {
        Some(Permissions::ReadOnly)
    } else if code == 0b001 {
        Some(Permissions::ExecuteOnly)
    } else {
        None
    }
}

/// Decoding a permission's code yields the permission again: the
/// encoding is injective over the closed set of five classes.
pub proof fn lemma_permissions_round_trip(p: Permissions)
    ensures
        perm_from_code(perm_user_code(p)) == Some(p),
{
}

/// A software-level handle to a granted region: where memory was
/// granted, not which hardware slot holds it.
#[derive(Clone, Copy, Debug)]
pub struct Region {
    pub start: u32,
    pub size: usize,
}

impl Region {
    pub fn new(start: u32, size: usize) -> (r: Region)
        ensures
            r.start == start,
            r.size == size,
    {
        Region { start, size }
    }

    pub fn start_address(&self) -> (a: u32)
        ensures
            a == self.start,
    {
        self.start
    }

    pub fn size(&self) -> (s: usize)
        ensures
            s == self.size,
    {
        self.size
    }
}

/// The access-control word of a region descriptor: the 3-bit user-mode
/// code at bit 0, and at bit 3 the 2-bit supervisor-mode code, which is
/// "same as user" (0b11) when the region restricts supervisor accesses
/// and "full read/write/execute" (0b00) otherwise.
pub open spec fn region_access_word(p: Permissions, super_as_user: bool) -> u32 {
    perm_user_code(p) | (if super_as_user {
        0x18u32
    } else {
        0u32
    })
}

/// One software region descriptor: an aligned address range (`None`
/// for an unused slot), the user-mode permission class, the
/// supervisor-access mode, and the four register words the descriptor
/// packs into, precomputed.
#[derive(Clone, Copy)]
pub struct K66ConfigRegion {
    pub location: Option<(u32, u32)>,
    pub permissions: Permissions,
    pub super_as_user: bool,
    pub rgd_word0: FieldValue<u32>,
    pub rgd_word1: FieldValue<u32>,
    pub rgd_word2: FieldValue<u32>,
    pub rgd_word3: FieldValue<u32>,
}

impl K66ConfigRegion {
    /// Well-formedness: an occupied descriptor holds a 32-byte-aligned
    /// range whose precomputed words encode exactly that range, its
    /// permission and its valid bit; an unused descriptor's words are
    /// all clear, so that the slot is synchronized as invalid.
    pub open spec fn wf(self) -> bool {
        match self.location {
            None => self.rgd_word0.value == 0 && self.rgd_word1.value == 0
                && self.rgd_word2.value == 0 && self.rgd_word3.value == 0,
            Some((s, e)) => {
                &&& s % 32 == 0
                &&& e % 32 == 0
                &&& s <= e
                &&& self.rgd_word0.value == s
                &&& self.rgd_word1.value == e
                &&& self.rgd_word2.value == region_access_word(
                    self.permissions,
                    self.super_as_user,
                )
                &&& self.rgd_word3.value == 1
            },
        }
    }

    /// The first address of the descriptor's range, 0 for an unused
    /// slot.
    pub open spec fn spec_base_address(self) -> int {
        match self.location {
            Some((s, _)) => s as int,
            None => 0,
        }
    }

    /// The aligned last-granule address of the descriptor's range, 0
    /// for an unused slot.
    pub open spec fn spec_end_address(self) -> int {
        match self.location {
            Some((_, e)) => e as int,
            None => 0,
        }
    }

    /// Whether the byte span `[start, start + size)` intersects this
    /// descriptor's range `[s, e + 32)`. An unused slot intersects
    /// nothing.
    pub open spec fn spec_overlaps(self, start: int, size: int) -> bool {
        match self.location {
            None => false,
            Some((s, e)) => start < e + 32 && start + size > s,
        }
    }

    /// Builds an occupied descriptor for the aligned range `[start,
    /// end + 32)` and precomputes its register words.
    pub fn new(start: u32, end: u32, permissions: Permissions, super_as_user: bool) -> (r:
        K66ConfigRegion)
        requires
            start % 32 == 0,
            end % 32 == 0,
            start <= end,
        ensures
            r.wf(),
            r.location == Some((start, end)),
            r.permissions == permissions,
            r.super_as_user == super_as_user,
    {
        let user_val: u32 = encode_permissions(permissions);
        let super_val: u32 = if super_as_user {
            0b11
        } else {
            0
        };
        let word0 = Field::<u32>::new(0x07FF_FFFF, 5).val(start >> 5);
        let word1 = Field::<u32>::new(0x07FF_FFFF, 5).val(end >> 5);
        let word2 = FieldValue::<u32>::new(0b11, 3, super_val).combine(
            FieldValue::<u32>::new(0b111, 0, user_val),
        );
        let word3 = Field::<u32>::new(0b1, 0).val(1);
        proof {
            assert(((start >> 5) << 5) & (0x07FF_FFFFu32 << 5) == start) by (bit_vector)
                requires
                    start % 32 == 0,
            ;
            assert(((end >> 5) << 5) & (0x07FF_FFFFu32 << 5) == end) by (bit_vector)
                requires
                    end % 32 == 0,
            ;
            assert(((super_val << 3) & (0b11u32 << 3)) | ((user_val << 0) & (0b111u32 << 0))
                == (user_val | (if super_as_user { 0x18u32 } else { 0u32 }))) by (bit_vector)
                requires
                    user_val <= 7,
                    super_val == (if super_as_user { 0b11u32 } else { 0u32 }),
            ;
            assert((1u32 << 0) & (0b1u32 << 0) == 1) by (bit_vector);
        }
        K66ConfigRegion {
            location: Some((start, end)),
            permissions,
            super_as_user,
            rgd_word0: word0,
            rgd_word1: word1,
            rgd_word2: word2,
            rgd_word3: word3,
        }
    }

    /// Builds an unused descriptor: no range, all register words
    /// clear, and read-only as an inert placeholder permission.
    pub fn empty() -> (r: K66ConfigRegion)
        ensures
            r.wf(),
            r.location.is_none(),
            r.permissions == Permissions::ReadOnly,
            !r.super_as_user,
    {
        let word01 = Field::<u32>::new(0x07FF_FFFF, 5).val(0);
        let word2 = Field::<u32>::new(0b111, 0).val(0);
        let word3 = Field::<u32>::new(0b1, 0).val(0);
        proof {
            assert((0u32 << 5) & (0x07FF_FFFFu32 << 5) == 0) by (bit_vector);
            assert((0u32 << 0) & (0b111u32 << 0) == 0) by (bit_vector);
            assert((0u32 << 0) & (0b1u32 << 0) == 0) by (bit_vector);
        }
        K66ConfigRegion {
            location: None,
            permissions: Permissions::ReadOnly,
            super_as_user: false,
            rgd_word0: word01,
            rgd_word1: word01,
            rgd_word2: word2,
            rgd_word3: word3,
        }
    }

    /// Whether the byte span `[start, start + size)` intersects this
    /// descriptor's range.
    pub fn overlaps(&self, start: u32, size: u32) -> (b: bool)
        ensures
            b == self.spec_overlaps(start as int, size as int),
    {
        match self.location {
            Some((s, e)) => (start as u64) < (e as u64) + 32 && (start as u64) + (size as u64) > (
            s as u64),
            None => false,
        }
    }

    pub fn location(&self) -> (l: Option<(u32, u32)>)
        ensures
            l == self.location,
    {
        self.location
    }

    /// The first address of the descriptor's range, 0 for an unused
    /// slot.
    pub fn base_address(&self) -> (a: u32)
        ensures
            a == match self.location {
                Some((s, _)) => s,
                None => 0u32,
            },
    {
        match self.location {
            Some((s, _)) => s,
            None => 0,
        }
    }

    /// The aligned last-granule address of the descriptor's range, 0
    /// for an unused slot.
    pub fn end_address(&self) -> (a: u32)
        ensures
            a == match self.location {
                Some((_, e)) => e,
                None => 0u32,
            },
    {
        match self.location {
            Some((_, e)) => e,
            None => 0,
        }
    }

    pub fn supervisor_as_user(&self) -> (b: bool)
        ensures
            b == self.super_as_user,
    {
        self.super_as_user
    }

    pub fn user_permissions(&self) -> (p: Permissions)
        ensures
            p == self.permissions,
    {
        self.permissions
    }
}

/// `x` rounded up to the next multiple of the 32-byte granularity.
pub open spec fn spec_round_up_to_granule(x: int) -> int {
    ((x + 31) / 32) * 32
}

/// Rounding up to a granule moves an address by less than one granule
/// and lands on a granule boundary.
pub proof fn lemma_round_up_to_granule(x: int)
    requires
        x >= 0,
    ensures
        x <= spec_round_up_to_granule(x) < x + 32,
        spec_round_up_to_granule(x) % 32 == 0,
{
    let q = (x + 31) / 32;
    let r = (x + 31) % 32;
    vstd::arithmetic::div_mod::lemma_fundamental_div_mod(x + 31, 32);
    vstd::arithmetic::div_mod::lemma_mod_bound(x + 31, 32);
    vstd::arithmetic::div_mod::lemma_mod_multiples_basic(q, 32);
}

/// `x` rounded up to the next multiple of the 32-byte granularity.
fn round_up_to_granule(x: u32) -> (r: u32)
    requires
        x <= 0xFFFF_FFE0,
    ensures
        r == spec_round_up_to_granule(x as int),
        r % 32 == 0,
        x <= r < x + 32,
{
    proof {
        lemma_round_up_to_granule(x as int);
        vstd::arithmetic::div_mod::lemma_fundamental_div_mod(x as int, 32);
        vstd::arithmetic::div_mod::lemma_mod_bound(x as int, 32);
    }
    let rem = x % 32;
    if rem == 0 {
        proof {
            vstd::arithmetic::div_mod::lemma_fundamental_div_mod(x as int + 31, 32);
            vstd::arithmetic::div_mod::lemma_fundamental_div_mod_converse(
                x as int + 31,
                32,
                x as int / 32,
                31,
            );
        }
        x
    } else {
        proof {
            vstd::arithmetic::div_mod::lemma_fundamental_div_mod_converse(
                x as int + 31,
                32,
                x as int / 32 + 1,
                rem as int - 1,
            );
        }
        x + (32 - rem)
    }
}

/// Whether two descriptors' byte ranges are disjoint; a descriptor's
/// range is `[s, e + 32)`, and an unused slot is disjoint from
/// everything.
pub open spec fn spec_ranges_disjoint(a: K66ConfigRegion, b: K66ConfigRegion) -> bool {
    match (a.location, b.location) {
        (Some((s1, e1)), Some((s2, e2))) => e1 + 32 <= s2 || e2 + 32 <= s1,
        _ => true,
    }
}

/// A process's complete protection state: eleven region descriptors,
/// one for each hardware slot that software manages. Descriptor 0 is
/// distinguished: it is the growable app-memory region, never handed
/// out by the allocator, and `app_memory_min_size` remembers the
/// floor below which that region may not shrink.
#[derive(Clone, Copy)]
pub struct K66Config {
    pub regions: [K66ConfigRegion; 11],
    pub app_memory_min_size: u32,
}

impl K66Config {
    /// The configuration invariant: every descriptor is well-formed
    /// and the occupied descriptors' byte ranges are pairwise
    /// disjoint. Every configuration reachable through this crate's
    /// operations satisfies it.
    pub open spec fn wf(self) -> bool {
        &&& forall|i: int| 0 <= i < 11 ==> (#[trigger] self.regions[i]).wf()
        &&& forall|i: int, j: int|
            #![trigger self.regions[i], self.regions[j]]
            0 <= i < 11 && 0 <= j < 11 && i != j ==> spec_ranges_disjoint(
                self.regions[i],
                self.regions[j],
            )
    }

    /// Whether the byte span `[start, start + size)` intersects any
    /// occupied descriptor of the configuration.
    pub open spec fn spec_overlaps_any(self, start: int, size: int) -> bool {
        exists|i: int| 0 <= i < 11 && (#[trigger] self.regions[i]).spec_overlaps(start, size)
    }

    /// Whether some slot other than the reserved app-memory slot is
    /// still unused.
    pub open spec fn spec_has_free_slot(self) -> bool {
        exists|i: int| 1 <= i < 11 && (#[trigger] self.regions[i]).location.is_none()
    }

    /// Whether the byte span `[start, start + size)` intersects an
    /// occupied descriptor other than the app-memory slot.
    pub open spec fn spec_overlaps_any_other(self, start: int, size: int) -> bool {
        exists|i: int| 1 <= i < 11 && (#[trigger] self.regions[i]).spec_overlaps(start, size)
    }

    /// An all-unused configuration.
    pub fn new() -> (c: K66Config)
        ensures
            c.wf(),
            forall|i: int| 0 <= i < 11 ==> (#[trigger] c.regions[i]).location.is_none(),
            c.app_memory_min_size == 0,
    {
        let empty = K66ConfigRegion::empty();
        K66Config { regions: [empty;11], app_memory_min_size: 0 }
    }

    /// The first unused slot other than the reserved app-memory slot
    /// (first-fit), or `None` when every such slot is occupied.
    pub fn unused_region_number(&self) -> (r: Option<usize>)
        ensures
            match r {
                Some(n) => 1 <= n < 11 && self.regions[n as int].location.is_none() && forall|
                    j: int,
                |
                    1 <= j < n ==> (#[trigger] self.regions[j]).location.is_some(),
                None => forall|j: int|
                    1 <= j < 11 ==> (#[trigger] self.regions[j]).location.is_some(),
            },
    {
        // Slot APP_MEMORY_REGION_NUM is reserved for the growable
        // app-memory region and is skipped.
        let mut i: usize = APP_MEMORY_REGION_NUM + 1;
        while i < 11
            invariant
                1 <= i <= 11,
                forall|j: int| 1 <= j < i ==> (#[trigger] self.regions[j]).location.is_some(),
            decreases 11 - i,
        {
            if self.regions[i].location().is_none() {
                return Some(i);
            }
            i = i + 1;
        }
        None
    }
}

/// The size of the memory block handed to a process at creation: the
/// larger of the requested minimum and the initial app and kernel
/// parts together, rounded up to whole granules.
pub open spec fn spec_app_block_size(min: int, app0: int, kern0: int) -> int {
    spec_round_up_to_granule(
        if min >= app0 + kern0 {
            min
        } else {
            app0 + kern0
        },
    )
}

/// The initial extent of the protected app-memory region: the initial
/// app part rounded up to whole granules, and at least one granule so
/// the region is representable.
pub open spec fn spec_app_region_size(app0: int) -> int {
    if app0 == 0 {
        32
    } else {
        spec_round_up_to_granule(app0)
    }
}

/// When establishing the app-memory block succeeds: the app-memory
/// slot is still unused, the block start is granule-aligned, the
/// request is non-trivial, the block fits the free span, the 32-bit
/// address space and the largest granule-aligned 32-bit size, the
/// app part rounded to granules leaves room for the kernel part, and
/// the block intersects no occupied region.
pub open spec fn spec_can_allocate_app(
    c: K66Config,
    start: int,
    size: int,
    min: int,
    app0: int,
    kern0: int,
) -> bool {
    let block = spec_app_block_size(min, app0, kern0);
    &&& c.regions[0].location.is_none()
    &&& start % 32 == 0
    &&& min + app0 + kern0 > 0
    &&& block <= 0xFFFF_FFE0
    &&& block <= size
    &&& start + block <= 0x1_0000_0000
    &&& spec_app_region_size(app0) + kern0 <= block
    &&& !c.spec_overlaps_any(start, block)
}

/// When re-encoding the app-memory region for a new break succeeds:
/// the region exists, the break is granule-aligned, lies strictly
/// above the region's start, does not shrink the region below its
/// remembered minimum, does not reach the kernel-reserved tail (the
/// kernel break), and the grown region intersects no other occupied
/// region.
pub open spec fn spec_can_update_app(c: K66Config, app_break: int, kernel_break: int) -> bool {
    let s = c.regions[0].spec_base_address();
    &&& c.regions[0].location.is_some()
    &&& app_break % 32 == 0
    &&& app_break > s
    &&& app_break - s >= c.app_memory_min_size
    &&& app_break <= kernel_break
    &&& !c.spec_overlaps_any_other(s, app_break - s)
}

/// When a grant of `[start, start + size)` succeeds: the span
/// intersects no occupied descriptor, a slot other than the reserved
/// app-memory slot is free, start and size are multiples of the
/// 32-byte granularity, and the span is non-empty and lies within the
/// 32-bit address space.
pub open spec fn spec_can_allocate(c: K66Config, start: int, size: int) -> bool {
    &&& !c.spec_overlaps_any(start, size)
    &&& c.spec_has_free_slot()
    &&& start % 32 == 0
    &&& size % 32 == 0
    &&& size > 0
    &&& size <= 0xFFFF_FFFF
    &&& start + size <= 0x1_0000_0000
}

impl Default for K66Config {
    /// The default configuration is all-unused.
    fn default() -> (c: K66Config)
        ensures
            c.wf(),
            forall|i: int| 0 <= i < 11 ==> (#[trigger] c.regions[i]).location.is_none(),
            c.app_memory_min_size == 0,
    {
        K66Config::new()
    }
}

/// One diagnostic register pair: the address and the detail of a
/// faulted access. Read-only, reported by hardware; no allocation
/// logic reads them.
#[derive(Clone, Copy)]
pub struct K66ErrorRegisters {
    pub ear: RO<u32>,
    pub edr: RO<u32>,
}

/// The four descriptor words of one hardware region slot: start
/// address, end address, access control, valid bit.
#[derive(Clone, Copy)]
pub struct K66RegionRegisters {
    pub rgd_word0: RW<u32>,
    pub rgd_word1: RW<u32>,
    pub rgd_word2: RW<u32>,
    pub rgd_word3: RW<u32>,
}

/// One alternate access-control register: an aliased view of a slot's
/// access-control word, used only to reconfigure the boot-time
/// reserved slot without touching its address range.
#[derive(Clone, Copy)]
pub struct MpuAlternateAccessControl(pub RW<u32>);

/// The MPU's register block: the control/error-status register (bit 0
/// is the global valid/enable bit), five diagnostic register pairs,
/// twelve region-descriptor slots and twelve alternate access-control
/// registers.
#[derive(Clone, Copy)]
pub struct MpuRegisters {
    pub cesr: RW<u32>,
    pub ers: [K66ErrorRegisters; 5],
    pub rgds: [K66RegionRegisters; 12],
    pub rgdaacs: [MpuAlternateAccessControl; 12],
}

/// The number of occupied descriptors among the first `n` slots of a
/// configuration.
pub open spec fn spec_occupied_up_to(c: K66Config, n: int) -> int
    decreases n,
{
    if n <= 0 {
        0
    } else {
        spec_occupied_up_to(c, n - 1) + if c.regions[n - 1].location.is_some() {
            1int
        } else {
            0int
        }
    }
}

/// The number of occupied descriptors in a configuration.
pub open spec fn spec_occupied_count(c: K66Config) -> int {
    spec_occupied_up_to(c, 11)
}

proof fn lemma_occupied_up_to_bound(c: K66Config, n: int)
    requires
        n >= 0,
    ensures
        spec_occupied_up_to(c, n) <= n,
    decreases n,
{
    if n > 0 {
        lemma_occupied_up_to_bound(c, n - 1);
    }
}

/// Capacity: a configuration never holds more occupied regions than
/// the slots the hardware offers to software, and the allocator never
/// takes the reserved app-memory slot (`allocate_region` leaves
/// descriptor 0 untouched, as its contract states).
pub proof fn lemma_config_capacity(c: K66Config)
    ensures
        spec_occupied_count(c) <= 11,
{
    lemma_occupied_up_to_bound(c, 11);
}

/// Non-overlap: in a well-formed configuration — and every
/// configuration reachable through this crate's operations is one —
/// any two occupied descriptors cover disjoint byte ranges.
pub proof fn lemma_config_regions_disjoint(c: K66Config, i: int, j: int)
    requires
        c.wf(),
        0 <= i < 11,
        0 <= j < 11,
        i != j,
        c.regions[i].location.is_some(),
        c.regions[j].location.is_some(),
    ensures
        c.regions[i].spec_end_address() + 32 <= c.regions[j].spec_base_address() || c.regions[
            j
        ].spec_end_address() + 32 <= c.regions[i].spec_base_address(),
{
    assert(spec_ranges_disjoint(c.regions[i], c.regions[j]));
}

/// Alignment: in a well-formed configuration every occupied
/// descriptor's start and last-granule addresses are multiples of the
/// 32-byte granularity.
pub proof fn lemma_config_regions_aligned(c: K66Config, i: int)
    requires
        c.wf(),
        0 <= i < 11,
        c.regions[i].location.is_some(),
    ensures
        c.regions[i].spec_base_address() % 32 == 0,
        c.regions[i].spec_end_address() % 32 == 0,
{
}

/// Whether one hardware region slot holds exactly the four words of a
/// descriptor.
pub open spec fn spec_slot_matches(r: K66RegionRegisters, d: K66ConfigRegion) -> bool {
    &&& r.rgd_word0.value == d.rgd_word0.value
    &&& r.rgd_word1.value == d.rgd_word1.value
    &&& r.rgd_word2.value == d.rgd_word2.value
    &&& r.rgd_word3.value == d.rgd_word3.value
}

/// What synchronizing a configuration does to the register block:
/// each of the eleven managed slots holds its descriptor's words, and
/// every other register — the control/error-status word, the
/// diagnostic pairs, the alternate access controls and the one
/// unmanaged slot — keeps its prior contents.
pub open spec fn spec_configure_rel(pre: MpuRegisters, post: MpuRegisters, c: K66Config) -> bool {
    &&& forall|i: int| 0 <= i < 11 ==> spec_slot_matches(#[trigger] post.rgds[i], c.regions[i])
    &&& post.rgds[11] == pre.rgds[11]
    &&& post.cesr == pre.cesr
    &&& post.ers == pre.ers
    &&& post.rgdaacs == pre.rgdaacs
}

/// Synchronizing the same configuration twice leaves the register
/// block exactly as the first synchronization left it: the slot words
/// written depend on the configuration alone, and nothing else is
/// touched.
pub proof fn lemma_configure_mpu_idempotent(
    m0: MpuRegisters,
    m1: MpuRegisters,
    m2: MpuRegisters,
    c: K66Config,
)
    requires
        spec_configure_rel(m0, m1, c),
        spec_configure_rel(m1, m2, c),
    ensures
        m2 == m1,
{
    assert forall|i: int| 0 <= i < 12 implies m2.rgds[i] == #[trigger] m1.rgds[i] by {
        if i < 11 {
            assert(spec_slot_matches(m1.rgds[i], c.regions[i]));
            assert(spec_slot_matches(m2.rgds[i], c.regions[i]));
        }
    }
    assert(m2.rgds =~= m1.rgds);
}

/// The MPU driver: owns the register block and exposes allocation and
/// synchronization to the kernel.
pub struct K66Mpu(pub MpuRegisters);

impl K66Mpu {
    /// A register block in its power-on state: the MPU disabled, the
    /// diagnostic registers clear, and hardware slot 0 set up by the
    /// boot ROM to grant the whole 4 GB space — its descriptor covers
    /// every granule and is valid, and its alternate access-control
    /// word grants user and supervisor code full access.
    pub fn new() -> (m: K66Mpu)
        ensures
            m.0.cesr.value == 0,
            forall|i: int|
                0 <= i < 5 ==> (#[trigger] m.0.ers[i]).ear.value == 0 && m.0.ers[i].edr.value == 0,
            m.0.rgds[0].rgd_word0.value == 0,
            m.0.rgds[0].rgd_word1.value == 0xFFFF_FFFF,
            m.0.rgds[0].rgd_word2.value == 0,
            m.0.rgds[0].rgd_word3.value == 1,
            forall|i: int|
                1 <= i < 12 ==> {
                    &&& (#[trigger] m.0.rgds[i]).rgd_word0.value == 0
                    &&& m.0.rgds[i].rgd_word1.value == 0
                    &&& m.0.rgds[i].rgd_word2.value == 0
                    &&& m.0.rgds[i].rgd_word3.value == 0
                },
            m.0.rgdaacs[0].0.value == 0b111,
            forall|i: int| 1 <= i < 12 ==> (#[trigger] m.0.rgdaacs[i]).0.value == 0,
    {
        let zero_pair = K66ErrorRegisters { ear: RO::new(0), edr: RO::new(0) };
        let zero_slot = K66RegionRegisters {
            rgd_word0: RW::new(0),
            rgd_word1: RW::new(0),
            rgd_word2: RW::new(0),
            rgd_word3: RW::new(0),
        };
        let mut rgds = [zero_slot;12];
        rgds[0] = K66RegionRegisters {
            rgd_word0: RW::new(0),
            rgd_word1: RW::new(0xFFFF_FFFF),
            rgd_word2: RW::new(0),
            rgd_word3: RW::new(1),
        };
        let mut rgdaacs = [MpuAlternateAccessControl(RW::new(0));12];
        rgdaacs[0] = MpuAlternateAccessControl(RW::new(0b111));
        K66Mpu(MpuRegisters { cesr: RW::new(0), ers: [zero_pair;5], rgds, rgdaacs })
    }

    /// Turns protection on. The boot-time reserved slot still covers
    /// the whole address space, so first its alternate access-control
    /// word is rewritten — supervisor access back to unrestricted
    /// read/write/execute, user-mode access bits cleared, so that
    /// unprivileged code does not inherit the boot-time all-memory
    /// grant — and only then is the global valid/enable bit set.
    pub fn enable_mpu(&mut self)
        ensures
            final(self).0.cesr.value == old(self).0.cesr.value | 1,
            final(self).0.rgdaacs[0].0.value == old(self).0.rgdaacs[0].0.value & 0xFFFF_FFE0,
            forall|i: int|
                1 <= i < 12 ==> (#[trigger] final(self).0.rgdaacs[i]) == old(self).0.rgdaacs[i],
            final(self).0.rgds == old(self).0.rgds,
            final(self).0.ers == old(self).0.ers,
    {
        let ghost aac0 = self.0.rgdaacs[0].0.value;
        // Supervisor mode back to full read/write/execute (code 0b00).
        self.0.rgdaacs[0].0.modify(FieldValue::<u32>::new(0b11, 3, 0));
        // User mode: no access to the reserved all-memory region.
        self.0.rgdaacs[0].0.modify(FieldValue::<u32>::new(0b111, 0, 0));
        proof {
            assert(((aac0 & !(0b11u32 << 3) | ((0u32 << 3) & (0b11u32 << 3))) & !((0b111u32
                << 0)) | ((0u32 << 0) & (0b111u32 << 0))) == aac0 & 0xFFFF_FFE0) by (bit_vector);
        }
        // Global valid/enable bit on.
        let ghost cesr0 = self.0.cesr.value;
        self.0.cesr.modify(FieldValue::<u32>::new(0b1, 0, 1));
        proof {
            assert((cesr0 & !(0b1u32 << 0) | ((1u32 << 0) & (0b1u32 << 0))) == (cesr0
                | 1u32)) by (bit_vector);
        }
    }

    /// Turns protection off: clears the global valid/enable bit and
    /// touches nothing else. Used only during controlled kernel
    /// operations, never while user code may run.
    pub fn disable_mpu(&mut self)
        ensures
            final(self).0.cesr.value == old(self).0.cesr.value & 0xFFFF_FFFE,
            final(self).0.rgds == old(self).0.rgds,
            final(self).0.rgdaacs == old(self).0.rgdaacs,
            final(self).0.ers == old(self).0.ers,
    {
        let ghost cesr0 = self.0.cesr.value;
        self.0.cesr.modify(FieldValue::<u32>::new(0b1, 0, 0));
        proof {
            assert((cesr0 & !(0b1u32 << 0) | ((0u32 << 0) & (0b1u32 << 0))) == (cesr0
                & 0xFFFF_FFFEu32)) by (bit_vector);
        }
    }

    /// Pushes a configuration into the hardware table: writes each of
    /// the eleven managed slots' descriptor words — for occupied slots
    /// the aligned range, the access-control word and the valid bit,
    /// for unused slots all-clear words so the slot is invalid. The
    /// valid-bit word is written last, so a partially written slot is
    /// never observed as valid. Total and idempotent: the written
    /// words depend on the configuration alone.
    pub fn configure_mpu(&mut self, config: &K66Config)
        ensures
            spec_configure_rel(old(self).0, final(self).0, *config),
    {
        let mut i: usize = 0;
        while i < 11
            invariant
                i <= 11,
                forall|k: int|
                    0 <= k < i ==> spec_slot_matches(#[trigger] self.0.rgds[k], config.regions[k]),
                forall|k: int| i <= k < 12 ==> #[trigger] self.0.rgds[k] == old(self).0.rgds[k],
                self.0.cesr == old(self).0.cesr,
                self.0.ers == old(self).0.ers,
                self.0.rgdaacs == old(self).0.rgdaacs,
            decreases 11 - i,
        {
            let d = config.regions[i];
            self.0.rgds[i].rgd_word0.write(d.rgd_word0);
            self.0.rgds[i].rgd_word1.write(d.rgd_word1);
            self.0.rgds[i].rgd_word2.write(d.rgd_word2);
            self.0.rgds[i].rgd_word3.write(d.rgd_word3);
            i = i + 1;
        }
    }
    /// Always eleven: the hardware has twelve region slots, but one is
    /// kept out of software's hands.
    pub fn number_total_regions(&self) -> (n: usize)
        ensures
            n == 11,
    {
        11
    }

    /// Carves a protection region out of the free span `[start, start
    /// + size)` for the whole span, stores its descriptor in the first
    /// free non-reserved slot, and returns where memory was granted.
    /// Fails with `None` — and leaves the configuration unchanged —
    /// when the span overlaps an occupied region, no slot is free, or
    /// the span is misaligned, empty, or out of range. The caller is
    /// expected to hand a span that holds `min_region_size`; the grant
    /// covers the whole span either way, so the minimum does not enter
    /// the contract.
    pub fn allocate_region(
        &self,
        unallocated_memory_start: u32,
        unallocated_memory_size: usize,
        min_region_size: usize,
        permissions: Permissions,
        config: &mut K66Config,
    ) -> (r: Option<Region>)
        requires
            old(config).wf(),
        ensures
            final(config).wf(),
            r.is_some() <==> spec_can_allocate(
                *old(config),
                unallocated_memory_start as int,
                unallocated_memory_size as int,
            ),
            match r {
                Some(region) => {
                    &&& region.start == unallocated_memory_start
                    &&& region.size == unallocated_memory_size
                    &&& region.start % 32 == 0
                    &&& region.size % 32 == 0
                    &&& exists|n: int|
                        {
                            &&& 1 <= n < 11
                            &&& old(config).regions[n].location.is_none()
                            &&& forall|j: int|
                                1 <= j < n ==> (#[trigger] old(
                                    config,
                                ).regions[j]).location.is_some()
                            &&& (#[trigger] final(config).regions[n]).location == Some(
                                (
                                    unallocated_memory_start,
                                    (unallocated_memory_start + unallocated_memory_size
                                        - 32) as u32,
                                ),
                            )
                            &&& final(config).regions[n].permissions == permissions
                            &&& !final(config).regions[n].super_as_user
                            &&& forall|j: int|
                                0 <= j < 11 && j != n ==> (#[trigger] final(config).regions[j])
                                    == old(config).regions[j]
                        }
                    &&& final(config).regions[0] == old(config).regions[0]
                    &&& final(config).app_memory_min_size == old(config).app_memory_min_size
                },
                None => *final(config) == *old(config),
            },
    {
        let start = unallocated_memory_start;
        if unallocated_memory_size > 0xFFFF_FFFFusize {
            return None;
        }
        let size: u32 = unallocated_memory_size as u32;
        // Step 1: the span must not intersect any occupied region,
        // the reserved app-memory slot included.
        let mut i: usize = 0;
        while i < 11
            invariant
                i <= 11,
                *config == *old(config),
                old(config).wf(),
                start == unallocated_memory_start,
                size == unallocated_memory_size,
                forall|k: int|
                    0 <= k < i ==> !(#[trigger] config.regions[k]).spec_overlaps(
                        start as int,
                        size as int,
                    ),
            decreases 11 - i,
        {
            if config.regions[i].overlaps(start, size) {
                return None;
            }
            i = i + 1;
        }
        // Step 2: first-fit slot search.
        let region_num = match config.unused_region_number() {
            Some(n) => n,
            None => {
                return None;
            },
        };
        // Step 3: the hardware addresses only this many slots, and
        // regions must be 32-byte aligned.
        if region_num >= 11 || start % 32 != 0 || size % 32 != 0 || size == 0 {
            return None;
        }
        if (start as u64) + (size as u64) > 0x1_0000_0000u64 {
            return None;
        }
        // Step 4: the end register holds the last 32-byte-aligned
        // address of the span; for an aligned span that is exactly 32
        // bytes below its exclusive end.
        let end: u32 = start + (size - 32);
        proof {
            vstd::arithmetic::div_mod::lemma_add_mod_noop(start as int, size as int, 32);
            vstd::arithmetic::div_mod::lemma_sub_mod_noop(
                start as int + size as int,
                32,
                32,
            );
        }
        // Step 5: store the descriptor; supervisor keeps full access.
        let region_descr = K66ConfigRegion::new(start, end, permissions, false);
        config.regions[region_num] = region_descr;
        proof {
            let n = region_num as int;
            assert forall|k: int| 0 <= k < 11 implies (#[trigger] config.regions[k]).wf() by {
                if k != n {
                    assert(config.regions[k] == old(config).regions[k]);
                }
            }
            assert forall|a: int, b: int|
                0 <= a < 11 && 0 <= b < 11 && a != b implies spec_ranges_disjoint(
                #[trigger] config.regions[a],
                #[trigger] config.regions[b],
            ) by {
                if a == n {
                    assert(!old(config).regions[b].spec_overlaps(start as int, size as int));
                } else if b == n {
                    assert(!old(config).regions[a].spec_overlaps(start as int, size as int));
                } else {
                    assert(config.regions[a] == old(config).regions[a]);
                    assert(config.regions[b] == old(config).regions[b]);
                }
            }
            assert(config.regions[n] == region_descr);
            assert(config.regions[n].location == Some((start, end)));
            assert(end as int == start as int + unallocated_memory_size as int - 32);
        }
        Some(Region::new(start, unallocated_memory_size))
    }

    /// Establishes the distinguished growable app-memory region at
    /// process creation, in the reserved descriptor slot.
    ///
    /// Growth policy: the process's memory block `[start, start +
    /// block)` is carved from the front of the free span; app memory
    /// grows upward from `start`, kernel-owned grant memory grows
    /// downward from `start + block`, and the protected region covers
    /// only the app part, initially `[start, start +
    /// spec_app_region_size(initial_app_memory_size))`. The block is
    /// the larger of `min_memory_size` and the two initial parts
    /// together, rounded up to whole granules. Returns the block's
    /// start and size, or `None` — with the configuration unchanged —
    /// when the region already exists, the request is trivial,
    /// misaligned, does not fit, or overlaps an occupied region.
    pub fn allocate_app_memory_region(
        &self,
        unallocated_memory_start: u32,
        unallocated_memory_size: usize,
        min_memory_size: usize,
        initial_app_memory_size: usize,
        initial_kernel_memory_size: usize,
        permissions: Permissions,
        config: &mut K66Config,
    ) -> (r: Option<(u32, usize)>)
        requires
            old(config).wf(),
        ensures
            final(config).wf(),
            r.is_some() <==> spec_can_allocate_app(
                *old(config),
                unallocated_memory_start as int,
                unallocated_memory_size as int,
                min_memory_size as int,
                initial_app_memory_size as int,
                initial_kernel_memory_size as int,
            ),
            match r {
                Some((addr, block)) => {
                    &&& addr == unallocated_memory_start
                    &&& block as int == spec_app_block_size(
                        min_memory_size as int,
                        initial_app_memory_size as int,
                        initial_kernel_memory_size as int,
                    )
                    &&& addr % 32 == 0
                    &&& block % 32 == 0
                    &&& (#[trigger] final(config).regions[0]).location == Some(
                        (
                            addr,
                            (addr + spec_app_region_size(initial_app_memory_size as int)
                                - 32) as u32,
                        ),
                    )
                    &&& final(config).regions[0].permissions == permissions
                    &&& !final(config).regions[0].super_as_user
                    &&& forall|j: int|
                        1 <= j < 11 ==> (#[trigger] final(config).regions[j]) == old(
                            config,
                        ).regions[j]
                    &&& final(config).app_memory_min_size as int == min_memory_size as int
                },
                None => *final(config) == *old(config),
            },
    {
        let ghost g_min = min_memory_size as int;
        let ghost g_app = initial_app_memory_size as int;
        let ghost g_kern = initial_kernel_memory_size as int;
        let ghost g_ideal = if g_min >= g_app + g_kern {
            g_min
        } else {
            g_app + g_kern
        };
        proof {
            lemma_round_up_to_granule(g_ideal);
            if g_app > 0 {
                lemma_round_up_to_granule(g_app);
            }
        }
        let start = unallocated_memory_start;
        if config.regions[APP_MEMORY_REGION_NUM].location().is_some() {
            return None;
        }
        if start % 32 != 0 {
            return None;
        }
        let min64 = min_memory_size as u64;
        let app64 = initial_app_memory_size as u64;
        let kern64 = initial_kernel_memory_size as u64;
        if min64 == 0 && app64 == 0 && kern64 == 0 {
            return None;
        }
        if min64 > 0xFFFF_FFE0 || app64 > 0xFFFF_FFE0 || kern64 > 0xFFFF_FFE0 {
            return None;
        }
        let sum64 = app64 + kern64;
        let ideal64 = if min64 >= sum64 {
            min64
        } else {
            sum64
        };
        if ideal64 > 0xFFFF_FFE0 {
            return None;
        }
        let block: u32 = round_up_to_granule(ideal64 as u32);
        proof {
            // The largest granule-aligned 32-bit size bounds the
            // rounded block because rounding is monotone.
            vstd::arithmetic::div_mod::lemma_div_is_ordered(
                g_ideal + 31,
                0xFFFF_FFE0int + 31,
                32,
            );
            assert((0xFFFF_FFE0int + 31) / 32 * 32 == 0xFFFF_FFE0);
        }
        if (block as u64) > (unallocated_memory_size as u64) {
            return None;
        }
        if (start as u64) + (block as u64) > 0x1_0000_0000u64 {
            return None;
        }
        let app_region: u32 = if initial_app_memory_size == 0 {
            32
        } else {
            round_up_to_granule(app64 as u32)
        };
        if (app_region as u64) + kern64 > (block as u64) {
            return None;
        }
        // The whole block, the kernel tail included, must be free of
        // other regions.
        let mut i: usize = 0;
        while i < 11
            invariant
                i <= 11,
                *config == *old(config),
                old(config).wf(),
                start == unallocated_memory_start,
                block as int == spec_app_block_size(
                    min_memory_size as int,
                    initial_app_memory_size as int,
                    initial_kernel_memory_size as int,
                ),
                forall|k: int|
                    0 <= k < i ==> !(#[trigger] config.regions[k]).spec_overlaps(
                        start as int,
                        block as int,
                    ),
            decreases 11 - i,
        {
            if config.regions[i].overlaps(start, block) {
                return None;
            }
            i = i + 1;
        }
        let end: u32 = start + (app_region - 32);
        proof {
            vstd::arithmetic::div_mod::lemma_add_mod_noop(start as int, app_region as int, 32);
            vstd::arithmetic::div_mod::lemma_sub_mod_noop(
                start as int + app_region as int,
                32,
                32,
            );
        }
        let region_descr = K66ConfigRegion::new(start, end, permissions, false);
        config.regions[APP_MEMORY_REGION_NUM] = region_descr;
        config.app_memory_min_size = min_memory_size as u32;
        proof {
            assert forall|k: int| 0 <= k < 11 implies (#[trigger] config.regions[k]).wf() by {
                if k != 0 {
                    assert(config.regions[k] == old(config).regions[k]);
                }
            }
            assert forall|a: int, b: int|
                0 <= a < 11 && 0 <= b < 11 && a != b implies spec_ranges_disjoint(
                #[trigger] config.regions[a],
                #[trigger] config.regions[b],
            ) by {
                if a == 0 {
                    assert(!old(config).regions[b].spec_overlaps(start as int, block as int));
                } else if b == 0 {
                    assert(!old(config).regions[a].spec_overlaps(start as int, block as int));
                } else {
                    assert(config.regions[a] == old(config).regions[a]);
                    assert(config.regions[b] == old(config).regions[b]);
                }
            }
            assert(config.regions[0] == region_descr);
        }
        Some((start, block as usize))
    }

    /// Re-encodes the app-memory region for a new process break.
    ///
    /// Growth policy: the region's start is fixed where the block was
    /// established; `app_memory_break` is the first address past the
    /// process's app memory and becomes the region's new exclusive
    /// end; `kernel_memory_break` is the lowest address of the
    /// kernel-reserved tail growing down from the block's top. Fails
    /// with `Err(())` — rather than silently truncating, and with the
    /// configuration unchanged — when no app-memory region exists, the
    /// break is not granule-aligned, would shrink the region below the
    /// minimum remembered at creation (or below one granule), would
    /// reach the kernel-reserved tail, or would overlap another
    /// occupied region.
    pub fn update_app_memory_region(
        &self,
        app_memory_break: u32,
        kernel_memory_break: u32,
        permissions: Permissions,
        config: &mut K66Config,
    ) -> (r: Result<(), ()>)
        requires
            old(config).wf(),
        ensures
            final(config).wf(),
            r.is_ok() <==> spec_can_update_app(
                *old(config),
                app_memory_break as int,
                kernel_memory_break as int,
            ),
            match r {
                Ok(()) => {
                    &&& (#[trigger] final(config).regions[0]).location == Some(
                        (
                            old(config).regions[0].spec_base_address() as u32,
                            (app_memory_break - 32) as u32,
                        ),
                    )
                    &&& final(config).regions[0].permissions == permissions
                    &&& !final(config).regions[0].super_as_user
                    &&& forall|j: int|
                        1 <= j < 11 ==> (#[trigger] final(config).regions[j]) == old(
                            config,
                        ).regions[j]
                    &&& final(config).app_memory_min_size == old(config).app_memory_min_size
                },
                Err(()) => *final(config) == *old(config),
            },
    {
        let s = match config.regions[APP_MEMORY_REGION_NUM].location() {
            Some((s, _)) => s,
            None => {
                return Err(());
            },
        };
        if app_memory_break % 32 != 0 {
            return Err(());
        }
        if app_memory_break <= s {
            return Err(());
        }
        let new_size: u32 = app_memory_break - s;
        if new_size < config.app_memory_min_size {
            return Err(());
        }
        if app_memory_break > kernel_memory_break {
            return Err(());
        }
        // The grown region must stay clear of every other region.
        let mut i: usize = 1;
        while i < 11
            invariant
                1 <= i <= 11,
                *config == *old(config),
                old(config).wf(),
                s as int == old(config).regions[0].spec_base_address(),
                new_size == app_memory_break - s,
                app_memory_break > s,
                forall|k: int|
                    1 <= k < i ==> !(#[trigger] config.regions[k]).spec_overlaps(
                        s as int,
                        new_size as int,
                    ),
            decreases 11 - i,
        {
            if config.regions[i].overlaps(s, new_size) {
                return Err(());
            }
            i = i + 1;
        }
        proof {
            // The break and the region start are both granule-aligned,
            // so the region keeps whole granules and is non-empty.
            vstd::arithmetic::div_mod::lemma_sub_mod_noop(
                app_memory_break as int,
                32,
                32,
            );
            vstd::arithmetic::div_mod::lemma_fundamental_div_mod(new_size as int, 32);
            vstd::arithmetic::div_mod::lemma_sub_mod_noop(
                app_memory_break as int,
                s as int,
                32,
            );
        }
        let end: u32 = app_memory_break - 32;
        let region_descr = K66ConfigRegion::new(s, end, permissions, false);
        config.regions[APP_MEMORY_REGION_NUM] = region_descr;
        proof {
            assert forall|k: int| 0 <= k < 11 implies (#[trigger] config.regions[k]).wf() by {
                if k != 0 {
                    assert(config.regions[k] == old(config).regions[k]);
                }
            }
            assert forall|a: int, b: int|
                0 <= a < 11 && 0 <= b < 11 && a != b implies spec_ranges_disjoint(
                #[trigger] config.regions[a],
                #[trigger] config.regions[b],
            ) by {
                if a == 0 {
                    assert(!old(config).regions[b].spec_overlaps(s as int, new_size as int));
                } else if b == 0 {
                    assert(!old(config).regions[a].spec_overlaps(s as int, new_size as int));
                } else {
                    assert(config.regions[a] == old(config).regions[a]);
                    assert(config.regions[b] == old(config).regions[b]);
                }
            }
            assert(config.regions[0] == region_descr);
        }
        Ok(())
    }
}

} // verus!
