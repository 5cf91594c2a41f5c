//! Guest-memory translation.
//!
//! A contract runs against a set of host buffers, each claiming a range of
//! guest addresses with a load or store permission. Every guest pointer a
//! syscall receives goes through this module: the requested range is checked
//! against the mapping (bounds, permission, alignment, length overflow)
//! before any byte is read or written. No other code path performs address
//! arithmetic.

use vstd::prelude::*;
use vstd::bytes::{spec_u32_from_le_bytes, spec_u64_from_le_bytes, u32_from_le_bytes, u64_from_le_bytes, spec_u32_to_le_bytes, u32_to_le_bytes};
use vstd::slice::{slice_subrange, slice_to_vec};
use vstd::utf8::{valid_utf8, decode_utf8};

verus! {

/// Kind of guest-memory access being requested.
#[derive(Clone, Copy, Debug, PartialEq, Eq, Structural)]
pub enum AccessType {
    /// Read access.
    Load,
    /// Write access.
    Store,
}

/// Error types for memory translation operations.
#[derive(Debug, Clone, Copy, PartialEq, Eq, Structural)]
pub enum MemoryTranslationError {
    /// Pointer is not properly aligned.
    UnalignedPointer,
    /// Length is invalid or would cause overflow.
    InvalidLength,
    /// Bytes are not valid UTF-8.
    InvalidString,
    /// No region grants the requested access to the requested range.
    AccessViolation {
        /// The guest address of the rejected request.
        address: u64,
    },
}

/// One host buffer backing a range of guest addresses.
pub struct MemoryRegion {
    /// First guest address the buffer claims.
    pub vm_addr: u64,
    /// The host bytes backing `[vm_addr, vm_addr + data.len())`.
    pub data: Vec<u8>,
    /// Whether stores are permitted.
    pub writable: bool,
}

/// The mathematical model of one region: its claimed range, contents and
/// permission.
pub struct RegionModel {
    /// First guest address the region claims.
    pub vm_addr: u64,
    /// The bytes the region holds.
    pub data: Seq<u8>,
    /// Whether stores are permitted.
    pub writable: bool,
}

impl View for MemoryRegion {
    type V = RegionModel;

    open spec fn view(&self) -> RegionModel {
        RegionModel { vm_addr: self.vm_addr, data: self.data@, writable: self.writable }
    }
}

impl MemoryRegion {
    /// A region that only grants loads.
    pub fn new_readonly(data: Vec<u8>, vm_addr: u64) -> (r: Self)
        ensures
            r@ == (RegionModel { vm_addr, data: data@, writable: false }),
    {
        MemoryRegion { vm_addr, data, writable: false }
    }

    /// A region that grants loads and stores.
    pub fn new_writable(data: Vec<u8>, vm_addr: u64) -> (r: Self)
        ensures
            r@ == (RegionModel { vm_addr, data: data@, writable: true }),
    {
        MemoryRegion { vm_addr, data, writable: true }
    }
}

/// Whether `region` grants `access` to the whole guest range `[addr, addr + len)`.
pub open spec fn region_grants(region: RegionModel, access: AccessType, addr: int, len: int) -> bool {
    &&& region.vm_addr <= addr
    &&& addr + len <= region.vm_addr + region.data.len()
    &&& (access is Store ==> region.writable)
}

/// Index of the first region granting the request, scanning from position `i`.
pub open spec fn first_region_from(
    regions: Seq<RegionModel>,
    access: AccessType,
    addr: int,
    len: int,
    i: int,
) -> Option<int>
    decreases regions.len() - i,
{
    if i < 0 || i >= regions.len() {
        None
    } else if region_grants(regions[i], access, addr, len) {
        Some(i)
    } else {
        first_region_from(regions, access, addr, len, i + 1)
    }
}

/// Index of the first region granting `access` to `[addr, addr + len)`.
pub open spec fn first_region(
    regions: Seq<RegionModel>,
    access: AccessType,
    addr: int,
    len: int,
) -> Option<int> {
    first_region_from(regions, access, addr, len, 0)
}

/// The bytes a load of `[addr, addr + len)` resolves to, when some region
/// grants it.
pub open spec fn spec_load(regions: Seq<RegionModel>, addr: int, len: int) -> Option<Seq<u8>> {
    match first_region(regions, AccessType::Load, addr, len) {
        Some(i) => {
            let off = addr - regions[i].vm_addr;
            Some(regions[i].data.subrange(off, off + len))
        },
        None => None,
    }
}

/// The regions after a store of `bytes` at `addr`, when some region grants it.
pub open spec fn spec_store(
    regions: Seq<RegionModel>,
    addr: int,
    bytes: Seq<u8>,
) -> Option<Seq<RegionModel>> {
    match first_region(regions, AccessType::Store, addr, bytes.len() as int) {
        Some(i) => {
            let off = addr - regions[i].vm_addr;
            let data = regions[i].data;
            let updated = data.subrange(0, off) + bytes + data.subrange(off + bytes.len(), data.len() as int);
            Some(regions.update(i, RegionModel { data: updated, ..regions[i] }))
        },
        None => None,
    }
}

proof fn lemma_first_region_from_props(
    regions: Seq<RegionModel>,
    access: AccessType,
    addr: int,
    len: int,
    i: int,
)
    requires
        0 <= i <= regions.len(),
    ensures
        match first_region_from(regions, access, addr, len, i) {
            Some(j) => i <= j < regions.len() && region_grants(regions[j], access, addr, len),
            None => forall|j: int| i <= j < regions.len() ==> !region_grants(regions[j], access, addr, len),
        },
    decreases regions.len() - i,
{
    if i < regions.len() && !region_grants(regions[i], access, addr, len) {
        lemma_first_region_from_props(regions, access, addr, len, i + 1);
    }
}

/// The set of host buffers a contract execution may touch, each claiming a
/// guest address range.
pub struct MemoryMapping {
    regions: Vec<MemoryRegion>,
}

impl View for MemoryMapping {
    type V = Seq<RegionModel>;

    closed spec fn view(&self) -> Seq<RegionModel> {
        self.regions@.map_values(|r: MemoryRegion| r@)
    }
}

impl MemoryMapping {
    /// Builds a mapping from the given regions; earlier regions take
    /// precedence where ranges overlap.
    pub fn new(regions: Vec<MemoryRegion>) -> (r: Self)
        ensures
            r@ == regions@.map_values(|region: MemoryRegion| region@),
    {
        MemoryMapping { regions }
    }

    /// Resolves `access` to `[vm_addr, vm_addr + len)` against the regions:
    /// the index of the first granting region and the offset into it, or a
    /// fault when no region grants the whole range with that permission.
    pub fn map(&self, access: AccessType, vm_addr: u64, len: u64) -> (r: Result<
        (usize, usize),
        MemoryTranslationError,
    >)
        ensures
            match first_region(self@, access, vm_addr as int, len as int) {
                Some(i) => r == Ok::<(usize, usize), MemoryTranslationError>(
                    (i as usize, (vm_addr - self@[i].vm_addr) as usize),
                ),
                None => r == Err::<(usize, usize), MemoryTranslationError>(
                    MemoryTranslationError::AccessViolation { address: vm_addr },
                ),
            },
    {
        let ghost m = self@;
        let n = self.regions.len();
        let mut i: usize = 0;
        while i < n
            invariant
                0 <= i <= n,
                n == self.regions.len(),
                m == self@,
                first_region(m, access, vm_addr as int, len as int) == first_region_from(
                    m,
                    access,
                    vm_addr as int,
                    len as int,
                    i as int,
                ),
            decreases n - i,
        {
            let region = &self.regions[i];
            let data_len = region.data.len() as u64;
            let store_ok = match access {
                AccessType::Load => true,
                AccessType::Store => region.writable,
            };
            if store_ok && vm_addr >= region.vm_addr && len <= data_len && vm_addr - region.vm_addr
                <= data_len - len {
                let offset = vm_addr - region.vm_addr;
                assert(region_grants(m[i as int], access, vm_addr as int, len as int));
                return Ok((i, offset as usize));
            }
            assert(!region_grants(m[i as int], access, vm_addr as int, len as int));
            i += 1;
        }
        Err(MemoryTranslationError::AccessViolation { address: vm_addr })
    }

    /// Stores `data` at guest address `vm_addr`, when a region grants store
    /// access to the whole range; on a fault nothing changes.
    pub fn write_bytes(&mut self, vm_addr: u64, data: &[u8]) -> (r: Result<
        (),
        MemoryTranslationError,
    >)
        ensures
            match spec_store(old(self)@, vm_addr as int, data@) {
                Some(m2) => r == Ok::<(), MemoryTranslationError>(()) && final(self)@ == m2,
                None => r == Err::<(), MemoryTranslationError>(
                    MemoryTranslationError::AccessViolation { address: vm_addr },
                ) && final(self)@ == old(self)@,
            },
    {
        let n = data.len();
        let (i, off) = match self.map(AccessType::Store, vm_addr, n as u64) {
            Ok(pair) => pair,
            Err(e) => {
                return Err(e);
            },
        };
        let region_count = self.regions.len();
        proof {
            lemma_first_region_from_props(self@, AccessType::Store, vm_addr as int, n as int, 0);
            let fr = first_region(self@, AccessType::Store, vm_addr as int, n as int);
            assert(fr is Some);
            let j = fr->Some_0;
            assert(0 <= j < self@.len());
            assert(self@.len() == region_count);
            assert(region_grants(self@[j], AccessType::Store, vm_addr as int, n as int));
            assert(i as int == j);
            assert(self@[i as int] == self.regions@[i as int]@);
            assert(region_grants(self@[i as int], AccessType::Store, vm_addr as int, n as int));
        }
        let region_len = self.regions[i].data.len();
        proof {
            assert(self@[i as int].data.len() == region_len);
            assert(vm_addr - self@[i as int].vm_addr <= region_len);
            assert(off == vm_addr - self@[i as int].vm_addr);
            assert(off + n <= region_len);
        }
        let mut nd: Vec<u8> = Vec::new();
        let mut k: usize = 0;
        while k < off
            invariant
                0 <= k <= off,
                off + n <= region_len,
                i < self.regions.len(),
                region_len == self.regions[i as int].data.len(),
                nd@ == self.regions[i as int].data@.subrange(0, k as int),
            decreases off - k,
        {
            nd.push(self.regions[i].data[k]);
            k += 1;
        }
        let mut k: usize = 0;
        while k < n
            invariant
                0 <= k <= n,
                off + n <= region_len,
                i < self.regions.len(),
                region_len == self.regions[i as int].data.len(),
                n == data.len(),
                nd@ == self.regions[i as int].data@.subrange(0, off as int) + data@.subrange(
                    0,
                    k as int,
                ),
            decreases n - k,
        {
            nd.push(data[k]);
            k += 1;
        }
        let mut k: usize = off + n;
        while k < region_len
            invariant
                off + n <= k <= region_len,
                i < self.regions.len(),
                region_len == self.regions[i as int].data.len(),
                n == data.len(),
                nd@ == self.regions[i as int].data@.subrange(0, off as int) + data@
                    + self.regions[i as int].data@.subrange(off + n, k as int),
            decreases region_len - k,
        {
            nd.push(self.regions[i].data[k]);
            k += 1;
        }
        let vm_base = self.regions[i].vm_addr;
        let writable = self.regions[i].writable;
        let replaced = MemoryRegion { vm_addr: vm_base, data: nd, writable };
        let _removed = self.regions.remove(i);
        self.regions.insert(i, replaced);
        proof {
            let m2 = spec_store(old(self)@, vm_addr as int, data@);
            assert(final(self)@ =~= m2.unwrap());
        }
        Ok(())
    }

    /// Loads `len` bytes from guest address `vm_addr`, when a region grants
    /// load access to the whole range.
    pub fn load_bytes(&self, vm_addr: u64, len: usize) -> (r: Result<
        Vec<u8>,
        MemoryTranslationError,
    >)
        ensures
            match spec_load(self@, vm_addr as int, len as int) {
                Some(b) => r matches Ok(v) && v@ == b && b.len() == len,
                None => r == Err::<Vec<u8>, MemoryTranslationError>(
                    MemoryTranslationError::AccessViolation { address: vm_addr },
                ),
            },
    {
        let (i, off) = match self.map(AccessType::Load, vm_addr, len as u64) {
            Ok(pair) => pair,
            Err(e) => {
                return Err(e);
            },
        };
        let region_count = self.regions.len();
        proof {
            lemma_first_region_from_props(self@, AccessType::Load, vm_addr as int, len as int, 0);
            let fr = first_region(self@, AccessType::Load, vm_addr as int, len as int);
            let j = fr->Some_0;
            assert(self@.len() == region_count);
            assert(region_grants(self@[j], AccessType::Load, vm_addr as int, len as int));
            assert(i as int == j);
            assert(self@[i as int] == self.regions@[i as int]@);
        }
        let region_len = self.regions[i].data.len();
        proof {
            assert(vm_addr - self@[i as int].vm_addr <= region_len);
            assert(off == vm_addr - self@[i as int].vm_addr);
            assert(off + len <= region_len);
        }
        let s = slice_subrange(self.regions[i].data.as_slice(), off, off + len);
        Ok(slice_to_vec(s))
    }
}

/// The outcome of a byte-slice translation: a zero length short-circuits to
/// an empty result without consulting the regions; a length over `isize` is
/// rejected; otherwise the load is resolved against the regions.
pub open spec fn spec_translate_slice(
    regions: Seq<RegionModel>,
    vm_addr: u64,
    len: u64,
) -> Result<Seq<u8>, MemoryTranslationError> {
    if len == 0 {
        Ok(Seq::<u8>::empty())
    } else if len > isize::MAX as u64 {
        Err(MemoryTranslationError::InvalidLength)
    } else {
        match spec_load(regions, vm_addr as int, len as int) {
            Some(b) => Ok(b),
            None => Err(MemoryTranslationError::AccessViolation { address: vm_addr }),
        }
    }
}

/// Check if an address is a multiple of the given alignment.
pub fn address_is_aligned(address: u64, align: u64) -> (r: bool)
    requires
        align >= 1,
    ensures
        r == (address % align == 0),
{
    address % align == 0
}

/// Translate a guest address range to the bytes it holds (load access).
///
/// A `len` of zero short-circuits to an empty result without consulting the
/// mapping at all. A `len` whose byte count cannot be represented as a host
/// `isize` is rejected as `InvalidLength`. Byte slices have an alignment of
/// one, so `check_aligned` never rejects here; the flag is part of the shared
/// translation interface.
pub fn translate_slice(
    memory_mapping: &MemoryMapping,
    vm_addr: u64,
    len: u64,
    check_aligned: bool,
) -> (r: Result<Vec<u8>, MemoryTranslationError>)
    ensures
        match spec_translate_slice(memory_mapping@, vm_addr, len) {
            Ok(b) => r matches Ok(v) && v@ == b && b.len() == len,
            Err(e) => r == Err::<Vec<u8>, MemoryTranslationError>(e),
        },
{
    if len == 0 {
        let empty: Vec<u8> = Vec::new();
        return Ok(empty);
    }
    if len > isize::MAX as u64 {
        return Err(MemoryTranslationError::InvalidLength);
    }
    if check_aligned && !address_is_aligned(vm_addr, 1) {
        return Err(MemoryTranslationError::UnalignedPointer);
    }
    memory_mapping.load_bytes(vm_addr, len as usize)
}

/// Translate a guest address to the `u32` stored there in little-endian
/// order (load access for four bytes).
///
/// With `check_aligned` set, an address that is not a multiple of four is
/// rejected as `UnalignedPointer` before the mapping is consulted.
pub fn translate_u32(
    memory_mapping: &MemoryMapping,
    vm_addr: u64,
    check_aligned: bool,
) -> (r: Result<u32, MemoryTranslationError>)
    ensures
        check_aligned && vm_addr % 4 != 0 ==> r == Err::<u32, MemoryTranslationError>(
            MemoryTranslationError::UnalignedPointer,
        ),
        (!check_aligned || vm_addr % 4 == 0) ==> match spec_load(
            memory_mapping@,
            vm_addr as int,
            4,
        ) {
            Some(b) => r == Ok::<u32, MemoryTranslationError>(spec_u32_from_le_bytes(b)),
            None => r == Err::<u32, MemoryTranslationError>(
                MemoryTranslationError::AccessViolation { address: vm_addr },
            ),
        },
{
    if check_aligned && !address_is_aligned(vm_addr, 4) {
        return Err(MemoryTranslationError::UnalignedPointer);
    }
    let bytes = match memory_mapping.load_bytes(vm_addr, 4) {
        Ok(b) => b,
        Err(e) => {
            return Err(e);
        },
    };
    Ok(u32_from_le_bytes(bytes.as_slice()))
}

/// Translate a guest address to the `u64` stored there in little-endian
/// order (load access for eight bytes).
///
/// With `check_aligned` set, an address that is not a multiple of eight is
/// rejected as `UnalignedPointer` before the mapping is consulted.
pub fn translate_u64(
    memory_mapping: &MemoryMapping,
    vm_addr: u64,
    check_aligned: bool,
) -> (r: Result<u64, MemoryTranslationError>)
    ensures
        check_aligned && vm_addr % 8 != 0 ==> r == Err::<u64, MemoryTranslationError>(
            MemoryTranslationError::UnalignedPointer,
        ),
        (!check_aligned || vm_addr % 8 == 0) ==> match spec_load(
            memory_mapping@,
            vm_addr as int,
            8,
        ) {
            Some(b) => r == Ok::<u64, MemoryTranslationError>(spec_u64_from_le_bytes(b)),
            None => r == Err::<u64, MemoryTranslationError>(
                MemoryTranslationError::AccessViolation { address: vm_addr },
            ),
        },
{
    if check_aligned && !address_is_aligned(vm_addr, 8) {
        return Err(MemoryTranslationError::UnalignedPointer);
    }
    let bytes = match memory_mapping.load_bytes(vm_addr, 8) {
        Ok(b) => b,
        Err(e) => {
            return Err(e);
        },
    };
    Ok(u64_from_le_bytes(bytes.as_slice()))
}

/// Store a `u32` at a guest address in little-endian order (store access for
/// four bytes); the mutable counterpart of [`translate_u32`], with identical
/// validation.
pub fn write_u32(
    memory_mapping: &mut MemoryMapping,
    vm_addr: u64,
    value: u32,
    check_aligned: bool,
) -> (r: Result<(), MemoryTranslationError>)
    ensures
        check_aligned && vm_addr % 4 != 0 ==> r == Err::<(), MemoryTranslationError>(
            MemoryTranslationError::UnalignedPointer,
        ) && final(memory_mapping)@ == old(memory_mapping)@,
        (!check_aligned || vm_addr % 4 == 0) ==> match spec_store(
            old(memory_mapping)@,
            vm_addr as int,
            spec_u32_to_le_bytes(value),
        ) {
            Some(m2) => r == Ok::<(), MemoryTranslationError>(()) && final(memory_mapping)@ == m2,
            None => r == Err::<(), MemoryTranslationError>(
                MemoryTranslationError::AccessViolation { address: vm_addr },
            ) && final(memory_mapping)@ == old(memory_mapping)@,
        },
{
    if check_aligned && !address_is_aligned(vm_addr, 4) {
        return Err(MemoryTranslationError::UnalignedPointer);
    }
    let bytes = u32_to_le_bytes(value);
    memory_mapping.write_bytes(vm_addr, bytes.as_slice())
}

/// Relies on `String::from_utf8` of std: it succeeds exactly on input that is
/// valid UTF-8, and then returns the decoded characters of the bytes it was
/// given.
#[verifier::external_body]
pub(crate) fn string_from_utf8(bytes: Vec<u8>) -> (r: Option<String>)
    ensures
        r is Some <==> valid_utf8(bytes@),
        r matches Some(s) ==> s@ == decode_utf8(bytes@),
{
    match String::from_utf8(bytes) {
        Ok(s) => Some(s),
        Err(_) => None,
    }
}

/// Translate a guest address range to the UTF-8 string it holds.
///
/// Delegates to [`translate_slice`] (no alignment requirement) and then
/// validates the bytes; invalid UTF-8 is reported as the distinct
/// `InvalidString` error, never repaired or truncated.
pub fn translate_string(memory_mapping: &MemoryMapping, vm_addr: u64, len: u64) -> (r: Result<
    String,
    MemoryTranslationError,
>)
    ensures
        len == 0 ==> (r matches Ok(s) && s@ === Seq::<char>::empty()),
        len > isize::MAX as u64 ==> r == Err::<String, MemoryTranslationError>(
            MemoryTranslationError::InvalidLength,
        ),
        0 < len <= isize::MAX as u64 ==> match spec_load(
            memory_mapping@,
            vm_addr as int,
            len as int,
        ) {
            Some(b) => if valid_utf8(b) {
                r matches Ok(s) && s@ == decode_utf8(b)
            } else {
                r == Err::<String, MemoryTranslationError>(MemoryTranslationError::InvalidString)
            },
            None => r == Err::<String, MemoryTranslationError>(
                MemoryTranslationError::AccessViolation { address: vm_addr },
            ),
        },
{
    let bytes = match translate_slice(memory_mapping, vm_addr, len, false) {
        Ok(b) => b,
        Err(e) => {
            return Err(e);
        },
    };
    proof {
        if len == 0 {
            assert(valid_utf8(bytes@));
            assert(decode_utf8(bytes@) === Seq::<char>::empty());
        }
    }
    match string_from_utf8(bytes) {
        Some(s) => Ok(s),
        None => Err(MemoryTranslationError::InvalidString),
    }
}

/// A 32-byte identifier read out of a byte slice of that exact length.
pub fn bytes32_from_slice(bytes: &[u8]) -> (r: [u8; 32])
    requires
        bytes@.len() == 32,
    ensures
        r@ == bytes@,
{
    let mut out = [0u8; 32];
    let mut i: usize = 0;
    while i < 32
        invariant
            0 <= i <= 32,
            bytes@.len() == 32,
            forall|j: int| 0 <= j < i ==> out@[j] == bytes@[j],
        decreases 32 - i,
    {
        out[i] = bytes[i];
        i += 1;
    }
    proof {
        assert(out@ =~= bytes@);
    }
    out
}

} // verus!
