//! Stable memory as the rest of the library sees it: a manager that hands
//! out regions, a map from ids to byte strings in one region, and a cell
//! that holds one number in another.
//!
//! Nothing in this file is proved. Each function below makes one call into
//! `ic_stable_structures`, and its contract says what that call does to the
//! contents of the map or the cell.

use vstd::prelude::*;
use ic_stable_structures::cell::{InitError, ValueError};
use ic_stable_structures::memory_manager::{MemoryId, MemoryManager, VirtualMemory};
use ic_stable_structures::storable::{Blob, TryFromSliceError};
use ic_stable_structures::{Cell, DefaultMemoryImpl, StableBTreeMap};

verus! {

/// The largest stored value, in bytes.
pub const MAX_VALUE_BYTES: usize = 1024;

/// `ic_stable_structures::storable::Blob`: a byte string of bounded length.
#[verifier::external_type_specification]
#[verifier::external_body]
pub struct ExBlob<const N: usize>(Blob<N>);

/// The error of `Blob::try_from`.
#[verifier::external_type_specification]
#[verifier::external_body]
pub struct ExTryFromSliceError(TryFromSliceError);

/// The error of `Cell::set`.
#[verifier::external_type_specification]
#[verifier::external_body]
pub struct ExValueError(ValueError);

/// The error of `Cell::init`.
#[verifier::external_type_specification]
#[verifier::external_body]
pub struct ExInitError(InitError);

/// A `MemoryManager` over the default memory. Its type has a bound on an
/// outside trait, so it is held here rather than declared.
#[verifier::external_body]
pub struct Regions {
    manager: MemoryManager<DefaultMemoryImpl>,
}

/// One `VirtualMemory` of a manager, not yet opened as a map or a cell.
#[verifier::external_body]
pub struct Region {
    memory: VirtualMemory<DefaultMemoryImpl>,
}

/// A `StableBTreeMap` from `u64` keys to blobs of at most
/// `MAX_VALUE_BYTES` bytes.
#[verifier::external_body]
pub struct DurableMap {
    inner: StableBTreeMap<u64, Blob<1024>, VirtualMemory<DefaultMemoryImpl>>,
}

/// A `Cell` that holds one `u64`.
#[verifier::external_body]
pub struct DurableCell {
    inner: Cell<u64, VirtualMemory<DefaultMemoryImpl>>,
}

/// The bytes that a blob holds.
pub uninterp spec fn blob_bytes(b: Blob<1024>) -> Seq<u8>;

/// The entries that a map holds, each value as its bytes.
pub uninterp spec fn map_contents(m: DurableMap) -> Map<u64, Seq<u8>>;

/// The number that a cell holds.
pub uninterp spec fn cell_value(c: DurableCell) -> u64;

/// `MemoryManager::init` over `DefaultMemoryImpl::default()`. Nothing is
/// claimed of the result. The call does not return where the memory holds a
/// manager of another layout version.
#[verifier::external_body]
pub(crate) fn manager_init() -> Regions {
    Regions { manager: MemoryManager::init(DefaultMemoryImpl::default()) }
}

impl Regions {
    /// The regions of the default memory: the stable memory of a canister,
    /// and a fresh memory, empty at first, elsewhere. A process opens them
    /// once: two managers over one memory would write over each other.
    pub fn open() -> Regions {
        manager_init()
    }
}

/// `MemoryManager::get` with `MemoryId::new(id)`. Nothing is claimed of the
/// result. `MemoryId::new` panics on 255, which the precondition leaves out.
#[verifier::external_body]
pub(crate) fn manager_get(regions: &Regions, id: u8) -> Region
    requires
        id < 255,
{
    Region { memory: regions.manager.get(MemoryId::new(id)) }
}

/// `StableBTreeMap::init`: the map that the region holds, or an empty one
/// where it holds none. Nothing is claimed of its contents. The call does
/// not return where the region holds a map of another layout version or of
/// smaller key or value bounds.
#[verifier::external_body]
pub(crate) fn map_init(region: Region) -> DurableMap {
    DurableMap { inner: StableBTreeMap::init(region.memory) }
}

/// `Cell::init` with the default 0: the cell that the region holds, or a
/// new one that holds 0. Nothing is claimed of its value. The call does not
/// return where the region holds a cell whose value is not eight bytes.
#[verifier::external_body]
pub(crate) fn cell_init(region: Region) -> Result<DurableCell, InitError> {
    match Cell::init(region.memory, 0u64) {
        Ok(inner) => Ok(DurableCell { inner }),
        Err(e) => Err(e),
    }
}

/// `Cell::get`: the number that the cell holds.
#[verifier::external_body]
pub(crate) fn cell_get(c: &DurableCell) -> (v: u64)
    ensures
        v == cell_value(*c),
{
    *c.inner.get()
}

/// `Cell::set`: on success the cell holds `value` and the number it held
/// before is returned; on failure the cell is unchanged.
#[verifier::external_body]
pub(crate) fn cell_set(c: &mut DurableCell, value: u64) -> (r: Result<u64, ValueError>)
    ensures
        r matches Ok(before) ==> before == cell_value(*old(c)) && cell_value(*final(c)) == value,
        r is Err ==> cell_value(*final(c)) == cell_value(*old(c)),
{
    c.inner.set(value)
}

/// `Blob::try_from` on a slice: a blob of the same bytes, or an error where
/// the slice is longer than the blob's bound.
#[verifier::external_body]
pub(crate) fn blob_from(bytes: &[u8]) -> (r: Result<Blob<1024>, TryFromSliceError>)
    ensures
        r is Ok <==> bytes@.len() <= MAX_VALUE_BYTES,
        r matches Ok(b) ==> blob_bytes(b) == bytes@,
{
    Blob::try_from(bytes)
}

/// `Blob::as_slice`, copied into a vector: the bytes that the blob holds,
/// which are no more than its bound.
#[verifier::external_body]
pub(crate) fn blob_to_vec(b: &Blob<1024>) -> (v: Vec<u8>)
    ensures
        v@ == blob_bytes(*b),
        v@.len() <= MAX_VALUE_BYTES,
{
    b.as_slice().to_vec()
}

/// `StableBTreeMap::get`: the value under `key`, if there is one.
#[verifier::external_body]
pub(crate) fn map_get(m: &DurableMap, key: u64) -> (r: Option<Blob<1024>>)
    ensures
        r matches Some(b) ==> map_contents(*m).contains_key(key) && map_contents(*m)[key]
            == blob_bytes(b),
        r is None ==> !map_contents(*m).contains_key(key),
{
    m.inner.get(&key)
}

/// `StableBTreeMap::insert`: afterwards `key` maps to `value` and every
/// other entry is as before; the value that `key` had before is returned.
/// The call does not return where the region cannot grow.
#[verifier::external_body]
pub(crate) fn map_insert(m: &mut DurableMap, key: u64, value: Blob<1024>) -> (r: Option<
    Blob<1024>,
>)
    ensures
        map_contents(*final(m)) == map_contents(*old(m)).insert(key, blob_bytes(value)),
        r matches Some(b) ==> map_contents(*old(m)).contains_key(key) && map_contents(
            *old(m),
        )[key] == blob_bytes(b),
        r is None ==> !map_contents(*old(m)).contains_key(key),
{
    m.inner.insert(key, value)
}

/// `StableBTreeMap::remove`: afterwards `key` has no entry and every other
/// entry is as before; the value that `key` had before is returned.
#[verifier::external_body]
pub(crate) fn map_remove(m: &mut DurableMap, key: u64) -> (r: Option<Blob<1024>>)
    ensures
        map_contents(*final(m)) == map_contents(*old(m)).remove(key),
        r matches Some(b) ==> map_contents(*old(m)).contains_key(key) && map_contents(
            *old(m),
        )[key] == blob_bytes(b),
        r is None ==> !map_contents(*old(m)).contains_key(key),
{
    m.inner.remove(&key)
}

/// `StableBTreeMap::iter`, collected: every entry of the map once, in
/// ascending order of the keys.
#[verifier::external_body]
pub(crate) fn map_entries(m: &DurableMap) -> (out: Vec<(u64, Blob<1024>)>)
    ensures
        forall|i: int, j: int| 0 <= i < j < out@.len() ==> out@[i].0 < out@[j].0,
        forall|i: int|
            0 <= i < out@.len() ==> map_contents(*m).contains_key(#[trigger] out@[i].0)
                && map_contents(*m)[out@[i].0] == blob_bytes(out@[i].1),
        forall|k: u64|
            map_contents(*m).contains_key(k) ==> exists|i: int|
                0 <= i < out@.len() && #[trigger] out@[i].0 == k,
{
    m.inner.iter().collect()
}

} // verus!
