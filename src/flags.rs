//! The bit set that qualifies map accesses.
use vstd::prelude::*;

verus! {

/// Bit of `NO_EXIST`: an update must fail if the key is present.
pub const NO_EXIST_BIT: u64 = 1;

/// Bit of `EXIST`: an update must fail if the key is absent.
pub const EXIST_BIT: u64 = 2;

/// Bit of `LOCK`: the access takes the map element's spin lock.
pub const LOCK_BIT: u64 = 4;

/// Every bit that has a meaning.
pub const ALL_BITS: u64 = 7;

/// Flags that configure a map access. `ANY` is the empty set.
#[derive(Debug, Clone, Copy, PartialEq, Eq, Hash)]
pub struct MapFlags {
    bits: u64,
}

impl View for MapFlags {
    type V = u64;

    closed spec fn view(&self) -> u64 {
        self.bits
    }
}

impl MapFlags {
    /// No ordering constraint: create or replace.
    pub fn any() -> (r: MapFlags)
        ensures
            r@ == 0,
    {
        MapFlags { bits: 0 }
    }

    /// Create only: fail if the key is present.
    pub fn no_exist() -> (r: MapFlags)
        ensures
            r@ == NO_EXIST_BIT,
    {
        MapFlags { bits: NO_EXIST_BIT }
    }

    /// Replace only: fail if the key is absent.
    pub fn exist() -> (r: MapFlags)
        ensures
            r@ == EXIST_BIT,
    {
        MapFlags { bits: EXIST_BIT }
    }

    /// Use the map element's spin lock.
    pub fn lock() -> (r: MapFlags)
        ensures
            r@ == LOCK_BIT,
    {
        MapFlags { bits: LOCK_BIT }
    }

    /// The raw value handed to the kernel.
    pub fn bits(&self) -> (r: u64)
        ensures
            r == self@,
    {
        self.bits
    }

    /// The flags whose bits are `bits`, if every set bit has a meaning.
    pub fn from_bits(bits: u64) -> (r: Option<MapFlags>)
        ensures
            (bits & !ALL_BITS == 0) ==> (r matches Some(f) && f@ == bits),
            (bits & !ALL_BITS != 0) ==> r is None,
    {
        if bits & !ALL_BITS == 0 {
            Some(MapFlags { bits })
        } else {
            None
        }
    }

    /// The flags whose bits are those of `bits` that have a meaning.
    pub fn from_bits_truncate(bits: u64) -> (r: MapFlags)
        ensures
            r@ == bits & ALL_BITS,
    {
        MapFlags { bits: bits & ALL_BITS }
    }

    /// True when no flag is set (that is, `ANY`).
    pub fn is_empty(&self) -> (r: bool)
        ensures
            r == (self@ == 0),
    {
        self.bits == 0
    }

    /// True when every flag of `other` is set in `self`.
    pub fn contains(&self, other: MapFlags) -> (r: bool)
        ensures
            r == (self@ & other@ == other@),
    {
        self.bits & other.bits == other.bits
    }

    /// The flags set in either.
    pub fn union(&self, other: MapFlags) -> (r: MapFlags)
        ensures
            r@ == self@ | other@,
    {
        MapFlags { bits: self.bits | other.bits }
    }

    /// The flags set in both.
    pub fn intersection(&self, other: MapFlags) -> (r: MapFlags)
        ensures
            r@ == self@ & other@,
    {
        MapFlags { bits: self.bits & other.bits }
    }
}

} // verus!
