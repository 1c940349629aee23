//! Kinds of BPF maps, as the kernel ABI numbers them.
use vstd::prelude::*;

verus! {

/// Type of a map: `enum bpf_map_type` of the kernel ABI.
#[derive(Debug, Clone, Copy, PartialEq, Eq, Structural, Hash)]
pub enum MapType {
    Unspec,
    Hash,
    Array,
    ProgArray,
    PerfEventArray,
    PercpuHash,
    PercpuArray,
    StackTrace,
    CgroupArray,
    LruHash,
    LruPercpuHash,
    LpmTrie,
    ArrayOfMaps,
    HashOfMaps,
    Devmap,
    Sockmap,
    Cpumap,
    Xskmap,
    Sockhash,
    CgroupStorage,
    ReuseportSockarray,
    PercpuCgroupStorage,
    Queue,
    Stack,
    SkStorage,
    DevmapHash,
    StructOps,
    RingBuf,
    /// A value this library does not know: the kernel decides whether it is valid.
    Unknown,
}

/// Number of map types with a known value; they are numbered from zero.
pub const MAP_TYPE_COUNT: u32 = 28;

impl MapType {
    /// The kernel ABI value of this variant.
    pub open spec fn code(self) -> u32 {
        match self {
            MapType::Unspec => 0,
            MapType::Hash => 1,
            MapType::Array => 2,
            MapType::ProgArray => 3,
            MapType::PerfEventArray => 4,
            MapType::PercpuHash => 5,
            MapType::PercpuArray => 6,
            MapType::StackTrace => 7,
            MapType::CgroupArray => 8,
            MapType::LruHash => 9,
            MapType::LruPercpuHash => 10,
            MapType::LpmTrie => 11,
            MapType::ArrayOfMaps => 12,
            MapType::HashOfMaps => 13,
            MapType::Devmap => 14,
            MapType::Sockmap => 15,
            MapType::Cpumap => 16,
            MapType::Xskmap => 17,
            MapType::Sockhash => 18,
            MapType::CgroupStorage => 19,
            MapType::ReuseportSockarray => 20,
            MapType::PercpuCgroupStorage => 21,
            MapType::Queue => 22,
            MapType::Stack => 23,
            MapType::SkStorage => 24,
            MapType::DevmapHash => 25,
            MapType::StructOps => 26,
            MapType::RingBuf => 27,
            MapType::Unknown => u32::MAX,
        }
    }

    /// The variant's name, as it is printed.
    pub open spec fn spec_name(self) -> Seq<char> {
        match self {
            MapType::Unspec => "Unspec"@,
            MapType::Hash => "Hash"@,
            MapType::Array => "Array"@,
            MapType::ProgArray => "ProgArray"@,
            MapType::PerfEventArray => "PerfEventArray"@,
            MapType::PercpuHash => "PercpuHash"@,
            MapType::PercpuArray => "PercpuArray"@,
            MapType::StackTrace => "StackTrace"@,
            MapType::CgroupArray => "CgroupArray"@,
            MapType::LruHash => "LruHash"@,
            MapType::LruPercpuHash => "LruPercpuHash"@,
            MapType::LpmTrie => "LpmTrie"@,
            MapType::ArrayOfMaps => "ArrayOfMaps"@,
            MapType::HashOfMaps => "HashOfMaps"@,
            MapType::Devmap => "Devmap"@,
            MapType::Sockmap => "Sockmap"@,
            MapType::Cpumap => "Cpumap"@,
            MapType::Xskmap => "Xskmap"@,
            MapType::Sockhash => "Sockhash"@,
            MapType::CgroupStorage => "CgroupStorage"@,
            MapType::ReuseportSockarray => "ReuseportSockarray"@,
            MapType::PercpuCgroupStorage => "PercpuCgroupStorage"@,
            MapType::Queue => "Queue"@,
            MapType::Stack => "Stack"@,
            MapType::SkStorage => "SkStorage"@,
            MapType::DevmapHash => "DevmapHash"@,
            MapType::StructOps => "StructOps"@,
            MapType::RingBuf => "RingBuf"@,
            MapType::Unknown => "Unknown"@,
        }
    }

    /// The variant whose kernel ABI value is `v`; `Unknown` for a value no
    /// variant has.
    pub open spec fn from_code(v: u32) -> MapType {
        if exists|t: MapType| t.code() == v {
            choose|t: MapType| t.code() == v
        } else {
            MapType::Unknown
        }
    }

    /// Distinct variants have distinct kernel ABI values.
    pub proof fn lemma_code_injective(a: MapType, b: MapType)
        ensures
            a.code() == b.code() ==> a == b,
    {
    }

    /// Reading back a variant's kernel ABI value gives the variant again.
    pub proof fn lemma_raw_round_trip(t: MapType)
        ensures
            MapType::from_code(t.code()) == t,
    {
        let c = choose|u: MapType| u.code() == t.code();
        MapType::lemma_code_injective(c, t);
    }

    /// Every variant's kernel ABI value is a known one.
    pub proof fn lemma_code_known(t: MapType)
        ensures
            t.code() < MAP_TYPE_COUNT || t.code() == u32::MAX,
    {
    }

    /// The kernel ABI value of this variant.
    pub fn to_raw(&self) -> (r: u32)
        ensures
            r == self.code(),
    {
        match self {
            MapType::Unspec => 0,
            MapType::Hash => 1,
            MapType::Array => 2,
            MapType::ProgArray => 3,
            MapType::PerfEventArray => 4,
            MapType::PercpuHash => 5,
            MapType::PercpuArray => 6,
            MapType::StackTrace => 7,
            MapType::CgroupArray => 8,
            MapType::LruHash => 9,
            MapType::LruPercpuHash => 10,
            MapType::LpmTrie => 11,
            MapType::ArrayOfMaps => 12,
            MapType::HashOfMaps => 13,
            MapType::Devmap => 14,
            MapType::Sockmap => 15,
            MapType::Cpumap => 16,
            MapType::Xskmap => 17,
            MapType::Sockhash => 18,
            MapType::CgroupStorage => 19,
            MapType::ReuseportSockarray => 20,
            MapType::PercpuCgroupStorage => 21,
            MapType::Queue => 22,
            MapType::Stack => 23,
            MapType::SkStorage => 24,
            MapType::DevmapHash => 25,
            MapType::StructOps => 26,
            MapType::RingBuf => 27,
            MapType::Unknown => u32::MAX,
        }
    }

    /// The variant whose kernel ABI value is `v`, if there is one.
    pub fn try_from_raw(v: u32) -> (r: Option<MapType>)
        ensures
            r is Some <==> (v < MAP_TYPE_COUNT || v == u32::MAX),
            r matches Some(t) ==> t.code() == v,
            r matches Some(t) ==> t == MapType::from_code(v),
            r is None ==> MapType::from_code(v) == MapType::Unknown,
    {
        let r = match v {
            0 => Some(MapType::Unspec),
            1 => Some(MapType::Hash),
            2 => Some(MapType::Array),
            3 => Some(MapType::ProgArray),
            4 => Some(MapType::PerfEventArray),
            5 => Some(MapType::PercpuHash),
            6 => Some(MapType::PercpuArray),
            7 => Some(MapType::StackTrace),
            8 => Some(MapType::CgroupArray),
            9 => Some(MapType::LruHash),
            10 => Some(MapType::LruPercpuHash),
            11 => Some(MapType::LpmTrie),
            12 => Some(MapType::ArrayOfMaps),
            13 => Some(MapType::HashOfMaps),
            14 => Some(MapType::Devmap),
            15 => Some(MapType::Sockmap),
            16 => Some(MapType::Cpumap),
            17 => Some(MapType::Xskmap),
            18 => Some(MapType::Sockhash),
            19 => Some(MapType::CgroupStorage),
            20 => Some(MapType::ReuseportSockarray),
            21 => Some(MapType::PercpuCgroupStorage),
            22 => Some(MapType::Queue),
            23 => Some(MapType::Stack),
            24 => Some(MapType::SkStorage),
            25 => Some(MapType::DevmapHash),
            26 => Some(MapType::StructOps),
            27 => Some(MapType::RingBuf),
            0xffff_ffff => Some(MapType::Unknown),
            _ => None,
        };
        proof {
            if let Some(t) = r {
                assert(t.code() == v);
                assert forall|u: MapType| u.code() == v implies u == t by {
                    MapType::lemma_code_injective(u, t);
                }
                assert(MapType::from_code(v) == t);
            } else {
                assert forall|u: MapType| u.code() != v by {
                    MapType::lemma_code_known(u);
                }
            }
        }
        r
    }

    /// The variant whose kernel ABI value is `v`; `Unknown` for a value this
    /// library does not know.
    pub fn from_raw(v: u32) -> (r: MapType)
        ensures
            r == MapType::from_code(v),
            v < MAP_TYPE_COUNT || v == u32::MAX ==> r.code() == v,
            !(v < MAP_TYPE_COUNT || v == u32::MAX) ==> r == MapType::Unknown,
    {
        match MapType::try_from_raw(v) {
            Some(t) => t,
            None => MapType::Unknown,
        }
    }

    /// The variant's name, as it is printed.
    pub fn name(&self) -> (r: &'static str)
        ensures
            r@ == self.spec_name(),
    {
        match self {
            MapType::Unspec => "Unspec",
            MapType::Hash => "Hash",
            MapType::Array => "Array",
            MapType::ProgArray => "ProgArray",
            MapType::PerfEventArray => "PerfEventArray",
            MapType::PercpuHash => "PercpuHash",
            MapType::PercpuArray => "PercpuArray",
            MapType::StackTrace => "StackTrace",
            MapType::CgroupArray => "CgroupArray",
            MapType::LruHash => "LruHash",
            MapType::LruPercpuHash => "LruPercpuHash",
            MapType::LpmTrie => "LpmTrie",
            MapType::ArrayOfMaps => "ArrayOfMaps",
            MapType::HashOfMaps => "HashOfMaps",
            MapType::Devmap => "Devmap",
            MapType::Sockmap => "Sockmap",
            MapType::Cpumap => "Cpumap",
            MapType::Xskmap => "Xskmap",
            MapType::Sockhash => "Sockhash",
            MapType::CgroupStorage => "CgroupStorage",
            MapType::ReuseportSockarray => "ReuseportSockarray",
            MapType::PercpuCgroupStorage => "PercpuCgroupStorage",
            MapType::Queue => "Queue",
            MapType::Stack => "Stack",
            MapType::SkStorage => "SkStorage",
            MapType::DevmapHash => "DevmapHash",
            MapType::StructOps => "StructOps",
            MapType::RingBuf => "RingBuf",
            MapType::Unknown => "Unknown",
        }
    }
}

} // verus!

