//! Kinds of BPF programs and their attach types, as the kernel ABI numbers them.
use vstd::prelude::*;

verus! {

/// Type of a program: `enum bpf_prog_type` of the kernel ABI.
#[derive(Debug, Clone, Copy, PartialEq, Eq, Structural, Hash)]
pub enum ProgramType {
    Unspec,
    SocketFilter,
    Kprobe,
    SchedCls,
    SchedAct,
    Tracepoint,
    Xdp,
    PerfEvent,
    CgroupSkb,
    CgroupSock,
    LwtIn,
    LwtOut,
    LwtXmit,
    SockOps,
    SkSkb,
    CgroupDevice,
    SkMsg,
    RawTracepoint,
    CgroupSockAddr,
    LwtSeg6local,
    LircMode2,
    SkReuseport,
    FlowDissector,
    CgroupSysctl,
    RawTracepointWritable,
    CgroupSockopt,
    Tracing,
    StructOps,
    Ext,
    Lsm,
    /// A value this library does not know: the kernel decides whether it is valid.
    Unknown,
}

/// Number of program types with a known value; they are numbered from zero.
pub const PROGRAM_TYPE_COUNT: u32 = 30;

impl ProgramType {
    /// The kernel ABI value of this variant.
    pub open spec fn code(self) -> u32 {
        match self {
            ProgramType::Unspec => 0,
            ProgramType::SocketFilter => 1,
            ProgramType::Kprobe => 2,
            ProgramType::SchedCls => 3,
            ProgramType::SchedAct => 4,
            ProgramType::Tracepoint => 5,
            ProgramType::Xdp => 6,
            ProgramType::PerfEvent => 7,
            ProgramType::CgroupSkb => 8,
            ProgramType::CgroupSock => 9,
            ProgramType::LwtIn => 10,
            ProgramType::LwtOut => 11,
            ProgramType::LwtXmit => 12,
            ProgramType::SockOps => 13,
            ProgramType::SkSkb => 14,
            ProgramType::CgroupDevice => 15,
            ProgramType::SkMsg => 16,
            ProgramType::RawTracepoint => 17,
            ProgramType::CgroupSockAddr => 18,
            ProgramType::LwtSeg6local => 19,
            ProgramType::LircMode2 => 20,
            ProgramType::SkReuseport => 21,
            ProgramType::FlowDissector => 22,
            ProgramType::CgroupSysctl => 23,
            ProgramType::RawTracepointWritable => 24,
            ProgramType::CgroupSockopt => 25,
            ProgramType::Tracing => 26,
            ProgramType::StructOps => 27,
            ProgramType::Ext => 28,
            ProgramType::Lsm => 29,
            ProgramType::Unknown => u32::MAX,
        }
    }

    /// The variant's name, as it is printed.
    pub open spec fn spec_name(self) -> Seq<char> {
        match self {
            ProgramType::Unspec => "Unspec"@,
            ProgramType::SocketFilter => "SocketFilter"@,
            ProgramType::Kprobe => "Kprobe"@,
            ProgramType::SchedCls => "SchedCls"@,
            ProgramType::SchedAct => "SchedAct"@,
            ProgramType::Tracepoint => "Tracepoint"@,
            ProgramType::Xdp => "Xdp"@,
            ProgramType::PerfEvent => "PerfEvent"@,
            ProgramType::CgroupSkb => "CgroupSkb"@,
            ProgramType::CgroupSock => "CgroupSock"@,
            ProgramType::LwtIn => "LwtIn"@,
            ProgramType::LwtOut => "LwtOut"@,
            ProgramType::LwtXmit => "LwtXmit"@,
            ProgramType::SockOps => "SockOps"@,
            ProgramType::SkSkb => "SkSkb"@,
            ProgramType::CgroupDevice => "CgroupDevice"@,
            ProgramType::SkMsg => "SkMsg"@,
            ProgramType::RawTracepoint => "RawTracepoint"@,
            ProgramType::CgroupSockAddr => "CgroupSockAddr"@,
            ProgramType::LwtSeg6local => "LwtSeg6local"@,
            ProgramType::LircMode2 => "LircMode2"@,
            ProgramType::SkReuseport => "SkReuseport"@,
            ProgramType::FlowDissector => "FlowDissector"@,
            ProgramType::CgroupSysctl => "CgroupSysctl"@,
            ProgramType::RawTracepointWritable => "RawTracepointWritable"@,
            ProgramType::CgroupSockopt => "CgroupSockopt"@,
            ProgramType::Tracing => "Tracing"@,
            ProgramType::StructOps => "StructOps"@,
            ProgramType::Ext => "Ext"@,
            ProgramType::Lsm => "Lsm"@,
            ProgramType::Unknown => "Unknown"@,
        }
    }

    /// The variant whose kernel ABI value is `v`; `Unknown` for a value no
    /// variant has.
    pub open spec fn from_code(v: u32) -> ProgramType {
        if exists|t: ProgramType| t.code() == v {
            choose|t: ProgramType| t.code() == v
        } else {
            ProgramType::Unknown
        }
    }

    /// Distinct variants have distinct kernel ABI values.
    pub proof fn lemma_code_injective(a: ProgramType, b: ProgramType)
        ensures
            a.code() == b.code() ==> a == b,
    {
    }

    /// Reading back a variant's kernel ABI value gives the variant again.
    pub proof fn lemma_raw_round_trip(t: ProgramType)
        ensures
            ProgramType::from_code(t.code()) == t,
    {
        let c = choose|u: ProgramType| u.code() == t.code();
        ProgramType::lemma_code_injective(c, t);
    }

    /// Every variant's kernel ABI value is a known one.
    pub proof fn lemma_code_known(t: ProgramType)
        ensures
            t.code() < PROGRAM_TYPE_COUNT || t.code() == u32::MAX,
    {
    }

    /// The kernel ABI value of this variant.
    pub fn to_raw(&self) -> (r: u32)
        ensures
            r == self.code(),
    {
        match self {
            ProgramType::Unspec => 0,
            ProgramType::SocketFilter => 1,
            ProgramType::Kprobe => 2,
            ProgramType::SchedCls => 3,
            ProgramType::SchedAct => 4,
            ProgramType::Tracepoint => 5,
            ProgramType::Xdp => 6,
            ProgramType::PerfEvent => 7,
            ProgramType::CgroupSkb => 8,
            ProgramType::CgroupSock => 9,
            ProgramType::LwtIn => 10,
            ProgramType::LwtOut => 11,
            ProgramType::LwtXmit => 12,
            ProgramType::SockOps => 13,
            ProgramType::SkSkb => 14,
            ProgramType::CgroupDevice => 15,
            ProgramType::SkMsg => 16,
            ProgramType::RawTracepoint => 17,
            ProgramType::CgroupSockAddr => 18,
            ProgramType::LwtSeg6local => 19,
            ProgramType::LircMode2 => 20,
            ProgramType::SkReuseport => 21,
            ProgramType::FlowDissector => 22,
            ProgramType::CgroupSysctl => 23,
            ProgramType::RawTracepointWritable => 24,
            ProgramType::CgroupSockopt => 25,
            ProgramType::Tracing => 26,
            ProgramType::StructOps => 27,
            ProgramType::Ext => 28,
            ProgramType::Lsm => 29,
            ProgramType::Unknown => u32::MAX,
        }
    }

    /// The variant whose kernel ABI value is `v`, if there is one.
    pub fn try_from_raw(v: u32) -> (r: Option<ProgramType>)
        ensures
            r is Some <==> (v < PROGRAM_TYPE_COUNT || v == u32::MAX),
            r matches Some(t) ==> t.code() == v,
            r matches Some(t) ==> t == ProgramType::from_code(v),
            r is None ==> ProgramType::from_code(v) == ProgramType::Unknown,
    {
        let r = match v {
            0 => Some(ProgramType::Unspec),
            1 => Some(ProgramType::SocketFilter),
            2 => Some(ProgramType::Kprobe),
            3 => Some(ProgramType::SchedCls),
            4 => Some(ProgramType::SchedAct),
            5 => Some(ProgramType::Tracepoint),
            6 => Some(ProgramType::Xdp),
            7 => Some(ProgramType::PerfEvent),
            8 => Some(ProgramType::CgroupSkb),
            9 => Some(ProgramType::CgroupSock),
            10 => Some(ProgramType::LwtIn),
            11 => Some(ProgramType::LwtOut),
            12 => Some(ProgramType::LwtXmit),
            13 => Some(ProgramType::SockOps),
            14 => Some(ProgramType::SkSkb),
            15 => Some(ProgramType::CgroupDevice),
            16 => Some(ProgramType::SkMsg),
            17 => Some(ProgramType::RawTracepoint),
            18 => Some(ProgramType::CgroupSockAddr),
            19 => Some(ProgramType::LwtSeg6local),
            20 => Some(ProgramType::LircMode2),
            21 => Some(ProgramType::SkReuseport),
            22 => Some(ProgramType::FlowDissector),
            23 => Some(ProgramType::CgroupSysctl),
            24 => Some(ProgramType::RawTracepointWritable),
            25 => Some(ProgramType::CgroupSockopt),
            26 => Some(ProgramType::Tracing),
            27 => Some(ProgramType::StructOps),
            28 => Some(ProgramType::Ext),
            29 => Some(ProgramType::Lsm),
            0xffff_ffff => Some(ProgramType::Unknown),
            _ => None,
        };
        proof {
            if let Some(t) = r {
                assert(t.code() == v);
                assert forall|u: ProgramType| u.code() == v implies u == t by {
                    ProgramType::lemma_code_injective(u, t);
                }
                assert(ProgramType::from_code(v) == t);
            } else {
                assert forall|u: ProgramType| u.code() != v by {
                    ProgramType::lemma_code_known(u);
                }
            }
        }
        r
    }

    /// The variant whose kernel ABI value is `v`; `Unknown` for a value this
    /// library does not know.
    pub fn from_raw(v: u32) -> (r: ProgramType)
        ensures
            r == ProgramType::from_code(v),
            v < PROGRAM_TYPE_COUNT || v == u32::MAX ==> r.code() == v,
            !(v < PROGRAM_TYPE_COUNT || v == u32::MAX) ==> r == ProgramType::Unknown,
    {
        match ProgramType::try_from_raw(v) {
            Some(t) => t,
            None => ProgramType::Unknown,
        }
    }

    /// The variant's name, as it is printed.
    pub fn name(&self) -> (r: &'static str)
        ensures
            r@ == self.spec_name(),
    {
        match self {
            ProgramType::Unspec => "Unspec",
            ProgramType::SocketFilter => "SocketFilter",
            ProgramType::Kprobe => "Kprobe",
            ProgramType::SchedCls => "SchedCls",
            ProgramType::SchedAct => "SchedAct",
            ProgramType::Tracepoint => "Tracepoint",
            ProgramType::Xdp => "Xdp",
            ProgramType::PerfEvent => "PerfEvent",
            ProgramType::CgroupSkb => "CgroupSkb",
            ProgramType::CgroupSock => "CgroupSock",
            ProgramType::LwtIn => "LwtIn",
            ProgramType::LwtOut => "LwtOut",
            ProgramType::LwtXmit => "LwtXmit",
            ProgramType::SockOps => "SockOps",
            ProgramType::SkSkb => "SkSkb",
            ProgramType::CgroupDevice => "CgroupDevice",
            ProgramType::SkMsg => "SkMsg",
            ProgramType::RawTracepoint => "RawTracepoint",
            ProgramType::CgroupSockAddr => "CgroupSockAddr",
            ProgramType::LwtSeg6local => "LwtSeg6local",
            ProgramType::LircMode2 => "LircMode2",
            ProgramType::SkReuseport => "SkReuseport",
            ProgramType::FlowDissector => "FlowDissector",
            ProgramType::CgroupSysctl => "CgroupSysctl",
            ProgramType::RawTracepointWritable => "RawTracepointWritable",
            ProgramType::CgroupSockopt => "CgroupSockopt",
            ProgramType::Tracing => "Tracing",
            ProgramType::StructOps => "StructOps",
            ProgramType::Ext => "Ext",
            ProgramType::Lsm => "Lsm",
            ProgramType::Unknown => "Unknown",
        }
    }
}

/// Attach type of a program: `enum bpf_attach_type` of the kernel ABI.
#[derive(Debug, Clone, Copy, PartialEq, Eq, Structural, Hash)]
pub enum ProgramAttachType {
    CgroupInetIngress,
    CgroupInetEgress,
    CgroupInetSockCreate,
    CgroupSockOps,
    SkSkbStreamParser,
    SkSkbStreamVerdict,
    CgroupDevice,
    SkMsgVerdict,
    CgroupInet4Bind,
    CgroupInet6Bind,
    CgroupInet4Connect,
    CgroupInet6Connect,
    CgroupInet4PostBind,
    CgroupInet6PostBind,
    CgroupUdp4Sendmsg,
    CgroupUdp6Sendmsg,
    LircMode2,
    FlowDissector,
    CgroupSysctl,
    CgroupUdp4Recvmsg,
    CgroupUdp6Recvmsg,
    CgroupGetsockopt,
    CgroupSetsockopt,
    TraceRawTp,
    TraceFentry,
    TraceFexit,
    ModifyReturn,
    LsmMac,
    /// A value this library does not know: the kernel decides whether it is valid.
    Unknown,
}

/// Number of attach types with a known value; they are numbered from zero.
pub const ATTACH_TYPE_COUNT: u32 = 28;

impl ProgramAttachType {
    /// The kernel ABI value of this variant.
    pub open spec fn code(self) -> u32 {
        match self {
            ProgramAttachType::CgroupInetIngress => 0,
            ProgramAttachType::CgroupInetEgress => 1,
            ProgramAttachType::CgroupInetSockCreate => 2,
            ProgramAttachType::CgroupSockOps => 3,
            ProgramAttachType::SkSkbStreamParser => 4,
            ProgramAttachType::SkSkbStreamVerdict => 5,
            ProgramAttachType::CgroupDevice => 6,
            ProgramAttachType::SkMsgVerdict => 7,
            ProgramAttachType::CgroupInet4Bind => 8,
            ProgramAttachType::CgroupInet6Bind => 9,
            ProgramAttachType::CgroupInet4Connect => 10,
            ProgramAttachType::CgroupInet6Connect => 11,
            ProgramAttachType::CgroupInet4PostBind => 12,
            ProgramAttachType::CgroupInet6PostBind => 13,
            ProgramAttachType::CgroupUdp4Sendmsg => 14,
            ProgramAttachType::CgroupUdp6Sendmsg => 15,
            ProgramAttachType::LircMode2 => 16,
            ProgramAttachType::FlowDissector => 17,
            ProgramAttachType::CgroupSysctl => 18,
            ProgramAttachType::CgroupUdp4Recvmsg => 19,
            ProgramAttachType::CgroupUdp6Recvmsg => 20,
            ProgramAttachType::CgroupGetsockopt => 21,
            ProgramAttachType::CgroupSetsockopt => 22,
            ProgramAttachType::TraceRawTp => 23,
            ProgramAttachType::TraceFentry => 24,
            ProgramAttachType::TraceFexit => 25,
            ProgramAttachType::ModifyReturn => 26,
            ProgramAttachType::LsmMac => 27,
            ProgramAttachType::Unknown => u32::MAX,
        }
    }

    /// The variant's name, as it is printed.
    pub open spec fn spec_name(self) -> Seq<char> {
        match self {
            ProgramAttachType::CgroupInetIngress => "CgroupInetIngress"@,
            ProgramAttachType::CgroupInetEgress => "CgroupInetEgress"@,
            ProgramAttachType::CgroupInetSockCreate => "CgroupInetSockCreate"@,
            ProgramAttachType::CgroupSockOps => "CgroupSockOps"@,
            ProgramAttachType::SkSkbStreamParser => "SkSkbStreamParser"@,
            ProgramAttachType::SkSkbStreamVerdict => "SkSkbStreamVerdict"@,
            ProgramAttachType::CgroupDevice => "CgroupDevice"@,
            ProgramAttachType::SkMsgVerdict => "SkMsgVerdict"@,
            ProgramAttachType::CgroupInet4Bind => "CgroupInet4Bind"@,
            ProgramAttachType::CgroupInet6Bind => "CgroupInet6Bind"@,
            ProgramAttachType::CgroupInet4Connect => "CgroupInet4Connect"@,
            ProgramAttachType::CgroupInet6Connect => "CgroupInet6Connect"@,
            ProgramAttachType::CgroupInet4PostBind => "CgroupInet4PostBind"@,
            ProgramAttachType::CgroupInet6PostBind => "CgroupInet6PostBind"@,
            ProgramAttachType::CgroupUdp4Sendmsg => "CgroupUdp4Sendmsg"@,
            ProgramAttachType::CgroupUdp6Sendmsg => "CgroupUdp6Sendmsg"@,
            ProgramAttachType::LircMode2 => "LircMode2"@,
            ProgramAttachType::FlowDissector => "FlowDissector"@,
            ProgramAttachType::CgroupSysctl => "CgroupSysctl"@,
            ProgramAttachType::CgroupUdp4Recvmsg => "CgroupUdp4Recvmsg"@,
            ProgramAttachType::CgroupUdp6Recvmsg => "CgroupUdp6Recvmsg"@,
            ProgramAttachType::CgroupGetsockopt => "CgroupGetsockopt"@,
            ProgramAttachType::CgroupSetsockopt => "CgroupSetsockopt"@,
            ProgramAttachType::TraceRawTp => "TraceRawTp"@,
            ProgramAttachType::TraceFentry => "TraceFentry"@,
            ProgramAttachType::TraceFexit => "TraceFexit"@,
            ProgramAttachType::ModifyReturn => "ModifyReturn"@,
            ProgramAttachType::LsmMac => "LsmMac"@,
            ProgramAttachType::Unknown => "Unknown"@,
        }
    }

    /// The variant whose kernel ABI value is `v`; `Unknown` for a value no
    /// variant has.
    pub open spec fn from_code(v: u32) -> ProgramAttachType {
        if exists|t: ProgramAttachType| t.code() == v {
            choose|t: ProgramAttachType| t.code() == v
        } else {
            ProgramAttachType::Unknown
        }
    }

    /// Distinct variants have distinct kernel ABI values.
    pub proof fn lemma_code_injective(a: ProgramAttachType, b: ProgramAttachType)
        ensures
            a.code() == b.code() ==> a == b,
    {
    }

    /// Reading back a variant's kernel ABI value gives the variant again.
    pub proof fn lemma_raw_round_trip(t: ProgramAttachType)
        ensures
            ProgramAttachType::from_code(t.code()) == t,
    {
        let c = choose|u: ProgramAttachType| u.code() == t.code();
        ProgramAttachType::lemma_code_injective(c, t);
    }

    /// Every variant's kernel ABI value is a known one.
    pub proof fn lemma_code_known(t: ProgramAttachType)
        ensures
            t.code() < ATTACH_TYPE_COUNT || t.code() == u32::MAX,
    {
    }

    /// The kernel ABI value of this variant.
    pub fn to_raw(&self) -> (r: u32)
        ensures
            r == self.code(),
    {
        match self {
            ProgramAttachType::CgroupInetIngress => 0,
            ProgramAttachType::CgroupInetEgress => 1,
            ProgramAttachType::CgroupInetSockCreate => 2,
            ProgramAttachType::CgroupSockOps => 3,
            ProgramAttachType::SkSkbStreamParser => 4,
            ProgramAttachType::SkSkbStreamVerdict => 5,
            ProgramAttachType::CgroupDevice => 6,
            ProgramAttachType::SkMsgVerdict => 7,
            ProgramAttachType::CgroupInet4Bind => 8,
            ProgramAttachType::CgroupInet6Bind => 9,
            ProgramAttachType::CgroupInet4Connect => 10,
            ProgramAttachType::CgroupInet6Connect => 11,
            ProgramAttachType::CgroupInet4PostBind => 12,
            ProgramAttachType::CgroupInet6PostBind => 13,
            ProgramAttachType::CgroupUdp4Sendmsg => 14,
            ProgramAttachType::CgroupUdp6Sendmsg => 15,
            ProgramAttachType::LircMode2 => 16,
            ProgramAttachType::FlowDissector => 17,
            ProgramAttachType::CgroupSysctl => 18,
            ProgramAttachType::CgroupUdp4Recvmsg => 19,
            ProgramAttachType::CgroupUdp6Recvmsg => 20,
            ProgramAttachType::CgroupGetsockopt => 21,
            ProgramAttachType::CgroupSetsockopt => 22,
            ProgramAttachType::TraceRawTp => 23,
            ProgramAttachType::TraceFentry => 24,
            ProgramAttachType::TraceFexit => 25,
            ProgramAttachType::ModifyReturn => 26,
            ProgramAttachType::LsmMac => 27,
            ProgramAttachType::Unknown => u32::MAX,
        }
    }

    /// The variant whose kernel ABI value is `v`, if there is one.
    pub fn try_from_raw(v: u32) -> (r: Option<ProgramAttachType>)
        ensures
            r is Some <==> (v < ATTACH_TYPE_COUNT || v == u32::MAX),
            r matches Some(t) ==> t.code() == v,
            r matches Some(t) ==> t == ProgramAttachType::from_code(v),
            r is None ==> ProgramAttachType::from_code(v) == ProgramAttachType::Unknown,
    {
        let r = match v {
            0 => Some(ProgramAttachType::CgroupInetIngress),
            1 => Some(ProgramAttachType::CgroupInetEgress),
            2 => Some(ProgramAttachType::CgroupInetSockCreate),
            3 => Some(ProgramAttachType::CgroupSockOps),
            4 => Some(ProgramAttachType::SkSkbStreamParser),
            5 => Some(ProgramAttachType::SkSkbStreamVerdict),
            6 => Some(ProgramAttachType::CgroupDevice),
            7 => Some(ProgramAttachType::SkMsgVerdict),
            8 => Some(ProgramAttachType::CgroupInet4Bind),
            9 => Some(ProgramAttachType::CgroupInet6Bind),
            10 => Some(ProgramAttachType::CgroupInet4Connect),
            11 => Some(ProgramAttachType::CgroupInet6Connect),
            12 => Some(ProgramAttachType::CgroupInet4PostBind),
            13 => Some(ProgramAttachType::CgroupInet6PostBind),
            14 => Some(ProgramAttachType::CgroupUdp4Sendmsg),
            15 => Some(ProgramAttachType::CgroupUdp6Sendmsg),
            16 => Some(ProgramAttachType::LircMode2),
            17 => Some(ProgramAttachType::FlowDissector),
            18 => Some(ProgramAttachType::CgroupSysctl),
            19 => Some(ProgramAttachType::CgroupUdp4Recvmsg),
            20 => Some(ProgramAttachType::CgroupUdp6Recvmsg),
            21 => Some(ProgramAttachType::CgroupGetsockopt),
            22 => Some(ProgramAttachType::CgroupSetsockopt),
            23 => Some(ProgramAttachType::TraceRawTp),
            24 => Some(ProgramAttachType::TraceFentry),
            25 => Some(ProgramAttachType::TraceFexit),
            26 => Some(ProgramAttachType::ModifyReturn),
            27 => Some(ProgramAttachType::LsmMac),
            0xffff_ffff => Some(ProgramAttachType::Unknown),
            _ => None,
        };
        proof {
            if let Some(t) = r {
                assert(t.code() == v);
                assert forall|u: ProgramAttachType| u.code() == v implies u == t by {
                    ProgramAttachType::lemma_code_injective(u, t);
                }
                assert(ProgramAttachType::from_code(v) == t);
            } else {
                assert forall|u: ProgramAttachType| u.code() != v by {
                    ProgramAttachType::lemma_code_known(u);
                }
            }
        }
        r
    }

    /// The variant whose kernel ABI value is `v`; `Unknown` for a value this
    /// library does not know.
    pub fn from_raw(v: u32) -> (r: ProgramAttachType)
        ensures
            r == ProgramAttachType::from_code(v),
            v < ATTACH_TYPE_COUNT || v == u32::MAX ==> r.code() == v,
            !(v < ATTACH_TYPE_COUNT || v == u32::MAX) ==> r == ProgramAttachType::Unknown,
    {
        match ProgramAttachType::try_from_raw(v) {
            Some(t) => t,
            None => ProgramAttachType::Unknown,
        }
    }

    /// The variant's name, as it is printed.
    pub fn name(&self) -> (r: &'static str)
        ensures
            r@ == self.spec_name(),
    {
        match self {
            ProgramAttachType::CgroupInetIngress => "CgroupInetIngress",
            ProgramAttachType::CgroupInetEgress => "CgroupInetEgress",
            ProgramAttachType::CgroupInetSockCreate => "CgroupInetSockCreate",
            ProgramAttachType::CgroupSockOps => "CgroupSockOps",
            ProgramAttachType::SkSkbStreamParser => "SkSkbStreamParser",
            ProgramAttachType::SkSkbStreamVerdict => "SkSkbStreamVerdict",
            ProgramAttachType::CgroupDevice => "CgroupDevice",
            ProgramAttachType::SkMsgVerdict => "SkMsgVerdict",
            ProgramAttachType::CgroupInet4Bind => "CgroupInet4Bind",
            ProgramAttachType::CgroupInet6Bind => "CgroupInet6Bind",
            ProgramAttachType::CgroupInet4Connect => "CgroupInet4Connect",
            ProgramAttachType::CgroupInet6Connect => "CgroupInet6Connect",
            ProgramAttachType::CgroupInet4PostBind => "CgroupInet4PostBind",
            ProgramAttachType::CgroupInet6PostBind => "CgroupInet6PostBind",
            ProgramAttachType::CgroupUdp4Sendmsg => "CgroupUdp4Sendmsg",
            ProgramAttachType::CgroupUdp6Sendmsg => "CgroupUdp6Sendmsg",
            ProgramAttachType::LircMode2 => "LircMode2",
            ProgramAttachType::FlowDissector => "FlowDissector",
            ProgramAttachType::CgroupSysctl => "CgroupSysctl",
            ProgramAttachType::CgroupUdp4Recvmsg => "CgroupUdp4Recvmsg",
            ProgramAttachType::CgroupUdp6Recvmsg => "CgroupUdp6Recvmsg",
            ProgramAttachType::CgroupGetsockopt => "CgroupGetsockopt",
            ProgramAttachType::CgroupSetsockopt => "CgroupSetsockopt",
            ProgramAttachType::TraceRawTp => "TraceRawTp",
            ProgramAttachType::TraceFentry => "TraceFentry",
            ProgramAttachType::TraceFexit => "TraceFexit",
            ProgramAttachType::ModifyReturn => "ModifyReturn",
            ProgramAttachType::LsmMac => "LsmMac",
            ProgramAttachType::Unknown => "Unknown",
        }
    }
}

} // verus!

