use libbpf_rs::{MapFlags, MapType, ProgramAttachType, ProgramType};

#[test]
fn flag_bits_match_kernel_values() {
    assert_eq!(MapFlags::any().bits(), 0);
    assert_eq!(MapFlags::no_exist().bits(), 1);
    assert_eq!(MapFlags::exist().bits(), 2);
    assert_eq!(MapFlags::lock().bits(), 4);
    assert!(MapFlags::any().is_empty());
    assert!(!MapFlags::lock().is_empty());
}

#[test]
fn flags_combine_by_union() {
    let f = MapFlags::no_exist().union(MapFlags::lock());
    assert_eq!(f.bits(), 5);
    assert!(f.contains(MapFlags::lock()));
    assert!(f.contains(MapFlags::no_exist()));
    assert!(!f.contains(MapFlags::exist()));
    assert!(f.contains(MapFlags::any()));
    assert_eq!(f.intersection(MapFlags::lock()).bits(), 4);
}

#[test]
fn flags_from_bits_rejects_unknown_bits() {
    assert_eq!(MapFlags::from_bits(3).map(|f| f.bits()), Some(3));
    assert_eq!(MapFlags::from_bits(0).map(|f| f.bits()), Some(0));
    assert!(MapFlags::from_bits(8).is_none());
    assert!(MapFlags::from_bits(u64::MAX).is_none());
    assert_eq!(MapFlags::from_bits_truncate(0xff).bits(), 7);
    assert_eq!(MapFlags::from_bits_truncate(8).bits(), 0);
}

#[test]
fn map_type_values() {
    assert_eq!(MapType::Unspec.to_raw(), 0);
    assert_eq!(MapType::Hash.to_raw(), 1);
    assert_eq!(MapType::Queue.to_raw(), 22);
    assert_eq!(MapType::RingBuf.to_raw(), 27);
    assert_eq!(MapType::Unknown.to_raw(), u32::MAX);
}

#[test]
fn map_type_from_raw_keeps_unknown_values() {
    assert_eq!(MapType::from_raw(1), MapType::Hash);
    assert_eq!(MapType::from_raw(23), MapType::Stack);
    assert_eq!(MapType::from_raw(28), MapType::Unknown);
    assert_eq!(MapType::from_raw(1000), MapType::Unknown);
    assert_eq!(MapType::from_raw(u32::MAX), MapType::Unknown);
    assert_eq!(MapType::try_from_raw(2), Some(MapType::Array));
    assert_eq!(MapType::try_from_raw(u32::MAX), Some(MapType::Unknown));
    assert_eq!(MapType::try_from_raw(28), None);
}

#[test]
fn map_type_round_trips_through_raw() {
    for v in 0..28u32 {
        assert_eq!(MapType::from_raw(v).to_raw(), v);
    }
}

#[test]
fn map_type_names() {
    assert_eq!(MapType::Hash.name(), "Hash");
    assert_eq!(MapType::PercpuCgroupStorage.name(), "PercpuCgroupStorage");
    assert_eq!(MapType::Unknown.name(), "Unknown");
}

#[test]
fn program_type_values() {
    assert_eq!(ProgramType::Unspec.to_raw(), 0);
    assert_eq!(ProgramType::Xdp.to_raw(), 6);
    assert_eq!(ProgramType::Lsm.to_raw(), 29);
    assert_eq!(ProgramType::from_raw(2), ProgramType::Kprobe);
    assert_eq!(ProgramType::from_raw(30), ProgramType::Unknown);
    assert_eq!(ProgramType::try_from_raw(30), None);
    assert_eq!(ProgramType::Tracing.name(), "Tracing");
    for v in 0..30u32 {
        assert_eq!(ProgramType::from_raw(v).to_raw(), v);
    }
}

#[test]
fn attach_type_values() {
    assert_eq!(ProgramAttachType::CgroupInetIngress.to_raw(), 0);
    assert_eq!(ProgramAttachType::SkSkbStreamVerdict.to_raw(), 5);
    assert_eq!(ProgramAttachType::LsmMac.to_raw(), 27);
    assert_eq!(ProgramAttachType::from_raw(24), ProgramAttachType::TraceFentry);
    assert_eq!(ProgramAttachType::from_raw(28), ProgramAttachType::Unknown);
    assert_eq!(ProgramAttachType::try_from_raw(u32::MAX), Some(ProgramAttachType::Unknown));
    assert_eq!(ProgramAttachType::ModifyReturn.name(), "ModifyReturn");
    for v in 0..28u32 {
        assert_eq!(ProgramAttachType::from_raw(v).to_raw(), v);
    }
}
