use libbpf_rs::map::lookup_result;
use libbpf_rs::error::{check_errno, check_fd};
use libbpf_rs::{BpfMap, Error, MapOps, MapType, PinnedMap};

fn hash_map() -> BpfMap {
    BpfMap::new(7, "counts".to_string(), 1, 4, 8)
}

#[test]
fn map_metadata() {
    let m = hash_map();
    assert_eq!(m.fd(), 7);
    assert_eq!(m.name(), "counts");
    assert_eq!(m.map_type(), MapType::Hash);
    assert_eq!(m.key_size(), 4);
    assert_eq!(m.value_size(), 8);
}

#[test]
fn unknown_map_type_is_preserved_as_unknown() {
    let m = BpfMap::new(7, "x".to_string(), 4000, 4, 8);
    assert_eq!(m.map_type(), MapType::Unknown);
    let p = PinnedMap::new(9, "pinned".to_string(), 22, 0, 4);
    assert_eq!(p.map_type(), MapType::Queue);
    assert_eq!(p.fd(), 9);
    assert_eq!(p.name(), "pinned");
    assert_eq!(p.key_size(), 0);
    assert_eq!(p.value_size(), 4);
}

#[test]
fn wrong_key_size_is_invalid_input() {
    let m = hash_map();
    assert_eq!(m.check_key(&[1, 2, 3, 4]), Ok(()));
    assert_eq!(
        m.check_key(&[1, 2, 3]),
        Err(Error::InvalidInput("key_size 3 != 4".to_string()))
    );
    assert_eq!(
        m.check_key(&[]),
        Err(Error::InvalidInput("key_size 0 != 4".to_string()))
    );
    assert_eq!(
        m.check_update(&[1, 2, 3, 4, 5], &[0; 8]),
        Err(Error::InvalidInput("key_size 5 != 4".to_string()))
    );
}

#[test]
fn wrong_value_size_is_invalid_input() {
    let m = hash_map();
    assert_eq!(m.check_update(&[1, 2, 3, 4], &[0; 8]), Ok(()));
    assert_eq!(
        m.check_update(&[1, 2, 3, 4], &[0; 7]),
        Err(Error::InvalidInput("value_size 7 != 8".to_string()))
    );
    assert_eq!(
        m.check_update(&[1, 2, 3], &[0; 7]),
        Err(Error::InvalidInput("key_size 3 != 4".to_string()))
    );
}

#[test]
fn lookup_returns_the_written_value() {
    let v = vec![1, 2, 3, 4, 5, 6, 7, 8];
    assert_eq!(lookup_result(0, 0, v.clone()), Ok(Some(v)));
}

#[test]
fn lookup_of_absent_key_is_none() {
    assert_eq!(lookup_result(-1, 2, vec![0; 8]), Ok(None));
}

#[test]
fn lookup_failure_other_than_absence_is_system_error() {
    assert_eq!(lookup_result(-1, 1, vec![0; 8]), Err(Error::System(1)));
    assert_eq!(lookup_result(-1, 22, vec![0; 8]), Err(Error::System(22)));
}

#[test]
fn delete_of_absent_key_is_system_error() {
    assert_eq!(lookup_result(-1, 2, vec![0; 8]), Ok(None));
    assert_eq!(check_errno(-1, 2), Err(Error::System(2)));
}

#[test]
fn pinned_path_that_is_not_a_file_is_invalid_input() {
    let r = PinnedMap::try_new(Ok(5), false, Some("m".to_string()), Ok((1, 4, 8)));
    assert!(matches!(r, Err(Error::InvalidInput(ref s)) if s == "Expecting a file!"));
}

#[test]
fn pinned_file_name_must_be_unicode() {
    let r = PinnedMap::try_new(Ok(5), true, None, Ok((1, 4, 8)));
    assert!(matches!(
        r,
        Err(Error::InvalidInput(ref s)) if s == "Filename cannot be represented as a String!"
    ));
}

#[test]
fn pinned_map_info_error_is_passed_on() {
    let r = PinnedMap::try_new(Ok(5), true, Some("m".to_string()), Err(Error::System(13)));
    assert!(matches!(r, Err(Error::System(13))));
}

#[test]
fn pinned_map_takes_kernel_metadata() {
    let m = PinnedMap::try_new(Ok(5), true, Some("flows".to_string()), Ok((22, 0, 16))).ok().unwrap();
    assert_eq!(m.fd(), 5);
    assert_eq!(m.name(), "flows");
    assert_eq!(m.map_type(), MapType::Queue);
    assert_eq!(m.key_size(), 0);
    assert_eq!(m.value_size(), 16);
}

#[test]
fn never_pinned_path_is_system_error() {
    let r = PinnedMap::try_new(check_fd(-1, 2), false, Some("m".to_string()), Err(Error::System(2)));
    assert!(matches!(r, Err(Error::System(2))));
}

#[test]
fn value_buffer_has_value_size() {
    assert_eq!(hash_map().value_buffer(), vec![0u8; 8]);
    let p = PinnedMap::new(9, "q".to_string(), 22, 0, 3);
    assert_eq!(p.value_buffer(), vec![0u8; 3]);
}
