use libbpf_rs::error::{
    check_errno, check_fd, check_link_error, check_neg_errno, check_negative_status, ENOENT,
};
use libbpf_rs::Error;

#[test]
fn negated_return_code_becomes_positive_errno() {
    assert_eq!(check_neg_errno(0), Ok(()));
    assert_eq!(check_neg_errno(-22), Err(Error::System(22)));
    assert_eq!(check_neg_errno(-1), Err(Error::System(1)));
    assert_eq!(check_neg_errno(5), Err(Error::System(5)));
}

#[test]
fn negative_status_fails_and_non_negative_succeeds() {
    assert_eq!(check_negative_status(0), Ok(()));
    assert_eq!(check_negative_status(5), Ok(()));
    assert_eq!(check_negative_status(-16), Err(Error::System(16)));
}

#[test]
fn errno_status_carries_thread_errno() {
    assert_eq!(check_errno(0, 17), Ok(()));
    assert_eq!(check_errno(-1, 17), Err(Error::System(17)));
    assert_eq!(check_errno(-1, ENOENT), Err(Error::System(2)));
}

#[test]
fn file_descriptor_result() {
    assert_eq!(check_fd(3, 0), Ok(3));
    assert_eq!(check_fd(0, 0), Ok(0));
    assert_eq!(check_fd(-1, 2), Err(Error::System(2)));
}

#[test]
fn link_error_is_surfaced_as_is() {
    assert_eq!(check_link_error(0), Ok(()));
    assert_eq!(check_link_error(-2), Err(Error::System(2)));
    assert_eq!(check_link_error(-95), Err(Error::System(95)));
    assert_eq!(check_link_error(-(i32::MAX as i64)), Err(Error::System(i32::MAX)));
    assert_eq!(check_link_error(13), Err(Error::System(13)));
}
