use netioapi::cvt_dword;
use netioapi::Error;
use netioapi::NO_ERROR;

#[test]
fn success_status_is_ok() {
    assert_eq!(NO_ERROR, 0);
    assert_eq!(cvt_dword(NO_ERROR), Ok(()));
}

#[test]
fn other_status_is_carried_as_error() {
    assert_eq!(cvt_dword(1), Err(Error::OsStatus(1)));
    assert_eq!(cvt_dword(87), Err(Error::OsStatus(87)));
    assert_eq!(cvt_dword(u32::MAX), Err(Error::OsStatus(u32::MAX)));
}

#[test]
fn create_then_delete_statuses_of_a_healthy_system_are_ok() {
    let created = cvt_dword(NO_ERROR);
    let deleted = cvt_dword(NO_ERROR);
    assert_eq!(created, Ok(()));
    assert_eq!(deleted, Ok(()));
}

#[test]
fn delete_of_a_missing_instance_is_an_os_status_error() {
    let not_found = 1168;
    assert_eq!(cvt_dword(not_found), Err(Error::OsStatus(1168)));
    assert!(matches!(cvt_dword(not_found), Err(Error::OsStatus(_))));
}

#[test]
fn raw_os_error_of_a_small_status_is_the_status() {
    assert_eq!(Error::OsStatus(87).raw_os_error(), Some(87));
    assert_eq!(Error::OsStatus(1168).raw_os_error(), Some(1168));
    assert_eq!(Error::OsStatus(0x7fff_ffff).raw_os_error(), Some(i32::MAX));
}

#[test]
fn raw_os_error_of_a_status_with_the_high_bit_is_negative() {
    assert_eq!(Error::OsStatus(0x8000_0000).raw_os_error(), Some(i32::MIN));
    assert_eq!(Error::OsStatus(0x8007_0005).raw_os_error(), Some(-2147024891));
    assert_eq!(Error::OsStatus(u32::MAX).raw_os_error(), Some(-1));
}

#[test]
fn raw_os_error_keeps_the_bits_of_the_status() {
    for status in [1u32, 5, 87, 1168, 0x7fff_ffff, 0x8000_0000, 0x8000_0001, 0xffff_fffe] {
        assert_eq!(Error::OsStatus(status).raw_os_error(), Some(status as i32));
    }
}

#[test]
fn invalid_internal_state_carries_no_status() {
    assert_eq!(Error::InvalidInternalState.raw_os_error(), None);
}
