use smbc::result::Error;
use smbc::seek::{seek_args, seek_result, SeekFrom, SEEK_CUR, SEEK_END, SEEK_SET};
use smbc::status::{fn_pointer_result, ptr_result, to_result_with_errno, to_result_with_le, EINVAL};

#[test]
fn non_negative_status_is_success_with_the_status_as_payload() {
    assert_eq!(to_result_with_le(0, 5), Ok(0));
    assert_eq!(to_result_with_le(4096, 5), Ok(4096));
}

#[test]
fn negative_status_is_an_io_error_with_the_observed_code() {
    assert_eq!(to_result_with_le(-1, 13), Err(Error::Io(13)));
}

#[test]
fn unspecified_cause_falls_back_to_the_supplied_code() {
    assert_eq!(to_result_with_errno(-1, 0, EINVAL), Err(Error::Io(EINVAL)));
    assert_eq!(to_result_with_errno(-1, 2, EINVAL), Err(Error::Io(2)));
    assert_eq!(to_result_with_errno(7, 0, EINVAL), Ok(7));
}

#[test]
fn null_pointer_is_a_failure_and_non_null_a_success() {
    assert_eq!(ptr_result(true, 12), Ok(()));
    assert_eq!(ptr_result(false, 12), Err(Error::Io(12)));
}

#[test]
fn missing_function_pointer_is_an_einval_io_error() {
    assert_eq!(fn_pointer_result(true), Ok(()));
    assert_eq!(fn_pointer_result(false), Err(Error::Io(EINVAL)));
    assert_eq!(EINVAL, 22);
}

#[test]
fn seek_origins_map_to_their_whence_values() {
    assert_eq!(seek_args(SeekFrom::Start(10)), (SEEK_SET, 10));
    assert_eq!(seek_args(SeekFrom::Current(-3)), (SEEK_CUR, -3));
    assert_eq!(seek_args(SeekFrom::End(-1)), (SEEK_END, -1));
    assert_eq!((SEEK_SET, SEEK_CUR, SEEK_END), (0, 1, 2));
}

#[test]
fn failed_seek_without_a_cause_reports_einval() {
    assert_eq!(seek_result(128, 0), Ok(128));
    assert_eq!(seek_result(-1, 0), Err(Error::Io(EINVAL)));
    assert_eq!(seek_result(-1, 9), Err(Error::Io(9)));
}
