use smbc::cred::{default_credentials, fill_answer_buffer, resolve_auth, Credentials};

#[test]
fn default_credentials_are_workgroup_guest_empty() {
    let c = default_credentials();
    assert_eq!(c.workgroup, b"WORKGROUP".to_vec());
    assert_eq!(c.username, b"guest".to_vec());
    assert_eq!(c.password, Vec::<u8>::new());
}

#[test]
fn failed_authentication_yields_exactly_the_default_credential() {
    let c = resolve_auth(None);
    assert_eq!(c.workgroup, b"WORKGROUP".to_vec());
    assert_eq!(c.username, b"guest".to_vec());
    assert_eq!(c.password, Vec::<u8>::new());
}

#[test]
fn successful_authentication_is_forwarded_unchanged() {
    let given = Credentials {
        workgroup: b"CORP".to_vec(),
        username: b"alice".to_vec(),
        password: b"s3cret".to_vec(),
    };
    let c = resolve_auth(Some(given));
    assert_eq!(c.workgroup, b"CORP".to_vec());
    assert_eq!(c.username, b"alice".to_vec());
    assert_eq!(c.password, b"s3cret".to_vec());
}

#[test]
fn short_answer_is_copied_whole_and_terminated() {
    let out = fill_answer_buffer(b"guest", 64);
    assert_eq!(out, b"guest\0".to_vec());
}

#[test]
fn long_answer_is_truncated_to_capacity_and_still_terminated() {
    let out = fill_answer_buffer(b"a-very-long-workgroup-name", 8);
    assert_eq!(out.len(), 8);
    assert_eq!(&out[..7], b"a-very-");
    assert_eq!(out[7], 0u8);
}

#[test]
fn answer_exactly_filling_the_buffer_loses_one_byte_to_the_terminator() {
    let out = fill_answer_buffer(b"abcd", 4);
    assert_eq!(out, b"abc\0".to_vec());
}

#[test]
fn zero_capacity_buffer_is_left_untouched() {
    let out = fill_answer_buffer(b"anything", 0);
    assert!(out.is_empty());
}

#[test]
fn capacity_one_holds_only_the_terminator() {
    let out = fill_answer_buffer(b"abc", 1);
    assert_eq!(out, vec![0u8]);
}

#[test]
fn empty_answer_is_just_the_terminator() {
    let out = fill_answer_buffer(b"", 16);
    assert_eq!(out, vec![0u8]);
}
