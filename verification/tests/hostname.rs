use gethostname::error::OsError;
use gethostname::posix;
use gethostname::windows;

fn wide(s: &str) -> Vec<u16> {
    s.encode_utf16().collect()
}

#[test]
fn posix_extracts_terminated_hostname() {
    let name = b"testhost.example.com".to_vec();
    let mut buffer = name.clone();
    buffer.resize(65, 0);
    let host = posix::Hostname::from_terminated(buffer);
    assert_eq!(host.into_bytes(), name);
}

#[test]
fn windows_extracts_terminated_hostname() {
    let name = wide("testhost.example.com");
    let mut buffer = name.clone();
    buffer.push(0);
    buffer.push(0);
    let host = windows::WideHostname::from_terminated(buffer);
    assert_eq!(host.as_units().clone(), name);
    let decoded = String::from_utf16(host.as_units()).unwrap();
    assert_eq!(decoded, "testhost.example.com");
}

#[test]
fn posix_full_buffer_without_terminator() {
    let buffer = vec![b'a'; 16];
    let host = posix::Hostname::from_terminated(buffer.clone());
    assert_eq!(host.into_bytes(), buffer);
}

#[test]
fn windows_full_buffer_without_terminator() {
    let buffer = vec![0x61u16; 16];
    let host = windows::WideHostname::from_terminated(buffer.clone());
    assert_eq!(host.into_units(), buffer);
}

#[test]
fn posix_exact_max_length_roundtrip() {
    let max: usize = 10;
    let name = vec![b'h'; max];
    let mut buffer = posix::zeroed_buffer(max + 1);
    buffer[..max].copy_from_slice(&name);
    let host = posix::Hostname::from_terminated(buffer);
    assert_eq!(host.len(), max);
    assert_eq!(host.into_bytes(), name);
}

#[test]
fn posix_success_convention() {
    let result = posix::resolve_gethostname(0, 0, b"zephyr\0\0".to_vec());
    match result {
        Ok(host) => assert_eq!(host.into_bytes(), b"zephyr".to_vec()),
        Err(_) => panic!("a zero return code must mean success"),
    }
}

#[test]
fn posix_failure_surfaces_error_code() {
    let result = posix::resolve_gethostname(-1, 22, b"zephyr\0".to_vec());
    match result {
        Ok(_) => panic!("a non-zero return code must mean failure"),
        Err(err) => {
            assert_eq!(err.code, 22);
            assert_eq!(err.code(), 22);
            assert_eq!(err, OsError { code: 22 });
        }
    }
}

#[test]
fn windows_inverted_convention() {
    let mut buffer = wide("box");
    buffer.push(0);
    match windows::resolve_computer_name(1, 0, buffer.clone()) {
        Ok(host) => assert_eq!(host.into_units(), wide("box")),
        Err(_) => panic!("a non-zero return code must mean success on windows"),
    }
    match windows::resolve_computer_name(0, 5, buffer) {
        Ok(_) => panic!("a zero return code must mean failure on windows"),
        Err(err) => assert_eq!(err.code, 5),
    }
}

#[test]
fn buffer_len_adds_terminator_slot() {
    assert_eq!(posix::buffer_len_for_max(64), Some(65));
    assert_eq!(posix::buffer_len_for_max(0), Some(1));
    assert_eq!(posix::buffer_len_for_max(255), Some(256));
    assert_eq!(posix::buffer_len_for_max(-1), None);
    assert_eq!(posix::buffer_len_for_max(i64::MIN), None);
}

#[test]
fn zeroed_buffers_are_zero_filled() {
    assert_eq!(posix::zeroed_buffer(8), vec![0u8; 8]);
    assert_eq!(posix::zeroed_buffer(0), Vec::<u8>::new());
    assert_eq!(windows::zeroed_buffer(8), vec![0u16; 8]);
}

#[test]
fn repeated_extraction_returns_same_value() {
    let buffer = b"stable-name\0trailing-junk".to_vec();
    let first = posix::Hostname::from_terminated(buffer.clone()).into_bytes();
    let second = posix::Hostname::from_terminated(buffer).into_bytes();
    assert_eq!(first, second);
    let again = posix::Hostname::from_terminated(first).into_bytes();
    assert_eq!(again, second);
}

#[test]
fn empty_and_immediately_terminated_buffers() {
    assert_eq!(posix::Hostname::from_terminated(Vec::new()).len(), 0);
    assert_eq!(posix::Hostname::from_terminated(vec![0u8, b'x']).len(), 0);
    assert_eq!(windows::WideHostname::from_terminated(vec![0u16, 7]).len(), 0);
}

#[test]
fn first_zero_finds_terminator() {
    assert_eq!(posix::first_zero(&b"abc\0def".to_vec()), 3);
    assert_eq!(posix::first_zero(&b"abc".to_vec()), 3);
    assert_eq!(posix::first_zero(&Vec::new()), 0);
    assert_eq!(windows::first_zero(&vec![5u16, 0, 9]), 1);
}
