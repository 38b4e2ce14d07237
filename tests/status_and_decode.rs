use rascal::decode::{decode_cstring_buf, string_from_cstring_buf};
use rascal::protocol::{screen, Outcome, Violation};
use rascal::status::{check_status, Status};

#[test]
fn success_code_checks_ok() {
    assert_eq!(check_status(0), Ok(()));
}

#[test]
fn failure_code_checks_to_its_status() {
    assert_eq!(check_status(-30), Err(Status::InvalidValue));
    assert_eq!(check_status(-1), Err(Status::DeviceNotFound));
    assert_eq!(check_status(-1001), Err(Status::PlatformNotFoundKhr));
}

#[test]
fn status_codes_round_trip() {
    for code in [0, -1, -5, -19, -30, -45, -64, -68, -1001] {
        let s = Status::from_code(code).unwrap();
        assert_eq!(s.code(), code);
    }
    assert_eq!(Status::OutOfHostMemory.code(), -6);
    assert_eq!(Status::from_code(Status::InvalidKernel.code()), Some(Status::InvalidKernel));
}

#[test]
fn unknown_codes_have_no_status() {
    assert_eq!(Status::from_code(1), None);
    assert_eq!(Status::from_code(-20), None);
    assert_eq!(Status::from_code(-69), None);
}

#[test]
fn unknown_status_is_fatal() {
    assert_eq!(screen::<u32>(12345), Err(Outcome::Fatal(Violation::UnknownStatus(12345))));
    assert_eq!(screen::<u32>(-33), Err(Outcome::Failed(Status::InvalidDevice)));
    assert_eq!(screen::<u32>(0), Ok(()));
}

#[test]
fn terminated_string_decodes_without_terminator() {
    let buf = b"OpenCL 1.2\0".to_vec();
    assert_eq!(decode_cstring_buf(buf.clone()), Ok("OpenCL 1.2".to_string()));
    assert_eq!(string_from_cstring_buf(buf), "OpenCL 1.2");
}

#[test]
fn lone_terminator_decodes_to_empty_string() {
    assert_eq!(decode_cstring_buf(vec![0]), Ok(String::new()));
}

#[test]
fn multibyte_string_decodes() {
    let mut buf = "Gerät ü".as_bytes().to_vec();
    buf.push(0);
    assert_eq!(decode_cstring_buf(buf), Ok("Gerät ü".to_string()));
}

#[test]
fn unterminated_string_is_a_violation() {
    assert_eq!(
        decode_cstring_buf(b"OpenCL".to_vec()),
        Err(Violation::MissingTerminator(b'L'))
    );
}

#[test]
fn empty_buffer_is_a_violation() {
    assert_eq!(decode_cstring_buf(Vec::new()), Err(Violation::EmptyBuffer));
}

#[test]
fn invalid_utf8_is_a_violation() {
    assert_eq!(decode_cstring_buf(vec![b'a', 0xFF, 0]), Err(Violation::InvalidUtf8));
    assert_eq!(decode_cstring_buf(vec![0xC0, 0x80, 0]), Err(Violation::InvalidUtf8));
}
