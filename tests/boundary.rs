use uring_rt::addr::{decode_sockaddr, encode_sockaddr, SockAddr, SOCKADDR_LEN};
use uring_rt::error::{libc_result_to_std, UringError};
use uring_rt::platform::{check_probe, feature_verdict, opcode_name, required_opcode_codes, REQUIRED_OPCODE_COUNT};

fn answers(supported: &[bool]) -> Vec<(u8, bool)> {
    required_opcode_codes().into_iter().zip(supported.iter().copied()).collect()
}

#[test]
fn raw_result_non_negative_is_ok() {
    assert_eq!(libc_result_to_std(0).unwrap(), 0);
    assert_eq!(libc_result_to_std(5).unwrap(), 5);
    assert_eq!(libc_result_to_std(i32::MAX).unwrap(), i32::MAX);
}

#[test]
fn raw_result_negative_is_errno() {
    let e = libc_result_to_std(-2).unwrap_err();
    assert_eq!(e.raw_os_error(), Some(2));
    assert_eq!(e.kind(), std::io::ErrorKind::NotFound);
    let e = libc_result_to_std(-125).unwrap_err();
    assert_eq!(e.raw_os_error(), Some(125));
}

#[test]
fn missing_opcode() {
    let mut supported = vec![true; REQUIRED_OPCODE_COUNT];
    let accept = (0..REQUIRED_OPCODE_COUNT).find(|i| opcode_name(*i) == "Accept").unwrap();
    supported[accept] = false;
    match check_probe(&answers(&supported)) {
        Err(UringError::UnsupportedOpcode(name)) => assert_eq!(name, "Accept"),
        other => panic!("unexpected {:?}", other),
    }
}

#[test]
fn all_opcodes_supported() {
    let supported = vec![true; REQUIRED_OPCODE_COUNT];
    assert!(check_probe(&answers(&supported)).is_ok());
}

#[test]
fn first_missing_opcode_is_reported() {
    let mut supported = vec![true; REQUIRED_OPCODE_COUNT];
    supported[REQUIRED_OPCODE_COUNT - 1] = false;
    supported[1] = false;
    match check_probe(&answers(&supported)) {
        Err(UringError::UnsupportedOpcode(name)) => assert_eq!(name, "Timeout"),
        other => panic!("unexpected {:?}", other),
    }
    assert_eq!(opcode_name(0), "AsyncCancel");
    assert_eq!(opcode_name(REQUIRED_OPCODE_COUNT - 1), "Close");
}

#[test]
fn ipv4_address_layout() {
    let a = SockAddr::V4 { ip: u32::from_be_bytes([127, 0, 0, 1]), port: 8080 };
    let b = encode_sockaddr(&a);
    assert_eq!(b.len(), SOCKADDR_LEN);
    assert_eq!(&b[0..2], &2u16.to_ne_bytes());
    assert_eq!(&b[2..4], &[0x1f, 0x90]);
    assert_eq!(&b[4..8], &[127, 0, 0, 1]);
    assert!(b[8..].iter().all(|x| *x == 0));
    assert_eq!(decode_sockaddr(&b), Some(a));
}

#[test]
fn ipv6_address_round_trip() {
    let ip = u128::from_be_bytes([0xfe, 0x80, 0, 0, 0, 0, 0, 0, 1, 2, 3, 4, 5, 6, 7, 8]);
    let a = SockAddr::V6 { ip, port: 443, flowinfo: 0x0102_0304, scope_id: 3 };
    let b = encode_sockaddr(&a);
    assert_eq!(b.len(), SOCKADDR_LEN);
    assert_eq!(&b[0..2], &10u16.to_ne_bytes());
    assert_eq!(&b[2..4], &[1, 187]);
    assert_eq!(&b[4..8], &[1, 2, 3, 4]);
    assert_eq!(&b[8..24], &ip.to_be_bytes());
    assert_eq!(&b[24..28], &[0, 0, 0, 3]);
    assert_eq!(decode_sockaddr(&b), Some(a));
}

#[test]
fn address_round_trip_edges() {
    for a in [
        SockAddr::V4 { ip: 0, port: 0 },
        SockAddr::V4 { ip: u32::MAX, port: u16::MAX },
        SockAddr::V6 { ip: u128::MAX, port: u16::MAX, flowinfo: u32::MAX, scope_id: u32::MAX },
        SockAddr::V6 { ip: 1, port: 1, flowinfo: 0, scope_id: 0 },
    ] {
        assert_eq!(decode_sockaddr(&encode_sockaddr(&a)), Some(a));
    }
}

#[test]
fn unknown_family_or_short_buffer() {
    let mut b = vec![0u8; SOCKADDR_LEN];
    b[0..2].copy_from_slice(&1u16.to_ne_bytes());
    assert_eq!(decode_sockaddr(&b), None);
    let short = encode_sockaddr(&SockAddr::V4 { ip: 1, port: 2 })[..16].to_vec();
    assert_eq!(decode_sockaddr(&short), None);
}

#[test]
fn required_opcode_numbers() {
    assert_eq!(required_opcode_codes(), vec![14, 11, 45, 16, 10, 9, 13, 34, 18, 22, 23, 19]);
    assert_eq!(required_opcode_codes()[6], io_uring::opcode::Accept::CODE);
}

#[test]
fn completions_must_not_be_dropped() {
    assert!(feature_verdict(true).is_ok());
    match feature_verdict(false) {
        Err(UringError::UnsupportedFeature(f)) => assert_eq!(f, "no_drop"),
        other => panic!("unexpected {:?}", other),
    }
}
