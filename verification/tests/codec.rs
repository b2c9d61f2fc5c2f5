use gauge_protocol::address::Address;
use gauge_protocol::codec::{build_request, parse_response, MIN_RESPONSE_LEN, START};
use gauge_protocol::error::{Error, NAK};

fn refusal(code: &str) -> Vec<u8> {
    format!("@254NAK{};FF", code).into_bytes()
}

#[test]
fn request_to_broadcast() {
    assert_eq!(build_request(&Address::Broadcast, "PR3?"), b"@254PR3?;FF".to_vec());
}

#[test]
fn request_to_unicast_is_zero_padded() {
    assert_eq!(build_request(&Address::Unicast(7), "PR1?"), b"@007PR1?;FF".to_vec());
    assert_eq!(build_request(&Address::Unicast(42), "SP1!1.00E-2"), b"@042SP1!1.00E-2;FF".to_vec());
}

#[test]
fn no_unicast_request_is_a_broadcast() {
    let broadcast = build_request(&Address::Broadcast, "PR3?");
    for id in 0u8..=253 {
        let addr = Address::unicast(id).unwrap();
        assert_ne!(build_request(&addr, "PR3?"), broadcast);
    }
}

#[test]
fn request_with_empty_message() {
    assert_eq!(build_request(&Address::Unicast(253), ""), b"@253;FF".to_vec());
}

#[test]
fn request_keeps_the_message_as_it_is() {
    let frame = build_request(&Address::Unicast(1), "a;FF@\u{e9}");
    let mut expected = b"@001a;FF@".to_vec();
    expected.extend_from_slice("\u{e9}".as_bytes());
    expected.extend_from_slice(b";FF");
    assert_eq!(frame, expected);
    assert_eq!(frame[0], START);
}

#[test]
fn acknowledgement_gives_its_payload() {
    let r = parse_response(b"@254ACKnormal;FF");
    assert!(matches!(r, Ok(ref s) if s == "normal"));
}

#[test]
fn acknowledgement_with_a_reading() {
    let r = parse_response(b"@001ACK7.60E+2;FF");
    assert_eq!(r.unwrap(), "7.60E+2");
}

#[test]
fn shortest_acknowledgement_has_an_empty_payload() {
    let frame = b"@254ACK;FF";
    assert_eq!(frame.len(), MIN_RESPONSE_LEN);
    assert_eq!(parse_response(frame).unwrap(), "");
}

#[test]
fn acknowledgement_with_multibyte_text() {
    let mut frame = b"@254ACK".to_vec();
    frame.extend_from_slice("\u{b5}bar \u{20ac}".as_bytes());
    frame.extend_from_slice(b";FF");
    assert_eq!(parse_response(&frame).unwrap(), "\u{b5}bar \u{20ac}");
}

#[test]
fn payload_may_hold_frame_characters() {
    assert_eq!(parse_response(b"@254ACK;FF@;FF").unwrap(), ";FF@");
}

#[test]
fn refusal_160_is_unrecognized_message() {
    let r = parse_response(b"@254NAK160;FF");
    assert!(matches!(r, Err(Error::NAK(NAK::UnrecognizedMessage))));
}

#[test]
fn every_reason_in_the_table() {
    assert!(matches!(
        parse_response(&refusal("8")),
        Err(Error::NAK(NAK::ZeroAdjustmentAtTooHighPressure))
    ));
    assert!(matches!(
        parse_response(&refusal("9")),
        Err(Error::NAK(NAK::AtmoAdjustmentAtTooLowPressure))
    ));
    assert!(matches!(parse_response(&refusal("160")), Err(Error::NAK(NAK::UnrecognizedMessage))));
    assert!(matches!(parse_response(&refusal("169")), Err(Error::NAK(NAK::InvalidArgument))));
    assert!(matches!(parse_response(&refusal("172")), Err(Error::NAK(NAK::ValueOutOfRange))));
    assert!(matches!(
        parse_response(&refusal("175")),
        Err(Error::NAK(NAK::CommandOrQueryCharacterInvalid))
    ));
    assert!(matches!(parse_response(&refusal("180")), Err(Error::NAK(NAK::NotInSetupMode))));
}

#[test]
fn refusal_outside_the_table_is_a_parse_error() {
    assert!(matches!(parse_response(b"@254NAK999;FF"), Err(Error::ParseError)));
    assert!(matches!(parse_response(b"@254NAK;FF"), Err(Error::ParseError)));
    assert!(matches!(parse_response(b"@254NAK16;FF"), Err(Error::ParseError)));
    assert!(matches!(parse_response(b"@254NAK1600;FF"), Err(Error::ParseError)));
    assert!(matches!(parse_response(b"@254NAK008;FF"), Err(Error::ParseError)));
    assert!(matches!(parse_response(b"@254NAK7;FF"), Err(Error::ParseError)));
    assert!(matches!(parse_response(b"@254NAK170;FF"), Err(Error::ParseError)));
}

#[test]
fn table_lookup() {
    assert_eq!(NAK::from_payload(b"8"), Some(NAK::ZeroAdjustmentAtTooHighPressure));
    assert_eq!(NAK::from_payload(b"9"), Some(NAK::AtmoAdjustmentAtTooLowPressure));
    assert_eq!(NAK::from_payload(b"160"), Some(NAK::UnrecognizedMessage));
    assert_eq!(NAK::from_payload(b"169"), Some(NAK::InvalidArgument));
    assert_eq!(NAK::from_payload(b"172"), Some(NAK::ValueOutOfRange));
    assert_eq!(NAK::from_payload(b"175"), Some(NAK::CommandOrQueryCharacterInvalid));
    assert_eq!(NAK::from_payload(b"180"), Some(NAK::NotInSetupMode));
    assert_eq!(NAK::from_payload(b""), None);
    assert_eq!(NAK::from_payload(b"0"), None);
    assert_eq!(NAK::from_payload(b"16"), None);
    assert_eq!(NAK::from_payload(b"161"), None);
    assert_eq!(NAK::from_payload(b"1800"), None);
}

#[test]
fn anything_shorter_than_ten_bytes_is_a_parse_error() {
    let whole = b"@254ACKnormal;FF";
    for n in 0..MIN_RESPONSE_LEN {
        assert!(matches!(parse_response(&whole[..n]), Err(Error::ParseError)));
    }
    assert!(matches!(parse_response(b""), Err(Error::ParseError)));
    assert!(matches!(parse_response(b"@254AC;FF"), Err(Error::ParseError)));
    assert!(matches!(parse_response(b"@25ACK;FF"), Err(Error::ParseError)));
}

#[test]
fn wrong_terminator_is_a_parse_error() {
    assert!(matches!(parse_response(b"@254ACKnormal;FG"), Err(Error::ParseError)));
    assert!(matches!(parse_response(b"@254ACKnormal;GF"), Err(Error::ParseError)));
    assert!(matches!(parse_response(b"@254ACKnormal:FF"), Err(Error::ParseError)));
    assert!(matches!(parse_response(b"@254ACKnormal;ff"), Err(Error::ParseError)));
    assert!(matches!(parse_response(b"@254ACKnormal;FF\r"), Err(Error::ParseError)));
    assert!(matches!(parse_response(b"@254NAK160;F"), Err(Error::ParseError)));
    assert!(matches!(parse_response(b"@254ACKnormal"), Err(Error::ParseError)));
}

#[test]
fn wrong_start_byte_is_a_parse_error() {
    assert!(matches!(parse_response(b"#254ACKnormal;FF"), Err(Error::ParseError)));
    assert!(matches!(parse_response(b" @254ACKnormal;FF"), Err(Error::ParseError)));
}

#[test]
fn address_must_be_three_digits() {
    assert!(matches!(parse_response(b"@x54ACKnormal;FF"), Err(Error::ParseError)));
    assert!(matches!(parse_response(b"@2x4ACKnormal;FF"), Err(Error::ParseError)));
    assert!(matches!(parse_response(b"@25xACKnormal;FF"), Err(Error::ParseError)));
    assert!(matches!(parse_response(b"@25/ACKnormal;FF"), Err(Error::ParseError)));
    assert!(matches!(parse_response(b"@25:ACKnormal;FF"), Err(Error::ParseError)));
    assert_eq!(parse_response(b"@099ACKnormal;FF").unwrap(), "normal");
}

#[test]
fn echoed_address_is_not_compared() {
    assert_eq!(parse_response(b"@999ACKok;FF").unwrap(), "ok");
}

#[test]
fn unknown_status_is_a_parse_error() {
    assert!(matches!(parse_response(b"@254ackok;FF"), Err(Error::ParseError)));
    assert!(matches!(parse_response(b"@254ACXok;FF"), Err(Error::ParseError)));
    assert!(matches!(parse_response(b"@254NACok;FF"), Err(Error::ParseError)));
    assert!(matches!(parse_response(b"@254XYZ160;FF"), Err(Error::ParseError)));
}

#[test]
fn acknowledgement_that_is_not_text_is_a_decoding_error() {
    let r = parse_response(b"@254ACK\xff\xfe;FF");
    assert!(matches!(r, Err(Error::Utf8Error(_))));
    let r = parse_response(b"@254ACKab\xc3;FF");
    assert!(matches!(r, Err(Error::Utf8Error(_))));
    let r = parse_response(b"@254ACK\xed\xa0\x80;FF");
    assert!(matches!(r, Err(Error::Utf8Error(_))));
}

#[test]
fn decoding_error_keeps_the_payload() {
    match parse_response(b"@254ACK\xff\xfe;FF") {
        Err(Error::Utf8Error(e)) => assert_eq!(e.into_bytes(), vec![0xff, 0xfe]),
        other => panic!("expected a decoding error, got {:?}", other),
    }
}

#[test]
fn a_request_is_not_a_response() {
    let frame = build_request(&Address::Broadcast, "PR3?");
    assert!(matches!(parse_response(&frame), Err(Error::ParseError)));
}

#[test]
fn conversions_keep_the_kind_of_error() {
    let io = std::io::Error::new(std::io::ErrorKind::TimedOut, "no answer");
    match Error::from(io) {
        Error::IOError(e) => assert_eq!(e.kind(), std::io::ErrorKind::TimedOut),
        other => panic!("expected a transport error, got {:?}", other),
    }
    let bad = String::from_utf8(vec![0xc0]).unwrap_err();
    assert!(matches!(Error::from(bad), Error::Utf8Error(_)));
}
