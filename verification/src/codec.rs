//! Frames on the wire: how a request is laid out and how a response is read.
//!
//! A request is `@`, the three digits of the address, the message and `;FF`.
//! A response is `@`, three digits, `ACK` or `NAK`, a payload and `;FF`.
//! Every field but the payload has a fixed place, so a response is checked
//! byte by byte at fixed offsets.

use vstd::prelude::*;
use vstd::slice::*;
use vstd::string::*;
use vstd::utf8::*;
use crate::address::{digit_byte, field_bytes, Address};
use crate::error::{Error, NAK};

verus! {

/// The shortest response: start byte, address, status and terminator.
pub const MIN_RESPONSE_LEN: usize = 10;

/// `@`, which opens every frame.
pub const START: u8 = 0x40;

/// `;FF`, which closes every frame.
pub open spec fn terminator() -> Seq<u8> {
    seq![0x3bu8, 0x46u8, 0x46u8]
}

/// `ACK`, the status of an accepted request.
pub open spec fn ack_token() -> Seq<u8> {
    seq![0x41u8, 0x43u8, 0x4bu8]
}

/// `NAK`, the status of a refused request.
pub open spec fn nak_token() -> Seq<u8> {
    seq![0x4eu8, 0x41u8, 0x4bu8]
}

/// Whether `b` is one of the ASCII digits.
pub open spec fn is_digit_byte(b: u8) -> bool {
    0x30 <= b <= 0x39
}

/// The request that carries `message` to `addr`.
pub open spec fn request_frame(addr: Address, message: Seq<u8>) -> Seq<u8> {
    seq![START] + field_bytes(addr.wire_byte()) + message + terminator()
}

/// Whether the last three bytes of `resp` are the terminator.
pub open spec fn ends_with_terminator(resp: Seq<u8>) -> bool {
    resp.len() >= 3 && resp.subrange(resp.len() - 3, resp.len() as int) == terminator()
}

/// Whether `resp` has the start byte, an address of three digits and the
/// terminator, with room for a status between them.
pub open spec fn well_framed(resp: Seq<u8>) -> bool {
    &&& resp.len() >= MIN_RESPONSE_LEN
    &&& resp[0] == START
    &&& is_digit_byte(resp[1])
    &&& is_digit_byte(resp[2])
    &&& is_digit_byte(resp[3])
    &&& ends_with_terminator(resp)
}

/// The three bytes after the address.
pub open spec fn status(resp: Seq<u8>) -> Seq<u8> {
    resp.subrange(4, 7)
}

/// What stands between the status and the terminator.
pub open spec fn payload(resp: Seq<u8>) -> Seq<u8> {
    resp.subrange(7, resp.len() - 3)
}

/// The reason that a payload of a refusal names, if it names one.
pub open spec fn nak_reason(payload: Seq<u8>) -> Option<NAK> {
    if payload == NAK::ZeroAdjustmentAtTooHighPressure.code() {
        Some(NAK::ZeroAdjustmentAtTooHighPressure)
    } else if payload == NAK::AtmoAdjustmentAtTooLowPressure.code() {
        Some(NAK::AtmoAdjustmentAtTooLowPressure)
    } else if payload == NAK::UnrecognizedMessage.code() {
        Some(NAK::UnrecognizedMessage)
    } else if payload == NAK::InvalidArgument.code() {
        Some(NAK::InvalidArgument)
    } else if payload == NAK::ValueOutOfRange.code() {
        Some(NAK::ValueOutOfRange)
    } else if payload == NAK::CommandOrQueryCharacterInvalid.code() {
        Some(NAK::CommandOrQueryCharacterInvalid)
    } else if payload == NAK::NotInSetupMode.code() {
        Some(NAK::NotInSetupMode)
    } else {
        None
    }
}

/// Whether every byte of `bytes` is an ASCII code.
pub open spec fn is_ascii_bytes(bytes: Seq<u8>) -> bool {
    forall|i: int| 0 <= i < bytes.len() ==> #[trigger] bytes[i] < 0x80
}

/// The text that ASCII bytes spell: one character for each byte.
pub open spec fn ascii_text(bytes: Seq<u8>) -> Seq<char> {
    Seq::new(bytes.len(), |i: int| bytes[i] as char)
}

/// The bytes that ASCII text is written with: one byte for each character.
pub open spec fn ascii_bytes(text: Seq<char>) -> Seq<u8> {
    Seq::new(text.len(), |i: int| text[i] as u8)
}

/// What reading `resp` must give. Exactly one result fits each response,
/// up to the detail that a decoding error carries.
pub open spec fn parses_to(resp: Seq<u8>, r: Result<String, Error>) -> bool {
    if !well_framed(resp) {
        r == Err::<String, Error>(Error::ParseError)
    } else if status(resp) == ack_token() {
        if valid_utf8(payload(resp)) {
            r is Ok && r->Ok_0@ == decode_utf8(payload(resp))
        } else {
            r matches Err(Error::Utf8Error(_))
        }
    } else if status(resp) == nak_token() {
        match nak_reason(payload(resp)) {
            Some(reason) => r == Err::<String, Error>(Error::NAK(reason)),
            None => r == Err::<String, Error>(Error::ParseError),
        }
    } else {
        r == Err::<String, Error>(Error::ParseError)
    }
}

/// `String::from_utf8` of std. It succeeds exactly on well-formed UTF-8,
/// and the text it then returns is made of the bytes it was given.
pub assume_specification[ String::from_utf8 ](vec: Vec<u8>) -> (r: Result<
    String,
    std::string::FromUtf8Error,
>)
    ensures
        r is Ok <==> valid_utf8(vec@),
        r is Ok ==> encode_utf8(r->Ok_0@) == vec@,
;

impl NAK {
    /// Looks a payload up in the table of reasons.
    pub fn from_payload(payload: &[u8]) -> (r: Option<NAK>)
        ensures
            r == nak_reason(payload@),
    {
        let n: usize = payload.len();
        if n == 1 {
            let a: u8 = payload[0];
            if a == 0x38 {
                assert(payload@ =~= NAK::ZeroAdjustmentAtTooHighPressure.code());
                Some(NAK::ZeroAdjustmentAtTooHighPressure)
            } else if a == 0x39 {
                assert(payload@ =~= NAK::AtmoAdjustmentAtTooLowPressure.code());
                Some(NAK::AtmoAdjustmentAtTooLowPressure)
            } else {
                None
            }
        } else if n == 3 {
            let a: u8 = payload[0];
            let b: u8 = payload[1];
            let c: u8 = payload[2];
            if a == 0x31 && b == 0x36 && c == 0x30 {
                assert(payload@ =~= NAK::UnrecognizedMessage.code());
                Some(NAK::UnrecognizedMessage)
            } else if a == 0x31 && b == 0x36 && c == 0x39 {
                assert(payload@ =~= NAK::InvalidArgument.code());
                Some(NAK::InvalidArgument)
            } else if a == 0x31 && b == 0x37 && c == 0x32 {
                assert(payload@ =~= NAK::ValueOutOfRange.code());
                Some(NAK::ValueOutOfRange)
            } else if a == 0x31 && b == 0x37 && c == 0x35 {
                assert(payload@ =~= NAK::CommandOrQueryCharacterInvalid.code());
                Some(NAK::CommandOrQueryCharacterInvalid)
            } else if a == 0x31 && b == 0x38 && c == 0x30 {
                assert(payload@ =~= NAK::NotInSetupMode.code());
                Some(NAK::NotInSetupMode)
            } else {
                None
            }
        } else {
            None
        }
    }
}

/// Whether `b` is an ASCII digit.
fn is_digit(b: u8) -> (r: bool)
    ensures
        r == is_digit_byte(b),
{
    0x30 <= b && b <= 0x39
}

/// Lays out the request that carries `message` to `addr`. The message is
/// taken as it is. The address must be valid, so that only the broadcast
/// address is framed as `254`.
pub fn build_request(addr: &Address, message: &str) -> (frame: Vec<u8>)
    requires
        addr.is_valid(),
    ensures
        frame@ == request_frame(*addr, encode_utf8(message@)),
        frame@.len() == 7 + encode_utf8(message@).len(),
        frame@[0] == START,
        ends_with_terminator(frame@),
        is_ascii_chars(message@) ==> frame@ == request_frame(*addr, ascii_bytes(message@)),
{
    proof {
        if is_ascii_chars(message@) {
            is_ascii_chars_encode_utf8(message@);
            assert(encode_utf8(message@) =~= ascii_bytes(message@));
        }
    }
    let id: u8 = addr.to_byte();
    let mut frame: Vec<u8> = Vec::new();
    frame.push(START);
    frame.push(0x30 + id / 100);
    frame.push(0x30 + id / 10 % 10);
    frame.push(0x30 + id % 10);
    let body = message.as_bytes();
    frame.extend_from_slice(body);
    frame.push(0x3b);
    frame.push(0x46);
    frame.push(0x46);
    proof {
        let want = request_frame(*addr, encode_utf8(message@));
        assert(frame@ =~= want);
        assert(frame@.subrange(frame@.len() - 3, frame@.len() as int) =~= terminator());
    }
    frame
}

/// Reads one response: the text of an acknowledgement, or the error that
/// the frame stands for.
pub fn parse_response(resp: &[u8]) -> (r: Result<String, Error>)
    ensures
        parses_to(resp@, r),
        r is Ok <==> well_framed(resp@) && status(resp@) == ack_token() && valid_utf8(
            payload(resp@),
        ),
        forall|reason: NAK|
            r == Err::<String, Error>(Error::NAK(reason)) <==> well_framed(resp@) && status(resp@)
                == nak_token() && nak_reason(payload(resp@)) == Some(reason),
        resp@.len() < MIN_RESPONSE_LEN ==> r == Err::<String, Error>(Error::ParseError),
        !ends_with_terminator(resp@) ==> r == Err::<String, Error>(Error::ParseError),
        well_framed(resp@) && status(resp@) == ack_token() && !valid_utf8(payload(resp@))
            ==> r matches Err(Error::Utf8Error(_)),
        well_framed(resp@) && status(resp@) == nak_token() && nak_reason(payload(resp@)).is_none()
            ==> r == Err::<String, Error>(Error::ParseError),
        well_framed(resp@) && status(resp@) == ack_token() && is_ascii_bytes(payload(resp@))
            ==> r is Ok && r->Ok_0@ == ascii_text(payload(resp@)),
        !(r matches Err(Error::IOError(_))),
{
    proof {
        if resp@.len() >= MIN_RESPONSE_LEN && is_ascii_bytes(payload(resp@)) {
            lemma_ascii_bytes_are_text(payload(resp@));
        }
    }
    let l: usize = resp.len();
    if l < MIN_RESPONSE_LEN {
        return Err(Error::ParseError);
    }
    proof {
        let tail = resp@.subrange(l - 3, l as int);
        assert(tail[0] == resp@[l - 3] && tail[1] == resp@[l - 2] && tail[2] == resp@[l - 1]);
        if resp@[l - 3] == 0x3b && resp@[l - 2] == 0x46 && resp@[l - 1] == 0x46 {
            assert(tail =~= terminator());
        }
        let token = status(resp@);
        assert(token[0] == resp@[4] && token[1] == resp@[5] && token[2] == resp@[6]);
    }
    if resp[0] != START {
        return Err(Error::ParseError);
    }
    if !is_digit(resp[1]) || !is_digit(resp[2]) || !is_digit(resp[3]) {
        return Err(Error::ParseError);
    }
    if resp[l - 3] != 0x3b || resp[l - 2] != 0x46 || resp[l - 1] != 0x46 {
        return Err(Error::ParseError);
    }
    let body = slice_subrange(resp, 7, l - 3);
    if resp[4] == 0x41 && resp[5] == 0x43 && resp[6] == 0x4b {
        assert(status(resp@) =~= ack_token());
        match String::from_utf8(slice_to_vec(body)) {
            Ok(text) => {
                proof {
                    encode_utf8_decode_utf8(text@);
                }
                Ok(text)
            },
            Err(e) => Err(Error::from(e)),
        }
    } else if resp[4] == 0x4e && resp[5] == 0x41 && resp[6] == 0x4b {
        assert(status(resp@) =~= nak_token());
        match NAK::from_payload(body) {
            Some(reason) => Err(Error::NAK(reason)),
            None => Err(Error::ParseError),
        }
    } else {
        Err(Error::ParseError)
    }
}

/// A request names its target and carries its message without loss: two
/// requests with the same bytes go to the same valid address with the same
/// message. In particular no request to one device is a broadcast.
pub proof fn lemma_request_names_its_target(
    a: Address,
    b: Address,
    message_a: Seq<u8>,
    message_b: Seq<u8>,
)
    requires
        a.is_valid(),
        b.is_valid(),
        request_frame(a, message_a) == request_frame(b, message_b),
    ensures
        a == b,
        message_a == message_b,
{
    let fa = request_frame(a, message_a);
    let fb = request_frame(b, message_b);
    let ia = a.wire_byte() as int;
    let ib = b.wire_byte() as int;
    assert(fa.len() == 7 + message_a.len() && fb.len() == 7 + message_b.len());
    assert(fa[1] == digit_byte(ia / 100) && fa[2] == digit_byte(ia / 10 % 10) && fa[3]
        == digit_byte(ia % 10));
    assert(fb[1] == digit_byte(ib / 100) && fb[2] == digit_byte(ib / 10 % 10) && fb[3]
        == digit_byte(ib % 10));
    assert(ia == 100 * (ia / 100) + 10 * (ia / 10 % 10) + ia % 10);
    assert(ib == 100 * (ib / 100) + 10 * (ib / 10 % 10) + ib % 10);
    assert(ia == ib);
    assert forall|i: int| 0 <= i < message_a.len() implies message_a[i] == message_b[i] by {
        assert(fa[4 + i] == message_a[i]);
        assert(fb[4 + i] == message_b[i]);
    }
    assert(message_a =~= message_b);
}

/// ASCII bytes are well-formed UTF-8, and stand for the text that they
/// spell byte by byte, in both directions.
pub proof fn lemma_ascii_bytes_are_text(bytes: Seq<u8>)
    requires
        is_ascii_bytes(bytes),
    ensures
        valid_utf8(bytes),
        decode_utf8(bytes) == ascii_text(bytes),
        encode_utf8(ascii_text(bytes)) == bytes,
{
    let text = ascii_text(bytes);
    assert(is_ascii_chars(text));
    is_ascii_chars_encode_utf8(text);
    assert(encode_utf8(text) =~= bytes);
    encode_utf8_valid_utf8(text);
    encode_utf8_decode_utf8(text);
}

/// The table of reasons reads back what it writes: the payload of a reason
/// names that reason, and a payload that names a reason is that reason's
/// payload.
pub proof fn lemma_nak_table_round_trip(reason: NAK, payload: Seq<u8>)
    ensures
        nak_reason(reason.code()) == Some(reason),
        nak_reason(payload) == Some(reason) <==> payload == reason.code(),
{
    let z = NAK::ZeroAdjustmentAtTooHighPressure.code();
    let a = NAK::AtmoAdjustmentAtTooLowPressure.code();
    let u = NAK::UnrecognizedMessage.code();
    let i = NAK::InvalidArgument.code();
    let v = NAK::ValueOutOfRange.code();
    let c = NAK::CommandOrQueryCharacterInvalid.code();
    let s = NAK::NotInSetupMode.code();
    assert(z[0] != a[0]);
    assert(z.len() != u.len() && a.len() != u.len());
    assert(u[2] != i[2] && u[1] != v[1] && u[1] != c[1] && u[1] != s[1]);
    assert(i[1] != v[1] && i[1] != c[1] && i[1] != s[1]);
    assert(v[2] != c[2] && v[1] != s[1] && c[1] != s[1]);
}

} // verus!
