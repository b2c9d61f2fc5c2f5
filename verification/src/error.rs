//! What can go wrong in one exchange with a device.

use vstd::prelude::*;

verus! {

/// The error of `std::io`, carried through unread.
#[verifier::external_type_specification]
#[verifier::external_body]
pub struct ExIoError(std::io::Error);

/// The error of `String::from_utf8`, carried through unread.
#[verifier::external_type_specification]
#[verifier::external_body]
pub struct ExFromUtf8Error(std::string::FromUtf8Error);

/// The reasons a device gives when it refuses a request.
#[derive(Debug, Clone, Copy, PartialEq, Eq, Structural)]
pub enum NAK {
    ZeroAdjustmentAtTooHighPressure,
    AtmoAdjustmentAtTooLowPressure,
    UnrecognizedMessage,
    InvalidArgument,
    ValueOutOfRange,
    CommandOrQueryCharacterInvalid,
    NotInSetupMode,
}

impl NAK {
    /// The payload by which the device reports this reason.
    pub open spec fn code(&self) -> Seq<u8> {
        match self {
            NAK::ZeroAdjustmentAtTooHighPressure => seq![0x38u8],
            NAK::AtmoAdjustmentAtTooLowPressure => seq![0x39u8],
            NAK::UnrecognizedMessage => seq![0x31u8, 0x36u8, 0x30u8],
            NAK::InvalidArgument => seq![0x31u8, 0x36u8, 0x39u8],
            NAK::ValueOutOfRange => seq![0x31u8, 0x37u8, 0x32u8],
            NAK::CommandOrQueryCharacterInvalid => seq![0x31u8, 0x37u8, 0x35u8],
            NAK::NotInSetupMode => seq![0x31u8, 0x38u8, 0x30u8],
        }
    }
}

/// Every way in which an exchange can fail. The variants are told apart
/// by the caller; none stands for another.
#[derive(Debug)]
pub enum Error {
    /// The response is not a well-formed frame.
    ParseError,
    /// The transport failed while writing or reading.
    IOError(std::io::Error),
    /// The payload of an acknowledgement is not UTF-8 text.
    Utf8Error(std::string::FromUtf8Error),
    /// The device refused the request.
    NAK(NAK),
}

impl From<std::io::Error> for Error {
    fn from(err: std::io::Error) -> (e: Error) {
        Error::IOError(err)
    }
}

impl vstd::std_specs::convert::FromSpecImpl<std::io::Error> for Error {
    open spec fn obeys_from_spec() -> bool {
        true
    }

    open spec fn from_spec(err: std::io::Error) -> Error {
        Error::IOError(err)
    }
}

impl From<std::string::FromUtf8Error> for Error {
    fn from(err: std::string::FromUtf8Error) -> (e: Error) {
        Error::Utf8Error(err)
    }
}

impl vstd::std_specs::convert::FromSpecImpl<std::string::FromUtf8Error> for Error {
    open spec fn obeys_from_spec() -> bool {
        true
    }

    open spec fn from_spec(err: std::string::FromUtf8Error) -> Error {
        Error::Utf8Error(err)
    }
}

} // verus!
