//! Command/response protocol for instrument controllers that share one
//! serial line: device addresses, request framing, response parsing and the
//! table of negative acknowledgements. The library handles bytes only; the
//! caller owns the transport.

pub mod address;
pub mod error;
pub mod codec;
pub mod session;

pub use address::Address;
pub use codec::{build_request, parse_response};
pub use error::{Error, NAK};
pub use session::{command_message, query_message, MAX_FRAME_LEN};
