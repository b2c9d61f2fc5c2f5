//! What one exchange with a device is made of: the text of a query or a
//! command, and the bound on what is read back. An exchange is one write of
//! a request and one bounded read of a response; nothing is kept from one
//! exchange to the next, so the caller must not start one before the last
//! has been answered.

use vstd::prelude::*;
use vstd::string::*;
use crate::error::Error;
use crate::codec::parses_to;

verus! {

/// The most bytes that a session reads for one response.
pub const MAX_FRAME_LEN: usize = 1000;

/// The message that asks for the value called `name`.
pub open spec fn query_text(name: Seq<char>) -> Seq<char> {
    name + seq!['?']
}

/// The message that sets the value called `name` to `parameter`.
pub open spec fn command_text(name: Seq<char>, parameter: Seq<char>) -> Seq<char> {
    name + seq!['!'] + parameter
}

/// Writes the message of a query: the name and a question mark.
pub fn query_message(name: &str) -> (message: String)
    ensures
        message@ == query_text(name@),
{
    let mut message = String::from_str(name);
    proof {
        reveal_strlit("?");
    }
    message.append("?");
    assert(message@ =~= query_text(name@));
    message
}

/// Writes the message of a command: the name, an exclamation mark and the
/// parameter.
pub fn command_message(name: &str, parameter: &str) -> (message: String)
    ensures
        message@ == command_text(name@, parameter@),
{
    let mut message = String::from_str(name);
    proof {
        reveal_strlit("!");
    }
    message.append("!");
    message.append(parameter);
    assert(message@ =~= command_text(name@, parameter@));
    message
}

/// An exchange has no memory. Whatever two readings of the same response
/// bytes give, they agree: both succeed with the same text, or both fail
/// with an error of the same kind, and a refusal names the same reason.
pub proof fn lemma_same_response_same_result(
    resp: Seq<u8>,
    first: Result<String, Error>,
    second: Result<String, Error>,
)
    requires
        parses_to(resp, first),
        parses_to(resp, second),
    ensures
        first is Ok <==> second is Ok,
        first is Ok ==> first->Ok_0@ == second->Ok_0@,
        first == Err::<String, Error>(Error::ParseError) <==> second == Err::<String, Error>(
            Error::ParseError,
        ),
        first matches Err(Error::Utf8Error(_)) <==> second matches Err(Error::Utf8Error(_)),
        forall|reason: crate::error::NAK|
            first == Err::<String, Error>(Error::NAK(reason)) <==> second == Err::<String, Error>(
                Error::NAK(reason),
            ),
{
}

} // verus!
