use vstd::prelude::*;

use crate::error::ClientError;
use crate::identity::MAX_IDENTITY_BYTES;

verus! {

/// The Candid message whose one argument is the principal with these bytes (at most 29):
/// the magic `DIDL`, an empty type table, one argument of the principal type (-24, one
/// SLEB128 byte), then the value: the reference tag 1, the length (one LEB128 byte) and
/// the bytes.
pub open spec fn candid_principal_arg(bytes: Seq<u8>) -> Seq<u8> {
    seq![0x44u8, 0x49u8, 0x44u8, 0x4cu8, 0x00u8, 0x01u8, 0x68u8, 0x01u8, bytes.len() as u8]
        + bytes
}

/// What a Candid message holding one `Result<nat, text>` value reads as: the number as
/// `Nat` prints it (decimal digits, grouped in threes by `_`) or the text, or `None` for a
/// message of another shape.
pub uninterp spec fn candid_counter_reply(bytes: Seq<u8>) -> Option<Result<Seq<char>, Seq<char>>>;

/// Relies on `candid::encode_args` (with `Principal::from_slice`, which panics past 29
/// bytes): the Candid message whose one argument is the principal with these bytes. A
/// principal is a primitive type, so it adds nothing to the type table, and every write
/// goes to a `Vec`: nothing on the way can fail.
#[verifier::external_body]
pub(crate) fn encode_principal_arg(b: &[u8]) -> (r: Result<Vec<u8>, String>)
    requires
        b@.len() <= MAX_IDENTITY_BYTES,
    ensures
        r is Ok,
        r matches Ok(m) ==> m@ == candid_principal_arg(b@),
{
    candid::encode_args((candid::Principal::from_slice(b),)).map_err(|e| e.to_string())
}

/// Relies on `candid::decode_one::<Result<Nat, String>>` and `Nat`'s `to_string`: the
/// message read as one `Result<nat, text>` value, the number printed in full (decimal
/// digits grouped by `_`); an error where the message has another shape.
#[verifier::external_body]
fn decode_counter_reply(b: &[u8]) -> (r: Result<Result<String, String>, String>)
    ensures
        match r {
            Ok(Ok(v)) => candid_counter_reply(b@) == Some(Ok::<Seq<char>, Seq<char>>(v@)),
            Ok(Err(m)) => candid_counter_reply(b@) == Some(Err::<Seq<char>, Seq<char>>(m@)),
            Err(_) => candid_counter_reply(b@) is None,
        },
{
    candid::decode_one::<Result<candid::Nat, String>>(b).map(|v| v.map(|n| n.to_string())).map_err(
        |e| e.to_string(),
    )
}

/// The view of a decoded reply: the value, the relay's failure message, or `None` where the
/// reply could not be decoded.
pub open spec fn decoded_view(d: Result<Result<String, String>, String>) -> Option<
    Result<Seq<char>, Seq<char>>,
> {
    match d {
        Ok(Ok(v)) => Some(Ok(v@)),
        Ok(Err(m)) => Some(Err(m@)),
        Err(_) => None,
    }
}

/// What a reply says, as the client reports it: a value, a failure reported by the relay,
/// or a reply that could not be decoded.
pub open spec fn reply_result_matches(
    r: Result<String, ClientError>,
    reply: Option<Result<Seq<char>, Seq<char>>>,
) -> bool {
    match reply {
        Some(Ok(v)) => r matches Ok(s) && s@ == v,
        Some(Err(m)) => r matches Err(ClientError::RemoteError(x)) && x@ == m,
        None => r matches Err(ClientError::DecodeFailed(_)),
    }
}

/// The client's result for a decoded reply (`Ok(Ok(value))`, `Ok(Err(message))` from the
/// relay, or `Err(cause)` where decoding failed).
pub fn interpret_reply(decoded: Result<Result<String, String>, String>) -> (r: Result<
    String,
    ClientError,
>)
    ensures
        reply_result_matches(r, decoded_view(decoded)),
        decoded matches Err(cause) ==> r matches Err(ClientError::DecodeFailed(c)) && c@ == cause@,
{
    match decoded {
        Ok(Ok(v)) => Ok(v),
        Ok(Err(m)) => Err(ClientError::RemoteError(m)),
        Err(cause) => Err(ClientError::DecodeFailed(cause)),
    }
}

/// The client's result for the outcome of a call's round trip: the reply's bytes, or why
/// the round trip failed.
pub fn read_reply(reply: Result<Vec<u8>, String>) -> (r: Result<String, ClientError>)
    ensures
        reply matches Err(m) ==> r matches Err(ClientError::RemoteCallFailed(x)) && x@ == m@,
        reply matches Ok(b) ==> reply_result_matches(r, candid_counter_reply(b@)),
{
    match reply {
        Ok(bytes) => interpret_reply(decode_counter_reply(bytes.as_slice())),
        Err(m) => Err(ClientError::RemoteCallFailed(m)),
    }
}

} // verus!
