//! What the manager asks of the transport before any connection is made:
//! whether it takes the credential as a header value and the address as an
//! endpoint. The calls into `tonic` stand here and nowhere else.

use std::str::FromStr;
use tonic::metadata::AsciiMetadataValue;
use tonic::transport::Endpoint;
use vstd::prelude::*;
use crate::credential::encodable;

verus! {

/// Time allowed for the channel to be established, in milliseconds.
pub const CONNECT_TIMEOUT_MS: u64 = 10_000;

/// Time allowed for each call on the channel, in milliseconds.
pub const REQUEST_TIMEOUT_MS: u64 = 10_000;

/// Whether every call asks the remote end for a snapshot at startup.
pub const REQUEST_SNAPSHOT: bool = true;

/// Whether the transport accepts a text as an endpoint address.
pub uninterp spec fn endpoint_accepted(address: Seq<char>) -> bool;

/// Calls tonic's `AsciiMetadataValue::from_str` and says whether it
/// succeeded. It is trusted to succeed exactly on the texts whose bytes are
/// all header bytes: that is the test which `HeaderValue::from_str` of the
/// `http` crate makes byte by byte, and tonic adds none to it.
#[verifier::external_body]
pub(crate) fn encodes_as_header(token: &str) -> (ok: bool)
    ensures
        ok == encodable(token@),
{
    AsciiMetadataValue::from_str(token).is_ok()
}

/// Calls tonic's `Endpoint::from_shared` and says whether it succeeded. It
/// is trusted to decide by the text of the address alone. Which addresses
/// pass is the transport's matter and is not stated here.
#[verifier::external_body]
pub(crate) fn parses_as_endpoint(address: &str) -> (ok: bool)
    ensures
        ok == endpoint_accepted(address@),
{
    Endpoint::from_shared(address.to_string()).is_ok()
}

} // verus!
