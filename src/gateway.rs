//! The host extension's six operations, as calls to issue in order, and the
//! reading of what `take_response` hands back.
use vstd::prelude::*;
use crate::model::{VersionedLocation, VersionedXcm};
use crate::status::{is_known_status, Error, STATUS_NO_RESPONSE, STATUS_OK};
use staging_xcm::VersionedResponse;

verus! {

/// A response of the host, in whichever protocol generation it came.
#[verifier::external_type_specification]
#[verifier::external_body]
pub struct ExVersionedResponse(VersionedResponse);

/// Extension code of `prepare_execute`.
pub const PREPARE_EXECUTE_ID: u32 = 0x0001_0000;

/// Extension code of `execute`.
pub const EXECUTE_ID: u32 = 0x0001_0001;

/// Extension code of `prepare_send`.
pub const PREPARE_SEND_ID: u32 = 0x0001_0002;

/// Extension code of `send`.
pub const SEND_ID: u32 = 0x0001_0003;

/// Extension code of `new_query`.
pub const NEW_QUERY_ID: u32 = 0x0001_0004;

/// Extension code of `take_response`.
pub const TAKE_RESPONSE_ID: u32 = 0x0001_0005;

/// One request to the host extension.
#[derive(Debug)]
pub enum ExtensionCall {
    /// Stages a program for local execution; the host answers with a handle.
    PrepareExecute(VersionedXcm),
    /// Runs the staged program.
    Execute,
    /// Stages a program for delivery to `dest`; the host answers with the fee.
    PrepareSend { dest: VersionedLocation, xcm: VersionedXcm },
    /// Dispatches the staged send.
    Send,
    /// Allocates a query id for a later response.
    NewQuery,
    /// Polls for the response to a query id.
    TakeResponse(u64),
}

/// The numeric code that selects each operation at the host.
pub open spec fn spec_func_id(c: ExtensionCall) -> u32 {
    match c {
        ExtensionCall::PrepareExecute(_) => PREPARE_EXECUTE_ID,
        ExtensionCall::Execute => EXECUTE_ID,
        ExtensionCall::PrepareSend { .. } => PREPARE_SEND_ID,
        ExtensionCall::Send => SEND_ID,
        ExtensionCall::NewQuery => NEW_QUERY_ID,
        ExtensionCall::TakeResponse(_) => TAKE_RESPONSE_ID,
    }
}

impl ExtensionCall {
    /// The numeric code under which the host dispatches this call.
    pub fn func_id(&self) -> (r: u32)
        ensures
            r == spec_func_id(*self),
    {
        match self {
            ExtensionCall::PrepareExecute(_) => PREPARE_EXECUTE_ID,
            ExtensionCall::Execute => EXECUTE_ID,
            ExtensionCall::PrepareSend { .. } => PREPARE_SEND_ID,
            ExtensionCall::Send => SEND_ID,
            ExtensionCall::NewQuery => NEW_QUERY_ID,
            ExtensionCall::TakeResponse(_) => TAKE_RESPONSE_ID,
        }
    }

    /// Whether the host's status code for this call is read; it is for
    /// `take_response` alone.
    pub fn handles_status(&self) -> (r: bool)
        ensures
            r <==> *self is TakeResponse,
    {
        match self {
            ExtensionCall::TakeResponse(_) => true,
            _ => false,
        }
    }
}

/// A reply that breaks the protocol between the contract and the host. The
/// call that received it is aborted, never continued.
#[derive(Debug, Clone, Copy, PartialEq, Eq, Structural)]
pub enum Fault {
    /// The host answered with a status code outside the protocol.
    UnknownStatus(u32),
    /// The host reported success, but its output holds no response.
    UndecodableResponse,
}

/// Whether `bytes` start with a well-formed encoded response.
pub uninterp spec fn response_decodes(bytes: Seq<u8>) -> bool;

/// Relies on parity-scale-codec's `Decode` for `staging_xcm::VersionedResponse`:
/// reads one response from the front of the bytes, and fails exactly when
/// they do not start with one.
#[verifier::external_body]
fn decode_response(output: &[u8]) -> (r: Option<VersionedResponse>)
    ensures
        r is Some <==> response_decodes(output@),
{
    let mut input: &[u8] = output;
    <VersionedResponse as parity_scale_codec::Decode>::decode(&mut input).ok()
}

/// Reads the host's reply to `take_response`: its status code, then, on
/// success, the encoded response in `output`. Status `1` means that the host
/// holds no response for the query yet: that is the `NoResponse` error, and
/// no response value is produced. Any status besides `0` and `1` is a fault.
pub fn take_response_outcome(status_code: u32, output: &[u8]) -> (r: Result<
    Result<VersionedResponse, Error>,
    Fault,
>)
    ensures
        !is_known_status(status_code) ==> r == Err::<Result<VersionedResponse, Error>, Fault>(
            Fault::UnknownStatus(status_code),
        ),
        status_code == STATUS_NO_RESPONSE ==> r == Ok::<Result<VersionedResponse, Error>, Fault>(
            Err(Error::NoResponse),
        ),
        status_code == STATUS_OK && response_decodes(output@) ==> r matches Ok(Ok(_)),
        status_code == STATUS_OK && !response_decodes(output@) ==> r == Err::<
            Result<VersionedResponse, Error>,
            Fault,
        >(Fault::UndecodableResponse),
{
    if !(status_code == STATUS_OK || status_code == STATUS_NO_RESPONSE) {
        return Err(Fault::UnknownStatus(status_code));
    }
    if status_code == STATUS_NO_RESPONSE {
        return Ok(Err(Error::NoResponse));
    }
    match decode_response(output) {
        Some(response) => Ok(Ok(response)),
        None => Err(Fault::UndecodableResponse),
    }
}

} // verus!
