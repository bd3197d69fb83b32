//! Status codes that the host extension hands back.
use vstd::prelude::*;

verus! {

/// Status code of a successful extension call.
pub const STATUS_OK: u32 = 0;

/// Status code of `take_response` when no response has been recorded yet.
pub const STATUS_NO_RESPONSE: u32 = 1;

/// The one error that the host extension reports as a typed value.
#[derive(Debug, Clone, Copy, PartialEq, Eq, Structural)]
pub enum Error {
    /// No response has been recorded for the query id yet.
    NoResponse,
}

/// Whether a status code belongs to the protocol; any other code means that
/// the contract and the host runtime disagree.
pub open spec fn is_known_status(code: u32) -> bool {
    code == STATUS_OK || code == STATUS_NO_RESPONSE
}

/// The meaning of a known status code.
pub open spec fn status_result(code: u32) -> Result<(), Error> {
    if code == STATUS_OK {
        Ok(())
    } else {
        Err(Error::NoResponse)
    }
}

/// Maps a known status code to its result: `0` is success, `1` is
/// `NoResponse`. An unknown code is a protocol fault, which callers detect
/// with `is_known_status` before calling.
pub fn from_status_code(status_code: u32) -> (r: Result<(), Error>)
    requires
        is_known_status(status_code),
    ensures
        r == status_result(status_code),
        r is Ok <==> status_code == STATUS_OK,
{
    if status_code == STATUS_OK {
        Ok(())
    } else {
        Err(Error::NoResponse)
    }
}

} // verus!
