//! Native status codes and HTTP response statuses.

use vstd::prelude::*;

verus! {

/// The operation succeeded.
pub const NGX_OK: isize = 0;

/// The operation failed.
pub const NGX_ERROR: isize = -1;

/// The operation has to be repeated once an event arrives.
pub const NGX_AGAIN: isize = -2;

/// The resource is busy.
pub const NGX_BUSY: isize = -3;

/// The operation is complete or continues elsewhere.
pub const NGX_DONE: isize = -4;

/// The handler declined to act.
pub const NGX_DECLINED: isize = -5;

/// The operation was aborted.
pub const NGX_ABORT: isize = -6;

/// The smallest status that nginx answers with a special response.
pub const NGX_HTTP_SPECIAL_RESPONSE: isize = 300;

/// A native status code.
#[derive(Clone, Copy, Debug, PartialEq, Eq, Structural)]
pub struct Status(pub isize);

/// An HTTP response status in the range of the protocol.
#[derive(Clone, Copy, Debug, PartialEq, Eq, Structural)]
pub struct HTTPStatus(pub usize);

/// A number outside the range of HTTP response statuses.
#[derive(Clone, Copy, Debug, PartialEq, Eq, Structural)]
pub struct InvalidHTTPStatusCode;

impl HTTPStatus {
    /// Whether `code` is an HTTP response status.
    pub open spec fn in_range(code: int) -> bool {
        100 <= code < 600
    }

    /// The status `code`, when it lies in the range of HTTP response statuses.
    pub fn from_code(code: usize) -> (result: Result<HTTPStatus, InvalidHTTPStatusCode>)
        ensures
            result == (if Self::in_range(code as int) {
                Ok::<HTTPStatus, InvalidHTTPStatusCode>(HTTPStatus(code))
            } else {
                Err::<HTTPStatus, InvalidHTTPStatusCode>(InvalidHTTPStatusCode)
            }),
    {
        if code < 100 || code >= 600 {
            return Err(InvalidHTTPStatusCode);
        }
        Ok(HTTPStatus(code))
    }
}

} // verus!
