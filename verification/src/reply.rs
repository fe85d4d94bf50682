//! What a request handler answers: a status code and a body.

use vstd::prelude::*;

verus! {

/// The answer to an HTTP request: its status code, whether its body is an
/// HTML page (otherwise plain text), and its body.
#[derive(Debug, Clone, PartialEq, Eq)]
pub struct Reply {
    pub status: u16,
    pub html: bool,
    pub body: String,
}

/// Status code of a successful request.
pub const STATUS_OK: u16 = 200;

/// Status code of a request that created something.
pub const STATUS_CREATED: u16 = 201;

/// Status code of a request whose content is refused.
pub const STATUS_BAD_REQUEST: u16 = 400;

/// Status code of a request that failed on the server's side.
pub const STATUS_SERVER_ERROR: u16 = 500;

} // verus!
