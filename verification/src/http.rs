//! The service's view of an HTTP response: a status code and a body.

use vstd::prelude::*;

verus! {

/// A response as the handlers produce it: the status code and the body text
/// (JSON, plain text, or empty). The surrounding server turns it into a wire
/// response unchanged.
pub struct Response {
    pub status: u16,
    pub body: String,
}

} // verus!
