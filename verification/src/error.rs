//! The decoder's error type.

use vstd::prelude::*;

verus! {

/// Why a response body could not be decoded.
#[derive(Debug)]
pub enum Error {
    /// The bytes after the anti-hijacking prefix were not a JSON
    /// document; the payload is the parser's rendering of what was
    /// wrong.
    SerdeError(String),
    /// The document was JSON, but did not match the expected positional
    /// layout; the message names the path that failed and renders the
    /// container that was actually encountered.
    Malformed(String),
}

} // verus!
