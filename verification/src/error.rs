//! Request-level errors and how they surface over HTTP.
//!
//! Every failure a handler can meet is one of these variants; each maps
//! to an HTTP status code and a textual body.  The surrounding process
//! turns the pair into an actual response.

use vstd::prelude::*;

verus! {

/// Status code of a plain success.
pub const STATUS_OK: u16 = 200;

/// Status code returned after an insert.
pub const STATUS_CREATED: u16 = 201;

/// Status code for a name that is not in a catalog.
pub const STATUS_NOT_FOUND: u16 = 404;

/// Status code for an internal failure.
pub const STATUS_INTERNAL: u16 = 500;

/// A request-level error.
#[derive(Debug)]
pub enum HttpErr {
    /// A generic internal failure, with its text.
    Generic(String),
    /// An I/O failure, with its text.
    Io(String),
    /// An HTTP-layer failure, with its text.
    Http(String),
    /// A bare HTTP status.
    Status(u16),
}

impl HttpErr {
    /// The status code this error surfaces with: the carried status for
    /// a bare status, an internal failure otherwise.
    pub open spec fn spec_status(&self) -> u16 {
        match self {
            HttpErr::Status(c) => *c,
            _ => STATUS_INTERNAL,
        }
    }

    /// The response body this error surfaces with.
    pub open spec fn spec_message(&self) -> Seq<char> {
        match self {
            HttpErr::Generic(e) => "Something went wrong: "@ + e@,
            HttpErr::Io(e) => "IO: "@ + e@,
            HttpErr::Http(e) => "IO: "@ + e@,
            HttpErr::Status(_) => Seq::<char>::empty(),
        }
    }

    /// The status code and body text this error surfaces with.
    pub fn response_parts(&self) -> (r: (u16, String))
        ensures
            r.0 == self.spec_status(),
            r.1@ == self.spec_message(),
    {
        match self {
            HttpErr::Generic(e) => (
                STATUS_INTERNAL,
                String::from_str("Something went wrong: ").concat(e.as_str()),
            ),
            HttpErr::Io(e) => (STATUS_INTERNAL, String::from_str("IO: ").concat(e.as_str())),
            HttpErr::Http(e) => (STATUS_INTERNAL, String::from_str("IO: ").concat(e.as_str())),
            HttpErr::Status(c) => (*c, String::new()),
        }
    }
}

impl core::convert::From<u16> for HttpErr {
    /// A bare status as an error.
    fn from(code: u16) -> (r: Self) {
        HttpErr::Status(code)
    }
}

impl vstd::std_specs::convert::FromSpecImpl<u16> for HttpErr {
    open spec fn obeys_from_spec() -> bool {
        true
    }

    open spec fn from_spec(code: u16) -> Self {
        HttpErr::Status(code)
    }
}

} // verus!
