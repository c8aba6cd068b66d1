//! The server-reply data model.

use vstd::prelude::*;

verus! {

/// A server reply: a three-digit status code plus one or more message
/// lines. Whether a reply is erroneous is determined solely by the
/// code's leading digit: 4 and 5 signal failure, 2 and 3 signal
/// success or an intermediate step.
#[derive(Debug, Clone, PartialEq, Eq)]
pub struct Response {
    code: u16,
    lines: Vec<String>,
}

impl Response {
    /// The status code of this reply.
    pub closed spec fn spec_code(&self) -> u16 {
        self.code
    }

    /// The message lines of this reply.
    pub closed spec fn spec_lines(&self) -> Seq<String> {
        self.lines@
    }

    /// Well-formed: a three-digit code and at least one message line.
    pub open spec fn wf(&self) -> bool {
        &&& 100 <= self.spec_code() <= 599
        &&& self.spec_lines().len() >= 1
    }

    /// A reply is erroneous exactly when its leading digit is 4 or 5.
    pub open spec fn spec_is_erroneous(&self) -> bool {
        400 <= self.spec_code() <= 599
    }

    pub fn new(code: u16, lines: Vec<String>) -> (r: Response)
        requires
            100 <= code <= 599,
            lines@.len() >= 1,
        ensures
            r.spec_code() == code,
            r.spec_lines() == lines@,
            r.wf(),
    {
        Response { code, lines }
    }

    pub fn code(&self) -> (r: u16)
        ensures
            r == self.spec_code(),
    {
        self.code
    }

    pub fn lines(&self) -> (r: &Vec<String>)
        ensures
            r@ == self.spec_lines(),
    {
        &self.lines
    }

    /// Whether the status code's leading digit signals failure.
    pub fn is_erroneous(&self) -> (r: bool)
        ensures
            r == self.spec_is_erroneous(),
    {
        400 <= self.code && self.code <= 599
    }
}

} // verus!
