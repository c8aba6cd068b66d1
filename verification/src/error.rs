//! The protocol-level error taxonomy, and the chokepoint through which
//! every raw server reply passes before a command may trust it.

use crate::capability::Capability;
use crate::response::Response;
use vstd::prelude::*;
use vstd::string::StringExecFns;

verus! {

/// An error produced by a command implementation and carried through
/// this core unchanged. The `kind` tag lets the caller that sent the
/// command recognize its own errors; the description and the optional
/// cause text are forwarded to generic error reporting.
#[derive(Debug, Clone, PartialEq, Eq)]
pub struct CustomError {
    kind: u64,
    description: String,
    cause: Option<String>,
}

impl CustomError {
    pub closed spec fn spec_kind(&self) -> u64 {
        self.kind
    }

    pub closed spec fn spec_description(&self) -> Seq<char> {
        self.description@
    }

    pub closed spec fn spec_cause(&self) -> Option<Seq<char>> {
        match self.cause {
            Some(c) => Some(c@),
            None => None,
        }
    }

    pub fn new(kind: u64, description: String, cause: Option<String>) -> (r: CustomError)
        ensures
            r.spec_kind() == kind,
            r.spec_description() == description@,
            r.spec_cause() == (match cause {
                Some(c) => Some(c@),
                None => None::<Seq<char>>,
            }),
    {
        CustomError { kind, description, cause }
    }

    /// The tag under which the sending command recognizes this error.
    pub fn kind(&self) -> (r: u64)
        ensures
            r == self.spec_kind(),
    {
        self.kind
    }

    pub fn description(&self) -> (r: &str)
        ensures
            r@ == self.spec_description(),
    {
        self.description.as_str()
    }

    pub fn cause(&self) -> (r: Option<&String>)
        ensures
            match r {
                Some(c) => self.spec_cause() == Some(c@),
                None => self.spec_cause() is None,
            },
    {
        match &self.cause {
            Some(c) => Some(c),
            None => None,
        }
    }
}

/// Why a server reply could not be accepted: the code itself signaled
/// failure, the code was valid but wrong for the command's current
/// phase, or a command implementation raised an error of its own.
/// Exactly one variant is active, fixed at construction.
#[derive(Debug, Clone, PartialEq, Eq)]
pub enum LogicError {
    /// The server replied with an erroneous response code.
    Code(Response),
    /// The server replied with a non-erroneous response code, but the
    /// command could not handle it in its current phase.
    UnexpectedCode(Response),
    /// An error raised by a command implementation, carried through
    /// for the command's sender to interpret.
    Custom(CustomError),
}

impl LogicError {
    /// The fixed description of the variant; a custom error forwards
    /// its own description.
    pub open spec fn spec_description(&self) -> Seq<char> {
        match self {
            LogicError::Code(_) => "server responded with error response code"@,
            LogicError::UnexpectedCode(_) => "server responded with unexpected non-error response code"@,
            LogicError::Custom(e) => e.spec_description(),
        }
    }

    /// The underlying cause: only a custom error reports one.
    pub open spec fn spec_cause(&self) -> Option<Seq<char>> {
        match self {
            LogicError::Custom(e) => e.spec_cause(),
            _ => None,
        }
    }

    pub fn description(&self) -> (r: String)
        ensures
            r@ == self.spec_description(),
    {
        match self {
            LogicError::Code(_) => "server responded with error response code".to_owned(),
            LogicError::UnexpectedCode(
                _,
            ) => "server responded with unexpected non-error response code".to_owned(),
            LogicError::Custom(e) => e.description().to_owned(),
        }
    }

    pub fn cause(&self) -> (r: Option<&String>)
        ensures
            match r {
                Some(c) => self.spec_cause() == Some(c@),
                None => self.spec_cause() is None,
            },
    {
        match self {
            LogicError::Custom(e) => e.cause(),
            _ => None,
        }
    }

    /// Operator-facing text for this error: the variant's description.
    pub fn display_string(&self) -> (r: String)
        ensures
            r@ == self.spec_description(),
    {
        self.description()
    }
}

/// Classify a raw server reply. A reply whose code is not erroneous is
/// returned unchanged; an erroneous one fails with `LogicError::Code`,
/// moving the reply into the error so no information is lost.
pub fn check_response(response: Response) -> (r: Result<Response, LogicError>)
    ensures
        response.spec_is_erroneous() ==> r == Err::<Response, LogicError>(
            LogicError::Code(response),
        ),
        !response.spec_is_erroneous() ==> r == Ok::<Response, LogicError>(response),
{
    if response.is_erroneous() {
        Err(LogicError::Code(response))
    } else {
        Ok(response)
    }
}

/// The capabilities a command required but the server did not
/// advertise, in the order the command declared them.
#[derive(Debug, Clone)]
pub struct MissingCapabilities {
    capabilities: Vec<Capability>,
}

impl View for MissingCapabilities {
    type V = Seq<Capability>;

    closed spec fn view(&self) -> Seq<Capability> {
        self.capabilities@
    }
}

/// The rendering of one missing capability in the operator-facing
/// list: the first is preceded by a space, the rest by a comma.
pub open spec fn spec_item_text(capabilities: Seq<Capability>, i: int) -> Seq<char> {
    (if i == 0 {
        " "@
    } else {
        ", "@
    }) + capabilities[i]@
}

/// The rendering of the first `n` missing capabilities.
pub open spec fn spec_items_text(capabilities: Seq<Capability>, n: int) -> Seq<char>
    decreases n,
{
    if n <= 0 {
        Seq::empty()
    } else {
        spec_items_text(capabilities, n - 1) + spec_item_text(capabilities, n - 1)
    }
}

/// The full operator-facing text for a list of missing capabilities.
pub open spec fn spec_missing_text(capabilities: Seq<Capability>) -> Seq<char> {
    "missing capabilities:"@ + spec_items_text(capabilities, capabilities.len() as int)
}

impl MissingCapabilities {
    pub fn new(capabilities: Vec<Capability>) -> (r: MissingCapabilities)
        ensures
            r@ == capabilities@,
    {
        MissingCapabilities { capabilities }
    }

    pub fn capabilities(&self) -> (r: &[Capability])
        ensures
            r@ == self@,
    {
        self.capabilities.as_slice()
    }

    /// Decompose back into the plain list the value was built from.
    pub fn into_capabilities(self) -> (r: Vec<Capability>)
        ensures
            r@ == self@,
    {
        self.capabilities
    }

    pub fn description(&self) -> (r: String)
        ensures
            r@ == "missing capabilities to run command"@,
    {
        "missing capabilities to run command".to_owned()
    }

    /// Operator-facing text: the missing capability names as one
    /// comma-joined list.
    pub fn display_string(&self) -> (r: String)
        ensures
            r@ == spec_missing_text(self@),
    {
        let mut out: String = "missing capabilities:".to_owned();
        let n = self.capabilities.len();
        let mut i: usize = 0;
        proof {
            assert(out@ == "missing capabilities:"@ + spec_items_text(self@, 0));
        }
        while i < n
            invariant
                i <= n,
                n == self@.len(),
                out@ == "missing capabilities:"@ + spec_items_text(self@, i as int),
            decreases n - i,
        {
            if i == 0 {
                out.append(" ");
            } else {
                out.append(", ");
            }
            out.append(self.capabilities[i].as_str());
            proof {
                assert(out@ == "missing capabilities:"@ + spec_items_text(self@, i + 1));
            }
            i += 1;
        }
        out
    }
}

/// Building a `MissingCapabilities` from a list and decomposing it
/// again yields the original list: the constructor's and the
/// decomposition's contracts compose to the identity.
pub proof fn lemma_capabilities_round_trip(
    capabilities: Seq<Capability>,
    built: MissingCapabilities,
    decomposed: Seq<Capability>,
)
    requires
        built@ == capabilities,
        decomposed == built@,
    ensures
        decomposed == capabilities,
{
}

} // verus!
