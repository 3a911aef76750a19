//! What the machine and the transport adapter say to each other when a
//! connection is opened: where to connect, under which handle, and what went
//! wrong if the transport could not be built.

use vstd::prelude::*;
use vstd::string::StringExecFns;
use crate::handle::Handle;

verus! {

/// The URL of the endpoint at `address`: the websocket scheme, then the
/// address as it was given.
pub open spec fn endpoint_url(address: Seq<char>) -> Seq<char> {
    "ws://"@ + address
}

/// The URL that the transport is opened for. The address is not examined.
pub fn transport_url(address: &str) -> (url: String)
    ensures
        url@ == endpoint_url(address@),
{
    String::from_str("ws://").concat(address)
}

/// The transport could not be built for a connect, for instance because the
/// address is malformed. Its view is the reason that the transport gave.
#[derive(Clone, Debug, PartialEq, Eq)]
pub struct ConnectError {
    reason: String,
}

impl View for ConnectError {
    type V = Seq<char>;

    closed spec fn view(&self) -> Seq<char> {
        self.reason@
    }
}

impl ConnectError {
    /// The error with the reason that the transport gave.
    pub fn new(reason: String) -> (error: ConnectError)
        ensures
            error@ == reason@,
    {
        ConnectError { reason }
    }

    /// The reason that the transport gave.
    pub fn reason(&self) -> (reason: &str)
        ensures
            reason@ == self@,
    {
        self.reason.as_str()
    }
}

/// What the transport adapter is asked to open for a connect: the URL, and
/// the handle that the events of the new session have to name.
#[derive(Clone, Debug, PartialEq, Eq)]
pub struct OpenRequest {
    pub url: String,
    pub handle: Handle,
}

} // verus!
