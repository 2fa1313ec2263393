//! What can go wrong in the bridge, and how each failure reads to a user.

use vstd::prelude::*;
use vstd::string::StringExecFns;

verus! {

/// Every failure the bridge reports.
#[derive(Debug, PartialEq, Eq)]
pub enum BridgeError {
    /// The requested position and name are not together in the enumeration.
    PortNotFound,
    /// The hardware layer refused to open the port; the text is its reason.
    ConnectionError(String),
    /// The shared slot could not be acquired.
    LockUnavailable,
    /// Bytes were submitted while nothing was bound.
    NoActiveBinding,
    /// One message was turned down by the transport; delivery goes on.
    TransportRejected(String),
    /// The transport itself failed; delivery is over.
    TransportFatal(String),
}

impl BridgeError {
    /// The text of this failure.
    pub open spec fn text(self) -> Seq<char> {
        match self {
            BridgeError::PortNotFound => "not found"@,
            BridgeError::ConnectionError(reason) => reason@,
            BridgeError::LockUnavailable => "failed gaining sender write lock"@,
            BridgeError::NoActiveBinding => "no active port"@,
            BridgeError::TransportRejected(reason) => "send error invalid "@ + reason@,
            BridgeError::TransportFatal(reason) => "send error other "@ + reason@,
        }
    }

    /// Renders this failure as plain text.
    pub fn message(&self) -> (rendered: String)
        ensures
            rendered@ == self.text(),
    {
        match self {
            BridgeError::PortNotFound => String::from_str("not found"),
            BridgeError::ConnectionError(reason) => reason.clone(),
            BridgeError::LockUnavailable => String::from_str("failed gaining sender write lock"),
            BridgeError::NoActiveBinding => String::from_str("no active port"),
            BridgeError::TransportRejected(reason) => String::from_str("send error invalid ").concat(
                reason.as_str(),
            ),
            BridgeError::TransportFatal(reason) => String::from_str("send error other ").concat(
                reason.as_str(),
            ),
        }
    }
}

} // verus!
