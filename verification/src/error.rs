//! Failures of the connection, as plain values.

use vstd::prelude::*;
use vstd::string::StringExecFns;

verus! {

/// What a system-call binding reports when a call fails.
#[derive(Clone, Copy, Debug, PartialEq, Eq)]
pub enum NixError {
    /// The operating system refused the call with this error number.
    Sys(i32),
    /// A path argument could not be handed to the operating system.
    InvalidPath,
    /// A text argument was not valid UTF-8.
    InvalidUtf8,
    /// The binding does not offer the operation.
    UnsupportedOperation,
}

/// Why an acquisition or a transfer failed.
#[derive(Debug, PartialEq, Eq)]
pub enum Error {
    /// The operating system refused a call with this error number.
    Os(i32),
    /// An argument could not be handed to the operating system.
    InvalidInput,
    /// The system-call binding does not offer the operation.
    Unsupported,
    /// The mount helper was not found; the text is the lookup's own report.
    HelperNotFound(String),
    /// The mount helper ran and exited with a failure status.
    HelperFailed,
    /// The helper's message carried no descriptor-passing control message.
    NoControlMessage,
    /// The helper's control message carried an empty descriptor list.
    NoDescriptor,
    /// Any other failure the runtime reported, by its text.
    Other(String),
}

impl Error {
    /// The wording this crate gives to a failure; failures worded by the
    /// operating system have none.
    pub open spec fn message_text(self) -> Option<Seq<char>> {
        match self {
            Error::Os(_) | Error::InvalidInput | Error::Unsupported => None,
            Error::HelperNotFound(detail) => Some("find fusermount binary failed "@ + detail@),
            Error::HelperFailed => Some("fusermount run failed"@),
            Error::NoControlMessage => Some("get fuse fd failed"@),
            Error::NoDescriptor => Some("no fuse fd"@),
            Error::Other(text) => Some(text@),
        }
    }

    /// Text of the failure, where this crate words it.
    pub fn message(&self) -> (text: Option<String>)
        ensures
            match (text, self.message_text()) {
                (Some(t), Some(m)) => t@ == m,
                (None, None) => true,
                _ => false,
            },
    {
        match self {
            Error::Os(_) | Error::InvalidInput | Error::Unsupported => None,
            Error::HelperNotFound(detail) => Some(
                String::from_str("find fusermount binary failed ").concat(detail.as_str()),
            ),
            Error::HelperFailed => Some(String::from_str("fusermount run failed")),
            Error::NoControlMessage => Some(String::from_str("get fuse fd failed")),
            Error::NoDescriptor => Some(String::from_str("no fuse fd")),
            Error::Other(text) => Some(text.clone()),
        }
    }
}

} // verus!
