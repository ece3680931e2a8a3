use vstd::prelude::*;

verus! {

/// The failures that operations surface to callers, each with the
/// collaborator's description of what went wrong.
#[derive(Clone, Debug, PartialEq, Eq)]
pub enum XmtpError {
    /// The network or the remote protocol failed.
    ApiError(String),
    /// The client could not be built (configuration, bad key, bad host).
    ClientBuilderError(String),
    /// A client-level operation failed (identity, group lookup, listing).
    ClientError(String),
    /// A group-level operation failed (membership change, send, group sync).
    GroupError(String),
    /// Local persistence failed.
    StorageError(String),
    /// A collaborator failed in a way not otherwise classified.
    Generic(String),
}

impl XmtpError {
    /// Network and storage failures are the ones a caller may retry.
    pub open spec fn transient(self) -> bool {
        match self {
            XmtpError::ApiError(_) | XmtpError::StorageError(_) => true,
            _ => false,
        }
    }

    pub open spec fn detail_spec(self) -> String {
        match self {
            XmtpError::ApiError(d) => d,
            XmtpError::ClientBuilderError(d) => d,
            XmtpError::ClientError(d) => d,
            XmtpError::GroupError(d) => d,
            XmtpError::StorageError(d) => d,
            XmtpError::Generic(d) => d,
        }
    }

    /// Whether retrying the failed operation may succeed.
    pub fn is_transient(&self) -> (r: bool)
        ensures
            r == self.transient(),
    {
        match self {
            XmtpError::ApiError(_) | XmtpError::StorageError(_) => true,
            _ => false,
        }
    }

    /// The collaborator's description of the failure.
    pub fn detail(&self) -> (r: &String)
        ensures
            *r == self.detail_spec(),
    {
        match self {
            XmtpError::ApiError(d) => d,
            XmtpError::ClientBuilderError(d) => d,
            XmtpError::ClientError(d) => d,
            XmtpError::GroupError(d) => d,
            XmtpError::StorageError(d) => d,
            XmtpError::Generic(d) => d,
        }
    }
}

} // verus!
