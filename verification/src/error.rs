//! Error taxonomy for the coordination protocol and the orchestrator.
//!
//! Transport errors are classified fatal or transient: a transient error
//! (`NetworkBlocked`, the would-block case) is swallowed so the outer poll
//! can retry; every other kind aborts the workflow instance.

use vstd::prelude::*;

verus! {

/// The result type of the coordination protocol.
pub type RussulaResult<T> = Result<T, RussulaError>;

/// The result type of the orchestrator.
pub type OrchResult<T> = Result<T, OrchError>;

/// Errors emitted by the coordination protocol.
///
/// Every variant carries a human-readable debug string.
#[derive(Debug)]
pub enum RussulaError {
    /// The remote peer refused the connection.
    NetworkConnectionRefused { dbg: String },
    /// A non-recoverable network error.
    NetworkFail { dbg: String },
    /// A read from the socket failed or the peer closed the stream.
    ReadFail { dbg: String },
    /// Possibly no more data to read; try again later.
    NetworkBlocked { dbg: String },
    /// A received frame was malformed.
    BadMsg { dbg: String },
}

impl RussulaError {
    /// The transient errors are exactly the would-block reads; everything
    /// else is non-recoverable.
    pub fn is_fatal(&self) -> (r: bool)
        ensures
            r == !(self is NetworkBlocked),
    {
        match self {
            RussulaError::NetworkBlocked { dbg: _ } => false,
            _ => true,
        }
    }

    /// The debug string carried by this error.
    pub fn dbg(&self) -> (r: &String)
        ensures
            r@ == self.dbg_spec(),
    {
        match self {
            RussulaError::NetworkConnectionRefused { dbg } => dbg,
            RussulaError::NetworkFail { dbg } => dbg,
            RussulaError::ReadFail { dbg } => dbg,
            RussulaError::NetworkBlocked { dbg } => dbg,
            RussulaError::BadMsg { dbg } => dbg,
        }
    }

    /// The debug string of each variant.
    pub open spec fn dbg_spec(&self) -> Seq<char> {
        match self {
            RussulaError::NetworkConnectionRefused { dbg } => dbg@,
            RussulaError::NetworkFail { dbg } => dbg@,
            RussulaError::ReadFail { dbg } => dbg@,
            RussulaError::NetworkBlocked { dbg } => dbg@,
            RussulaError::BadMsg { dbg } => dbg@,
        }
    }
}

/// The aspects of an operating-system I/O error that the transport
/// classification reads: the caller turns the OS error kind into one of
/// these three cases and passes the rendered error text along.
pub enum IoErrorKind {
    WouldBlock,
    ConnectionRefused,
    Other,
}

/// Classify an OS-level I/O error into the transport taxonomy:
/// would-block is transient, connection-refused keeps its own kind and
/// everything else is a plain network failure.
pub fn russula_error_from_io(kind: &IoErrorKind, dbg: String) -> (r: RussulaError)
    ensures
        r.dbg_spec() == dbg@,
        kind is WouldBlock ==> r is NetworkBlocked,
        kind is ConnectionRefused ==> r is NetworkConnectionRefused,
        kind is Other ==> r is NetworkFail,
{
    match kind {
        IoErrorKind::WouldBlock => RussulaError::NetworkBlocked { dbg },
        IoErrorKind::ConnectionRefused => RussulaError::NetworkConnectionRefused { dbg },
        IoErrorKind::Other => RussulaError::NetworkFail { dbg },
    }
}

/// Errors emitted by the orchestrator, one kind per external collaborator.
#[derive(Debug)]
pub enum OrchError {
    /// Initialization failure, before any side effects.
    Init { dbg: String },
    /// Cloud-compute failure.
    Ec2 { dbg: String },
    /// Identity lookup failure.
    Iam { dbg: String },
    /// Remote-command failure.
    Ssm { dbg: String },
    /// Object-store failure.
    S3 { dbg: String },
    /// Coordination-protocol failure.
    Russula { dbg: String },
}

impl OrchError {
    /// The debug string of each variant.
    pub open spec fn dbg_spec(&self) -> Seq<char> {
        match self {
            OrchError::Init { dbg } => dbg@,
            OrchError::Ec2 { dbg } => dbg@,
            OrchError::Iam { dbg } => dbg@,
            OrchError::Ssm { dbg } => dbg@,
            OrchError::S3 { dbg } => dbg@,
            OrchError::Russula { dbg } => dbg@,
        }
    }

    /// The debug string carried by this error.
    pub fn dbg(&self) -> (r: &String)
        ensures
            r@ == self.dbg_spec(),
    {
        match self {
            OrchError::Init { dbg } => dbg,
            OrchError::Ec2 { dbg } => dbg,
            OrchError::Iam { dbg } => dbg,
            OrchError::Ssm { dbg } => dbg,
            OrchError::S3 { dbg } => dbg,
            OrchError::Russula { dbg } => dbg,
        }
    }
}

} // verus!
