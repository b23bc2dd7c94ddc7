//! Classification of failures.

use vstd::prelude::*;

verus! {

/// How a failure is classified when it is reported to a stream's caller.
///
/// The classifications are those of `std::io::ErrorKind`. The script only
/// names one; making an error value of it is left to whoever owns the
/// stream.
#[derive(Clone, Copy, Debug, PartialEq, Eq, Hash)]
pub enum ErrorKind {
    NotFound,
    PermissionDenied,
    ConnectionRefused,
    ConnectionReset,
    HostUnreachable,
    NetworkUnreachable,
    ConnectionAborted,
    NotConnected,
    AddrInUse,
    AddrNotAvailable,
    NetworkDown,
    BrokenPipe,
    AlreadyExists,
    /// The operation needs to block to complete, but blocking was not requested.
    WouldBlock,
    NotADirectory,
    IsADirectory,
    DirectoryNotEmpty,
    ReadOnlyFilesystem,
    StaleNetworkFileHandle,
    InvalidInput,
    InvalidData,
    TimedOut,
    WriteZero,
    StorageFull,
    NotSeekable,
    QuotaExceeded,
    FileTooLarge,
    ResourceBusy,
    ExecutableFileBusy,
    Deadlock,
    CrossesDevices,
    TooManyLinks,
    InvalidFilename,
    ArgumentListTooLong,
    /// The operation was interrupted and can typically be retried.
    Interrupted,
    Unsupported,
    UnexpectedEof,
    OutOfMemory,
    /// A failure that fits no other classification.
    Other,
}

impl ErrorKind {
    /// Whether this is the classification that a polling adapter reports as
    /// "not ready" instead of as a failure.
    pub open spec fn would_block(self) -> bool {
        self is WouldBlock
    }

    /// Tells whether the classification is [`ErrorKind::WouldBlock`].
    pub fn is_would_block(&self) -> (b: bool)
        ensures
            b == self.would_block(),
    {
        match self {
            ErrorKind::WouldBlock => true,
            _ => false,
        }
    }
}

} // verus!
