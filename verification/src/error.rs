//! The kinds of failure that resolving a path can report.

use vstd::prelude::*;

verus! {

/// Why a path could not be turned into canonical text.
///
/// The kinds are those by which a host names the failures of its input and
/// output, so that a failure passes through the check under its own name.
/// A failure that the host reports under none of these names is `Other`.
#[derive(Clone, Copy, Debug, PartialEq, Eq, Hash, Structural)]
pub enum ErrorKind {
    /// The path, or one of its parents, does not exist.
    NotFound,
    /// The filesystem refused access to the path or to one of its parents.
    PermissionDenied,
    /// The remote side refused the connection.
    ConnectionRefused,
    /// The remote side reset the connection.
    ConnectionReset,
    /// The remote host cannot be reached.
    HostUnreachable,
    /// The network of the remote host cannot be reached.
    NetworkUnreachable,
    /// The remote side ended the connection.
    ConnectionAborted,
    /// There is no connection yet.
    NotConnected,
    /// The address is already in use.
    AddrInUse,
    /// The address does not exist or is not local.
    AddrNotAvailable,
    /// The network is down.
    NetworkDown,
    /// The other end of the pipe is closed.
    BrokenPipe,
    /// What was to be created exists already.
    AlreadyExists,
    /// The operation would have to wait, and waiting was ruled out.
    WouldBlock,
    /// A parent of the path is not a directory.
    NotADirectory,
    /// A directory stands where a file was expected.
    IsADirectory,
    /// A directory that had to be empty is not.
    DirectoryNotEmpty,
    /// The filesystem takes no writes.
    ReadOnlyFilesystem,
    /// A handle on a network filesystem has gone stale.
    StaleNetworkFileHandle,
    /// The path is not one that the filesystem can take.
    InvalidInput,
    /// The canonical form of the path is not valid text.
    InvalidData,
    /// The filesystem did not answer in time.
    TimedOut,
    /// A write made no progress.
    WriteZero,
    /// The storage has no room left.
    StorageFull,
    /// The file cannot be sought in.
    NotSeekable,
    /// A quota of the filesystem is used up.
    QuotaExceeded,
    /// The file is larger than the filesystem allows.
    FileTooLarge,
    /// The resource is in use.
    ResourceBusy,
    /// The executable file is in use.
    ExecutableFileBusy,
    /// Locking the file would lead to a deadlock.
    Deadlock,
    /// The operation would cross from one mount to another.
    CrossesDevices,
    /// There are too many links to the file.
    TooManyLinks,
    /// The path, or one of its segments, is too long or otherwise not a name.
    InvalidFilename,
    /// The arguments of a program are too long.
    ArgumentListTooLong,
    /// The operation was interrupted and can be tried again.
    Interrupted,
    /// The host does not support the operation.
    Unsupported,
    /// The input ended too early.
    UnexpectedEof,
    /// The host ran out of memory.
    OutOfMemory,
    /// Any failure that has none of the names above.
    Other,
}

} // verus!
