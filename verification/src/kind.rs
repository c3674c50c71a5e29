use vstd::prelude::*;
use crate::error::Error;

verus! {

/// The four resource kinds the adapter wraps.
#[derive(Clone, Copy, Debug, PartialEq, Eq, Structural)]
pub enum Kind {
    /// An already-opened regular file.
    RegularFile,
    /// A stdio stream (character-device-like).
    CharacterStream,
    /// A connected stream socket.
    StreamSocket,
    /// A listening socket that yields new stream sockets via accept.
    ListenerSocket,
}

/// The classification tag a resource reports for itself.
#[derive(Clone, Copy, Debug, PartialEq, Eq, Structural)]
pub enum FileType {
    Unknown,
    BlockDevice,
    CharacterDevice,
    Directory,
    RegularFile,
    SocketDgram,
    SocketStream,
    SymbolicLink,
    Pipe,
}

/// The operations of the uniform interface, named kind-agnostically.
#[derive(Clone, Copy, Debug, PartialEq, Eq, Structural)]
pub enum Operation {
    Datasync,
    Sync,
    GetFiletype,
    GetFdflags,
    SetFdflags,
    GetFilestat,
    SetFilestatSize,
    Advise,
    ReadVectored,
    ReadVectoredAt,
    WriteVectored,
    WriteVectoredAt,
    Seek,
    Peek,
    SetTimes,
    NumReadyBytes,
    IsAtty,
    Readable,
    Writable,
    SockAccept,
}

/// The per-kind configuration that parameterises the one generic adapter:
/// the fixed type tag (if any), whether flag sets are restricted to
/// empty/non-blocking, whether accept is available, and whether the
/// ready-byte hint is the fixed sentinel.
#[derive(Clone, Copy, Debug, PartialEq, Eq)]
pub struct KindConfig {
    /// The type tag this kind always reports; `None` means the tag is
    /// queried from the OS on every call.
    pub fixed_filetype: Option<FileType>,
    /// Whether only the empty set and the lone non-blocking flag may be set.
    pub restricts_flags: bool,
    /// Whether accept is available on this kind.
    pub is_listener: bool,
    /// Whether the ready-byte hint is the fixed sentinel of 1.
    pub ready_sentinel: bool,
}

impl Kind {
    /// Socket kinds share the flag restriction, the fixed type tag and the
    /// ready-byte sentinel.
    pub open spec fn is_socket(self) -> bool {
        self is StreamSocket || self is ListenerSocket
    }

    pub open spec fn config_spec(self) -> KindConfig {
        KindConfig {
            fixed_filetype: if self.is_socket() {
                Some(FileType::SocketStream)
            } else {
                None
            },
            restricts_flags: self.is_socket(),
            is_listener: self is ListenerSocket,
            ready_sentinel: self.is_socket(),
        }
    }

    pub fn is_socket_kind(&self) -> (r: bool)
        ensures
            r == self.is_socket(),
    {
        match self {
            Kind::StreamSocket => true,
            Kind::ListenerSocket => true,
            _ => false,
        }
    }

    /// The configuration row for this kind.
    pub fn config(&self) -> (r: KindConfig)
        ensures
            r == self.config_spec(),
    {
        match self {
            Kind::RegularFile | Kind::CharacterStream => KindConfig {
                fixed_filetype: None,
                restricts_flags: false,
                is_listener: false,
                ready_sentinel: false,
            },
            Kind::StreamSocket => KindConfig {
                fixed_filetype: Some(FileType::SocketStream),
                restricts_flags: true,
                is_listener: false,
                ready_sentinel: true,
            },
            Kind::ListenerSocket => KindConfig {
                fixed_filetype: Some(FileType::SocketStream),
                restricts_flags: true,
                is_listener: true,
                ready_sentinel: true,
            },
        }
    }
}

/// Which operations each kind supports. Every kind answers the whole
/// operation set; an operation that is structurally meaningless for a kind
/// is unsupported and must fail rather than silently succeed: accept
/// exists only on listeners, and the file-positional and metadata
/// operations (seek, peek, at-offset transfers, size, times, sync, advice,
/// filestat) exist only on file kinds.
pub open spec fn supports(kind: Kind, op: Operation) -> bool {
    match op {
        Operation::SockAccept => kind is ListenerSocket,
        Operation::Datasync => !kind.is_socket(),
        Operation::Sync => !kind.is_socket(),
        Operation::GetFilestat => !kind.is_socket(),
        Operation::SetFilestatSize => !kind.is_socket(),
        Operation::Advise => !kind.is_socket(),
        Operation::ReadVectoredAt => !kind.is_socket(),
        Operation::WriteVectoredAt => !kind.is_socket(),
        Operation::Seek => !kind.is_socket(),
        Operation::Peek => !kind.is_socket(),
        Operation::SetTimes => !kind.is_socket(),
        _ => true,
    }
}

/// Gate an operation on a kind: succeeds exactly when the kind supports
/// the operation, and fails with `Unsupported` otherwise.
pub fn check_supported(kind: Kind, op: Operation) -> (r: Result<(), Error>)
    ensures
        r is Ok <==> supports(kind, op),
        r is Err ==> r == Err::<(), Error>(Error::Unsupported),
{
    let applicable = match op {
        Operation::SockAccept => matches!(kind, Kind::ListenerSocket),
        Operation::Datasync
        | Operation::Sync
        | Operation::GetFilestat
        | Operation::SetFilestatSize
        | Operation::Advise
        | Operation::ReadVectoredAt
        | Operation::WriteVectoredAt
        | Operation::Seek
        | Operation::Peek
        | Operation::SetTimes => !kind.is_socket_kind(),
        _ => true,
    };
    if applicable {
        Ok(())
    } else {
        Err(Error::Unsupported)
    }
}

/// The ready-byte hint: socket kinds always answer with the fixed sentinel
/// of 1, meaning "treat as possibly ready", whatever is actually buffered;
/// file kinds answer with the real count the caller obtained from the OS.
pub fn ready_byte_hint(kind: Kind, queried: u64) -> (r: u64)
    ensures
        kind.is_socket() ==> r == 1,
        !kind.is_socket() ==> r == queried,
{
    if kind.is_socket_kind() {
        1
    } else {
        queried
    }
}

/// The terminal check: sockets and regular files are never terminals, so
/// they answer false without an OS query; a stdio stream answers with the
/// queried result.
pub fn terminal_hint(kind: Kind, queried: bool) -> (r: bool)
    ensures
        kind is CharacterStream ==> r == queried,
        !(kind is CharacterStream) ==> !r,
{
    match kind {
        Kind::CharacterStream => queried,
        _ => false,
    }
}

/// The type tag an operation reports: socket kinds report the fixed
/// socket-stream tag; file kinds report whatever the OS query returned.
pub fn filetype_of(kind: Kind, queried: FileType) -> (r: FileType)
    ensures
        kind.is_socket() ==> r == FileType::SocketStream,
        !kind.is_socket() ==> r == queried,
{
    if kind.is_socket_kind() {
        FileType::SocketStream
    } else {
        queried
    }
}

} // verus!
