use wasi_tokio::error::Error;
use wasi_tokio::flags::FdFlags;
use wasi_tokio::kind::{check_supported, filetype_of, ready_byte_hint, terminal_hint, FileType, Kind, Operation};
use wasi_tokio::resource::Resource;

#[test]
fn construction_takes_no_registration() {
    let r = Resource::from_handle(Kind::RegularFile, 3);
    assert_eq!(r.kind(), Kind::RegularFile);
    assert_eq!(r.raw_handle(), 3);
    assert_eq!(r.registration_count(), 0);
    assert!(r.get_fdflags().is_empty());
}

#[test]
fn socket_flags_set_then_get_round_trip() {
    let mut s = Resource::from_handle(Kind::StreamSocket, 5);
    assert_eq!(s.set_fdflags(FdFlags::nonblock()), Ok(()));
    assert_eq!(s.get_fdflags(), FdFlags::nonblock());
    assert_eq!(s.set_fdflags(FdFlags::empty()), Ok(()));
    assert_eq!(s.get_fdflags(), FdFlags::empty());
}

#[test]
fn socket_rejects_other_flags() {
    let mut s = Resource::from_handle(Kind::ListenerSocket, 5);
    let bad = FdFlags { append: true, dsync: false, nonblock: true, rsync: false, sync: false };
    assert_eq!(s.set_fdflags(bad), Err(Error::InvalidArgument));
    assert_eq!(s.get_fdflags(), FdFlags::empty());
}

#[test]
fn file_flags_delegate_fully() {
    let mut f = Resource::from_handle(Kind::RegularFile, 7);
    let set = FdFlags { append: true, dsync: true, nonblock: false, rsync: false, sync: false };
    assert_eq!(f.set_fdflags(set), Ok(()));
    assert_eq!(f.get_fdflags(), set);
}

#[test]
fn socket_ready_bytes_is_always_one() {
    let s = Resource::from_handle(Kind::StreamSocket, 5);
    assert_eq!(s.num_ready_bytes(0), 1);
    assert_eq!(s.num_ready_bytes(4096), 1);
    let l = Resource::from_handle(Kind::ListenerSocket, 6);
    assert_eq!(l.num_ready_bytes(0), 1);
    assert_eq!(ready_byte_hint(Kind::StreamSocket, 77), 1);
}

#[test]
fn file_ready_bytes_is_the_real_count() {
    let f = Resource::from_handle(Kind::RegularFile, 7);
    assert_eq!(f.num_ready_bytes(42), 42);
    assert_eq!(ready_byte_hint(Kind::CharacterStream, 9), 9);
}

#[test]
fn socket_type_tag_is_fixed() {
    let s = Resource::from_handle(Kind::StreamSocket, 5);
    assert_eq!(s.filetype(FileType::Unknown), FileType::SocketStream);
    assert_eq!(filetype_of(Kind::ListenerSocket, FileType::RegularFile), FileType::SocketStream);
}

#[test]
fn file_type_tag_is_queried() {
    let f = Resource::from_handle(Kind::RegularFile, 7);
    assert_eq!(f.filetype(FileType::RegularFile), FileType::RegularFile);
    assert_eq!(filetype_of(Kind::CharacterStream, FileType::CharacterDevice), FileType::CharacterDevice);
}

#[test]
fn sockets_lack_positional_operations() {
    assert_eq!(check_supported(Kind::StreamSocket, Operation::Seek), Err(Error::Unsupported));
    assert_eq!(check_supported(Kind::ListenerSocket, Operation::Peek), Err(Error::Unsupported));
    assert_eq!(check_supported(Kind::StreamSocket, Operation::Datasync), Err(Error::Unsupported));
    assert_eq!(check_supported(Kind::StreamSocket, Operation::ReadVectored), Ok(()));
    assert_eq!(check_supported(Kind::StreamSocket, Operation::Readable), Ok(()));
}

#[test]
fn files_support_positional_operations() {
    assert_eq!(check_supported(Kind::RegularFile, Operation::Seek), Ok(()));
    assert_eq!(check_supported(Kind::RegularFile, Operation::GetFilestat), Ok(()));
    assert_eq!(check_supported(Kind::CharacterStream, Operation::WriteVectored), Ok(()));
}

#[test]
fn accept_exists_only_on_listeners() {
    assert_eq!(check_supported(Kind::ListenerSocket, Operation::SockAccept), Ok(()));
    assert_eq!(check_supported(Kind::StreamSocket, Operation::SockAccept), Err(Error::Unsupported));
    assert_eq!(check_supported(Kind::RegularFile, Operation::SockAccept), Err(Error::Unsupported));
    assert_eq!(check_supported(Kind::CharacterStream, Operation::SockAccept), Err(Error::Unsupported));
}

#[test]
fn kind_configuration_matrix() {
    let file = Kind::RegularFile.config();
    assert_eq!(file.fixed_filetype, None);
    assert!(!file.restricts_flags && !file.is_listener && !file.ready_sentinel);
    let stream = Kind::StreamSocket.config();
    assert_eq!(stream.fixed_filetype, Some(FileType::SocketStream));
    assert!(stream.restricts_flags && !stream.is_listener && stream.ready_sentinel);
    let listener = Kind::ListenerSocket.config();
    assert!(listener.restricts_flags && listener.is_listener && listener.ready_sentinel);
}

#[test]
fn only_stdio_can_be_a_terminal() {
    assert!(terminal_hint(Kind::CharacterStream, true));
    assert!(!terminal_hint(Kind::CharacterStream, false));
    assert!(!terminal_hint(Kind::RegularFile, true));
    assert!(!terminal_hint(Kind::StreamSocket, true));
    let s = Resource::from_handle(Kind::ListenerSocket, 5);
    assert!(!s.isatty(true));
    let c = Resource::from_handle(Kind::CharacterStream, 0);
    assert!(c.isatty(true));
}

#[test]
fn accept_on_non_listener_is_unsupported() {
    let s = Resource::from_handle(Kind::StreamSocket, 5);
    assert!(matches!(s.wrap_accepted(9, FdFlags::empty()), Err(Error::Unsupported)));
    let f = Resource::from_handle(Kind::RegularFile, 7);
    assert!(matches!(f.wrap_accepted(9, FdFlags::empty()), Err(Error::Unsupported)));
}

#[test]
fn accept_on_listener_yields_stream_socket() {
    let l = Resource::from_handle(Kind::ListenerSocket, 6);
    let accepted = l.wrap_accepted(9, FdFlags::nonblock()).unwrap();
    assert_eq!(accepted.kind(), Kind::StreamSocket);
    assert_eq!(accepted.filetype(FileType::Unknown), FileType::SocketStream);
    assert_eq!(accepted.raw_handle(), 9);
    assert_eq!(accepted.get_fdflags(), FdFlags::nonblock());
    assert_eq!(accepted.registration_count(), 0);
}

#[test]
fn accept_rejects_illegal_flags() {
    let l = Resource::from_handle(Kind::ListenerSocket, 6);
    let bad = FdFlags { append: false, dsync: false, nonblock: true, rsync: true, sync: false };
    assert!(matches!(l.wrap_accepted(9, bad), Err(Error::InvalidArgument)));
}
