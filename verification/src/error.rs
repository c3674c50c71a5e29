use vstd::prelude::*;

verus! {

/// A failure of the uniform interface.
///
/// The taxonomy is deliberately small: native OS failures pass through
/// unchanged as their errno value; the three remaining variants are the
/// failures this layer itself produces.
#[derive(Clone, Copy, Debug, PartialEq, Eq, Structural)]
pub enum Error {
    /// A native OS error, carried as its errno value and propagated
    /// unchanged.
    Io(i32),
    /// The requested flag combination is not representable for the
    /// resource kind (for sockets, anything but empty or non-blocking).
    InvalidArgument,
    /// The operation is structurally meaningless for the resource kind
    /// (accept on a non-listener, seek on a socket).
    Unsupported,
    /// A native transfer count cannot be represented in the interface's
    /// return type; reported rather than silently truncated.
    Overflow,
}

} // verus!
