use vstd::prelude::*;
use crate::kind::FileType;

verus! {

/// Access-pattern advice a caller may hand to the advise operation; passed
/// through to the OS for file kinds.
#[derive(Clone, Copy, Debug, PartialEq, Eq, Structural)]
pub enum Advice {
    Normal,
    Sequential,
    Random,
    WillNeed,
    DontNeed,
    NoReuse,
}

/// A point-in-time snapshot of a file's metadata: a read-only view,
/// recomputed on every query. Timestamps are nanoseconds since the epoch,
/// absent where the OS does not report them.
#[derive(Clone, Copy, Debug, PartialEq, Eq)]
pub struct Filestat {
    pub device_id: u64,
    pub inode: u64,
    pub filetype: FileType,
    pub nlink: u64,
    pub size: u64,
    pub atim_ns: Option<u64>,
    pub mtim_ns: Option<u64>,
    pub ctim_ns: Option<u64>,
}

/// A timestamp for the set-times operation: either "now" resolved by the
/// OS at call time, or an absolute time in nanoseconds since the epoch.
#[derive(Clone, Copy, Debug, PartialEq, Eq, Structural)]
pub enum SystemTimeSpec {
    SymbolicNow,
    Absolute(u64),
}

} // verus!
