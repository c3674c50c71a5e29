use vstd::prelude::*;

verus! {

/// The descriptor flag set describing blocking mode and write
/// synchronisation, held as plain booleans so contracts can speak about
/// each flag. `bits`/`from_bits` give the packed word used at the
/// interface boundary.
///
/// For socket kinds only the empty set and the lone non-blocking flag are
/// legal values; the resource operations enforce that restriction.
#[derive(Clone, Copy, Debug, PartialEq, Eq, Structural)]
pub struct FdFlags {
    pub append: bool,
    pub dsync: bool,
    pub nonblock: bool,
    pub rsync: bool,
    pub sync: bool,
}

impl FdFlags {
    /// No flag set.
    pub open spec fn empty_spec() -> FdFlags {
        FdFlags { append: false, dsync: false, nonblock: false, rsync: false, sync: false }
    }

    pub open spec fn is_empty_spec(self) -> bool {
        self == Self::empty_spec()
    }

    /// Exactly the non-blocking flag and nothing else.
    pub open spec fn nonblock_only_spec(self) -> bool {
        self == (FdFlags { append: false, dsync: false, nonblock: true, rsync: false, sync: false })
    }

    /// The packed flag word: one bit per flag, append lowest.
    pub open spec fn bits_spec(self) -> int {
        (if self.append { 1int } else { 0int })
            + (if self.dsync { 2int } else { 0int })
            + (if self.nonblock { 4int } else { 0int })
            + (if self.rsync { 8int } else { 0int })
            + (if self.sync { 16int } else { 0int })
    }

    /// The flag set encoded by the low five bits of a packed word.
    pub open spec fn from_bits_spec(b: u16) -> FdFlags {
        FdFlags {
            append: b % 2 == 1,
            dsync: (b / 2) % 2 == 1,
            nonblock: (b / 4) % 2 == 1,
            rsync: (b / 8) % 2 == 1,
            sync: (b / 16) % 2 == 1,
        }
    }

    pub fn empty() -> (r: FdFlags)
        ensures
            r == Self::empty_spec(),
    {
        FdFlags { append: false, dsync: false, nonblock: false, rsync: false, sync: false }
    }

    pub fn nonblock() -> (r: FdFlags)
        ensures
            r.nonblock_only_spec(),
    {
        FdFlags { append: false, dsync: false, nonblock: true, rsync: false, sync: false }
    }

    pub fn is_empty(&self) -> (r: bool)
        ensures
            r == self.is_empty_spec(),
    {
        !self.append && !self.dsync && !self.nonblock && !self.rsync && !self.sync
    }

    pub fn is_nonblock_only(&self) -> (r: bool)
        ensures
            r == self.nonblock_only_spec(),
    {
        !self.append && !self.dsync && self.nonblock && !self.rsync && !self.sync
    }

    /// Pack the flags into the interface's flag word.
    pub fn bits(&self) -> (b: u16)
        ensures
            b == self.bits_spec(),
    {
        let mut b: u16 = 0;
        if self.append {
            b = b + 1;
        }
        if self.dsync {
            b = b + 2;
        }
        if self.nonblock {
            b = b + 4;
        }
        if self.rsync {
            b = b + 8;
        }
        if self.sync {
            b = b + 16;
        }
        b
    }

    /// Decode a packed flag word; words with bits beyond the five known
    /// flags are rejected.
    pub fn from_bits(b: u16) -> (r: Option<FdFlags>)
        ensures
            b < 32 ==> (r matches Some(f) && f == Self::from_bits_spec(b) && f.bits_spec() == b),
            b >= 32 ==> r is None,
    {
        if b >= 32 {
            None
        } else {
            let f = FdFlags {
                append: b % 2 == 1,
                dsync: (b / 2) % 2 == 1,
                nonblock: (b / 4) % 2 == 1,
                rsync: (b / 8) % 2 == 1,
                sync: (b / 16) % 2 == 1,
            };
            Some(f)
        }
    }
}

/// Packing and decoding the flag word are inverse to one another: every
/// flag set survives a round trip through its packed form, and every legal
/// word survives a round trip through the flag set it encodes.
pub proof fn lemma_flag_bits_round_trip(f: FdFlags, b: u16)
    requires
        b < 32,
    ensures
        FdFlags::from_bits_spec(f.bits_spec() as u16) == f,
        FdFlags::from_bits_spec(b).bits_spec() == b,
{
}

} // verus!
