use vstd::prelude::*;
use crate::error::Error;
use crate::flags::FdFlags;
use crate::kind::{FileType, Kind, Operation};
use crate::Direction;

verus! {

/// One interest registration with the external reactor: the resource's
/// raw handle is registered for one direction, and the reactor sets the
/// readiness flag when that direction becomes ready.
#[derive(Clone, Copy, Debug, PartialEq, Eq, Structural)]
pub struct Registration {
    /// Whether the reactor has signalled the registered direction ready
    /// since the flag was last cleared.
    pub ready: bool,
}

/// What the external reactor answered when a handle was registered for an
/// interest direction.
#[derive(Clone, Copy, Debug, PartialEq, Eq, Structural)]
pub enum RegisterOutcome {
    /// The reactor accepted the registration.
    Registered,
    /// The reactor rejected the handle's kind with a permission-class
    /// error. Handles it rejects this way (typically regular files) are
    /// never reported not-ready by the OS.
    PermissionDenied,
    /// Registration failed for any other reason; the OS error is carried
    /// as its errno value.
    Failed(i32),
}

/// What the caller of a readiness wait must do next.
#[derive(Clone, Copy, Debug, PartialEq, Eq, Structural)]
pub enum Verdict {
    /// The resource counts as ready now; return success without suspending.
    Ready,
    /// Suspend until the reactor signals the registered direction.
    Suspend,
    /// Surface the error to the caller.
    Fail(Error),
}

/// A registration whose readiness flag has not been signalled (or has just
/// been cleared).
pub open spec fn fresh_registration() -> Registration {
    Registration { ready: false }
}

/// A registration whose direction the reactor has signalled ready.
pub open spec fn signalled_registration() -> Registration {
    Registration { ready: true }
}

/// The bridge's decision for each outcome of a fresh registration: a
/// successful registration suspends the caller; a permission-class
/// rejection counts as ready at once (the one absorbed failure); every
/// other failure is surfaced unchanged as an I/O error.
pub open spec fn register_verdict(outcome: RegisterOutcome) -> Verdict {
    match outcome {
        RegisterOutcome::Registered => Verdict::Suspend,
        RegisterOutcome::PermissionDenied => Verdict::Ready,
        RegisterOutcome::Failed(errno) => Verdict::Fail(Error::Io(errno)),
    }
}

/// The mathematical value of a `Resource`: its kind, its raw handle, the
/// mirrored flag word, and the registration state of each direction.
pub struct ResourceModel {
    pub kind: Kind,
    pub handle: u64,
    pub flags: FdFlags,
    pub read_reg: Option<Registration>,
    pub write_reg: Option<Registration>,
}

impl ResourceModel {
    pub open spec fn reg(self, d: Direction) -> Option<Registration> {
        match d {
            Direction::Read => self.read_reg,
            Direction::Write => self.write_reg,
        }
    }

    pub open spec fn with_reg(self, d: Direction, g: Option<Registration>) -> ResourceModel {
        match d {
            Direction::Read => ResourceModel { read_reg: g, ..self },
            Direction::Write => ResourceModel { write_reg: g, ..self },
        }
    }

    pub open spec fn with_flags(self, f: FdFlags) -> ResourceModel {
        ResourceModel { flags: f, ..self }
    }

    /// The resource with every registration torn down, as on drop.
    pub open spec fn released(self) -> ResourceModel {
        ResourceModel { read_reg: None, write_reg: None, ..self }
    }

    /// How many reactor registrations the resource holds (at most one per
    /// direction).
    pub open spec fn reg_count(self) -> nat {
        (if self.read_reg is Some {
            1nat
        } else {
            0nat
        }) + (if self.write_reg is Some {
            1nat
        } else {
            0nat
        })
    }

    /// Whether an in-flight wait in direction `d` would complete now.
    pub open spec fn ready_for(self, d: Direction) -> bool {
        self.reg(d) matches Some(g) && g.ready
    }

    /// Which flag sets may be set on this resource: socket kinds accept
    /// only the empty set or the lone non-blocking flag; file kinds
    /// delegate fully and accept every set.
    pub open spec fn accepts_flags(self, f: FdFlags) -> bool {
        !self.kind.is_socket() || f.is_empty_spec() || f.nonblock_only_spec()
    }
}

/// The model of a resource as first constructed: no registration exists
/// until the first wait, and the flag mirror starts empty (handles are
/// handed over in blocking mode).
pub open spec fn initial_model(kind: Kind, handle: u64) -> ResourceModel {
    ResourceModel {
        kind: kind,
        handle: handle,
        flags: FdFlags::empty_spec(),
        read_reg: None,
        write_reg: None,
    }
}

/// The model of a resource produced by accept: a stream socket over the
/// newly accepted handle, carrying the requested flags, with no
/// registration yet.
pub open spec fn accepted_model(handle: u64, f: FdFlags) -> ResourceModel {
    ResourceModel {
        kind: Kind::StreamSocket,
        handle: handle,
        flags: f,
        read_reg: None,
        write_reg: None,
    }
}

/// A move-only wrapper owning exactly one synchronous OS handle, together
/// with the state the adapter keeps for it: the kind, the mirrored flag
/// word, and the per-direction reactor registrations. The type is neither
/// `Clone` nor `Copy`, so the wrapped handle has one owner at a time and
/// is never duplicated while wrapped.
pub struct Resource {
    kind: Kind,
    handle: u64,
    flags: FdFlags,
    read_reg: Option<Registration>,
    write_reg: Option<Registration>,
}

impl View for Resource {
    type V = ResourceModel;

    closed spec fn view(&self) -> ResourceModel {
        ResourceModel {
            kind: self.kind,
            handle: self.handle,
            flags: self.flags,
            read_reg: self.read_reg,
            write_reg: self.write_reg,
        }
    }
}

impl Resource {
    /// Wrap an already-opened, already capability-checked OS handle.
    /// Construction performs no I/O and takes out no registration: the
    /// result is exactly the initial model over the given kind and handle.
    pub fn from_handle(kind: Kind, handle: u64) -> (r: Resource)
        ensures
            r@ == initial_model(kind, handle),
    {
        Resource {
            kind,
            handle,
            flags: FdFlags::empty(),
            read_reg: None,
            write_reg: None,
        }
    }

    pub fn kind(&self) -> (k: Kind)
        ensures
            k == self@.kind,
    {
        self.kind
    }

    /// The raw OS-level handle, for the platform capability side-interface
    /// (poll registration and kind-specific callers).
    pub fn raw_handle(&self) -> (h: u64)
        ensures
            h == self@.handle,
    {
        self.handle
    }

    /// The mirrored descriptor flags. For socket kinds every legal flag
    /// word passes through `set_fdflags`, so the mirror is exact; file
    /// kinds delegate the query to the OS and use this as a cache.
    pub fn get_fdflags(&self) -> (f: FdFlags)
        ensures
            f == self@.flags,
    {
        self.flags
    }

    /// Set the descriptor flags. Socket kinds accept only the empty set or
    /// the lone non-blocking flag; any other set fails with
    /// `InvalidArgument` and leaves the resource unchanged. File kinds
    /// delegate fully, so every set is accepted and mirrored.
    pub fn set_fdflags(&mut self, f: FdFlags) -> (r: Result<(), Error>)
        ensures
            old(self)@.accepts_flags(f) ==> r == Ok::<(), Error>(())
                && final(self)@ == old(self)@.with_flags(f),
            !old(self)@.accepts_flags(f) ==> r == Err::<(), Error>(Error::InvalidArgument)
                && final(self)@ == old(self)@,
    {
        if self.kind.is_socket_kind() {
            if f.is_empty() || f.is_nonblock_only() {
                self.flags = f;
                Ok(())
            } else {
                Err(Error::InvalidArgument)
            }
        } else {
            self.flags = f;
            Ok(())
        }
    }

    /// The type tag reported for this resource: fixed to socket-stream for
    /// socket kinds, and whatever the OS query returned for file kinds.
    pub fn filetype(&self, queried: FileType) -> (r: FileType)
        ensures
            self@.kind.is_socket() ==> r == FileType::SocketStream,
            !self@.kind.is_socket() ==> r == queried,
    {
        crate::kind::filetype_of(self.kind, queried)
    }

    /// The ready-byte hint: socket kinds always answer the fixed sentinel
    /// of 1 ("treat as possibly ready"), whatever is actually buffered;
    /// file kinds answer the real count queried from the OS.
    pub fn num_ready_bytes(&self, queried: u64) -> (r: u64)
        ensures
            self@.kind.is_socket() ==> r == 1,
            !self@.kind.is_socket() ==> r == queried,
    {
        crate::kind::ready_byte_hint(self.kind, queried)
    }

    /// The terminal check for this resource: only a stdio stream can be a
    /// terminal, and only it consults the queried OS answer.
    pub fn isatty(&self, queried: bool) -> (r: bool)
        ensures
            self@.kind is CharacterStream ==> r == queried,
            !(self@.kind is CharacterStream) ==> !r,
    {
        crate::kind::terminal_hint(self.kind, queried)
    }

    /// Gate an operation on this resource's kind: succeeds exactly when
    /// the kind supports the operation and fails with `Unsupported`
    /// otherwise.
    pub fn check_supported(&self, op: Operation) -> (r: Result<(), Error>)
        ensures
            r is Ok <==> crate::kind::supports(self@.kind, op),
            r is Err ==> r == Err::<(), Error>(Error::Unsupported),
    {
        crate::kind::check_supported(self.kind, op)
    }

    /// Accept on this resource: wrap the newly accepted handle as a stream
    /// socket carrying the requested flags. On any non-listener kind the
    /// operation is structurally meaningless and fails with `Unsupported`;
    /// flags outside the socket restriction fail with `InvalidArgument`.
    pub fn wrap_accepted(&self, handle: u64, f: FdFlags) -> (r: Result<Resource, Error>)
        ensures
            !(self@.kind is ListenerSocket) ==> r == Err::<Resource, Error>(Error::Unsupported),
            self@.kind is ListenerSocket && !(f.is_empty_spec() || f.nonblock_only_spec())
                ==> r == Err::<Resource, Error>(Error::InvalidArgument),
            self@.kind is ListenerSocket && (f.is_empty_spec() || f.nonblock_only_spec())
                ==> (r matches Ok(n) && n@ == accepted_model(handle, f)),
    {
        if !matches!(self.kind, Kind::ListenerSocket) {
            Err(Error::Unsupported)
        } else if !(f.is_empty() || f.is_nonblock_only()) {
            Err(Error::InvalidArgument)
        } else {
            Ok(Resource {
                kind: Kind::StreamSocket,
                handle,
                flags: f,
                read_reg: None,
                write_reg: None,
            })
        }
    }

    /// Whether a wait in direction `d` must first register with the
    /// reactor; an existing registration for that direction is reused.
    pub fn needs_registration(&self, d: Direction) -> (r: bool)
        ensures
            r == (self@.reg(d) is None),
    {
        match d {
            Direction::Read => self.read_reg.is_none(),
            Direction::Write => self.write_reg.is_none(),
        }
    }

    /// First step of a wait that had to register: record what the reactor
    /// answered and decide how the wait proceeds. A fresh registration
    /// starts with the readiness flag clear, so the caller suspends; a
    /// permission-class rejection means the handle's kind is never
    /// reported not-ready, so the wait counts as ready at once with no
    /// state recorded; any other failure leaves the state unchanged and is
    /// surfaced as the I/O error it was.
    pub fn apply_register_outcome(&mut self, d: Direction, outcome: RegisterOutcome) -> (v:
        Verdict)
        requires
            old(self)@.reg(d) is None,
        ensures
            v == register_verdict(outcome),
            outcome is Registered ==> final(self)@ == old(self)@.with_reg(
                d,
                Some(fresh_registration()),
            ),
            !(outcome is Registered) ==> final(self)@ == old(self)@,
    {
        match outcome {
            RegisterOutcome::Registered => {
                match d {
                    Direction::Read => {
                        self.read_reg = Some(Registration { ready: false });
                    },
                    Direction::Write => {
                        self.write_reg = Some(Registration { ready: false });
                    },
                }
                Verdict::Suspend
            },
            RegisterOutcome::PermissionDenied => Verdict::Ready,
            RegisterOutcome::Failed(errno) => Verdict::Fail(Error::Io(errno)),
        }
    }

    /// Record that the reactor signalled direction `d` ready: the
    /// registration's readiness flag is set and nothing else changes.
    pub fn note_reactor_event(&mut self, d: Direction)
        requires
            old(self)@.reg(d) is Some,
        ensures
            final(self)@ == old(self)@.with_reg(d, Some(signalled_registration())),
    {
        match d {
            Direction::Read => {
                self.read_reg = Some(Registration { ready: true });
            },
            Direction::Write => {
                self.write_reg = Some(Registration { ready: true });
            },
        }
    }

    /// One poll of an in-flight wait: if the reactor has signalled the
    /// direction since the flag was last cleared, the wait completes and
    /// the flag is cleared on the way out, so that a later wait is not
    /// satisfied by this event's leftover state; otherwise nothing changes
    /// and the caller keeps suspending.
    pub fn try_complete_wait(&mut self, d: Direction) -> (done: bool)
        requires
            old(self)@.reg(d) is Some,
        ensures
            done == old(self)@.ready_for(d),
            done ==> final(self)@ == old(self)@.with_reg(d, Some(fresh_registration())),
            !done ==> final(self)@ == old(self)@,
    {
        match d {
            Direction::Read => {
                match self.read_reg {
                    Some(g) => {
                        if g.ready {
                            self.read_reg = Some(Registration { ready: false });
                            true
                        } else {
                            false
                        }
                    },
                    None => false,
                }
            },
            Direction::Write => {
                match self.write_reg {
                    Some(g) => {
                        if g.ready {
                            self.write_reg = Some(Registration { ready: false });
                            true
                        } else {
                            false
                        }
                    },
                    None => false,
                }
            },
        }
    }

    /// Tear down the registration for one direction, as when the waiting
    /// task is cancelled before completion: the registration is released
    /// with no other effect on the resource, and no readiness event is
    /// consumed on behalf of a future waiter (the next wait registers
    /// afresh).
    pub fn cancel_wait(&mut self, d: Direction)
        ensures
            final(self)@ == old(self)@.with_reg(d, None::<Registration>),
    {
        match d {
            Direction::Read => {
                self.read_reg = None;
            },
            Direction::Write => {
                self.write_reg = None;
            },
        }
    }

    /// Release every registration this resource holds, as on drop: the
    /// reactor's tracked registrations for this handle return to none,
    /// and the kind, handle and flags are untouched.
    pub fn release_registrations(&mut self)
        ensures
            final(self)@ == old(self)@.released(),
    {
        self.read_reg = None;
        self.write_reg = None;
    }

    /// How many reactor registrations this resource currently holds.
    pub fn registration_count(&self) -> (n: usize)
        ensures
            n == self@.reg_count(),
    {
        let mut n: usize = 0;
        if self.read_reg.is_some() {
            n = n + 1;
        }
        if self.write_reg.is_some() {
            n = n + 1;
        }
        n
    }
}

/// For a socket-kind resource the flag round trip holds: the lone
/// non-blocking flag and the empty set are accepted, and a get after such
/// a set returns exactly the flags that were set; every other flag set is
/// rejected.
pub proof fn lemma_socket_flag_round_trip(m: ResourceModel, f: FdFlags)
    requires
        m.kind.is_socket(),
    ensures
        (f.is_empty_spec() || f.nonblock_only_spec()) ==> m.accepts_flags(f) && m.with_flags(
            f,
        ).flags == f,
        !(f.is_empty_spec() || f.nonblock_only_spec()) ==> !m.accepts_flags(f),
{
}

/// A wait never completes on a stale flag: a freshly registered wait
/// suspends; after the reactor signals the direction it completes; and
/// completing clears the flag, so the next wait on the same direction
/// suspends again instead of completing at once.
pub proof fn lemma_wait_clears_readiness(m: ResourceModel, d: Direction)
    ensures
        ({
            let registered = m.with_reg(d, Some(fresh_registration()));
            let signalled = registered.with_reg(d, Some(signalled_registration()));
            let completed = signalled.with_reg(d, Some(fresh_registration()));
            &&& !registered.ready_for(d)
            &&& signalled.ready_for(d)
            &&& !completed.ready_for(d)
        }),
{
}

/// Cancelling an in-flight wait leaves no trace: tearing the registration
/// down restores exactly the pre-wait state, so no readiness event is
/// consumed on behalf of a future waiter and re-registration on the next
/// call starts from where the cancelled wait began.
pub proof fn lemma_cancel_leaves_no_trace(m: ResourceModel, d: Direction, g: Registration)
    requires
        m.reg(d) is None,
    ensures
        m.with_reg(d, Some(g)).with_reg(d, None) == m,
{
}

/// A resource produced by accept is of socket kind and reports the fixed
/// socket-stream type tag, whatever flags it was accepted with.
pub proof fn lemma_accepted_is_socket_stream(handle: u64, f: FdFlags)
    ensures
        accepted_model(handle, f).kind.is_socket(),
        accepted_model(handle, f).kind.config_spec().fixed_filetype == Some(
            FileType::SocketStream,
        ),
{
}

/// Dropping a resource while a wait is outstanding releases the
/// registration: starting from the pre-wait baseline of no outstanding
/// registrations, the wait's registration raises the tracked count by
/// one, and releasing the resource's registrations returns the count
/// exactly to the baseline, with the kind, handle and flags untouched.
pub proof fn lemma_release_restores_baseline(m: ResourceModel, d: Direction, g: Registration)
    requires
        m.reg_count() == 0,
    ensures
        ({
            let waiting = m.with_reg(d, Some(g));
            let dropped = waiting.released();
            &&& waiting.reg_count() == m.reg_count() + 1
            &&& dropped.reg_count() == m.reg_count()
            &&& dropped.kind == m.kind
            &&& dropped.handle == m.handle
            &&& dropped.flags == m.flags
        }),
{
}

} // verus!
