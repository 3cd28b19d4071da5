use vstd::prelude::*;

verus! {

/// Linux `F_RDLCK`: a read (shared) lock.
pub const F_RDLCK: i16 = 0;

/// Linux `F_WRLCK`: a write (exclusive) lock.
pub const F_WRLCK: i16 = 1;

/// Linux `F_UNLCK`: no lock.
pub const F_UNLCK: i16 = 2;

/// Defines which types of lock can be set onto files.
#[derive(Copy, Clone, Debug, PartialEq, Eq, Structural, Hash, PartialOrd, Ord)]
pub enum FcntlLockType {
    /// Wrapper for `F_RDLCK`
    Read,
    /// Wrapper for `F_WRLCK`
    Write,
}

/// The `l_type` value of a lock kind.
pub open spec fn kind_code(locktype: FcntlLockType) -> i16 {
    match locktype {
        FcntlLockType::Read => F_RDLCK,
        FcntlLockType::Write => F_WRLCK,
    }
}

impl From<FcntlLockType> for i16 {
    fn from(locktype: FcntlLockType) -> (r: i16)
        ensures
            r == kind_code(locktype),
    {
        match locktype {
            FcntlLockType::Read => F_RDLCK,
            FcntlLockType::Write => F_WRLCK,
        }
    }
}

impl vstd::std_specs::convert::FromSpecImpl<FcntlLockType> for i16 {
    open spec fn obeys_from_spec() -> bool {
        true
    }

    open spec fn from_spec(locktype: FcntlLockType) -> i16 {
        kind_code(locktype)
    }
}

/// A byte-range lock descriptor, with the fields of the kernel's `struct flock`.
#[derive(Copy, Clone, Debug, PartialEq, Eq, Structural, Hash)]
pub struct Flock {
    /// Lock kind: `F_RDLCK`, `F_WRLCK` or `F_UNLCK`.
    pub l_type: i16,
    /// How `l_start` is measured: from the start, the current offset or the end of the file.
    pub l_whence: i16,
    /// First byte of the range.
    pub l_start: i64,
    /// Length of the range; 0 reaches to the end of the file.
    pub l_len: i64,
    /// Process holding a conflicting lock (filled in by a query).
    pub l_pid: i32,
}

/// The descriptor with every field 0: the whole file, from offset 0 to its end.
pub open spec fn zeroed_flock() -> Flock {
    Flock { l_type: 0, l_whence: 0, l_start: 0, l_len: 0, l_pid: 0 }
}

/// The given descriptor, or the zeroed one where none is given.
pub open spec fn flock_or_zeroed(flock: Option<Flock>) -> Flock {
    match flock {
        Some(f) => f,
        None => zeroed_flock(),
    }
}

impl Flock {
    /// This descriptor with its lock kind replaced.
    pub open spec fn with_kind(self, l_type: i16) -> Flock {
        Flock { l_type, ..self }
    }
}

/// Constructor and builder-style setters for a lock descriptor.
pub trait FlockOperations: Sized {
    /// A descriptor with every field set to 0.
    fn default() -> Self;

    /// Sets `l_type` to the given value using the builder pattern. Where possible
    /// prefer `with_locktype`, which only takes valid lock kinds.
    fn with_l_type(self, l_type: i16) -> Self;

    /// Sets the lock type (`l_type`) to the value for the given `FcntlLockType`,
    /// using the builder pattern.
    fn with_locktype(self, locktype: FcntlLockType) -> Self;
}

impl FlockOperations for Flock {
    fn default() -> (r: Flock)
        ensures
            r == zeroed_flock(),
    {
        Flock { l_type: 0, l_whence: 0, l_start: 0, l_len: 0, l_pid: 0 }
    }

    fn with_l_type(self, l_type: i16) -> (r: Flock)
        ensures
            r == self.with_kind(l_type),
    {
        let mut f = self;
        f.l_type = l_type;
        f
    }

    fn with_locktype(self, locktype: FcntlLockType) -> (r: Flock)
        ensures
            r == self.with_kind(kind_code(locktype)),
    {
        let mut f = self;
        f.l_type = locktype.into();
        f
    }
}

} // verus!
