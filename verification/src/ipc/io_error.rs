//! The kinds of failure of a socket operation that the transport tells apart.

use vstd::prelude::*;

verus! {

/// The kind of a failed socket operation. Every kind that the transport does
/// not treat in a way of its own is `Other`.
#[derive(Clone, Copy, Debug, PartialEq, Eq, Structural)]
pub enum IoErrorKind {
    /// The path names nothing.
    NotFound,
    /// The address is taken by another socket.
    AddrInUse,
    /// The address cannot be had right now.
    AddrNotAvailable,
    /// The path exists already.
    AlreadyExists,
    /// The operation would have had to wait.
    WouldBlock,
    /// A signal cut the operation short.
    Interrupted,
    /// Anything else.
    Other,
}

impl IoErrorKind {
    /// Whether a failed connect of this kind is worth another try: the
    /// listener may not have bound the path yet.
    pub open spec fn spec_connect_may_retry(self) -> bool {
        self is AddrNotAvailable || self is NotFound || self is Interrupted
    }

    /// Whether a failed bind of this kind is worth another try: an earlier
    /// listener may still be letting go of the path.
    pub open spec fn spec_bind_may_retry(self) -> bool {
        self is AddrInUse || self is AddrNotAvailable || self is AlreadyExists
    }

    /// Whether a failed connect of this kind is worth another try.
    #[verifier::when_used_as_spec(spec_connect_may_retry)]
    pub fn connect_may_retry(self) -> (retry: bool)
        ensures
            retry == self.spec_connect_may_retry(),
    {
        match self {
            IoErrorKind::AddrNotAvailable | IoErrorKind::NotFound | IoErrorKind::Interrupted => true,
            _ => false,
        }
    }

    /// Whether a failed bind of this kind is worth another try.
    #[verifier::when_used_as_spec(spec_bind_may_retry)]
    pub fn bind_may_retry(self) -> (retry: bool)
        ensures
            retry == self.spec_bind_may_retry(),
    {
        match self {
            IoErrorKind::AddrInUse | IoErrorKind::AddrNotAvailable | IoErrorKind::AlreadyExists => true,
            _ => false,
        }
    }
}

} // verus!
