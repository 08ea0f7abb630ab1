//! The POSIX family: one descriptor space shared by every kind of resource.
use vstd::prelude::*;

use crate::release::ReleaseLog;

verus! {

/// A bare file descriptor, detached from ownership tracking.
pub type RawFd = i32;

/// Exclusive, close-once ownership of an open file descriptor.
///
/// It is movable only: the one holder at any time is the one that may
/// release it.
pub struct OwnedFd {
    fd: RawFd,
}

/// A non-owning view of a file descriptor that stays open for `'a`.
pub struct BorrowedFd<'a> {
    fd: RawFd,
    owner: core::marker::PhantomData<&'a OwnedFd>,
}

impl OwnedFd {
    /// A descriptor of the POSIX family is never negative.
    #[verifier::type_invariant]
    spec fn valid(self) -> bool {
        self.fd >= 0
    }

    /// Releases the descriptor: the one close of its lifetime, recorded in
    /// `log`.
    pub fn close(self, log: &mut ReleaseLog<RawFd>)
        ensures
            final(log)@ == old(log)@.push(self@),
    {
        log.record(self.fd);
    }
}

impl View for OwnedFd {
    type V = RawFd;

    closed spec fn view(&self) -> RawFd {
        self.fd
    }
}

impl<'a> View for BorrowedFd<'a> {
    type V = RawFd;

    closed spec fn view(&self) -> RawFd {
        self.fd
    }
}

/// Objects that can lend out the file descriptor they hold.
pub trait AsFd {
    /// The descriptor lent out.
    spec fn fd_view(&self) -> RawFd;

    /// Borrows the descriptor, for no longer than `self` lives.
    fn as_fd(&self) -> (r: BorrowedFd<'_>)
        ensures
            r@ == self.fd_view(),
    ;
}

/// Objects that can be consumed into the file descriptor they own.
pub trait IntoFd {
    /// The descriptor handed over on consumption.
    spec fn owned_fd_view(&self) -> RawFd;

    /// Consumes `self`, handing over its descriptor without closing it.
    fn into_fd(self) -> (r: OwnedFd)
        ensures
            r@ == self.owned_fd_view(),
    ;
}

/// Objects that can be built by taking ownership of a file descriptor.
pub trait FromFd: Sized {
    /// The object built from the descriptor `raw`.
    spec fn spec_from_fd(raw: RawFd) -> Self;

    /// Takes ownership of `owned`.
    fn from_fd(owned: OwnedFd) -> (r: Self)
        ensures
            r == Self::spec_from_fd(owned@),
    ;
}

/// Objects whose bare descriptor can be read without transferring ownership.
pub trait AsRawFd {
    /// The bare descriptor read.
    spec fn raw_fd_view(&self) -> RawFd;

    fn as_raw_fd(&self) -> (r: RawFd)
        ensures
            r == self.raw_fd_view(),
    ;
}

/// Objects that can be consumed into a bare descriptor, leaving the duty to
/// close it with the caller.
pub trait IntoRawFd {
    /// The bare descriptor handed over.
    spec fn into_raw_fd_view(&self) -> RawFd;

    fn into_raw_fd(self) -> (r: RawFd)
        ensures
            r == self.into_raw_fd_view(),
    ;
}

/// Objects that can be built from a bare descriptor, unchecked.
///
/// The caller attests that `raw` is open and owned by nobody else.
pub trait AdoptRawFd: Sized {
    /// The object built from the descriptor `raw`.
    spec fn spec_adopt_raw_fd(raw: RawFd) -> Self;

    fn adopt_raw_fd(raw: RawFd) -> (r: Self)
        requires
            raw >= 0,
        ensures
            r == Self::spec_adopt_raw_fd(raw),
    ;
}

impl AsFd for OwnedFd {
    open spec fn fd_view(&self) -> RawFd {
        self@
    }

    fn as_fd(&self) -> (r: BorrowedFd<'_>) {
        BorrowedFd { fd: self.fd, owner: core::marker::PhantomData }
    }
}

impl<'a> AsFd for BorrowedFd<'a> {
    open spec fn fd_view(&self) -> RawFd {
        self@
    }

    fn as_fd(&self) -> (r: BorrowedFd<'_>) {
        BorrowedFd { fd: self.fd, owner: core::marker::PhantomData }
    }
}

impl IntoFd for OwnedFd {
    open spec fn owned_fd_view(&self) -> RawFd {
        self@
    }

    fn into_fd(self) -> (r: OwnedFd) {
        self
    }
}

impl FromFd for OwnedFd {
    closed spec fn spec_from_fd(raw: RawFd) -> OwnedFd {
        OwnedFd { fd: raw }
    }

    fn from_fd(owned: OwnedFd) -> (r: OwnedFd) {
        owned
    }
}

impl AsRawFd for OwnedFd {
    open spec fn raw_fd_view(&self) -> RawFd {
        self@
    }

    fn as_raw_fd(&self) -> (r: RawFd)
        ensures
            r >= 0,
    {
        proof {
            use_type_invariant(self);
        }
        self.fd
    }
}

impl<'a> AsRawFd for BorrowedFd<'a> {
    open spec fn raw_fd_view(&self) -> RawFd {
        self@
    }

    fn as_raw_fd(&self) -> (r: RawFd) {
        self.fd
    }
}

impl IntoRawFd for OwnedFd {
    open spec fn into_raw_fd_view(&self) -> RawFd {
        self@
    }

    fn into_raw_fd(self) -> (r: RawFd)
        ensures
            r >= 0,
    {
        proof {
            use_type_invariant(&self);
        }
        self.fd
    }
}

impl AdoptRawFd for OwnedFd {
    closed spec fn spec_adopt_raw_fd(raw: RawFd) -> OwnedFd {
        OwnedFd { fd: raw }
    }

    fn adopt_raw_fd(raw: RawFd) -> (r: OwnedFd) {
        OwnedFd { fd: raw }
    }
}

/// Building an owned descriptor from a value keeps exactly that value.
pub proof fn lemma_owned_fd_from_raw(raw: RawFd)
    ensures
        OwnedFd::spec_from_fd(raw)@ == raw,
        OwnedFd::spec_adopt_raw_fd(raw)@ == raw,
{
}

/// Consuming an owned descriptor and building one back, through the safe
/// path or the raw one, gives back the same owned descriptor.
pub proof fn lemma_owned_fd_round_trip(owned: OwnedFd)
    ensures
        OwnedFd::spec_from_fd(owned.owned_fd_view()) == owned,
        OwnedFd::spec_adopt_raw_fd(owned.into_raw_fd_view()) == owned,
{
}

} // verus!
