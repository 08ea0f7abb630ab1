//! The portable vocabulary on the POSIX family, where filelike and socketlike
//! objects are both file descriptors.
//!
//! Every capability here is derived once, for every type that has the native
//! one.
use vstd::prelude::*;

use crate::unix::{
    lemma_owned_fd_from_raw, AdoptRawFd, AsFd, AsRawFd, BorrowedFd, FromFd, IntoFd, IntoRawFd, OwnedFd, RawFd,
};

verus! {

/// A borrowed filelike reference.
pub type BorrowedFilelike<'owned> = BorrowedFd<'owned>;

/// A borrowed socketlike reference.
pub type BorrowedSocketlike<'owned> = BorrowedFd<'owned>;

/// An owned filelike object.
pub type OwnedFilelike = OwnedFd;

/// An owned socketlike object.
pub type OwnedSocketlike = OwnedFd;

/// A bare filelike value.
pub type RawFilelike = RawFd;

/// A bare socketlike value.
pub type RawSocketlike = RawFd;

/// Borrowing a filelike reference from an underlying object.
pub trait AsFilelike: AsFd {
    /// Extracts the filelike reference: the descriptor that `as_fd` lends.
    fn as_filelike(&self) -> (r: BorrowedFilelike<'_>)
        ensures
            r@ == self.fd_view(),
    ;
}

impl<T: AsFd> AsFilelike for T {
    fn as_filelike(&self) -> (r: BorrowedFilelike<'_>) {
        self.as_fd()
    }
}

/// Borrowing a socketlike reference from an underlying object.
pub trait AsSocketlike: AsFd {
    /// Extracts the socketlike reference: the descriptor that `as_fd` lends.
    fn as_socketlike(&self) -> (r: BorrowedSocketlike<'_>)
        ensures
            r@ == self.fd_view(),
    ;
}

impl<T: AsFd> AsSocketlike for T {
    fn as_socketlike(&self) -> (r: BorrowedSocketlike<'_>) {
        self.as_fd()
    }
}

/// Consuming an object to acquire ownership of its filelike object.
pub trait IntoFilelike: IntoFd {
    /// Consumes `self`, handing over the descriptor that `into_fd` hands
    /// over; nothing is opened or closed.
    fn into_filelike(self) -> (r: OwnedFilelike)
        ensures
            r@ == self.owned_fd_view(),
    ;
}

impl<T: IntoFd> IntoFilelike for T {
    fn into_filelike(self) -> (r: OwnedFilelike) {
        self.into_fd()
    }
}

/// Consuming an object to acquire ownership of its socketlike object.
pub trait IntoSocketlike: IntoFd {
    /// Consumes `self`, handing over the descriptor that `into_fd` hands
    /// over; nothing is opened or closed.
    fn into_socketlike(self) -> (r: OwnedSocketlike)
        ensures
            r@ == self.owned_fd_view(),
    ;
}

impl<T: IntoFd> IntoSocketlike for T {
    fn into_socketlike(self) -> (r: OwnedSocketlike) {
        self.into_fd()
    }
}

/// Constructing an object from a filelike object.
pub trait FromFilelike: FromFd {
    /// Builds `Self` from `owned`, as `from_fd` does.
    fn from_filelike(owned: OwnedFilelike) -> (r: Self)
        ensures
            r == Self::spec_from_fd(owned@),
    ;

    /// Builds `Self` from the filelike object that `owned` is consumed into:
    /// the same object as building directly from that descriptor.
    fn from_into_filelike<Owned: IntoFilelike>(owned: Owned) -> (r: Self)
        ensures
            r == Self::spec_from_fd(owned.owned_fd_view()),
    ;
}

impl<T: FromFd> FromFilelike for T {
    fn from_filelike(owned: OwnedFilelike) -> (r: Self) {
        Self::from_fd(owned)
    }

    fn from_into_filelike<Owned: IntoFilelike>(owned: Owned) -> (r: Self) {
        Self::from_filelike(owned.into_filelike())
    }
}

/// Constructing an object from a socketlike object.
pub trait FromSocketlike: FromFd {
    /// Builds `Self` from `owned`, as `from_fd` does.
    fn from_socketlike(owned: OwnedSocketlike) -> (r: Self)
        ensures
            r == Self::spec_from_fd(owned@),
    ;

    /// Builds `Self` from the socketlike object that `owned` is consumed
    /// into: the same object as building directly from that descriptor.
    fn from_into_socketlike<Owned: IntoSocketlike>(owned: Owned) -> (r: Self)
        ensures
            r == Self::spec_from_fd(owned.owned_fd_view()),
    ;
}

impl<T: FromFd> FromSocketlike for T {
    fn from_socketlike(owned: OwnedSocketlike) -> (r: Self) {
        Self::from_fd(owned)
    }

    fn from_into_socketlike<Owned: IntoSocketlike>(owned: Owned) -> (r: Self) {
        Self::from_socketlike(owned.into_socketlike())
    }
}

/// Unchecked: reading the bare filelike value, ownership unchanged.
pub trait AsRawFilelike: AsRawFd {
    fn as_raw_filelike(&self) -> (r: RawFilelike)
        ensures
            r == self.raw_fd_view(),
    ;
}

impl<T: AsRawFd> AsRawFilelike for T {
    fn as_raw_filelike(&self) -> (r: RawFilelike) {
        self.as_raw_fd()
    }
}

/// Unchecked: reading the bare socketlike value, ownership unchanged.
pub trait AsRawSocketlike: AsRawFd {
    fn as_raw_socketlike(&self) -> (r: RawSocketlike)
        ensures
            r == self.raw_fd_view(),
    ;
}

impl<T: AsRawFd> AsRawSocketlike for T {
    fn as_raw_socketlike(&self) -> (r: RawSocketlike) {
        self.as_raw_fd()
    }
}

/// Unchecked: consuming into the bare filelike value; the caller must close
/// it.
pub trait IntoRawFilelike: IntoRawFd {
    fn into_raw_filelike(self) -> (r: RawFilelike)
        ensures
            r == self.into_raw_fd_view(),
    ;
}

impl<T: IntoRawFd> IntoRawFilelike for T {
    fn into_raw_filelike(self) -> (r: RawFilelike) {
        self.into_raw_fd()
    }
}

/// Unchecked: consuming into the bare socketlike value; the caller must
/// close it.
pub trait IntoRawSocketlike: IntoRawFd {
    fn into_raw_socketlike(self) -> (r: RawSocketlike)
        ensures
            r == self.into_raw_fd_view(),
    ;
}

impl<T: IntoRawFd> IntoRawSocketlike for T {
    fn into_raw_socketlike(self) -> (r: RawSocketlike) {
        self.into_raw_fd()
    }
}

/// Unchecked: building an object from a bare filelike value that the caller
/// attests is open and owned by nobody else.
pub trait FromRawFilelike: AdoptRawFd {
    fn from_raw_filelike(raw: RawFilelike) -> (r: Self)
        requires
            raw >= 0,
        ensures
            r == Self::spec_adopt_raw_fd(raw),
    ;
}

impl<T: AdoptRawFd> FromRawFilelike for T {
    fn from_raw_filelike(raw: RawFilelike) -> (r: Self) {
        Self::adopt_raw_fd(raw)
    }
}

/// Unchecked: building an object from a bare socketlike value that the
/// caller attests is open and owned by nobody else.
pub trait FromRawSocketlike: AdoptRawFd {
    fn from_raw_socketlike(raw: RawSocketlike) -> (r: Self)
        requires
            raw >= 0,
        ensures
            r == Self::spec_adopt_raw_fd(raw),
    ;
}

impl<T: AdoptRawFd> FromRawSocketlike for T {
    fn from_raw_socketlike(raw: RawSocketlike) -> (r: Self) {
        Self::adopt_raw_fd(raw)
    }
}

/// Consuming an object into an owned descriptor and constructing `T` from
/// that builds the same `T` as constructing it directly from the descriptor
/// the object held: the consumption is a pure relabeling.
pub proof fn lemma_consume_then_construct<T: FromFd, O: IntoFd>(owned: O)
    ensures
        T::spec_from_fd(OwnedFd::spec_from_fd(owned.owned_fd_view())@) == T::spec_from_fd(
            owned.owned_fd_view(),
        ),
{
    lemma_owned_fd_from_raw(owned.owned_fd_view());
}

} // verus!
