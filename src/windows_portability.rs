//! The portable vocabulary on the Windows family, where filelike objects are
//! handles and socketlike objects are sockets, two types that never mix: a
//! socket passed where a filelike object is asked for is a type error.
//!
//! Every capability here is derived once, for every type that has the native
//! one.
use vstd::prelude::*;

use crate::windows::{
    lemma_owned_handle_from_raw, lemma_owned_socket_from_raw,
    valid_handle, valid_socket, AdoptRawHandle, AdoptRawSocket, AsHandle, AsRawHandle,
    AsRawSocket, AsSocket, BorrowedHandle, BorrowedSocket, FromHandle, FromSocket, IntoHandle,
    IntoRawHandle, IntoRawSocket, IntoSocket, OwnedHandle, OwnedSocket, RawHandle, RawSocket,
};

verus! {

/// A borrowed filelike reference.
pub type BorrowedFilelike<'owned> = BorrowedHandle<'owned>;

/// A borrowed socketlike reference.
pub type BorrowedSocketlike<'owned> = BorrowedSocket<'owned>;

/// An owned filelike object.
pub type OwnedFilelike = OwnedHandle;

/// An owned socketlike object.
pub type OwnedSocketlike = OwnedSocket;

/// A bare filelike value.
pub type RawFilelike = RawHandle;

/// A bare socketlike value.
pub type RawSocketlike = RawSocket;

/// Borrowing a filelike reference from an underlying object.
pub trait AsFilelike: AsHandle {
    /// Extracts the filelike reference: the handle that `as_handle` lends.
    fn as_filelike(&self) -> (r: BorrowedFilelike<'_>)
        ensures
            r@ == self.handle_view(),
    ;
}

impl<T: AsHandle> AsFilelike for T {
    fn as_filelike(&self) -> (r: BorrowedFilelike<'_>) {
        self.as_handle()
    }
}

/// Borrowing a socketlike reference from an underlying object.
pub trait AsSocketlike: AsSocket {
    /// Extracts the socketlike reference: the socket that `as_socket` lends.
    fn as_socketlike(&self) -> (r: BorrowedSocketlike<'_>)
        ensures
            r@ == self.socket_view(),
    ;
}

impl<T: AsSocket> AsSocketlike for T {
    fn as_socketlike(&self) -> (r: BorrowedSocketlike<'_>) {
        self.as_socket()
    }
}

/// Consuming an object to acquire ownership of its filelike object.
pub trait IntoFilelike: IntoHandle {
    /// Consumes `self`, handing over the handle that `into_handle` hands
    /// over; nothing is opened or closed.
    fn into_filelike(self) -> (r: OwnedFilelike)
        ensures
            r@ == self.owned_handle_view(),
    ;
}

impl<T: IntoHandle> IntoFilelike for T {
    fn into_filelike(self) -> (r: OwnedFilelike) {
        self.into_handle()
    }
}

/// Consuming an object to acquire ownership of its socketlike object.
pub trait IntoSocketlike: IntoSocket {
    /// Consumes `self`, handing over the socket that `into_socket` hands
    /// over; nothing is opened or closed.
    fn into_socketlike(self) -> (r: OwnedSocketlike)
        ensures
            r@ == self.owned_socket_view(),
    ;
}

impl<T: IntoSocket> IntoSocketlike for T {
    fn into_socketlike(self) -> (r: OwnedSocketlike) {
        self.into_socket()
    }
}

/// Constructing an object from a filelike object.
pub trait FromFilelike: FromHandle {
    /// Builds `Self` from `owned`, as `from_handle` does.
    fn from_filelike(owned: OwnedFilelike) -> (r: Self)
        ensures
            r == Self::spec_from_handle(owned@),
    ;

    /// Builds `Self` from the filelike object that `owned` is consumed into:
    /// the same object as building directly from that handle.
    fn from_into_filelike<Owned: IntoFilelike>(owned: Owned) -> (r: Self)
        ensures
            r == Self::spec_from_handle(owned.owned_handle_view()),
    ;
}

impl<T: FromHandle> FromFilelike for T {
    fn from_filelike(owned: OwnedFilelike) -> (r: Self) {
        Self::from_handle(owned)
    }

    fn from_into_filelike<Owned: IntoFilelike>(owned: Owned) -> (r: Self) {
        Self::from_filelike(owned.into_filelike())
    }
}

/// Constructing an object from a socketlike object.
pub trait FromSocketlike: FromSocket {
    /// Builds `Self` from `owned`, as `from_socket` does.
    fn from_socketlike(owned: OwnedSocketlike) -> (r: Self)
        ensures
            r == Self::spec_from_socket(owned@),
    ;

    /// Builds `Self` from the socketlike object that `owned` is consumed
    /// into: the same object as building directly from that socket.
    fn from_into_socketlike<Owned: IntoSocketlike>(owned: Owned) -> (r: Self)
        ensures
            r == Self::spec_from_socket(owned.owned_socket_view()),
    ;
}

impl<T: FromSocket> FromSocketlike for T {
    fn from_socketlike(owned: OwnedSocketlike) -> (r: Self) {
        Self::from_socket(owned)
    }

    fn from_into_socketlike<Owned: IntoSocketlike>(owned: Owned) -> (r: Self) {
        Self::from_socketlike(owned.into_socketlike())
    }
}

/// Unchecked: reading the bare filelike value, ownership unchanged.
pub trait AsRawFilelike: AsRawHandle {
    fn as_raw_filelike(&self) -> (r: RawFilelike)
        ensures
            r == self.raw_handle_view(),
    ;
}

impl<T: AsRawHandle> AsRawFilelike for T {
    fn as_raw_filelike(&self) -> (r: RawFilelike) {
        self.as_raw_handle()
    }
}

/// Unchecked: reading the bare socketlike value, ownership unchanged.
pub trait AsRawSocketlike: AsRawSocket {
    fn as_raw_socketlike(&self) -> (r: RawSocketlike)
        ensures
            r == self.raw_socket_view(),
    ;
}

impl<T: AsRawSocket> AsRawSocketlike for T {
    fn as_raw_socketlike(&self) -> (r: RawSocketlike) {
        self.as_raw_socket()
    }
}

/// Unchecked: consuming into the bare filelike value; the caller must close
/// it.
pub trait IntoRawFilelike: IntoRawHandle {
    fn into_raw_filelike(self) -> (r: RawFilelike)
        ensures
            r == self.into_raw_handle_view(),
    ;
}

impl<T: IntoRawHandle> IntoRawFilelike for T {
    fn into_raw_filelike(self) -> (r: RawFilelike) {
        self.into_raw_handle()
    }
}

/// Unchecked: consuming into the bare socketlike value; the caller must
/// close it.
pub trait IntoRawSocketlike: IntoRawSocket {
    fn into_raw_socketlike(self) -> (r: RawSocketlike)
        ensures
            r == self.into_raw_socket_view(),
    ;
}

impl<T: IntoRawSocket> IntoRawSocketlike for T {
    fn into_raw_socketlike(self) -> (r: RawSocketlike) {
        self.into_raw_socket()
    }
}

/// Unchecked: building an object from a bare filelike value that the caller
/// attests is open and owned by nobody else.
pub trait FromRawFilelike: AdoptRawHandle {
    fn from_raw_filelike(raw: RawFilelike) -> (r: Self)
        requires
            valid_handle(raw),
        ensures
            r == Self::spec_adopt_raw_handle(raw),
    ;
}

impl<T: AdoptRawHandle> FromRawFilelike for T {
    fn from_raw_filelike(raw: RawFilelike) -> (r: Self) {
        Self::adopt_raw_handle(raw)
    }
}

/// Unchecked: building an object from a bare socketlike value that the
/// caller attests is open and owned by nobody else.
pub trait FromRawSocketlike: AdoptRawSocket {
    fn from_raw_socketlike(raw: RawSocketlike) -> (r: Self)
        requires
            valid_socket(raw),
        ensures
            r == Self::spec_adopt_raw_socket(raw),
    ;
}

impl<T: AdoptRawSocket> FromRawSocketlike for T {
    fn from_raw_socketlike(raw: RawSocketlike) -> (r: Self) {
        Self::adopt_raw_socket(raw)
    }
}

/// Consuming an object into an owned handle and constructing `T` from that
/// builds the same `T` as constructing it directly from the handle the object
/// held: the consumption is a pure relabeling.
pub proof fn lemma_consume_then_construct_handle<T: FromHandle, O: IntoHandle>(owned: O)
    ensures
        T::spec_from_handle(OwnedHandle::spec_from_handle(owned.owned_handle_view())@) == T::spec_from_handle(
            owned.owned_handle_view(),
        ),
{
    lemma_owned_handle_from_raw(owned.owned_handle_view());
}

/// Consuming an object into an owned socket and constructing `T` from that
/// builds the same `T` as constructing it directly from the socket the object
/// held: the consumption is a pure relabeling.
pub proof fn lemma_consume_then_construct_socket<T: FromSocket, O: IntoSocket>(owned: O)
    ensures
        T::spec_from_socket(OwnedSocket::spec_from_socket(owned.owned_socket_view())@) == T::spec_from_socket(
            owned.owned_socket_view(),
        ),
{
    lemma_owned_socket_from_raw(owned.owned_socket_view());
}

} // verus!
