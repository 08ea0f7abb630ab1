//! The Windows family: handles (files, pipes, processes, ...) and sockets are
//! drawn from separate tables and are never interchangeable.
use vstd::prelude::*;

use crate::release::ReleaseLog;

verus! {

/// The value of a null handle, which names no resource.
pub const NULL_HANDLE: usize = 0;

/// The value of `INVALID_SOCKET`, which names no socket.
pub const INVALID_SOCKET: u64 = 0xffff_ffff_ffff_ffff;

/// A bare handle, detached from ownership tracking: the handle's bits as an
/// address-sized integer.
pub type RawHandle = usize;

/// Exclusive, close-once ownership of an open handle (a file, a pipe, a process, ...).
///
/// It is movable only: the one holder at any time is the one that may
/// release it.
pub struct OwnedHandle {
    raw: RawHandle,
}

/// A non-owning view of a handle that stays open for `'a`.
pub struct BorrowedHandle<'a> {
    raw: RawHandle,
    owner: core::marker::PhantomData<&'a OwnedHandle>,
}

/// Whether `raw` can name an open handle: it is not the sentinel value.
pub open spec fn valid_handle(raw: RawHandle) -> bool {
    raw != NULL_HANDLE
}

impl OwnedHandle {
    #[verifier::type_invariant]
    spec fn valid(self) -> bool {
        valid_handle(self.raw)
    }

    /// Releases the handle: the one close of its lifetime, recorded in `log`.
    pub fn close(self, log: &mut ReleaseLog<RawHandle>)
        ensures
            final(log)@ == old(log)@.push(self@),
    {
        log.record(self.raw);
    }
}

impl View for OwnedHandle {
    type V = RawHandle;

    closed spec fn view(&self) -> RawHandle {
        self.raw
    }
}

impl<'a> View for BorrowedHandle<'a> {
    type V = RawHandle;

    closed spec fn view(&self) -> RawHandle {
        self.raw
    }
}

/// Objects that can lend out the handle they hold.
pub trait AsHandle {
    /// The handle lent out.
    spec fn handle_view(&self) -> RawHandle;

    /// Borrows the handle, for no longer than `self` lives.
    fn as_handle(&self) -> (r: BorrowedHandle<'_>)
        ensures
            r@ == self.handle_view(),
    ;
}

/// Objects that can be consumed into the handle they own.
pub trait IntoHandle {
    /// The handle handed over on consumption.
    spec fn owned_handle_view(&self) -> RawHandle;

    /// Consumes `self`, handing over its handle without closing it.
    fn into_handle(self) -> (r: OwnedHandle)
        ensures
            r@ == self.owned_handle_view(),
    ;
}

/// Objects that can be built by taking ownership of a handle.
pub trait FromHandle: Sized {
    /// The object built from the handle `raw`.
    spec fn spec_from_handle(raw: RawHandle) -> Self;

    /// Takes ownership of `owned`.
    fn from_handle(owned: OwnedHandle) -> (r: Self)
        ensures
            r == Self::spec_from_handle(owned@),
    ;
}

/// Objects whose bare handle can be read without transferring ownership.
pub trait AsRawHandle {
    /// The bare handle read.
    spec fn raw_handle_view(&self) -> RawHandle;

    fn as_raw_handle(&self) -> (r: RawHandle)
        ensures
            r == self.raw_handle_view(),
    ;
}

/// Objects that can be consumed into a bare handle, leaving the duty to
/// close it with the caller.
pub trait IntoRawHandle {
    /// The bare handle handed over.
    spec fn into_raw_handle_view(&self) -> RawHandle;

    fn into_raw_handle(self) -> (r: RawHandle)
        ensures
            r == self.into_raw_handle_view(),
    ;
}

/// Objects that can be built from a bare handle, unchecked.
///
/// The caller attests that `raw` is open and owned by nobody else.
pub trait AdoptRawHandle: Sized {
    /// The object built from the handle `raw`.
    spec fn spec_adopt_raw_handle(raw: RawHandle) -> Self;

    fn adopt_raw_handle(raw: RawHandle) -> (r: Self)
        requires
            valid_handle(raw),
        ensures
            r == Self::spec_adopt_raw_handle(raw),
    ;
}

impl AsHandle for OwnedHandle {
    open spec fn handle_view(&self) -> RawHandle {
        self@
    }

    fn as_handle(&self) -> (r: BorrowedHandle<'_>) {
        BorrowedHandle { raw: self.raw, owner: core::marker::PhantomData }
    }
}

impl<'a> AsHandle for BorrowedHandle<'a> {
    open spec fn handle_view(&self) -> RawHandle {
        self@
    }

    fn as_handle(&self) -> (r: BorrowedHandle<'_>) {
        BorrowedHandle { raw: self.raw, owner: core::marker::PhantomData }
    }
}

impl IntoHandle for OwnedHandle {
    open spec fn owned_handle_view(&self) -> RawHandle {
        self@
    }

    fn into_handle(self) -> (r: OwnedHandle) {
        self
    }
}

impl FromHandle for OwnedHandle {
    closed spec fn spec_from_handle(raw: RawHandle) -> OwnedHandle {
        OwnedHandle { raw }
    }

    fn from_handle(owned: OwnedHandle) -> (r: OwnedHandle) {
        owned
    }
}

impl AsRawHandle for OwnedHandle {
    open spec fn raw_handle_view(&self) -> RawHandle {
        self@
    }

    fn as_raw_handle(&self) -> (r: RawHandle)
        ensures
            valid_handle(r),
    {
        proof {
            use_type_invariant(self);
        }
        self.raw
    }
}

impl<'a> AsRawHandle for BorrowedHandle<'a> {
    open spec fn raw_handle_view(&self) -> RawHandle {
        self@
    }

    fn as_raw_handle(&self) -> (r: RawHandle) {
        self.raw
    }
}

impl IntoRawHandle for OwnedHandle {
    open spec fn into_raw_handle_view(&self) -> RawHandle {
        self@
    }

    fn into_raw_handle(self) -> (r: RawHandle)
        ensures
            valid_handle(r),
    {
        proof {
            use_type_invariant(&self);
        }
        self.raw
    }
}

impl AdoptRawHandle for OwnedHandle {
    closed spec fn spec_adopt_raw_handle(raw: RawHandle) -> OwnedHandle {
        OwnedHandle { raw }
    }

    fn adopt_raw_handle(raw: RawHandle) -> (r: OwnedHandle) {
        OwnedHandle { raw }
    }
}

/// Building an owned handle from a value keeps exactly that value.
pub proof fn lemma_owned_handle_from_raw(raw: RawHandle)
    ensures
        OwnedHandle::spec_from_handle(raw)@ == raw,
        OwnedHandle::spec_adopt_raw_handle(raw)@ == raw,
{
}

/// Consuming an owned handle and building one back, through the safe path
/// or the raw one, gives back the same owned handle.
pub proof fn lemma_owned_handle_round_trip(owned: OwnedHandle)
    ensures
        OwnedHandle::spec_from_handle(owned.owned_handle_view()) == owned,
        OwnedHandle::spec_adopt_raw_handle(owned.into_raw_handle_view()) == owned,
{
}

/// A bare socket, detached from ownership tracking.
pub type RawSocket = u64;

/// Exclusive, close-once ownership of an open network socket.
///
/// It is movable only: the one holder at any time is the one that may
/// release it.
pub struct OwnedSocket {
    raw: RawSocket,
}

/// A non-owning view of a socket that stays open for `'a`.
pub struct BorrowedSocket<'a> {
    raw: RawSocket,
    owner: core::marker::PhantomData<&'a OwnedSocket>,
}

/// Whether `raw` can name an open socket: it is not the sentinel value.
pub open spec fn valid_socket(raw: RawSocket) -> bool {
    raw != INVALID_SOCKET
}

impl OwnedSocket {
    #[verifier::type_invariant]
    spec fn valid(self) -> bool {
        valid_socket(self.raw)
    }

    /// Releases the socket: the one close of its lifetime, recorded in `log`.
    pub fn close(self, log: &mut ReleaseLog<RawSocket>)
        ensures
            final(log)@ == old(log)@.push(self@),
    {
        log.record(self.raw);
    }
}

impl View for OwnedSocket {
    type V = RawSocket;

    closed spec fn view(&self) -> RawSocket {
        self.raw
    }
}

impl<'a> View for BorrowedSocket<'a> {
    type V = RawSocket;

    closed spec fn view(&self) -> RawSocket {
        self.raw
    }
}

/// Objects that can lend out the socket they hold.
pub trait AsSocket {
    /// The socket lent out.
    spec fn socket_view(&self) -> RawSocket;

    /// Borrows the socket, for no longer than `self` lives.
    fn as_socket(&self) -> (r: BorrowedSocket<'_>)
        ensures
            r@ == self.socket_view(),
    ;
}

/// Objects that can be consumed into the socket they own.
pub trait IntoSocket {
    /// The socket handed over on consumption.
    spec fn owned_socket_view(&self) -> RawSocket;

    /// Consumes `self`, handing over its socket without closing it.
    fn into_socket(self) -> (r: OwnedSocket)
        ensures
            r@ == self.owned_socket_view(),
    ;
}

/// Objects that can be built by taking ownership of a socket.
pub trait FromSocket: Sized {
    /// The object built from the socket `raw`.
    spec fn spec_from_socket(raw: RawSocket) -> Self;

    /// Takes ownership of `owned`.
    fn from_socket(owned: OwnedSocket) -> (r: Self)
        ensures
            r == Self::spec_from_socket(owned@),
    ;
}

/// Objects whose bare socket can be read without transferring ownership.
pub trait AsRawSocket {
    /// The bare socket read.
    spec fn raw_socket_view(&self) -> RawSocket;

    fn as_raw_socket(&self) -> (r: RawSocket)
        ensures
            r == self.raw_socket_view(),
    ;
}

/// Objects that can be consumed into a bare socket, leaving the duty to
/// close it with the caller.
pub trait IntoRawSocket {
    /// The bare socket handed over.
    spec fn into_raw_socket_view(&self) -> RawSocket;

    fn into_raw_socket(self) -> (r: RawSocket)
        ensures
            r == self.into_raw_socket_view(),
    ;
}

/// Objects that can be built from a bare socket, unchecked.
///
/// The caller attests that `raw` is open and owned by nobody else.
pub trait AdoptRawSocket: Sized {
    /// The object built from the socket `raw`.
    spec fn spec_adopt_raw_socket(raw: RawSocket) -> Self;

    fn adopt_raw_socket(raw: RawSocket) -> (r: Self)
        requires
            valid_socket(raw),
        ensures
            r == Self::spec_adopt_raw_socket(raw),
    ;
}

impl AsSocket for OwnedSocket {
    open spec fn socket_view(&self) -> RawSocket {
        self@
    }

    fn as_socket(&self) -> (r: BorrowedSocket<'_>) {
        BorrowedSocket { raw: self.raw, owner: core::marker::PhantomData }
    }
}

impl<'a> AsSocket for BorrowedSocket<'a> {
    open spec fn socket_view(&self) -> RawSocket {
        self@
    }

    fn as_socket(&self) -> (r: BorrowedSocket<'_>) {
        BorrowedSocket { raw: self.raw, owner: core::marker::PhantomData }
    }
}

impl IntoSocket for OwnedSocket {
    open spec fn owned_socket_view(&self) -> RawSocket {
        self@
    }

    fn into_socket(self) -> (r: OwnedSocket) {
        self
    }
}

impl FromSocket for OwnedSocket {
    closed spec fn spec_from_socket(raw: RawSocket) -> OwnedSocket {
        OwnedSocket { raw }
    }

    fn from_socket(owned: OwnedSocket) -> (r: OwnedSocket) {
        owned
    }
}

impl AsRawSocket for OwnedSocket {
    open spec fn raw_socket_view(&self) -> RawSocket {
        self@
    }

    fn as_raw_socket(&self) -> (r: RawSocket)
        ensures
            valid_socket(r),
    {
        proof {
            use_type_invariant(self);
        }
        self.raw
    }
}

impl<'a> AsRawSocket for BorrowedSocket<'a> {
    open spec fn raw_socket_view(&self) -> RawSocket {
        self@
    }

    fn as_raw_socket(&self) -> (r: RawSocket) {
        self.raw
    }
}

impl IntoRawSocket for OwnedSocket {
    open spec fn into_raw_socket_view(&self) -> RawSocket {
        self@
    }

    fn into_raw_socket(self) -> (r: RawSocket)
        ensures
            valid_socket(r),
    {
        proof {
            use_type_invariant(&self);
        }
        self.raw
    }
}

impl AdoptRawSocket for OwnedSocket {
    closed spec fn spec_adopt_raw_socket(raw: RawSocket) -> OwnedSocket {
        OwnedSocket { raw }
    }

    fn adopt_raw_socket(raw: RawSocket) -> (r: OwnedSocket) {
        OwnedSocket { raw }
    }
}

/// Building an owned socket from a value keeps exactly that value.
pub proof fn lemma_owned_socket_from_raw(raw: RawSocket)
    ensures
        OwnedSocket::spec_from_socket(raw)@ == raw,
        OwnedSocket::spec_adopt_raw_socket(raw)@ == raw,
{
}

/// Consuming an owned socket and building one back, through the safe path
/// or the raw one, gives back the same owned socket.
pub proof fn lemma_owned_socket_round_trip(owned: OwnedSocket)
    ensures
        OwnedSocket::spec_from_socket(owned.owned_socket_view()) == owned,
        OwnedSocket::spec_adopt_raw_socket(owned.into_raw_socket_view()) == owned,
{
}

} // verus!
