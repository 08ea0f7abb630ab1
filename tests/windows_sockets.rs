use io_lifetimes::windows::{
    AdoptRawSocket, AsSocket, AsRawSocket, FromSocket, IntoSocket, IntoRawSocket, OwnedSocket,
};
use io_lifetimes::windows_portability::{
    AsSocketlike, AsRawSocketlike, FromSocketlike, FromRawSocketlike, IntoSocketlike, IntoRawSocketlike,
};
use io_lifetimes::ReleaseLog;

#[test]
fn portable_borrow_matches_native_borrow_socket() {
    let owned = OwnedSocket::adopt_raw_socket(7);
    assert_eq!(owned.as_socketlike().as_raw_socket(), owned.as_socket().as_raw_socket());
    assert_eq!(owned.as_socketlike().as_raw_socket(), 7);
    let borrowed = owned.as_socket();
    assert_eq!(borrowed.as_socketlike().as_raw_socket(), 7);
}

#[test]
fn borrowing_does_not_release_socket() {
    let owned = OwnedSocket::adopt_raw_socket(4);
    let mut log = ReleaseLog::new();
    for _ in 0..10 {
        let _b = owned.as_socketlike();
        let _s = owned.as_socketlike();
    }
    assert_eq!(log.len(), 0);
    owned.close(&mut log);
    assert_eq!(log.len(), 1);
}

#[test]
fn consume_keeps_the_raw_value_and_closes_once_socket() {
    let owned = OwnedSocket::adopt_raw_socket(12);
    let before = owned.as_raw_socket();
    let socketlike = owned.into_socketlike();
    assert_eq!(socketlike.as_raw_socket(), before);
    let socketlike = socketlike.into_socketlike();
    assert_eq!(socketlike.as_raw_socket(), before);
    let mut log = ReleaseLog::new();
    socketlike.close(&mut log);
    assert_eq!(log.len(), 1);
    assert_eq!(log.entry(0), 12);
}

#[test]
fn consume_then_construct_equals_direct_construction_socket() {
    let direct = OwnedSocket::from_socket(OwnedSocket::adopt_raw_socket(9));
    let via_socketlike = OwnedSocket::from_socketlike(OwnedSocket::adopt_raw_socket(9).into_socketlike());
    let composed = OwnedSocket::from_into_socketlike(OwnedSocket::adopt_raw_socket(9));
    let via_socketlike = OwnedSocket::from_into_socketlike(OwnedSocket::adopt_raw_socket(9));
    let from_socketlike = OwnedSocket::from_socketlike(OwnedSocket::adopt_raw_socket(9).into_socket());
    assert_eq!(direct.as_raw_socket(), 9);
    assert_eq!(via_socketlike.as_raw_socket(), 9);
    assert_eq!(composed.as_raw_socket(), 9);
    assert_eq!(via_socketlike.as_raw_socket(), 9);
    assert_eq!(from_socketlike.as_raw_socket(), 9);
}

#[test]
fn chain_of_transfers_closes_exactly_once_socket() {
    for n in [0usize, 1, 2, 5, 100, 1000] {
        let mut owned = OwnedSocket::adopt_raw_socket(5);
        for i in 0..n {
            owned = match i % 4 {
                0 => owned.into_socketlike(),
                1 => OwnedSocket::from_into_socketlike(owned),
                2 => OwnedSocket::from_socketlike(owned),
                _ => owned.into_socket(),
            };
        }
        let mut log = ReleaseLog::new();
        owned.close(&mut log);
        assert_eq!(log.len(), 1);
        assert_eq!(log.entry(0), 5);
    }
}

#[test]
fn releases_are_logged_in_order_socket() {
    let mut log = ReleaseLog::new();
    OwnedSocket::adopt_raw_socket(3).close(&mut log);
    OwnedSocket::adopt_raw_socket(0).close(&mut log);
    OwnedSocket::adopt_raw_socket(u64::MAX - 2).close(&mut log);
    assert_eq!(log.len(), 3);
    assert_eq!(log.entry(0), 3);
    assert_eq!(log.entry(1), 0);
    assert_eq!(log.entry(2), u64::MAX - 2);
}

#[test]
fn raw_layer_reads_and_hands_over_the_bare_value_socket() {
    let owned = OwnedSocket::from_raw_socketlike(21);
    assert_eq!(owned.as_raw_socketlike(), 21);
    let mut log = ReleaseLog::new();
    let raw = owned.into_raw_socketlike();
    assert_eq!(raw, 21);
    assert_eq!(log.len(), 0);
    let again = OwnedSocket::from_raw_socketlike(raw);
    assert_eq!(again.into_raw_socketlike(), 21);
    let last = OwnedSocket::adopt_raw_socket(raw);
    assert_eq!(last.into_raw_socket(), 21);
    OwnedSocket::from_raw_socketlike(raw).close(&mut log);
    assert_eq!(log.len(), 1);
}

#[test]
fn every_operation_is_total_over_valid_descriptors_socket() {
    let mut log = ReleaseLog::new();
    let values = (0..2000).chain([u64::MAX - 1, u64::MAX - 2]);
    let mut count = 0usize;
    for raw in values {
        let owned = OwnedSocket::from_raw_socketlike(raw);
        assert_eq!(owned.as_socketlike().as_raw_socket(), raw);
        let rebuilt = OwnedSocket::from_into_socketlike(owned.into_socketlike());
        assert_eq!(rebuilt.as_raw_socketlike(), raw);
        rebuilt.close(&mut log);
        count += 1;
        assert_eq!(log.len(), count);
        assert_eq!(log.entry(count - 1), raw);
    }
}
