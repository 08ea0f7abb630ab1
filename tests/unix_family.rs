use io_lifetimes::unix::{AdoptRawFd, AsFd, AsRawFd, FromFd, IntoFd, IntoRawFd, OwnedFd};
use io_lifetimes::unix_portability::{
    AsFilelike, AsRawFilelike, AsRawSocketlike, AsSocketlike, FromFilelike, FromRawFilelike,
    FromRawSocketlike, FromSocketlike, IntoFilelike, IntoRawFilelike, IntoRawSocketlike,
    IntoSocketlike,
};
use io_lifetimes::ReleaseLog;

#[test]
fn portable_borrow_matches_native_borrow() {
    let owned = OwnedFd::adopt_raw_fd(7);
    assert_eq!(owned.as_filelike().as_raw_fd(), owned.as_fd().as_raw_fd());
    assert_eq!(owned.as_socketlike().as_raw_fd(), owned.as_fd().as_raw_fd());
    assert_eq!(owned.as_filelike().as_raw_fd(), 7);
    let borrowed = owned.as_fd();
    assert_eq!(borrowed.as_filelike().as_raw_fd(), 7);
    assert_eq!(borrowed.as_socketlike().as_raw_fd(), 7);
}

#[test]
fn borrowing_does_not_release() {
    let owned = OwnedFd::adopt_raw_fd(4);
    let mut log = ReleaseLog::new();
    for _ in 0..10 {
        let _b = owned.as_filelike();
        let _s = owned.as_socketlike();
    }
    assert_eq!(log.len(), 0);
    owned.close(&mut log);
    assert_eq!(log.len(), 1);
}

#[test]
fn consume_keeps_the_raw_value_and_closes_once() {
    let owned = OwnedFd::adopt_raw_fd(12);
    let before = owned.as_raw_fd();
    let filelike = owned.into_filelike();
    assert_eq!(filelike.as_raw_fd(), before);
    let socketlike = filelike.into_socketlike();
    assert_eq!(socketlike.as_raw_fd(), before);
    let mut log = ReleaseLog::new();
    socketlike.close(&mut log);
    assert_eq!(log.len(), 1);
    assert_eq!(log.entry(0), 12);
}

#[test]
fn consume_then_construct_equals_direct_construction() {
    let direct = OwnedFd::from_fd(OwnedFd::adopt_raw_fd(9));
    let via_filelike = OwnedFd::from_filelike(OwnedFd::adopt_raw_fd(9).into_filelike());
    let composed = OwnedFd::from_into_filelike(OwnedFd::adopt_raw_fd(9));
    let via_socketlike = OwnedFd::from_into_socketlike(OwnedFd::adopt_raw_fd(9));
    let from_socketlike = OwnedFd::from_socketlike(OwnedFd::adopt_raw_fd(9).into_fd());
    assert_eq!(direct.as_raw_fd(), 9);
    assert_eq!(via_filelike.as_raw_fd(), 9);
    assert_eq!(composed.as_raw_fd(), 9);
    assert_eq!(via_socketlike.as_raw_fd(), 9);
    assert_eq!(from_socketlike.as_raw_fd(), 9);
}

#[test]
fn chain_of_transfers_closes_exactly_once() {
    for n in [0usize, 1, 2, 5, 100, 1000] {
        let mut owned = OwnedFd::adopt_raw_fd(5);
        for i in 0..n {
            owned = match i % 4 {
                0 => owned.into_filelike(),
                1 => OwnedFd::from_into_socketlike(owned),
                2 => OwnedFd::from_filelike(owned),
                _ => owned.into_fd(),
            };
        }
        let mut log = ReleaseLog::new();
        owned.close(&mut log);
        assert_eq!(log.len(), 1);
        assert_eq!(log.entry(0), 5);
    }
}

#[test]
fn releases_are_logged_in_order() {
    let mut log = ReleaseLog::new();
    OwnedFd::adopt_raw_fd(3).close(&mut log);
    OwnedFd::adopt_raw_fd(0).close(&mut log);
    OwnedFd::adopt_raw_fd(i32::MAX).close(&mut log);
    assert_eq!(log.len(), 3);
    assert_eq!(log.entry(0), 3);
    assert_eq!(log.entry(1), 0);
    assert_eq!(log.entry(2), i32::MAX);
}

#[test]
fn raw_layer_reads_and_hands_over_the_bare_value() {
    let owned = OwnedFd::from_raw_filelike(21);
    assert_eq!(owned.as_raw_filelike(), 21);
    assert_eq!(owned.as_raw_socketlike(), 21);
    let mut log = ReleaseLog::new();
    let raw = owned.into_raw_filelike();
    assert_eq!(raw, 21);
    assert_eq!(log.len(), 0);
    let again = OwnedFd::from_raw_socketlike(raw);
    assert_eq!(again.into_raw_socketlike(), 21);
    let last = OwnedFd::adopt_raw_fd(raw);
    assert_eq!(last.into_raw_fd(), 21);
    OwnedFd::from_raw_filelike(raw).close(&mut log);
    assert_eq!(log.len(), 1);
}

#[test]
fn every_operation_is_total_over_valid_descriptors() {
    let mut log = ReleaseLog::new();
    let values = (0..2000).chain([i32::MAX - 1, i32::MAX]);
    let mut count = 0usize;
    for raw in values {
        let owned = OwnedFd::from_raw_filelike(raw);
        assert_eq!(owned.as_filelike().as_raw_fd(), raw);
        assert_eq!(owned.as_socketlike().as_raw_fd(), raw);
        let rebuilt = OwnedFd::from_into_filelike(owned.into_socketlike());
        assert_eq!(rebuilt.as_raw_filelike(), raw);
        rebuilt.close(&mut log);
        count += 1;
        assert_eq!(log.len(), count);
        assert_eq!(log.entry(count - 1), raw);
    }
}
