use file_futures::AsyncFile;
use file_futures::Permissions;
use file_futures::Poll;
use file_futures::SeekFrom;
use file_futures::SimFile;

#[test]
fn delegated_seek_equals_direct_seek() {
    let mut base = SimFile::new(50);
    let direct = match base.poll_seek(SeekFrom::Start(7)) {
        Poll::Ready(n) => n,
        _ => panic!("seek should complete at once"),
    };

    let mut wrapped = SimFile::new(50).sync_all();
    let delegated = match wrapped.poll_seek(SeekFrom::Start(7)) {
        Poll::Ready(n) => n,
        _ => panic!("delegated seek should complete at once"),
    };

    assert_eq!(direct, delegated);
    // Delegation restored the handle to the slot, with the same state the
    // direct call produced on the base handle.
    let held = wrapped.inner.as_ref().unwrap();
    assert_eq!(held.pos, base.pos);
    assert_eq!(held.len, base.len);
}

#[test]
fn delegation_through_two_wrappers_is_identity() {
    let mut base = SimFile::new(9);
    let direct = match base.poll_metadata() {
        Poll::Ready(md) => md,
        _ => panic!("metadata should complete at once"),
    };

    // A pending computation looks like a handle to the next chain-starter,
    // so wrappers nest; the primitive still reaches the base unchanged.
    let mut nested = SimFile::new(9).sync_all().seek(SeekFrom::Start(0));
    let delegated = match nested.poll_metadata() {
        Poll::Ready(md) => md,
        _ => panic!("delegated metadata should complete at once"),
    };

    assert_eq!(direct, delegated);
}

#[test]
fn delegated_mutation_reaches_the_base_handle() {
    let mut wrapped = SimFile::new(3).metadata();
    match wrapped.poll_set_len(77) {
        Poll::Ready(()) => {},
        _ => panic!("delegated set_len should complete at once"),
    }
    match wrapped.poll_set_permissions(Permissions { readonly: true }) {
        Poll::Ready(()) => {},
        _ => panic!("delegated set_permissions should complete at once"),
    }
    let held = wrapped.inner.as_ref().unwrap();
    assert_eq!(held.len, 77);
    assert!(held.readonly);
}

#[test]
fn delegated_clone_equals_direct_clone() {
    let mut base = SimFile::new(21);
    base.pos = 4;
    let direct = match base.poll_try_clone() {
        Poll::Ready(h) => h,
        _ => panic!("try_clone should complete at once"),
    };

    let mut wrapped = SimFile { len: 21, pos: 4, readonly: false, not_ready: 0 }.sync_data();
    let delegated = match wrapped.poll_try_clone() {
        Poll::Ready(h) => h,
        _ => panic!("delegated try_clone should complete at once"),
    };

    assert_eq!(direct.len, delegated.len);
    assert_eq!(direct.pos, delegated.pos);
    assert_eq!(direct.readonly, delegated.readonly);
    assert_eq!(direct.not_ready, delegated.not_ready);
}

#[test]
fn delegated_flushes_complete() {
    let mut wrapped = SimFile::new(1).set_len(2);
    assert!(matches!(wrapped.poll_sync_all(), Poll::Ready(())));
    assert!(matches!(wrapped.poll_sync_data(), Poll::Ready(())));
    // The wrapped operation itself never ran: only the delegated primitives
    // touched the base handle.
    assert_eq!(wrapped.inner.as_ref().unwrap().len, 1);
}
