use file_futures::AsyncFile;
use file_futures::ErrorKind;
use file_futures::Permissions;
use file_futures::Poll;
use file_futures::SimFile;

#[test]
fn operations_chain_in_order() {
    // Mirror of the provider's canonical sequence: grow, flush twice,
    // duplicate, query, then make read-only. Each step can only be
    // constructed from the handle the previous step yielded.
    let file = SimFile::new(0);

    let mut grow = file.set_len(30);
    let file = match grow.poll() {
        Poll::Ready(f) => f,
        _ => panic!("set_len should complete at once"),
    };

    let mut flush = file.sync_all();
    let file = match flush.poll() {
        Poll::Ready(f) => f,
        _ => panic!("sync_all should complete at once"),
    };

    let mut flush = file.sync_data();
    let file = match flush.poll() {
        Poll::Ready(f) => f,
        _ => panic!("sync_data should complete at once"),
    };

    let mut dup = file.try_clone();
    let (file, _duplicate) = match dup.poll() {
        Poll::Ready(pair) => pair,
        _ => panic!("try_clone should complete at once"),
    };

    let mut stat = file.metadata();
    let (file, md) = match stat.poll() {
        Poll::Ready(pair) => pair,
        _ => panic!("metadata should complete at once"),
    };
    assert_eq!(md.len(), 30);
    let mut permissions = md.permissions();
    permissions.set_readonly(true);

    let mut chmod = file.set_permissions(permissions);
    let file = match chmod.poll() {
        Poll::Ready(f) => f,
        _ => panic!("set_permissions should complete at once"),
    };

    let mut stat = file.metadata();
    match stat.poll() {
        Poll::Ready((_f, md)) => {
            assert_eq!(md.len(), 30);
            assert!(md.permissions().readonly());
        },
        _ => panic!("metadata should complete at once"),
    }
}

#[test]
fn completion_is_terminal() {
    // Once a computation yields its handle it is terminal: the ownership
    // slot is empty and the handle lives on with the caller alone.
    let file = SimFile::new(7);
    let mut flush = file.sync_all();
    let _file = match flush.poll() {
        Poll::Ready(f) => f,
        _ => panic!("sync_all should complete at once"),
    };
    assert!(flush.inner.is_none());
}

#[test]
fn failure_short_circuits_the_chain() {
    // A failed step yields no handle, so no later step can even be
    // constructed; the failure surfaces verbatim and the chain ends there.
    let file = SimFile::new(10);
    let mut chmod = file.set_permissions(Permissions { readonly: true });
    let file = match chmod.poll() {
        Poll::Ready(f) => f,
        _ => panic!("set_permissions should complete at once"),
    };
    let mut shrink = file.set_len(1);
    let error = match shrink.poll() {
        Poll::Failed(e) => e,
        _ => panic!("a length change on a read-only file must fail"),
    };
    assert_eq!(error.kind, ErrorKind::PermissionDenied);
    assert!(shrink.inner.is_none());
    // Nothing of the failed step remains to chain on: the only value the
    // caller received is the error.
}

#[test]
fn construction_does_no_work() {
    // Wrapping a handle starts no operation: the scripted delay is consumed
    // by polls alone, however long the computation sits unpolled.
    let delayed = SimFile::with_delay(5, 1);
    let mut flush = delayed.sync_all();
    assert!(flush.inner.is_some());
    assert!(matches!(flush.poll(), Poll::NotReady));
    assert!(matches!(flush.poll(), Poll::Ready(_)));
}
