use file_futures::AsyncFile;
use file_futures::ErrorKind;
use file_futures::Permissions;
use file_futures::Poll;
use file_futures::SeekFrom;
use file_futures::SimFile;

#[test]
fn set_len_then_metadata_reports_new_size() {
    let file = SimFile::new(0);
    let mut grow = file.set_len(30);
    let file = match grow.poll() {
        Poll::Ready(f) => f,
        _ => panic!("set_len should complete at once"),
    };
    let mut stat = file.metadata();
    match stat.poll() {
        Poll::Ready((_file, md)) => assert_eq!(md.len(), 30),
        _ => panic!("metadata should complete at once"),
    }
}

#[test]
fn seek_to_absolute_offset() {
    let file = SimFile::new(100);
    let mut seek = file.seek(SeekFrom::Start(30));
    match seek.poll() {
        Poll::Ready((_file, offset)) => assert_eq!(offset, 30),
        _ => panic!("seek should complete at once"),
    }
}

#[test]
fn seek_relative_to_end_and_current() {
    let file = SimFile::new(100);
    let mut seek = file.seek(SeekFrom::End(-40));
    let file = match seek.poll() {
        Poll::Ready((f, offset)) => {
            assert_eq!(offset, 60);
            f
        },
        _ => panic!("seek should complete at once"),
    };
    let mut seek = file.seek(SeekFrom::Current(15));
    match seek.poll() {
        Poll::Ready((_file, offset)) => assert_eq!(offset, 75),
        _ => panic!("seek should complete at once"),
    }
}

#[test]
fn seek_to_negative_offset_fails() {
    let file = SimFile::new(10);
    let mut seek = file.seek(SeekFrom::End(-11));
    match seek.poll() {
        Poll::Failed(e) => assert_eq!(e.kind, ErrorKind::InvalidInput),
        _ => panic!("a seek resolving below zero must fail"),
    }
    assert!(seek.inner.is_none());
}

#[test]
fn seek_at_the_upper_bound() {
    // The cursor may sit anywhere in the representable range, even past the
    // end of the file; one byte further is out of range.
    let file = SimFile::new(0);
    let (file, offset) = file.seek(SeekFrom::Start(u64::MAX)).run().expect("seek completes");
    assert_eq!(offset, u64::MAX);
    let error = file
        .seek(SeekFrom::Current(1))
        .run()
        .expect_err("past the representable range");
    assert_eq!(error.kind, ErrorKind::InvalidInput);
}

#[test]
fn clone_reports_identical_metadata() {
    let file = SimFile::new(42);
    let mut dup = file.try_clone();
    let (original, duplicate) = match dup.poll() {
        Poll::Ready(pair) => pair,
        _ => panic!("try_clone should complete at once"),
    };
    let mut stat_original = original.metadata();
    let md_original = match stat_original.poll() {
        Poll::Ready((_f, md)) => md,
        _ => panic!("metadata should complete at once"),
    };
    let mut stat_duplicate = duplicate.metadata();
    let md_duplicate = match stat_duplicate.poll() {
        Poll::Ready((_f, md)) => md,
        _ => panic!("metadata should complete at once"),
    };
    assert_eq!(md_original.len(), 42);
    assert_eq!(md_original, md_duplicate);
}

#[test]
fn readonly_rejects_set_len() {
    let file = SimFile::new(10);
    let mut chmod = file.set_permissions(Permissions { readonly: true });
    let file = match chmod.poll() {
        Poll::Ready(f) => f,
        _ => panic!("set_permissions should complete at once"),
    };
    let mut shrink = file.set_len(5);
    match shrink.poll() {
        Poll::Failed(e) => assert_eq!(e.kind, ErrorKind::PermissionDenied),
        _ => panic!("a length change on a read-only file must fail"),
    }
    // The computation is terminal in a failed state: the handle was released,
    // not handed back.
    assert!(shrink.inner.is_none());
}

#[test]
fn delayed_poll_reaches_same_result() {
    // One scripted "not yet complete" answer first ...
    let delayed = SimFile::with_delay(100, 1);
    let mut seek = delayed.seek(SeekFrom::Start(30));
    match seek.poll() {
        Poll::NotReady => {},
        _ => panic!("the first poll must report not yet complete"),
    }
    let delayed_offset = match seek.poll() {
        Poll::Ready((_f, offset)) => offset,
        _ => panic!("the second poll should complete"),
    };
    // ... then the same request on an always-ready file.
    let ready = SimFile::new(100);
    let mut seek = ready.seek(SeekFrom::Start(30));
    let ready_offset = match seek.poll() {
        Poll::Ready((_f, offset)) => offset,
        _ => panic!("seek should complete at once"),
    };
    assert_eq!(delayed_offset, ready_offset);
}

#[test]
fn delay_applies_to_every_operation() {
    let delayed = SimFile::with_delay(8, 2);
    let mut flush = delayed.sync_all();
    assert!(matches!(flush.poll(), Poll::NotReady));
    assert!(matches!(flush.poll(), Poll::NotReady));
    let file = match flush.poll() {
        Poll::Ready(f) => f,
        _ => panic!("the third poll should complete"),
    };
    let mut flush = file.sync_data();
    match flush.poll() {
        Poll::Ready(_f) => {},
        _ => panic!("the delay was consumed: sync_data completes at once"),
    }
}
