use file_futures::AsyncFile;
use file_futures::Poll as FilePoll;
use file_futures::SeekFrom;
use futures::future;
use futures::Async;
use futures::Future;

// These tests drive the combinators over the real provider handle
// (tokio_fs::file::File) on the provider's runtime, exercising the same
// chains the in-memory tests run against the modeled handle.

fn drive_set_len<T: AsyncFile + Send + 'static>(
    file: T,
    size: u64,
) -> impl Future<Item = T, Error = String> + Send {
    let mut slot = Some(file.set_len(size));
    future::poll_fn(move || {
        let mut computation = slot.take().expect("polled after completion");
        match computation.poll() {
            FilePoll::Ready(f) => Ok(Async::Ready(f)),
            FilePoll::NotReady => {
                slot = Some(computation);
                Ok(Async::NotReady)
            },
            FilePoll::Failed(e) => Err(format!("set_len failed: {:?}", e.kind)),
        }
    })
}

fn drive_seek<T: AsyncFile + Send + 'static>(
    file: T,
    pos: SeekFrom,
) -> impl Future<Item = (T, u64), Error = String> + Send {
    let mut slot = Some(file.seek(pos));
    future::poll_fn(move || {
        let mut computation = slot.take().expect("polled after completion");
        match computation.poll() {
            FilePoll::Ready(pair) => Ok(Async::Ready(pair)),
            FilePoll::NotReady => {
                slot = Some(computation);
                Ok(Async::NotReady)
            },
            FilePoll::Failed(e) => Err(format!("seek failed: {:?}", e.kind)),
        }
    })
}

fn drive_sync_all<T: AsyncFile + Send + 'static>(
    file: T,
) -> impl Future<Item = T, Error = String> + Send {
    let mut slot = Some(file.sync_all());
    future::poll_fn(move || {
        let mut computation = slot.take().expect("polled after completion");
        match computation.poll() {
            FilePoll::Ready(f) => Ok(Async::Ready(f)),
            FilePoll::NotReady => {
                slot = Some(computation);
                Ok(Async::NotReady)
            },
            FilePoll::Failed(e) => Err(format!("sync_all failed: {:?}", e.kind)),
        }
    })
}

fn drive_sync_data<T: AsyncFile + Send + 'static>(
    file: T,
) -> impl Future<Item = T, Error = String> + Send {
    let mut slot = Some(file.sync_data());
    future::poll_fn(move || {
        let mut computation = slot.take().expect("polled after completion");
        match computation.poll() {
            FilePoll::Ready(f) => Ok(Async::Ready(f)),
            FilePoll::NotReady => {
                slot = Some(computation);
                Ok(Async::NotReady)
            },
            FilePoll::Failed(e) => Err(format!("sync_data failed: {:?}", e.kind)),
        }
    })
}

fn drive_metadata<T: AsyncFile + Send + 'static>(
    file: T,
) -> impl Future<Item = (T, file_futures::Metadata), Error = String> + Send {
    let mut slot = Some(file.metadata());
    future::poll_fn(move || {
        let mut computation = slot.take().expect("polled after completion");
        match computation.poll() {
            FilePoll::Ready(pair) => Ok(Async::Ready(pair)),
            FilePoll::NotReady => {
                slot = Some(computation);
                Ok(Async::NotReady)
            },
            FilePoll::Failed(e) => Err(format!("metadata failed: {:?}", e.kind)),
        }
    })
}

fn drive_try_clone<T: AsyncFile + Send + 'static>(
    file: T,
) -> impl Future<Item = (T, T::Cloned), Error = String> + Send
where
    T::Cloned: Send,
{
    let mut slot = Some(file.try_clone());
    future::poll_fn(move || {
        let mut computation = slot.take().expect("polled after completion");
        match computation.poll() {
            FilePoll::Ready(pair) => Ok(Async::Ready(pair)),
            FilePoll::NotReady => {
                slot = Some(computation);
                Ok(Async::NotReady)
            },
            FilePoll::Failed(e) => Err(format!("try_clone failed: {:?}", e.kind)),
        }
    })
}

fn drive_set_permissions<T: AsyncFile + Send + 'static>(
    file: T,
    perm: file_futures::Permissions,
) -> impl Future<Item = T, Error = String> + Send {
    let mut slot = Some(file.set_permissions(perm));
    future::poll_fn(move || {
        let mut computation = slot.take().expect("polled after completion");
        match computation.poll() {
            FilePoll::Ready(f) => Ok(Async::Ready(f)),
            FilePoll::NotReady => {
                slot = Some(computation);
                Ok(Async::NotReady)
            },
            FilePoll::Failed(e) => Err(format!("set_permissions failed: {:?}", e.kind)),
        }
    })
}

#[test]
fn real_file_set_permissions_toggles_readonly() {
    let path = "/tmp/file_futures_chmod.bin";
    let readonly = file_futures::Permissions { readonly: true };
    let writable = file_futures::Permissions { readonly: false };
    // A failed earlier run may have left the file read-only: start afresh.
    let task = tokio_fs::remove_file(path)
        .then(move |_| tokio_fs::File::create(path))
        .map_err(|e| format!("create failed: {}", e))
        .and_then(move |file| drive_set_permissions(file, readonly))
        .and_then(drive_metadata)
        .and_then(move |(file, md)| {
            assert!(md.permissions().readonly());
            drive_set_permissions(file, writable)
        })
        .and_then(drive_metadata);
    let mut runtime = tokio::runtime::Runtime::new().expect("runtime");
    let (_file, md) = runtime.block_on(task).expect("the chain should complete");
    assert!(!md.permissions().readonly());
}

#[test]
fn real_file_set_len_then_metadata_reports_new_size() {
    let path = "/tmp/file_futures_grow.bin";
    let task = tokio_fs::File::create(path)
        .map_err(|e| format!("create failed: {}", e))
        .and_then(|file| drive_set_len(file, 30))
        .and_then(drive_sync_all)
        .and_then(drive_sync_data)
        .and_then(drive_metadata);
    let mut runtime = tokio::runtime::Runtime::new().expect("runtime");
    let (_file, md) = runtime.block_on(task).expect("the chain should complete");
    assert_eq!(md.len(), 30);
}

#[test]
fn real_file_seek_returns_absolute_offset() {
    let path = "/tmp/file_futures_seek.bin";
    let task = tokio_fs::File::create(path)
        .map_err(|e| format!("create failed: {}", e))
        .and_then(|file| drive_seek(file, SeekFrom::Start(30)));
    let mut runtime = tokio::runtime::Runtime::new().expect("runtime");
    let (_file, offset) = runtime.block_on(task).expect("the chain should complete");
    assert_eq!(offset, 30);
}

#[test]
fn real_file_clone_reports_identical_metadata() {
    let path = "/tmp/file_futures_clone.bin";
    let task = tokio_fs::File::create(path)
        .map_err(|e| format!("create failed: {}", e))
        .and_then(|file| drive_set_len(file, 12))
        .and_then(drive_try_clone)
        .and_then(|(file, duplicate)| {
            drive_metadata(file).join(drive_metadata(duplicate))
        });
    let mut runtime = tokio::runtime::Runtime::new().expect("runtime");
    let ((_f1, md1), (_f2, md2)) = runtime.block_on(task).expect("the chain should complete");
    assert_eq!(md1.len(), 12);
    assert_eq!(md1.len(), md2.len());
}
