use vstd::prelude::*;
use crate::async_file::{AsyncFile, HandleView};
use crate::model::FileModel;
use crate::types::{Error, ErrorKind, Metadata, Permissions, Poll, SeekFrom};

verus! {

/// The real provider's file handle, as an opaque type: an open
/// operating-system file whose primitive operations run on the provider's
/// blocking pool. Its state lives outside the program, so it carries no file
/// model; only the structural contracts of the capability interface apply.
#[verifier::external_type_specification]
#[verifier::external_body]
pub struct ExFile(tokio_fs::file::File);

/// The outcome of one primitive attempt as the provider reports it, before
/// its failure value is classified.
enum ProviderPoll<T> {
    Ready(T),
    NotReady,
    Failed(std::io::Error),
}

/// Relies on std::io::Error::kind: classifies a provider failure into the
/// matching failure class of this library, with `Other` for the classes the
/// library does not distinguish.
#[verifier::external_body]
fn io_error_kind(e: &std::io::Error) -> (k: ErrorKind) {
    match e.kind() {
        std::io::ErrorKind::NotFound => ErrorKind::NotFound,
        std::io::ErrorKind::PermissionDenied => ErrorKind::PermissionDenied,
        std::io::ErrorKind::AlreadyExists => ErrorKind::AlreadyExists,
        std::io::ErrorKind::InvalidInput => ErrorKind::InvalidInput,
        std::io::ErrorKind::WouldBlock => ErrorKind::WouldBlock,
        _ => ErrorKind::Other,
    }
}

/// A provider failure, classified and passed through verbatim.
fn failure(e: std::io::Error) -> (err: Error)
    ensures
        err.io == Some(e),
{
    let kind = io_error_kind(&e);
    Error { kind, io: Some(e) }
}

/// Relies on tokio_fs::file::File::poll_seek: one non-blocking attempt to
/// move the file cursor, yielding the new offset from the start of the file.
/// Outside the provider's runtime it fails with an error rather than
/// suspending.
#[verifier::external_body]
fn file_poll_seek(f: &mut tokio_fs::file::File, pos: SeekFrom) -> (r: ProviderPoll<u64>) {
    let p = match pos {
        SeekFrom::Start(n) => std::io::SeekFrom::Start(n),
        SeekFrom::End(d) => std::io::SeekFrom::End(d),
        SeekFrom::Current(d) => std::io::SeekFrom::Current(d),
    };
    match tokio_fs::file::File::poll_seek(f, p) {
        Ok(futures::Async::Ready(n)) => ProviderPoll::Ready(n),
        Ok(futures::Async::NotReady) => ProviderPoll::NotReady,
        Err(e) => ProviderPoll::Failed(e),
    }
}

/// Relies on tokio_fs::file::File::poll_sync_all: one non-blocking attempt to
/// flush data and metadata to durable storage.
#[verifier::external_body]
fn file_poll_sync_all(f: &mut tokio_fs::file::File) -> (r: ProviderPoll<()>) {
    match tokio_fs::file::File::poll_sync_all(f) {
        Ok(futures::Async::Ready(u)) => ProviderPoll::Ready(u),
        Ok(futures::Async::NotReady) => ProviderPoll::NotReady,
        Err(e) => ProviderPoll::Failed(e),
    }
}

/// Relies on tokio_fs::file::File::poll_sync_data: one non-blocking attempt
/// to flush data, but not necessarily metadata, to durable storage.
#[verifier::external_body]
fn file_poll_sync_data(f: &mut tokio_fs::file::File) -> (r: ProviderPoll<()>) {
    match tokio_fs::file::File::poll_sync_data(f) {
        Ok(futures::Async::Ready(u)) => ProviderPoll::Ready(u),
        Ok(futures::Async::NotReady) => ProviderPoll::NotReady,
        Err(e) => ProviderPoll::Failed(e),
    }
}

/// Relies on tokio_fs::file::File::poll_set_len: one non-blocking attempt to
/// truncate or extend the file to `size` bytes.
#[verifier::external_body]
fn file_poll_set_len(f: &mut tokio_fs::file::File, size: u64) -> (r: ProviderPoll<()>) {
    match tokio_fs::file::File::poll_set_len(f, size) {
        Ok(futures::Async::Ready(u)) => ProviderPoll::Ready(u),
        Ok(futures::Async::NotReady) => ProviderPoll::NotReady,
        Err(e) => ProviderPoll::Failed(e),
    }
}

/// Relies on tokio_fs::file::File::poll_metadata: one non-blocking attempt to
/// query the file's metadata, of which the length and the read-only bit are
/// kept.
#[verifier::external_body]
fn file_poll_metadata(f: &mut tokio_fs::file::File) -> (r: ProviderPoll<Metadata>) {
    match tokio_fs::file::File::poll_metadata(f) {
        Ok(futures::Async::Ready(m)) => ProviderPoll::Ready(
            Metadata { len: m.len(), readonly: m.permissions().readonly() },
        ),
        Ok(futures::Async::NotReady) => ProviderPoll::NotReady,
        Err(e) => ProviderPoll::Failed(e),
    }
}

/// Relies on tokio_fs::file::File::poll_try_clone: one non-blocking attempt
/// to produce a new handle sharing the same underlying open file.
#[verifier::external_body]
fn file_poll_try_clone(
    f: &mut tokio_fs::file::File,
) -> (r: ProviderPoll<tokio_fs::file::File>) {
    match tokio_fs::file::File::poll_try_clone(f) {
        Ok(futures::Async::Ready(h)) => ProviderPoll::Ready(h),
        Ok(futures::Async::NotReady) => ProviderPoll::NotReady,
        Err(e) => ProviderPoll::Failed(e),
    }
}

/// Relies on tokio_fs::file::File::poll_metadata to obtain the file's current
/// permission set, and on tokio_fs::file::File::poll_set_permissions to apply
/// that set with its read-only bit as asked. The provider takes a full
/// operating-system permission set, which can only be obtained from the file
/// itself.
#[verifier::external_body]
fn file_poll_set_permissions(f: &mut tokio_fs::file::File, readonly: bool) -> (r: ProviderPoll<
    (),
>) {
    let mut perm = match tokio_fs::file::File::poll_metadata(f) {
        Ok(futures::Async::Ready(m)) => m.permissions(),
        Ok(futures::Async::NotReady) => return ProviderPoll::NotReady,
        Err(e) => return ProviderPoll::Failed(e),
    };
    perm.set_readonly(readonly);
    match tokio_fs::file::File::poll_set_permissions(f, perm) {
        Ok(futures::Async::Ready(u)) => ProviderPoll::Ready(u),
        Ok(futures::Async::NotReady) => ProviderPoll::NotReady,
        Err(e) => ProviderPoll::Failed(e),
    }
}

impl HandleView for tokio_fs::file::File {
    /// A real file is always a valid operation target.
    open spec fn inv(&self) -> bool {
        true
    }

    /// A real file's state lives outside the program: it has no model.
    open spec fn file_model(&self) -> Option<FileModel> {
        None
    }
}

impl AsyncFile for tokio_fs::file::File {
    type Cloned = tokio_fs::file::File;

    fn poll_seek(&mut self, pos: SeekFrom) -> (r: Poll<u64>) {
        match file_poll_seek(self, pos) {
            ProviderPoll::Ready(n) => Poll::Ready(n),
            ProviderPoll::NotReady => Poll::NotReady,
            ProviderPoll::Failed(e) => Poll::Failed(failure(e)),
        }
    }

    fn poll_sync_all(&mut self) -> (r: Poll<()>) {
        match file_poll_sync_all(self) {
            ProviderPoll::Ready(u) => Poll::Ready(u),
            ProviderPoll::NotReady => Poll::NotReady,
            ProviderPoll::Failed(e) => Poll::Failed(failure(e)),
        }
    }

    fn poll_sync_data(&mut self) -> (r: Poll<()>) {
        match file_poll_sync_data(self) {
            ProviderPoll::Ready(u) => Poll::Ready(u),
            ProviderPoll::NotReady => Poll::NotReady,
            ProviderPoll::Failed(e) => Poll::Failed(failure(e)),
        }
    }

    fn poll_set_len(&mut self, size: u64) -> (r: Poll<()>) {
        match file_poll_set_len(self, size) {
            ProviderPoll::Ready(u) => Poll::Ready(u),
            ProviderPoll::NotReady => Poll::NotReady,
            ProviderPoll::Failed(e) => Poll::Failed(failure(e)),
        }
    }

    fn poll_metadata(&mut self) -> (r: Poll<Metadata>) {
        match file_poll_metadata(self) {
            ProviderPoll::Ready(md) => Poll::Ready(md),
            ProviderPoll::NotReady => Poll::NotReady,
            ProviderPoll::Failed(e) => Poll::Failed(failure(e)),
        }
    }

    fn poll_try_clone(&mut self) -> (r: Poll<tokio_fs::file::File>) {
        match file_poll_try_clone(self) {
            ProviderPoll::Ready(h) => Poll::Ready(h),
            ProviderPoll::NotReady => Poll::NotReady,
            ProviderPoll::Failed(e) => Poll::Failed(failure(e)),
        }
    }

    fn poll_set_permissions(&mut self, perm: Permissions) -> (r: Poll<()>) {
        match file_poll_set_permissions(self, perm.readonly) {
            ProviderPoll::Ready(u) => Poll::Ready(u),
            ProviderPoll::NotReady => Poll::NotReady,
            ProviderPoll::Failed(e) => Poll::Failed(failure(e)),
        }
    }
}

} // verus!
