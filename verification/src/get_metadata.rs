use vstd::prelude::*;
use crate::async_file::{AsyncFile, HandleView};
use crate::model::{drained, metadata_obs, metadata_step, FileModel};
use crate::types::{Error, Metadata, Permissions, Poll, SeekFrom};

verus! {

/// A suspendable computation that will query a metadata snapshot of the file
/// and yield it together with the handle. It owns the handle from
/// construction until it completes.
pub struct GetMetadata<T> {
    /// The ownership slot: holds the handle exactly while the operation is
    /// outstanding, empty once the computation is terminal.
    pub inner: Option<T>,
}

impl<T: AsyncFile> GetMetadata<T> {
    /// One attempt to complete the metadata query. Requires the computation
    /// to still own its handle: a terminal computation must not be polled
    /// again.
    ///
    /// On `Ready` the computation is terminal and the handle is handed back
    /// with a snapshot reporting exactly a modeled file's current length and
    /// permission set. On `NotReady` the handle is restored to the slot. On
    /// `Failed` the computation is terminal and the handle is released; a
    /// modeled metadata query never fails, so a failure can only come from an
    /// unmodeled provider.
    pub fn poll(&mut self) -> (r: Poll<(T, Metadata)>)
        requires
            old(self).inv(),
        ensures
            match r {
                Poll::Ready((f, md)) => {
                    &&& final(self).inner is None
                    &&& f.inv()
                    &&& metadata_obs(old(self).file_model(), f.file_model(), Poll::Ready(md))
                },
                Poll::NotReady => {
                    &&& final(self).inv()
                    &&& metadata_obs(
                        old(self).file_model(),
                        final(self).file_model(),
                        Poll::NotReady,
                    )
                },
                Poll::Failed(e) => {
                    &&& final(self).inner is None
                    &&& old(self).file_model() is None
                },
            },
    {
        let mut inner = self.inner.take().unwrap();
        match inner.poll_metadata() {
            Poll::Ready(md) => Poll::Ready((inner, md)),
            Poll::NotReady => {
                self.inner = Some(inner);
                Poll::NotReady
            },
            Poll::Failed(e) => Poll::Failed(e),
        }
    }

    /// The poll-to-completion protocol: single attempts, repeated until the
    /// computation is terminal, consuming it. Suspension only drains the
    /// handle's readiness delay, so the outcome is the one an always-ready
    /// handle would have produced at once. Only a modeled handle is known to
    /// stop suspending — its delay is finite and visible; a driver for a real
    /// provider instead re-polls when a readiness notification fires.
    /// A modeled metadata query never fails, so on a modeled handle this
    /// always completes with the handle and the snapshot of its drained
    /// state.
    pub fn run(self) -> (r: Result<(T, Metadata), Error>)
        requires
            self.inv(),
            self.file_model() is Some,
        ensures
            match r {
                Ok((f, md)) => {
                    &&& f.inv()
                    &&& f.file_model() matches Some(post) && metadata_step(
                        drained(self.file_model()->Some_0),
                        post,
                        Poll::Ready(md),
                    )
                },
                Err(_) => false,
            },
    {
        let mut op = self;
        loop
            invariant
                op.inv(),
                op.file_model() matches Some(m) && drained(m) == drained(
                    self.file_model()->Some_0,
                ),
            decreases op.file_model()->Some_0.pending,
        {
            match op.poll() {
                Poll::Ready(done) => {
                    return Ok(done);
                },
                Poll::NotReady => {},
                Poll::Failed(e) => {
                    return Err(e);
                },
            }
        }
    }
}

impl<T: HandleView> HandleView for GetMetadata<T> {
    /// The computation still owns a well-formed handle.
    open spec fn inv(&self) -> bool {
        self.inner matches Some(f) && f.inv()
    }

    /// A wrapping computation exposes exactly the file state of the handle it
    /// holds: the view passes through untransformed.
    open spec fn file_model(&self) -> Option<FileModel> {
        match self.inner {
            Some(f) => f.file_model(),
            None => None,
        }
    }
}

impl<T: AsyncFile> AsyncFile for GetMetadata<T> {
    type Cloned = T::Cloned;

    fn poll_seek(&mut self, pos: SeekFrom) -> (r: Poll<u64>) {
        let mut inner = self.inner.take().unwrap();
        let r = inner.poll_seek(pos);
        self.inner = Some(inner);
        r
    }

    fn poll_sync_all(&mut self) -> (r: Poll<()>) {
        let mut inner = self.inner.take().unwrap();
        let r = inner.poll_sync_all();
        self.inner = Some(inner);
        r
    }

    fn poll_sync_data(&mut self) -> (r: Poll<()>) {
        let mut inner = self.inner.take().unwrap();
        let r = inner.poll_sync_data();
        self.inner = Some(inner);
        r
    }

    fn poll_set_len(&mut self, size: u64) -> (r: Poll<()>) {
        let mut inner = self.inner.take().unwrap();
        let r = inner.poll_set_len(size);
        self.inner = Some(inner);
        r
    }

    fn poll_metadata(&mut self) -> (r: Poll<Metadata>) {
        let mut inner = self.inner.take().unwrap();
        let r = inner.poll_metadata();
        self.inner = Some(inner);
        r
    }

    fn poll_try_clone(&mut self) -> (r: Poll<T::Cloned>) {
        let mut inner = self.inner.take().unwrap();
        let r = inner.poll_try_clone();
        self.inner = Some(inner);
        r
    }

    fn poll_set_permissions(&mut self, perm: Permissions) -> (r: Poll<()>) {
        let mut inner = self.inner.take().unwrap();
        let r = inner.poll_set_permissions(perm);
        self.inner = Some(inner);
        r
    }
}

} // verus!
