use vstd::prelude::*;
use crate::async_file::{AsyncFile, HandleView};
use crate::model::{drained, seek_err, seek_obs, seek_step, FileModel};
use crate::types::{Error, Metadata, Permissions, Poll, SeekFrom};

verus! {

/// A suspendable computation that will move the file cursor to a target
/// position and yield the new absolute offset. It owns the handle from
/// construction until it completes: on success the handle comes back to the
/// caller together with the offset; on failure the handle is released.
pub struct Seek<T> {
    /// The target position, fixed at construction.
    pub pos: SeekFrom,
    /// The ownership slot: holds the handle exactly while the operation is
    /// outstanding, empty once the computation is terminal.
    pub inner: Option<T>,
}

impl<T: AsyncFile> Seek<T> {
    /// One attempt to complete the seek. Requires the computation to still
    /// own its handle: a terminal computation must not be polled again.
    ///
    /// On `Ready` the computation is terminal, the handle is handed back with
    /// the new offset, and a modeled handle has taken exactly one seek step.
    /// On `NotReady` the handle is restored to the slot and the caller must
    /// poll again later. On `Failed` the computation is terminal and the
    /// handle is released, never handed back: no further operation can be
    /// chained onto a failed one.
    pub fn poll(&mut self) -> (r: Poll<(T, u64)>)
        requires
            old(self).inv(),
        ensures
            final(self).pos == old(self).pos,
            match r {
                Poll::Ready((f, n)) => {
                    &&& final(self).inner is None
                    &&& f.inv()
                    &&& seek_obs(
                        old(self).file_model(),
                        f.file_model(),
                        old(self).pos,
                        Poll::Ready(n),
                    )
                },
                Poll::NotReady => {
                    &&& final(self).inv()
                    &&& seek_obs(
                        old(self).file_model(),
                        final(self).file_model(),
                        old(self).pos,
                        Poll::NotReady,
                    )
                },
                Poll::Failed(e) => {
                    &&& final(self).inner is None
                    &&& (old(self).file_model() matches Some(m) ==> seek_err(
                        m,
                        old(self).pos,
                        e,
                    ))
                },
            },
    {
        let mut inner = self.inner.take().unwrap();
        match inner.poll_seek(self.pos) {
            Poll::Ready(n) => Poll::Ready((inner, n)),
            Poll::NotReady => {
                self.inner = Some(inner);
                Poll::NotReady
            },
            Poll::Failed(e) => Poll::Failed(e),
        }
    }

    /// The poll-to-completion protocol: single attempts, repeated until the
    /// computation is terminal, consuming it. Suspension only drains the
    /// handle's readiness delay, so the outcome is the one an always-ready
    /// handle would have produced at once. Only a modeled handle is known to
    /// stop suspending — its delay is finite and visible; a driver for a real
    /// provider instead re-polls when a readiness notification fires.
    pub fn run(self) -> (r: Result<(T, u64), Error>)
        requires
            self.inv(),
            self.file_model() is Some,
        ensures
            match r {
                Ok((f, n)) => {
                    &&& f.inv()
                    &&& f.file_model() matches Some(post) && seek_step(
                        drained(self.file_model()->Some_0),
                        post,
                        self.pos,
                        Poll::Ready(n),
                    )
                },
                Err(e) => seek_err(drained(self.file_model()->Some_0), self.pos, e),
            },
    {
        let mut op = self;
        loop
            invariant
                op.inv(),
                op.pos == self.pos,
                op.file_model() matches Some(m) && drained(m) == drained(
                    self.file_model()->Some_0,
                ),
            decreases op.file_model()->Some_0.pending,
        {
            match op.poll() {
                Poll::Ready(pair) => {
                    return Ok(pair);
                },
                Poll::NotReady => {},
                Poll::Failed(e) => {
                    return Err(e);
                },
            }
        }
    }
}

impl<T: HandleView> HandleView for Seek<T> {
    /// The computation still owns a well-formed handle.
    open spec fn inv(&self) -> bool {
        self.inner matches Some(f) && f.inv()
    }

    /// A wrapping computation exposes exactly the file state of the handle it
    /// holds: the view passes through untransformed.
    open spec fn file_model(&self) -> Option<FileModel> {
        match self.inner {
            Some(f) => f.file_model(),
            None => None,
        }
    }
}

impl<T: AsyncFile> AsyncFile for Seek<T> {
    type Cloned = T::Cloned;

    fn poll_seek(&mut self, pos: SeekFrom) -> (r: Poll<u64>) {
        let mut inner = self.inner.take().unwrap();
        let r = inner.poll_seek(pos);
        self.inner = Some(inner);
        r
    }

    fn poll_sync_all(&mut self) -> (r: Poll<()>) {
        let mut inner = self.inner.take().unwrap();
        let r = inner.poll_sync_all();
        self.inner = Some(inner);
        r
    }

    fn poll_sync_data(&mut self) -> (r: Poll<()>) {
        let mut inner = self.inner.take().unwrap();
        let r = inner.poll_sync_data();
        self.inner = Some(inner);
        r
    }

    fn poll_set_len(&mut self, size: u64) -> (r: Poll<()>) {
        let mut inner = self.inner.take().unwrap();
        let r = inner.poll_set_len(size);
        self.inner = Some(inner);
        r
    }

    fn poll_metadata(&mut self) -> (r: Poll<Metadata>) {
        let mut inner = self.inner.take().unwrap();
        let r = inner.poll_metadata();
        self.inner = Some(inner);
        r
    }

    fn poll_try_clone(&mut self) -> (r: Poll<T::Cloned>) {
        let mut inner = self.inner.take().unwrap();
        let r = inner.poll_try_clone();
        self.inner = Some(inner);
        r
    }

    fn poll_set_permissions(&mut self, perm: Permissions) -> (r: Poll<()>) {
        let mut inner = self.inner.take().unwrap();
        let r = inner.poll_set_permissions(perm);
        self.inner = Some(inner);
        r
    }
}

} // verus!
