use vstd::prelude::*;
use crate::async_file::{AsyncFile, HandleView};
use crate::model::FileModel;
use crate::types::{Error, ErrorKind, Metadata, Permissions, Poll, SeekFrom};

verus! {

/// An in-memory file handle with a fully known state: it satisfies the
/// capability interface with an exact model, so every operation's outcome on
/// it is pinned by the step predicates of [`crate::model`]. A readiness delay
/// can be scripted: the handle answers "not yet complete" for its next
/// `not_ready` polls before any operation completes, as a real provider would
/// while the underlying work is still in flight.
#[derive(Debug)]
pub struct SimFile {
    /// The file's length in bytes.
    pub len: u64,
    /// The cursor position, in bytes from the start.
    pub pos: u64,
    /// Whether the file is read-only.
    pub readonly: bool,
    /// How many more polls the handle stays suspended.
    pub not_ready: u64,
}

/// `base + delta` as a file offset, when it lies in `0 ..= u64::MAX`.
fn offset_add(base: u64, delta: i64) -> (r: Option<u64>)
    ensures
        r matches Some(n) ==> n == base + delta,
        r is None ==> !(0 <= base + delta <= u64::MAX),
{
    if delta >= 0 {
        let d = delta as u64;
        if base <= u64::MAX - d {
            Some(base + d)
        } else {
            None
        }
    } else {
        let m: u64 = if delta == i64::MIN {
            9223372036854775808u64
        } else {
            (-delta) as u64
        };
        if base >= m {
            Some(base - m)
        } else {
            None
        }
    }
}

impl SimFile {
    /// A fresh, immediately ready, writable file of `len` bytes with the
    /// cursor at the start.
    pub fn new(len: u64) -> (f: SimFile)
        ensures
            f == (SimFile { len, pos: 0, readonly: false, not_ready: 0 }),
    {
        SimFile { len, pos: 0, readonly: false, not_ready: 0 }
    }

    /// Like [`SimFile::new`], but the handle answers "not yet complete" for
    /// its next `polls` polls before any operation can complete.
    pub fn with_delay(len: u64, polls: u64) -> (f: SimFile)
        ensures
            f == (SimFile { len, pos: 0, readonly: false, not_ready: polls }),
    {
        SimFile { len, pos: 0, readonly: false, not_ready: polls }
    }

    /// Consume one unit of scripted readiness delay. Returns whether the
    /// caller must report "not yet complete".
    fn consume_delay(&mut self) -> (suspended: bool)
        ensures
            suspended == (old(self).not_ready > 0),
            suspended ==> *final(self) == (SimFile {
                not_ready: (old(self).not_ready - 1) as u64,
                ..*old(self)
            }),
            !suspended ==> *final(self) == *old(self),
    {
        if self.not_ready > 0 {
            self.not_ready = self.not_ready - 1;
            true
        } else {
            false
        }
    }
}

impl HandleView for SimFile {
    open spec fn inv(&self) -> bool {
        true
    }

    open spec fn file_model(&self) -> Option<FileModel> {
        Some(
            FileModel {
                len: self.len,
                pos: self.pos,
                readonly: self.readonly,
                pending: self.not_ready,
            },
        )
    }
}

impl AsyncFile for SimFile {
    type Cloned = SimFile;

    fn poll_seek(&mut self, pos: SeekFrom) -> (r: Poll<u64>) {
        if self.consume_delay() {
            return Poll::NotReady;
        }
        let target: Option<u64> = match pos {
            SeekFrom::Start(n) => Some(n),
            SeekFrom::End(d) => offset_add(self.len, d),
            SeekFrom::Current(d) => offset_add(self.pos, d),
        };
        match target {
            Some(n) => {
                self.pos = n;
                Poll::Ready(n)
            },
            None => Poll::Failed(Error { kind: ErrorKind::InvalidInput, io: None }),
        }
    }

    fn poll_sync_all(&mut self) -> (r: Poll<()>) {
        if self.consume_delay() {
            return Poll::NotReady;
        }
        Poll::Ready(())
    }

    fn poll_sync_data(&mut self) -> (r: Poll<()>) {
        if self.consume_delay() {
            return Poll::NotReady;
        }
        Poll::Ready(())
    }

    fn poll_set_len(&mut self, size: u64) -> (r: Poll<()>) {
        if self.consume_delay() {
            return Poll::NotReady;
        }
        if self.readonly {
            return Poll::Failed(Error { kind: ErrorKind::PermissionDenied, io: None });
        }
        self.len = size;
        Poll::Ready(())
    }

    fn poll_metadata(&mut self) -> (r: Poll<Metadata>) {
        if self.consume_delay() {
            return Poll::NotReady;
        }
        Poll::Ready(Metadata { len: self.len, readonly: self.readonly })
    }

    fn poll_try_clone(&mut self) -> (r: Poll<SimFile>) {
        if self.consume_delay() {
            return Poll::NotReady;
        }
        Poll::Ready(
            SimFile { len: self.len, pos: self.pos, readonly: self.readonly, not_ready: 0 },
        )
    }

    fn poll_set_permissions(&mut self, perm: Permissions) -> (r: Poll<()>) {
        if self.consume_delay() {
            return Poll::NotReady;
        }
        self.readonly = perm.readonly;
        Poll::Ready(())
    }
}

} // verus!
