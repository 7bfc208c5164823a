//! Reading: the bytes of a stored file, and the synthesized files that
//! show a query and its results.

use crate::attr::Errno;
use crate::entities::views;
use crate::ids::DocumentUuid;
use crate::index::{BiblFs, FsView, Node};
use crate::store::{Store, StoreState};
use vstd::prelude::*;

verus! {

/// The part of `len` bytes that a read of `size` bytes at `offset` covers:
/// where it starts and how many bytes it holds, the size clamped to what
/// is left. There is none where the offset is negative or lies behind the
/// last byte.
pub open spec fn window(len: int, offset: i64, size: u32) -> Option<(int, int)> {
    if offset < 0 || offset > len {
        None
    } else {
        Some((offset as int, if size <= len - offset { size as int } else { len - offset }))
    }
}

/// What a read of `size` bytes at `offset` of `content` gives.
pub open spec fn slice_of(content: Seq<u8>, offset: i64, size: u32) -> Result<Seq<u8>, Errno> {
    match window(content.len() as int, offset, size) {
        Some((start, count)) => Ok(content.subrange(start, start + count)),
        None => Err(Errno::InvalidArgument),
    }
}

/// Computes the part of `len` bytes that a read covers.
pub fn clamp(len: usize, offset: i64, size: u32) -> (part: Option<(usize, usize)>)
    ensures
        match part {
            Some((start, count)) => window(len as int, offset, size) == Some(
                (start as int, count as int),
            ),
            None => window(len as int, offset, size) is None,
        },
{
    if offset < 0 || offset as u64 > len as u64 {
        None
    } else {
        let start: usize = offset as usize;
        let left: usize = len - start;
        let count: usize = if size as u64 <= left as u64 {
            size as usize
        } else {
            left
        };
        Some((start, count))
    }
}

/// Cuts the part that a read covers out of `content`.
pub fn slice(content: &Vec<u8>, offset: i64, size: u32) -> (reply: Result<Vec<u8>, Errno>)
    ensures
        match reply {
            Ok(bytes) => slice_of(content@, offset, size) == Ok::<Seq<u8>, Errno>(bytes@),
            Err(e) => slice_of(content@, offset, size) == Err::<Seq<u8>, Errno>(e),
        },
{
    match clamp(content.len(), offset, size) {
        Some((start, count)) => {
            let mut bytes: Vec<u8> = Vec::new();
            let mut k: usize = 0;
            while k < count
                invariant
                    k <= count,
                    start + count <= content@.len(),
                    content@.len() <= usize::MAX,
                    bytes@ == content@.subrange(start as int, start + k),
                decreases count - k,
            {
                bytes.push(content[start + k]);
                assert(bytes@ =~= content@.subrange(start as int, start + k + 1));
                k += 1;
            }
            Ok(bytes)
        },
        None => Err(Errno::InvalidArgument),
    }
}

/// The value of what a read gave.
pub open spec fn read_view(reply: Result<Vec<u8>, Errno>) -> Result<Seq<u8>, Errno> {
    match reply {
        Ok(bytes) => Ok(bytes@),
        Err(e) => Err(e),
    }
}

impl FsView {
    /// The index after the results of the query directory `k` were brought
    /// up to date: where they are stale, `found`, which the search for the
    /// directory's phrase gave, takes their place.
    pub open spec fn refreshed(self, k: int, found: Result<Seq<DocumentUuid>, Seq<char>>) -> FsView {
        if !self.queries[k].executed {
            self.with_results(k, found)
        } else {
            self
        }
    }

    /// The query directory whose results a read of `ino` brings up to
    /// date: the one that the file belongs to, for either file of a query
    /// directory.
    pub open spec fn read_searches(self, ino: u64) -> Option<int> {
        match self.node(ino) {
            Some(Node::Statement(k)) => Some(k as int),
            Some(Node::Results(k)) => Some(k as int),
            _ => None,
        }
    }

    /// The index after a read of `ino`, where `found` is what the search
    /// gives for the phrase of the query directory that the file belongs
    /// to. Nothing changes but the results of that directory.
    pub open spec fn read_next(self, ino: u64, found: Result<Seq<DocumentUuid>, Seq<char>>) -> FsView {
        match self.read_searches(ino) {
            Some(k) => self.refreshed(k, found),
            None => self,
        }
    }

    /// The phrase that a read of `ino` searches for.
    pub open spec fn read_phrase(self, ino: u64) -> Seq<char> {
        match self.read_searches(ino) {
            Some(k) => self.queries[k].phrase,
            None => Seq::empty(),
        }
    }

    /// What a read of `size` bytes at `offset` of the synthesized file
    /// `ino` gives: a part of what the file holds.
    pub open spec fn shown(self, ino: u64, offset: i64, size: u32) -> Result<Seq<u8>, Errno> {
        match self.synthesized(ino) {
            Some(content) => slice_of(content, offset, size),
            None => Err(Errno::NoEntry),
        }
    }

    /// What a read of `size` bytes at `offset` of `ino` gives, the store
    /// being in `state`: a part of what a synthesized file holds, a part
    /// of the stored bytes for a file.
    pub open spec fn read_reply(self, state: StoreState, ino: u64, offset: i64, size: u32) -> Result<
        Seq<u8>,
        Errno,
    > {
        match self.node(ino) {
            Some(Node::File(i)) => match state.blob(self.files[i as int].row_id) {
                Some(data) => slice_of(data, offset, size),
                None => Err(Errno::NoEntry),
            },
            _ => self.shown(ino, offset, size),
        }
    }
}

impl BiblFs {
    /// Runs the search for the phrase of the query directory `k` and keeps
    /// what it gives. A search that fails is kept as its message.
    pub fn execute_query<S: Store>(&mut self, store: &S, k: usize)
        requires
            old(self).wf(),
            store.state().wf(),
            k < old(self)@.queries.len(),
        ensures
            final(self).wf(),
            final(self)@ == old(self)@.with_results(
                k as int,
                store.found(old(self)@.queries[k as int].phrase),
            ),
    {
        let queries = self.queries();
        assert(views(queries@)[k as int] == queries@[k as int]@);
        let found = store.search(queries[k].phrase.as_str());
        self.store_results(k, found);
    }

    /// Brings the results of the query directory `k` up to date: where
    /// they are stale, the search runs and its results are kept.
    pub fn refresh<S: Store>(&mut self, store: &S, k: usize)
        requires
            old(self).wf(),
            store.state().wf(),
            k < old(self)@.queries.len(),
        ensures
            final(self).wf(),
            final(self)@ == old(self)@.refreshed(
                k as int,
                store.found(old(self)@.queries[k as int].phrase),
            ),
    {
        let queries = self.queries();
        assert(views(queries@)[k as int] == queries@[k as int]@);
        if !queries[k].executed {
            self.execute_query(store, k);
        }
    }

    /// Reads `size` bytes at `offset` of `ino`. A read of either file of a
    /// query directory brings the results of that directory up to date
    /// first, and of no other.
    pub fn read<S: Store>(&mut self, store: &S, ino: u64, offset: i64, size: u32) -> (reply: Result<
        Vec<u8>,
        Errno,
    >)
        requires
            old(self).wf(),
            store.state().wf(),
        ensures
            final(self).wf(),
            final(self)@ == old(self)@.read_next(ino, store.found(old(self)@.read_phrase(ino))),
            read_view(reply) == final(self)@.read_reply(store.state(), ino, offset, size),
    {
        match self.classify(ino) {
            Some(Node::File(i)) => {
                let files = self.files();
                assert(views(files@)[i as int] == files@[i as int]@);
                let row_id = files[i].row_id;
                match store.blob_len(row_id) {
                    Some(len) => match clamp(len, offset, size) {
                        Some((start, count)) => match store.read_blob(row_id, start, count) {
                            Some(bytes) => Ok(bytes),
                            None => Err(Errno::NoEntry),
                        },
                        None => Err(Errno::InvalidArgument),
                    },
                    None => Err(Errno::NoEntry),
                }
            },
            Some(Node::Statement(k)) => {
                self.refresh(store, k);
                self.read_synthesized(ino, offset, size)
            },
            Some(Node::Results(k)) => {
                self.refresh(store, k);
                self.read_synthesized(ino, offset, size)
            },
            _ => self.read_synthesized(ino, offset, size),
        }
    }

    /// Reads a part of what the synthesized file `ino` holds.
    fn read_synthesized(&self, ino: u64, offset: i64, size: u32) -> (reply: Result<Vec<u8>, Errno>)
        requires
            self.wf(),
        ensures
            read_view(reply) == self@.shown(ino, offset, size),
    {
        match self.content(ino) {
            Some(content) => slice(&content, offset, size),
            None => Err(Errno::NoEntry),
        }
    }
}

} // verus!
