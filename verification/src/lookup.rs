//! Answering the kernel's questions about names and attributes: lookup,
//! getattr and setattr.

use crate::attr::{dir_attr, make_dir_attr, Errno, FileAttr, TTL_SECONDS};
use crate::datetime::{CreatedTime, DateTime, LastModifiedTime};
use crate::index::{BiblFs, FsView, Node, QUERY_DIR_INO, SQL_RESULT_FILE_INO, SQL_TEXT_FILE_INO, TAG_DIR_INO};
use crate::text::{decode, decoded};
use vstd::prelude::*;

verus! {

/// The name of the tag directory.
pub const TAGS_DIR_NAME: &'static str = "tags";

/// The name of the directory under which query directories appear.
pub const QUERY_DIR_NAME: &'static str = "query";

/// The name of the file that shows the statement of a query.
pub const SQL_TEXT_FILE_NAME: &'static str = "query.sql";

/// The name of the file that shows the results of a query.
pub const SQL_RESULT_FILE_NAME: &'static str = "results.txt";

/// The empty name, which resolves as `query` does.
pub const EMPTY_NAME: &'static str = "";

/// A directory entry as a lookup reports it.
#[derive(Clone, Copy, Debug, PartialEq, Eq, Structural)]
pub struct Entry {
    /// For how many seconds the kernel may cache the entry.
    pub ttl: u64,
    pub attr: FileAttr,
    pub generation: u64,
}

/// Attributes as getattr and setattr report them.
#[derive(Clone, Copy, Debug, PartialEq, Eq, Structural)]
pub struct Attr {
    /// For how many seconds the kernel may cache the attributes.
    pub ttl: u64,
    pub attr: FileAttr,
}

/// A time that a caller sets: a given one, or the moment of the call.
#[derive(Clone, Copy, Debug)]
pub enum TimeOrNow {
    SpecificTime(DateTime),
    Now,
}

/// What a setattr call asks to change: each attribute that is `Some`.
#[derive(Clone, Copy, Debug)]
pub struct SetAttr {
    pub mode: Option<u32>,
    pub uid: Option<u32>,
    pub gid: Option<u32>,
    pub size: Option<u64>,
    pub atime: Option<TimeOrNow>,
    pub mtime: Option<TimeOrNow>,
    pub ctime: Option<DateTime>,
    pub fh: Option<u64>,
    pub crtime: Option<DateTime>,
    pub chgtime: Option<DateTime>,
    pub bkuptime: Option<DateTime>,
    pub flags: Option<u32>,
}

impl SetAttr {
    /// Whether the call asks for nothing but new times of modification and
    /// creation.
    pub open spec fn permitted(self) -> bool {
        &&& self.mode is None
        &&& self.uid is None
        &&& self.gid is None
        &&& self.size is None
        &&& self.atime is None
        &&& self.fh is None
        &&& self.crtime is None
        &&& self.chgtime is None
        &&& self.bkuptime is None
        &&& self.flags is None
    }

    /// The time of modification that the call sets, if it sets one.
    pub open spec fn modified(self, now: DateTime) -> Option<LastModifiedTime> {
        match self.mtime {
            Some(TimeOrNow::SpecificTime(t)) => Some(LastModifiedTime(t)),
            Some(TimeOrNow::Now) => Some(LastModifiedTime(now)),
            None => None,
        }
    }

    /// The time of creation that the call sets, if it sets one.
    pub open spec fn created(self) -> Option<CreatedTime> {
        match self.ctime {
            Some(t) => Some(CreatedTime(t)),
            None => None,
        }
    }

    /// Whether the call asks for nothing but new times of modification and
    /// creation.
    pub fn is_permitted(&self) -> (ok: bool)
        ensures
            ok == self.permitted(),
    {
        self.mode.is_none() && self.uid.is_none() && self.gid.is_none() && self.size.is_none()
            && self.atime.is_none() && self.fh.is_none() && self.crtime.is_none()
            && self.chgtime.is_none() && self.bkuptime.is_none() && self.flags.is_none()
    }
}

/// The entry that reports `attr`.
pub open spec fn entry_of(attr: FileAttr) -> Entry {
    Entry { ttl: TTL_SECONDS, attr, generation: 0 }
}

impl FsView {
    /// Looking up `phrase` under the query directory: the directory for
    /// the phrase is made if there is none and there is room for one, and
    /// its results are marked as stale. No other directory is touched.
    pub open spec fn opened(self, phrase: Seq<char>) -> (FsView, Result<Entry, Errno>) {
        match self.query_named(phrase) {
            Some(k) => (self.with_stale(k), Ok(entry_of(dir_attr(self.query_ino(k))))),
            None => if self.has_room() {
                (self.with_query(phrase), Ok(entry_of(dir_attr(self.next_inode() as u64))))
            } else {
                (self, Err(Errno::NoEntry))
            },
        }
    }

    /// The inode that `name` resolves to in `parent` without a change to
    /// the index, or `None` where it resolves to nothing. `parent` is not
    /// the query directory, or the name is that of a synthesized file.
    ///
    /// Under the tag directory a name resolves to the tag of that name. In
    /// a query directory `query.sql` and `results.txt` are the two files
    /// of that directory; elsewhere they are those of the default query.
    /// Elsewhere `tags` resolves to the tag directory, `query` and the
    /// empty name to the query directory, and every other name to the file
    /// of that name.
    pub open spec fn resolved(self, parent: u64, text: Seq<char>) -> Option<u64> {
        if parent == TAG_DIR_INO {
            match self.tag_named(text) {
                Some(i) => Some(self.tag_ino(i)),
                None => None,
            }
        } else if text == SQL_TEXT_FILE_NAME@ {
            match self.node(parent) {
                Some(Node::Query(k)) => Some(self.statement_ino(k as int)),
                _ => Some(SQL_TEXT_FILE_INO),
            }
        } else if text == SQL_RESULT_FILE_NAME@ {
            match self.node(parent) {
                Some(Node::Query(k)) => Some(self.results_ino(k as int)),
                _ => Some(SQL_RESULT_FILE_INO),
            }
        } else if text == TAGS_DIR_NAME@ {
            Some(TAG_DIR_INO)
        } else if text == QUERY_DIR_NAME@ || text == EMPTY_NAME@ {
            Some(QUERY_DIR_INO)
        } else {
            match self.file_named(text) {
                Some(i) => Some(self.file_ino(i)),
                None => None,
            }
        }
    }

    /// Whether `text`, looked up under the query directory, is a phrase:
    /// every name is but those of the two synthesized files.
    pub open spec fn is_phrase(text: Seq<char>) -> bool {
        text != SQL_TEXT_FILE_NAME@ && text != SQL_RESULT_FILE_NAME@
    }

    /// The index after `name` was looked up in `parent`, and the answer.
    /// Under the query directory every name but those of the synthesized
    /// files is a phrase, whose directory is opened. Every other lookup
    /// leaves the index as it is and answers with the attributes of the
    /// inode that the name resolves to. A name that is not UTF-8 resolves
    /// to nothing.
    pub open spec fn lookup(self, parent: u64, name: Seq<u8>) -> (FsView, Result<Entry, Errno>) {
        match decoded(name) {
            Some(text) => if parent == QUERY_DIR_INO && FsView::is_phrase(text) {
                self.opened(text)
            } else {
                match self.resolved(parent, text) {
                    Some(ino) => (self, Ok(entry_of(self.attr_of(ino)->Some_0))),
                    None => (self, Err(Errno::NoEntry)),
                }
            },
            None => (self, Err(Errno::NoEntry)),
        }
    }

    /// The answer to getattr: the attributes of `ino`, or that there is no
    /// such entry.
    pub open spec fn getattr(self, ino: u64) -> Result<Attr, Errno> {
        match self.attr_of(ino) {
            Some(attr) => Ok(Attr { ttl: TTL_SECONDS, attr }),
            None => Err(Errno::NoEntry),
        }
    }

    /// The index after setattr, and the answer. A call that asks for more
    /// than new times of modification and creation is refused; so is one
    /// on anything but a file. Else the times are set, and the new
    /// attributes are the answer.
    pub open spec fn setattr(self, ino: u64, changes: SetAttr, now: DateTime) -> (
        FsView,
        Result<Attr, Errno>,
    ) {
        if !changes.permitted() {
            (self, Err(Errno::NotSupported))
        } else {
            match self.node(ino) {
                Some(Node::File(i)) => {
                    let next = self.with_times(i as int, changes.modified(now), changes.created());
                    (next, next.getattr(ino))
                },
                _ => (self, Err(Errno::NoEntry)),
            }
        }
    }
}

impl BiblFs {
    /// Looks `phrase` up under the query directory.
    fn open_query(&mut self, phrase: String) -> (reply: Result<Entry, Errno>)
        requires
            old(self).wf(),
        ensures
            final(self).wf(),
            (final(self)@, reply) == old(self)@.opened(phrase@),
    {
        match self.find_query(&phrase) {
            Some(k) => {
                let ino = self.query_ino(k);
                self.invalidate(k);
                Ok(Entry { ttl: TTL_SECONDS, attr: make_dir_attr(ino), generation: 0 })
            },
            None => {
                let ino = self.next_inode();
                if self.has_room() {
                    self.add_query(phrase);
                    Ok(Entry { ttl: TTL_SECONDS, attr: make_dir_attr(ino), generation: 0 })
                } else {
                    Err(Errno::NoEntry)
                }
            },
        }
    }

    /// The inode that `text` resolves to in `parent` without a change to
    /// the index.
    pub fn resolve_name(&self, parent: u64, text: &String) -> (ino: Option<u64>)
        requires
            self.wf(),
        ensures
            ino == self@.resolved(parent, text@),
            ino matches Some(i) ==> self@.node(i) is Some,
    {
        if parent == TAG_DIR_INO {
            match self.find_tag(text) {
                Some(i) => Some(self.tag_ino(i)),
                None => None,
            }
        } else if *text == SQL_TEXT_FILE_NAME.to_owned() {
            match self.classify(parent) {
                Some(Node::Query(k)) => Some(self.statement_ino(k)),
                _ => Some(SQL_TEXT_FILE_INO),
            }
        } else if *text == SQL_RESULT_FILE_NAME.to_owned() {
            match self.classify(parent) {
                Some(Node::Query(k)) => Some(self.results_ino(k)),
                _ => Some(SQL_RESULT_FILE_INO),
            }
        } else if *text == TAGS_DIR_NAME.to_owned() {
            Some(TAG_DIR_INO)
        } else if *text == QUERY_DIR_NAME.to_owned() || *text == EMPTY_NAME.to_owned() {
            Some(QUERY_DIR_INO)
        } else {
            match self.find_file(text) {
                Some(i) => Some(self.file_ino(i)),
                None => None,
            }
        }
    }

    /// Resolves `name` in the directory `parent`.
    pub fn lookup(&mut self, parent: u64, name: &[u8]) -> (reply: Result<Entry, Errno>)
        requires
            old(self).wf(),
        ensures
            final(self).wf(),
            (final(self)@, reply) == old(self)@.lookup(parent, name@),
    {
        let text = match decode(name) {
            Some(t) => t,
            None => {
                return Err(Errno::NoEntry);
            },
        };
        if parent == QUERY_DIR_INO && text != SQL_TEXT_FILE_NAME.to_owned() && text
            != SQL_RESULT_FILE_NAME.to_owned() {
            return self.open_query(text);
        }
        match self.resolve_name(parent, &text) {
            Some(ino) => match self.attr(ino) {
                Some(attr) => Ok(Entry { ttl: TTL_SECONDS, attr, generation: 0 }),
                None => Err(Errno::NoEntry),
            },
            None => Err(Errno::NoEntry),
        }
    }

    /// Reports the attributes of `ino`.
    pub fn getattr(&self, ino: u64) -> (reply: Result<Attr, Errno>)
        requires
            self.wf(),
        ensures
            reply == self@.getattr(ino),
    {
        match self.attr(ino) {
            Some(attr) => Ok(Attr { ttl: TTL_SECONDS, attr }),
            None => Err(Errno::NoEntry),
        }
    }

    /// Changes attributes of `ino`: the times of modification and creation
    /// of a file, and nothing else. `now` is the moment of the call.
    pub fn setattr(&mut self, ino: u64, changes: SetAttr, now: DateTime) -> (reply: Result<
        Attr,
        Errno,
    >)
        requires
            old(self).wf(),
        ensures
            final(self).wf(),
            (final(self)@, reply) == old(self)@.setattr(ino, changes, now),
    {
        if !changes.is_permitted() {
            return Err(Errno::NotSupported);
        }
        match self.classify(ino) {
            Some(Node::File(i)) => {
                let modified = match changes.mtime {
                    Some(TimeOrNow::SpecificTime(t)) => Some(LastModifiedTime(t)),
                    Some(TimeOrNow::Now) => Some(LastModifiedTime(now)),
                    None => None,
                };
                let created = match changes.ctime {
                    Some(t) => Some(CreatedTime(t)),
                    None => None,
                };
                self.set_times(i, modified, created);
                self.getattr(ino)
            },
            _ => Err(Errno::NoEntry),
        }
    }
}

} // verus!
