//! What the synthesized files hold, and the attributes of every inode.

use crate::attr::{dir_attr, file_attr, make_dir_attr, make_file_attr, FileAttr, FILE_BLOCKS};
use crate::datetime::{CreatedTime, DateTime, LastModifiedTime};
use crate::entities::views;
use crate::ids::{hyphenated_text, DocumentUuid};
use crate::index::{BiblFs, FsView, Node};
use crate::query::{fts_prefix, fts_suffix, QueryType};
use crate::store::found_view;
use crate::text::{append_bytes, bytes_of};
use vstd::prelude::*;
use vstd::string::StringSliceAdditionalSpecFns;

verus! {

/// The byte that parts one result from the next.
pub const NEWLINE: u8 = 10;

/// The line that shows one result: the document's identity, hyphenated.
pub open spec fn line(id: DocumentUuid) -> Seq<u8> {
    bytes_of(hyphenated_text(id.0.0))
}

/// The lines of the first `n` results, with a newline between each two.
pub open spec fn lines_upto(ids: Seq<DocumentUuid>, n: int) -> Seq<u8>
    decreases n,
{
    if n <= 0 {
        Seq::empty()
    } else if n == 1 {
        line(ids[0])
    } else {
        lines_upto(ids, n - 1).push(NEWLINE) + line(ids[n - 1])
    }
}

/// What the results file holds: one line for each document found, or the
/// message of the error where the search failed.
pub open spec fn rendered(results: Result<Seq<DocumentUuid>, Seq<char>>) -> Seq<u8> {
    match results {
        Ok(ids) => lines_upto(ids, ids.len() as int),
        Err(message) => bytes_of(message),
    }
}

/// Renders the results of a search as the results file shows them.
pub fn render(results: &Result<Vec<DocumentUuid>, String>) -> (bytes: Vec<u8>)
    ensures
        bytes@ == rendered(found_view(*results)),
{
    let mut bytes: Vec<u8> = Vec::new();
    match results {
        Ok(ids) => {
            let mut i: usize = 0;
            while i < ids.len()
                invariant
                    i <= ids@.len(),
                    bytes@ == lines_upto(ids@, i as int),
                decreases ids@.len() - i,
            {
                if i > 0 {
                    bytes.push(NEWLINE);
                }
                let text = ids[i].0.to_hyphenated();
                append_bytes(&mut bytes, text.as_str().as_bytes());
                i += 1;
            }
        },
        Err(message) => {
            append_bytes(&mut bytes, message.as_str().as_bytes());
            assert(bytes@ =~= bytes_of(message@));
        },
    }
    bytes
}

/// The statement of the search for `phrase`.
pub open spec fn statement_of(phrase: Seq<char>) -> Seq<char> {
    fts_prefix() + phrase + fts_suffix()
}

impl FsView {
    /// What the statement file of the query directory `k` holds: the
    /// statement of the search for its phrase.
    pub open spec fn statement_bytes(self, k: int) -> Seq<u8> {
        bytes_of(statement_of(self.queries[k].phrase))
    }

    /// What the results file of the query directory `k` holds: the results
    /// that the directory keeps.
    pub open spec fn results_bytes(self, k: int) -> Seq<u8> {
        rendered(self.queries[k].results)
    }

    /// What a synthesized file holds. The two files with fixed inodes
    /// show the default query, which is an empty statement and has found
    /// nothing; the two files of a query directory show its statement and
    /// the results it keeps. `None` where `ino` is no synthesized file.
    pub open spec fn synthesized(self, ino: u64) -> Option<Seq<u8>> {
        match self.node(ino) {
            Some(Node::SqlFile) => Some(Seq::empty()),
            Some(Node::ResultsFile) => Some(Seq::empty()),
            Some(Node::Statement(k)) => Some(self.statement_bytes(k as int)),
            Some(Node::Results(k)) => Some(self.results_bytes(k as int)),
            _ => None,
        }
    }

    /// The attributes of `ino`: those of a directory for every directory;
    /// for a file its size, and for a stored file its times.
    pub open spec fn attr_of(self, ino: u64) -> Option<FileAttr> {
        match self.node(ino) {
            Some(Node::File(i)) => Some(
                file_attr(
                    ino,
                    self.files[i as int].size,
                    FILE_BLOCKS,
                    self.files[i as int].last_modified,
                    self.files[i as int].created,
                ),
            ),
            Some(_) => match self.synthesized(ino) {
                Some(content) => Some(
                    file_attr(
                        ino,
                        content.len() as u64,
                        FILE_BLOCKS,
                        LastModifiedTime(DateTime { seconds: 0, nanos: 0 }),
                        CreatedTime(DateTime { seconds: 0, nanos: 0 }),
                    ),
                ),
                None => Some(dir_attr(ino)),
            },
            None => None,
        }
    }
}

impl BiblFs {
    /// The default query: an empty statement.
    pub fn default_query() -> (query: QueryType)
        ensures
            query is Sql,
            query.sql() == Seq::<char>::empty(),
    {
        QueryType::Sql(String::new())
    }

    /// The query of the query directory `k`: the search for its phrase.
    pub fn query_of(&self, k: usize) -> (query: QueryType)
        requires
            self.wf(),
            k < self@.queries.len(),
        ensures
            query is Fts,
            query.text() == self@.queries[k as int].phrase,
            query.sql() == statement_of(self@.queries[k as int].phrase),
    {
        let queries = self.queries();
        assert(views(queries@)[k as int] == queries@[k as int]@);
        QueryType::Fts(queries[k].phrase.clone())
    }

    /// What the synthesized file `ino` holds.
    pub fn content(&self, ino: u64) -> (bytes: Option<Vec<u8>>)
        requires
            self.wf(),
        ensures
            match bytes {
                Some(b) => self@.synthesized(ino) == Some(b@),
                None => self@.synthesized(ino) is None,
            },
    {
        match self.classify(ino) {
            Some(Node::SqlFile) => {
                let statement = BiblFs::default_query().as_sql();
                let mut bytes: Vec<u8> = Vec::new();
                append_bytes(&mut bytes, statement.as_str().as_bytes());
                proof {
                    vstd::utf8::is_ascii_chars_encode_utf8(statement@);
                }
                assert(bytes@ =~= Seq::<u8>::empty());
                Some(bytes)
            },
            Some(Node::ResultsFile) => Some(Vec::new()),
            Some(Node::Statement(k)) => {
                let statement = self.query_of(k).as_sql();
                let mut bytes: Vec<u8> = Vec::new();
                append_bytes(&mut bytes, statement.as_str().as_bytes());
                assert(bytes@ =~= self@.statement_bytes(k as int));
                Some(bytes)
            },
            Some(Node::Results(k)) => {
                let queries = self.queries();
                assert(views(queries@)[k as int] == queries@[k as int]@);
                Some(render(&queries[k].results))
            },
            _ => None,
        }
    }

    /// The attributes of `ino`, if it names anything.
    pub fn attr(&self, ino: u64) -> (attr: Option<FileAttr>)
        requires
            self.wf(),
        ensures
            attr == self@.attr_of(ino),
    {
        match self.classify(ino) {
            Some(Node::File(i)) => {
                let files = self.files();
                assert(views(files@)[i as int] == files@[i as int]@);
                let file = &files[i];
                Some(make_file_attr(ino, file.size, FILE_BLOCKS, file.last_modified, file.created))
            },
            Some(_) => match self.content(ino) {
                Some(content) => Some(
                    make_file_attr(
                        ino,
                        content.len() as u64,
                        FILE_BLOCKS,
                        LastModifiedTime(DateTime::unix_epoch()),
                        CreatedTime(DateTime::unix_epoch()),
                    ),
                ),
                None => Some(make_dir_attr(ino)),
            },
            None => None,
        }
    }
}

} // verus!
