//! The inode index: which inode names which tag, file or query directory.
//!
//! Inodes are handed out by one counter that starts after the fixed
//! inodes: first one to each tag, then one to each file, then one to each
//! query directory as it is first looked up. The two files of a query
//! directory take no inode of the counter: theirs is the directory's with
//! a fixed number added. An inode, once given, names the same thing for as
//! long as the index lives.

use crate::datetime::{CreatedTime, LastModifiedTime};
use crate::entities::{views, Document, DocumentView, File, FileView, Tag, TagView};
use crate::ids::DocumentUuid;
use crate::store::{found_view, Store, StoreState, TextRow};
use vstd::prelude::*;

verus! {

/// The inode of the root directory.
pub const ROOT_DIR_INO: u64 = 1;

/// The inode of the directory that holds one directory for each tag.
pub const TAG_DIR_INO: u64 = 2;

/// The inode of the directory under which query directories appear.
pub const QUERY_DIR_INO: u64 = 3;

/// The inode of the file that shows the statement of the default query.
pub const SQL_TEXT_FILE_INO: u64 = 4;

/// The inode of the file that shows the results of the default query.
pub const SQL_RESULT_FILE_INO: u64 = 5;

/// The first inode that the counter hands out.
pub const FIRST_DYNAMIC_INO: u64 = 6;

/// The bound of the counter: every inode that it hands out is less.
pub const INODE_LIMIT: u64 = 0x2000_0000_0000_0000;

/// What is added to the inode of a query directory to give the inode of
/// the file that shows its statement.
pub const STATEMENT_INO_BASE: u64 = 0x2000_0000_0000_0000;

/// What is added to the inode of a query directory to give the inode of
/// the file that shows its results.
pub const RESULTS_INO_BASE: u64 = 0x4000_0000_0000_0000;

/// A query directory: its phrase, its inode, and what the last search for
/// the phrase gave. `executed` says whether `results` can be shown as they
/// are; where it is unset the search runs again before they are shown.
#[derive(Debug)]
pub struct QueryEntry {
    pub phrase: String,
    pub ino: u64,
    pub executed: bool,
    pub results: Result<Vec<DocumentUuid>, String>,
}

/// The value of a [`QueryEntry`].
pub struct QueryView {
    pub phrase: Seq<char>,
    pub ino: u64,
    pub executed: bool,
    pub results: Result<Seq<DocumentUuid>, Seq<char>>,
}

impl View for QueryEntry {
    type V = QueryView;

    open spec fn view(&self) -> QueryView {
        QueryView {
            phrase: self.phrase@,
            ino: self.ino,
            executed: self.executed,
            results: found_view(self.results),
        }
    }
}

/// What an inode names. A tag, a file and a query directory are given by
/// their place in the index, and so are the two files of a query
/// directory.
#[derive(Clone, Copy, Debug, PartialEq, Eq, Structural)]
pub enum Node {
    Root,
    TagDir,
    QueryDir,
    /// The file that shows the statement of the default query.
    SqlFile,
    /// The file that shows the results of the default query.
    ResultsFile,
    Tag(usize),
    File(usize),
    Query(usize),
    /// The file that shows the statement of a query directory.
    Statement(usize),
    /// The file that shows the results of a query directory.
    Results(usize),
}

/// The value of the index.
pub struct FsView {
    pub documents: Seq<DocumentView>,
    pub tags: Seq<TagView>,
    pub files: Seq<FileView>,
    pub queries: Seq<QueryView>,
    pub never_replace_common_tags: bool,
}

impl FsView {
    /// The inode of the first file.
    pub open spec fn first_file_ino(self) -> int {
        FIRST_DYNAMIC_INO + self.tags.len()
    }

    /// The inode of the first query directory.
    pub open spec fn first_query_ino(self) -> int {
        self.first_file_ino() + self.files.len()
    }

    /// The inode that the counter hands out next.
    pub open spec fn next_inode(self) -> int {
        self.first_query_ino() + self.queries.len()
    }

    /// The inode of the tag at place `i`.
    pub open spec fn tag_ino(self, i: int) -> u64 {
        (FIRST_DYNAMIC_INO + i) as u64
    }

    /// The inode of the file at place `i`.
    pub open spec fn file_ino(self, i: int) -> u64 {
        (self.first_file_ino() + i) as u64
    }

    /// The inode of the query directory at place `k`.
    pub open spec fn query_ino(self, k: int) -> u64 {
        (self.first_query_ino() + k) as u64
    }

    /// The inode of the file that shows the statement of the query
    /// directory at place `k`.
    pub open spec fn statement_ino(self, k: int) -> u64 {
        (self.first_query_ino() + k + STATEMENT_INO_BASE) as u64
    }

    /// The inode of the file that shows the results of the query
    /// directory at place `k`.
    pub open spec fn results_ino(self, k: int) -> u64 {
        (self.first_query_ino() + k + RESULTS_INO_BASE) as u64
    }

    /// The index is well formed: the counter has not passed its bound,
    /// every table fits in memory, every tag and query directory records
    /// the inode that its place gives it, and no two query directories
    /// share a phrase.
    pub open spec fn wf(self) -> bool {
        &&& self.next_inode() <= INODE_LIMIT
        &&& self.tags.len() <= usize::MAX
        &&& self.files.len() <= usize::MAX
        &&& self.queries.len() <= usize::MAX
        &&& forall|i: int| 0 <= i < self.tags.len() ==> (#[trigger] self.tags[i]).ino == self.tag_ino(i)
        &&& forall|k: int|
            0 <= k < self.queries.len() ==> (#[trigger] self.queries[k]).ino == self.query_ino(k)
        &&& forall|j: int, k: int|
            0 <= j < k < self.queries.len() ==> (#[trigger] self.queries[j]).phrase != (
            #[trigger] self.queries[k]).phrase
    }

    /// Whether one more query directory can be made: an inode is left for
    /// it, and room in the table.
    pub open spec fn has_room(self) -> bool {
        self.next_inode() < INODE_LIMIT && self.queries.len() < usize::MAX
    }

    /// What `ino` names, or `None` where it names nothing. The two files
    /// of a query directory have the inode of the directory with a fixed
    /// number added, which no inode of the counter reaches.
    pub open spec fn node(self, ino: u64) -> Option<Node> {
        if ino == ROOT_DIR_INO {
            Some(Node::Root)
        } else if ino == TAG_DIR_INO {
            Some(Node::TagDir)
        } else if ino == QUERY_DIR_INO {
            Some(Node::QueryDir)
        } else if ino == SQL_TEXT_FILE_INO {
            Some(Node::SqlFile)
        } else if ino == SQL_RESULT_FILE_INO {
            Some(Node::ResultsFile)
        } else if FIRST_DYNAMIC_INO <= ino < self.first_file_ino() {
            Some(Node::Tag((ino - FIRST_DYNAMIC_INO) as usize))
        } else if self.first_file_ino() <= ino < self.first_query_ino() {
            Some(Node::File((ino - self.first_file_ino()) as usize))
        } else if self.first_query_ino() <= ino < self.next_inode() {
            Some(Node::Query((ino - self.first_query_ino()) as usize))
        } else if self.first_query_ino() + STATEMENT_INO_BASE <= ino < self.next_inode()
            + STATEMENT_INO_BASE {
            Some(Node::Statement((ino - STATEMENT_INO_BASE - self.first_query_ino()) as usize))
        } else if self.first_query_ino() + RESULTS_INO_BASE <= ino < self.next_inode()
            + RESULTS_INO_BASE {
            Some(Node::Results((ino - RESULTS_INO_BASE - self.first_query_ino()) as usize))
        } else {
            None
        }
    }

    /// The place of the file that the name `name` resolves to: the last
    /// file of that name.
    pub open spec fn file_named(self, name: Seq<char>) -> Option<int> {
        if exists|i: int| 0 <= i < self.files.len() && self.files[i].name == name {
            Some(
                choose|i: int|
                    0 <= i < self.files.len() && self.files[i].name == name && forall|j: int|
                        i < j < self.files.len() ==> self.files[j].name != name,
            )
        } else {
            None
        }
    }

    /// The place of the tag that the name `name` resolves to: the last tag
    /// of that name.
    pub open spec fn tag_named(self, name: Seq<char>) -> Option<int> {
        if exists|i: int| 0 <= i < self.tags.len() && self.tags[i].data == name {
            Some(
                choose|i: int|
                    0 <= i < self.tags.len() && self.tags[i].data == name && forall|j: int|
                        i < j < self.tags.len() ==> self.tags[j].data != name,
            )
        } else {
            None
        }
    }

    /// The place of the query directory for `phrase`.
    pub open spec fn query_named(self, phrase: Seq<char>) -> Option<int> {
        if exists|k: int| 0 <= k < self.queries.len() && self.queries[k].phrase == phrase {
            Some(choose|k: int| 0 <= k < self.queries.len() && self.queries[k].phrase == phrase)
        } else {
            None
        }
    }

    /// The place of the document `id`: the first of that identity.
    pub open spec fn document_at(self, id: DocumentUuid) -> Option<int> {
        if exists|i: int| 0 <= i < self.documents.len() && self.documents[i].uuid == id {
            Some(
                choose|i: int|
                    0 <= i < self.documents.len() && self.documents[i].uuid == id && forall|
                        j: int,
                    |
                        0 <= j < i ==> self.documents[j].uuid != id,
            )
        } else {
            None
        }
    }

    /// The index with a new query directory for `phrase`, which takes the
    /// next inode and has no results yet.
    pub open spec fn with_query(self, phrase: Seq<char>) -> FsView {
        FsView {
            queries: self.queries.push(
                QueryView {
                    phrase,
                    ino: self.next_inode() as u64,
                    executed: false,
                    results: Ok(Seq::empty()),
                },
            ),
            ..self
        }
    }

    /// The index with the results of the query directory `k` marked as
    /// stale.
    pub open spec fn with_stale(self, k: int) -> FsView {
        FsView {
            queries: self.queries.update(k, QueryView { executed: false, ..self.queries[k] }),
            ..self
        }
    }

    /// The index after a search for the phrase of the query directory `k`
    /// gave `results`: they are kept in that directory.
    pub open spec fn with_results(self, k: int, results: Result<Seq<DocumentUuid>, Seq<char>>) -> FsView {
        FsView {
            queries: self.queries.update(
                k,
                QueryView { executed: true, results, ..self.queries[k] },
            ),
            ..self
        }
    }

    /// The index with the times of the file `i` set anew, each where one is
    /// given.
    pub open spec fn with_times(
        self,
        i: int,
        modified: Option<LastModifiedTime>,
        created: Option<CreatedTime>,
    ) -> FsView {
        FsView {
            files: self.files.update(
                i,
                FileView {
                    last_modified: match modified {
                        Some(t) => t,
                        None => self.files[i].last_modified,
                    },
                    created: match created {
                        Some(t) => t,
                        None => self.files[i].created,
                    },
                    ..self.files[i]
                },
            ),
            ..self
        }
    }
}

/// The tags of an index that is built from `rows`: each takes the inode
/// that its place gives it.
pub open spec fn tags_of(rows: Seq<crate::store::TextRowView>) -> Seq<TagView> {
    Seq::new(
        rows.len(),
        |i: int| TagView { uuid: rows[i].uuid, data: rows[i].data, ino: (FIRST_DYNAMIC_INO + i) as u64 },
    )
}

/// The index that is built from a store: its tags, its documents and its
/// files as the store yields them, and no query directory.
pub open spec fn loaded(state: StoreState, never_replace_common_tags: bool) -> FsView {
    FsView {
        documents: state.documents,
        tags: tags_of(state.tags()),
        files: state.file_rows(),
        queries: Seq::empty(),
        never_replace_common_tags,
    }
}

/// Why an index could not be built.
#[derive(Clone, Copy, Debug, PartialEq, Eq, Structural)]
pub enum LoadError {
    /// The store holds more tags and files than the counter has inodes.
    OutOfInodes,
}

/// The index.
pub struct BiblFs {
    documents: Vec<Document>,
    tags: Vec<Tag>,
    files: Vec<File>,
    queries: Vec<QueryEntry>,
    never_replace_common_tags: bool,
}

impl View for BiblFs {
    type V = FsView;

    closed spec fn view(&self) -> FsView {
        FsView {
            documents: views(self.documents@),
            tags: views(self.tags@),
            files: views(self.files@),
            queries: views(self.queries@),
            never_replace_common_tags: self.never_replace_common_tags,
        }
    }
}

impl BiblFs {
    /// The index is well formed.
    pub open spec fn wf(&self) -> bool {
        self@.wf()
    }

    /// Builds the index from a store by three scans: the tags, each of
    /// which takes an inode; the documents; the files, each of which takes
    /// an inode. Fails where the inodes do not suffice.
    pub fn load<S: Store>(store: &S, never_replace_common_tags: bool) -> (r: Result<BiblFs, LoadError>)
        requires
            store.state().wf(),
        ensures
            match r {
                Ok(fs) => fs.wf() && fs@ == loaded(store.state(), never_replace_common_tags),
                Err(_) => loaded(store.state(), never_replace_common_tags).next_inode()
                    > INODE_LIMIT,
            },
    {
        let mut rows: Vec<TextRow> = store.tags();
        let documents = store.documents();
        let files = store.files();
        let ghost model = loaded(store.state(), never_replace_common_tags);
        let tag_count: u64 = rows.len() as u64;
        let file_count: u64 = files.len() as u64;
        if tag_count > INODE_LIMIT - FIRST_DYNAMIC_INO || file_count > INODE_LIMIT
            - FIRST_DYNAMIC_INO - tag_count {
            return Err(LoadError::OutOfInodes);
        }
        let mut tags: Vec<Tag> = Vec::new();
        let mut i: usize = 0;
        while i < rows.len()
            invariant
                i <= rows@.len(),
                FIRST_DYNAMIC_INO + rows@.len() <= INODE_LIMIT,
                views(rows@) == store.state().tags(),
                views(tags@) == tags_of(views(rows@)).take(i as int),
            decreases rows@.len() - i,
        {
            let ghost before = views(tags@);
            let tag = Tag {
                uuid: rows[i].uuid,
                data: rows[i].data.clone(),
                ino: FIRST_DYNAMIC_INO + i as u64,
            };
            tags.push(tag);
            assert(views(rows@)[i as int] == rows@[i as int]@);
            assert(views(tags@) =~= before.push(tags_of(views(rows@))[i as int]));
            assert(tags_of(views(rows@)).take(i + 1) =~= tags_of(views(rows@)).take(i as int).push(
                tags_of(views(rows@))[i as int],
            ));
            i += 1;
        }
        assert(tags_of(views(rows@)).take(i as int) =~= tags_of(views(rows@)));
        let fs = BiblFs {
            documents,
            tags,
            files,
            queries: Vec::new(),
            never_replace_common_tags,
        };
        assert(fs@.queries =~= model.queries);
        Ok(fs)
    }

    /// The documents.
    pub fn documents(&self) -> (rows: &Vec<Document>)
        ensures
            views(rows@) == self@.documents,
    {
        &self.documents
    }

    /// The tags, in the order of their inodes.
    pub fn tags(&self) -> (rows: &Vec<Tag>)
        ensures
            views(rows@) == self@.tags,
    {
        &self.tags
    }

    /// The files, in the order of their inodes.
    pub fn files(&self) -> (rows: &Vec<File>)
        ensures
            views(rows@) == self@.files,
    {
        &self.files
    }

    /// The query directories, in the order of their inodes.
    pub fn queries(&self) -> (rows: &Vec<QueryEntry>)
        ensures
            views(rows@) == self@.queries,
    {
        &self.queries
    }

    /// Whether an attribute that other documents share may not be replaced.
    pub fn never_replace_common_tags(&self) -> (policy: bool)
        ensures
            policy == self@.never_replace_common_tags,
    {
        self.never_replace_common_tags
    }

    /// Sets whether an attribute that other documents share may not be
    /// replaced.
    pub fn set_never_replace_common_tags(&mut self, policy: bool)
        ensures
            final(self)@ == (FsView { never_replace_common_tags: policy, ..old(self)@ }),
    {
        self.never_replace_common_tags = policy;
    }

    /// The inode that the counter hands out next.
    pub fn next_inode(&self) -> (ino: u64)
        requires
            self.wf(),
        ensures
            ino == self@.next_inode(),
    {
        FIRST_DYNAMIC_INO + self.tags.len() as u64 + self.files.len() as u64
            + self.queries.len() as u64
    }

    /// Whether one more query directory can be made.
    pub fn has_room(&self) -> (room: bool)
        requires
            self.wf(),
        ensures
            room == self@.has_room(),
    {
        self.next_inode() < INODE_LIMIT && self.queries.len() < usize::MAX
    }

    /// Adds a query directory for `phrase`, which takes the next inode.
    /// There must be room for it, and no directory for the phrase yet.
    pub fn add_query(&mut self, phrase: String) -> (k: usize)
        requires
            old(self).wf(),
            old(self)@.has_room(),
            old(self)@.query_named(phrase@) is None,
        ensures
            final(self).wf(),
            final(self)@ == old(self)@.with_query(phrase@),
            k == old(self)@.queries.len(),
    {
        let ino = self.next_inode();
        let k = self.queries.len();
        self.queries.push(QueryEntry { phrase, ino, executed: false, results: Ok(Vec::new()) });
        proof {
            let after = old(self)@.with_query(phrase@);
            assert(self@.queries =~= after.queries);
            assert forall|j: int, l: int| 0 <= j < l < after.queries.len() implies (
            #[trigger] after.queries[j]).phrase != (#[trigger] after.queries[l]).phrase by {
                if l == k {
                    assert(old(self)@.queries[j].phrase != phrase@);
                }
            }
        }
        k
    }

    /// Marks the results of the query directory `k` as stale.
    pub fn invalidate(&mut self, k: usize)
        requires
            old(self).wf(),
            k < old(self)@.queries.len(),
        ensures
            final(self).wf(),
            final(self)@ == old(self)@.with_stale(k as int),
    {
        let ghost before = self@;
        let mut entry = QueryEntry {
            phrase: String::new(),
            ino: 0,
            executed: false,
            results: Ok(Vec::new()),
        };
        core::mem::swap(&mut self.queries[k], &mut entry);
        entry.executed = false;
        self.queries.set(k, entry);
        assert(self@.queries =~= before.with_stale(k as int).queries);
    }

    /// Keeps `results` as what the search for the phrase of the query
    /// directory `k` gave.
    pub fn store_results(&mut self, k: usize, results: Result<Vec<DocumentUuid>, String>)
        requires
            old(self).wf(),
            k < old(self)@.queries.len(),
        ensures
            final(self).wf(),
            final(self)@ == old(self)@.with_results(k as int, found_view(results)),
    {
        let ghost before = self@;
        let mut entry = QueryEntry {
            phrase: String::new(),
            ino: 0,
            executed: false,
            results: Ok(Vec::new()),
        };
        core::mem::swap(&mut self.queries[k], &mut entry);
        entry.executed = true;
        entry.results = results;
        self.queries.set(k, entry);
        assert(self@.queries =~= before.with_results(k as int, found_view(results)).queries);
    }

    /// Sets the times of the file `i` anew, each where one is given.
    pub fn set_times(
        &mut self,
        i: usize,
        modified: Option<LastModifiedTime>,
        created: Option<CreatedTime>,
    )
        requires
            old(self).wf(),
            i < old(self)@.files.len(),
        ensures
            final(self).wf(),
            final(self)@ == old(self)@.with_times(i as int, modified, created),
    {
        let ghost before = self@;
        let mut file = self.files[i].duplicate();
        match modified {
            Some(t) => {
                file.last_modified = t;
            },
            None => {},
        }
        match created {
            Some(t) => {
                file.created = t;
            },
            None => {},
        }
        self.files.set(i, file);
        assert(self@.files =~= before.with_times(i as int, modified, created).files);
    }
}

} // verus!
