//! What an inode names, told by identity rather than by place.

use crate::entities::views;
use crate::ids::{BinaryMetadataUuid, TextMetadataUuid};
use crate::index::{BiblFs, FsView, Node};
use vstd::prelude::*;

verus! {

/// One of the two synthesized files.
#[derive(Clone, Copy, Debug, PartialEq, Eq, Structural)]
pub enum QueryFile {
    /// The file that shows the statement of a query.
    Sql,
    /// The file that shows the results of a query.
    Results,
}

/// What an inode names.
#[derive(Debug, PartialEq, Eq)]
pub enum InodeKind {
    Root,
    TagDir,
    QueryDir,
    /// A file of the default query.
    FixedQueryFile(QueryFile),
    /// The query directory for a phrase.
    DynamicQuery(String),
    /// A file of the query directory for a phrase.
    DynamicQueryFile(String, QueryFile),
    File(BinaryMetadataUuid),
    Tag(TextMetadataUuid),
}

/// The value of an [`InodeKind`].
pub enum InodeKindView {
    Root,
    TagDir,
    QueryDir,
    FixedQueryFile(QueryFile),
    DynamicQuery(Seq<char>),
    DynamicQueryFile(Seq<char>, QueryFile),
    File(BinaryMetadataUuid),
    Tag(TextMetadataUuid),
}

impl View for InodeKind {
    type V = InodeKindView;

    open spec fn view(&self) -> InodeKindView {
        match self {
            InodeKind::Root => InodeKindView::Root,
            InodeKind::TagDir => InodeKindView::TagDir,
            InodeKind::QueryDir => InodeKindView::QueryDir,
            InodeKind::FixedQueryFile(f) => InodeKindView::FixedQueryFile(*f),
            InodeKind::DynamicQuery(phrase) => InodeKindView::DynamicQuery(phrase@),
            InodeKind::DynamicQueryFile(phrase, f) => InodeKindView::DynamicQueryFile(phrase@, *f),
            InodeKind::File(id) => InodeKindView::File(*id),
            InodeKind::Tag(id) => InodeKindView::Tag(*id),
        }
    }
}

impl FsView {
    /// What `ino` names: for a tag and a file its identity, for a query
    /// directory its phrase.
    pub open spec fn kind(self, ino: u64) -> Option<InodeKindView> {
        match self.node(ino) {
            Some(Node::Root) => Some(InodeKindView::Root),
            Some(Node::TagDir) => Some(InodeKindView::TagDir),
            Some(Node::QueryDir) => Some(InodeKindView::QueryDir),
            Some(Node::SqlFile) => Some(InodeKindView::FixedQueryFile(QueryFile::Sql)),
            Some(Node::ResultsFile) => Some(InodeKindView::FixedQueryFile(QueryFile::Results)),
            Some(Node::Tag(i)) => Some(InodeKindView::Tag(self.tags[i as int].uuid)),
            Some(Node::File(i)) => Some(InodeKindView::File(self.files[i as int].uuid)),
            Some(Node::Query(k)) => Some(InodeKindView::DynamicQuery(self.queries[k as int].phrase)),
            Some(Node::Statement(k)) => Some(
                InodeKindView::DynamicQueryFile(self.queries[k as int].phrase, QueryFile::Sql),
            ),
            Some(Node::Results(k)) => Some(
                InodeKindView::DynamicQueryFile(self.queries[k as int].phrase, QueryFile::Results),
            ),
            None => None,
        }
    }
}

/// The value of an optional [`InodeKind`].
pub open spec fn kind_view(kind: Option<InodeKind>) -> Option<InodeKindView> {
    match kind {
        Some(k) => Some(k@),
        None => None,
    }
}

impl BiblFs {
    /// Says what `ino` names.
    pub fn resolve(&self, ino: u64) -> (kind: Option<InodeKind>)
        requires
            self.wf(),
        ensures
            kind_view(kind) == self@.kind(ino),
    {
        match self.classify(ino) {
            Some(Node::Root) => Some(InodeKind::Root),
            Some(Node::TagDir) => Some(InodeKind::TagDir),
            Some(Node::QueryDir) => Some(InodeKind::QueryDir),
            Some(Node::SqlFile) => Some(InodeKind::FixedQueryFile(QueryFile::Sql)),
            Some(Node::ResultsFile) => Some(InodeKind::FixedQueryFile(QueryFile::Results)),
            Some(Node::Tag(i)) => {
                let tags = self.tags();
                assert(views(tags@)[i as int] == tags@[i as int]@);
                Some(InodeKind::Tag(tags[i].uuid))
            },
            Some(Node::File(i)) => {
                let files = self.files();
                assert(views(files@)[i as int] == files@[i as int]@);
                Some(InodeKind::File(files[i].uuid))
            },
            Some(Node::Query(k)) => {
                let queries = self.queries();
                assert(views(queries@)[k as int] == queries@[k as int]@);
                Some(InodeKind::DynamicQuery(queries[k].phrase.clone()))
            },
            Some(Node::Statement(k)) => {
                let queries = self.queries();
                assert(views(queries@)[k as int] == queries@[k as int]@);
                Some(InodeKind::DynamicQueryFile(queries[k].phrase.clone(), QueryFile::Sql))
            },
            Some(Node::Results(k)) => {
                let queries = self.queries();
                assert(views(queries@)[k as int] == queries@[k as int]@);
                Some(InodeKind::DynamicQueryFile(queries[k].phrase.clone(), QueryFile::Results))
            },
            None => None,
        }
    }
}

} // verus!
