//! Resolving inodes and names against the index.

use crate::entities::views;
use crate::ids::DocumentUuid;
use crate::index::{
    BiblFs, Node, FIRST_DYNAMIC_INO, QUERY_DIR_INO, RESULTS_INO_BASE, ROOT_DIR_INO,
    SQL_RESULT_FILE_INO, SQL_TEXT_FILE_INO, STATEMENT_INO_BASE, TAG_DIR_INO,
};
use vstd::prelude::*;

verus! {

impl BiblFs {
    /// Says what `ino` names.
    pub fn classify(&self, ino: u64) -> (node: Option<Node>)
        requires
            self.wf(),
        ensures
            node == self@.node(ino),
    {
        let tags: u64 = self.tags().len() as u64;
        let files: u64 = self.files().len() as u64;
        let queries: u64 = self.queries().len() as u64;
        if ino == ROOT_DIR_INO {
            Some(Node::Root)
        } else if ino == TAG_DIR_INO {
            Some(Node::TagDir)
        } else if ino == QUERY_DIR_INO {
            Some(Node::QueryDir)
        } else if ino == SQL_TEXT_FILE_INO {
            Some(Node::SqlFile)
        } else if ino == SQL_RESULT_FILE_INO {
            Some(Node::ResultsFile)
        } else if ino < FIRST_DYNAMIC_INO {
            None
        } else if ino - FIRST_DYNAMIC_INO < tags {
            Some(Node::Tag((ino - FIRST_DYNAMIC_INO) as usize))
        } else if ino - FIRST_DYNAMIC_INO - tags < files {
            Some(Node::File((ino - FIRST_DYNAMIC_INO - tags) as usize))
        } else if ino - FIRST_DYNAMIC_INO - tags - files < queries {
            Some(Node::Query((ino - FIRST_DYNAMIC_INO - tags - files) as usize))
        } else if ino < STATEMENT_INO_BASE + FIRST_DYNAMIC_INO + tags + files {
            None
        } else if ino - STATEMENT_INO_BASE - FIRST_DYNAMIC_INO - tags - files < queries {
            Some(Node::Statement((ino - STATEMENT_INO_BASE - FIRST_DYNAMIC_INO - tags - files) as usize))
        } else if ino < RESULTS_INO_BASE + FIRST_DYNAMIC_INO + tags + files {
            None
        } else if ino - RESULTS_INO_BASE - FIRST_DYNAMIC_INO - tags - files < queries {
            Some(Node::Results((ino - RESULTS_INO_BASE - FIRST_DYNAMIC_INO - tags - files) as usize))
        } else {
            None
        }
    }

    /// The inode of the tag at place `i`.
    pub fn tag_ino(&self, i: usize) -> (ino: u64)
        requires
            self.wf(),
            i < self@.tags.len(),
        ensures
            ino == self@.tag_ino(i as int),
            ino == self@.tags[i as int].ino,
            self@.node(ino) == Some(Node::Tag(i)),
    {
        FIRST_DYNAMIC_INO + i as u64
    }

    /// The inode of the file at place `i`.
    pub fn file_ino(&self, i: usize) -> (ino: u64)
        requires
            self.wf(),
            i < self@.files.len(),
        ensures
            ino == self@.file_ino(i as int),
            self@.node(ino) == Some(Node::File(i)),
    {
        FIRST_DYNAMIC_INO + self.tags().len() as u64 + i as u64
    }

    /// The inode of the query directory at place `k`.
    pub fn query_ino(&self, k: usize) -> (ino: u64)
        requires
            self.wf(),
            k < self@.queries.len(),
        ensures
            ino == self@.query_ino(k as int),
            ino == self@.queries[k as int].ino,
            self@.node(ino) == Some(Node::Query(k)),
    {
        FIRST_DYNAMIC_INO + self.tags().len() as u64 + self.files().len() as u64 + k as u64
    }

    /// The inode of the file that shows the statement of the query
    /// directory at place `k`.
    pub fn statement_ino(&self, k: usize) -> (ino: u64)
        requires
            self.wf(),
            k < self@.queries.len(),
        ensures
            ino == self@.statement_ino(k as int),
            self@.node(ino) == Some(Node::Statement(k)),
    {
        self.query_ino(k) + STATEMENT_INO_BASE
    }

    /// The inode of the file that shows the results of the query
    /// directory at place `k`.
    pub fn results_ino(&self, k: usize) -> (ino: u64)
        requires
            self.wf(),
            k < self@.queries.len(),
        ensures
            ino == self@.results_ino(k as int),
            self@.node(ino) == Some(Node::Results(k)),
    {
        self.query_ino(k) + RESULTS_INO_BASE
    }

    /// The place of the file that `name` resolves to.
    pub fn find_file(&self, name: &String) -> (place: Option<usize>)
        ensures
            match place {
                Some(i) => self@.file_named(name@) == Some(i as int) && i < self@.files.len(),
                None => self@.file_named(name@) is None,
            },
    {
        let files = self.files();
        let mut i: usize = files.len();
        while i > 0
            invariant
                i <= files@.len(),
                views(files@) == self@.files,
                forall|j: int| i <= j < files@.len() ==> (#[trigger] self@.files[j]).name != name@,
            decreases i,
        {
            i -= 1;
            assert(self@.files[i as int] == files@[i as int]@);
            if files[i].name == *name {
                return Some(i);
            }
        }
        None
    }

    /// The place of the tag that `name` resolves to.
    pub fn find_tag(&self, name: &String) -> (place: Option<usize>)
        ensures
            match place {
                Some(i) => self@.tag_named(name@) == Some(i as int) && i < self@.tags.len(),
                None => self@.tag_named(name@) is None,
            },
    {
        let tags = self.tags();
        let mut i: usize = tags.len();
        while i > 0
            invariant
                i <= tags@.len(),
                views(tags@) == self@.tags,
                forall|j: int| i <= j < tags@.len() ==> (#[trigger] self@.tags[j]).data != name@,
            decreases i,
        {
            i -= 1;
            assert(self@.tags[i as int] == tags@[i as int]@);
            if tags[i].data == *name {
                return Some(i);
            }
        }
        None
    }

    /// The place of the query directory for `phrase`.
    pub fn find_query(&self, phrase: &String) -> (place: Option<usize>)
        requires
            self.wf(),
        ensures
            match place {
                Some(k) => self@.query_named(phrase@) == Some(k as int) && k < self@.queries.len(),
                None => self@.query_named(phrase@) is None,
            },
    {
        let queries = self.queries();
        let mut k: usize = 0;
        while k < queries.len()
            invariant
                k <= queries@.len(),
                self.wf(),
                views(queries@) == self@.queries,
                forall|j: int| 0 <= j < k ==> (#[trigger] self@.queries[j]).phrase != phrase@,
            decreases queries@.len() - k,
        {
            assert(self@.queries[k as int] == queries@[k as int]@);
            if queries[k].phrase == *phrase {
                return Some(k);
            }
            k += 1;
        }
        None
    }

    /// The place of the document `id`.
    pub fn find_document(&self, id: DocumentUuid) -> (place: Option<usize>)
        ensures
            match place {
                Some(i) => self@.document_at(id) == Some(i as int) && i < self@.documents.len(),
                None => self@.document_at(id) is None,
            },
    {
        let documents = self.documents();
        let mut i: usize = 0;
        while i < documents.len()
            invariant
                i <= documents@.len(),
                views(documents@) == self@.documents,
                forall|j: int| 0 <= j < i ==> (#[trigger] self@.documents[j]).uuid != id,
            decreases documents@.len() - i,
        {
            assert(self@.documents[i as int] == documents@[i as int]@);
            if documents[i].uuid == id {
                return Some(i);
            }
            i += 1;
        }
        None
    }
}

} // verus!
