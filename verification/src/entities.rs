//! The rows that the filesystem is built from: documents, their files and
//! their tags, each with the mathematical value that contracts speak of.

use crate::datetime::{CreatedTime, DateTime, LastModifiedTime};
use crate::ids::{name_based, BinaryMetadataUuid, DocumentUuid, TextMetadataUuid, Uuid, NAMESPACE_OID};
use vstd::prelude::*;
use crate::text::bytes_of;

verus! {

/// The values that a sequence of rows stands for, in order.
pub open spec fn views<T: View>(rows: Seq<T>) -> Seq<T::V> {
    Seq::new(rows.len(), |i: int| rows[i]@)
}

/// The value of an optional text.
pub open spec fn option_text(text: Option<String>) -> Option<Seq<char>> {
    match text {
        Some(t) => Some(t@),
        None => None,
    }
}

/// A document: what files and tags belong to.
#[derive(Debug)]
pub struct Document {
    pub uuid: DocumentUuid,
    pub title: String,
    pub title_suffix: Option<String>,
    pub created: CreatedTime,
    pub last_modified: LastModifiedTime,
}

/// The value of a [`Document`].
pub struct DocumentView {
    pub uuid: DocumentUuid,
    pub title: Seq<char>,
    pub title_suffix: Option<Seq<char>>,
    pub created: CreatedTime,
    pub last_modified: LastModifiedTime,
}

impl View for Document {
    type V = DocumentView;

    open spec fn view(&self) -> DocumentView {
        DocumentView {
            uuid: self.uuid,
            title: self.title@,
            title_suffix: option_text(self.title_suffix),
            created: self.created,
            last_modified: self.last_modified,
        }
    }
}

/// A binary metadata row that holds an attachment: one file of the
/// namespace. `row_id` is the store's reference to the row, by which its
/// bytes are read; `size` is their number.
#[derive(Debug)]
pub struct File {
    pub row_id: i64,
    pub uuid: BinaryMetadataUuid,
    pub name: String,
    pub size: u64,
    pub document_uuid: DocumentUuid,
    pub created: CreatedTime,
    pub last_modified: LastModifiedTime,
}

/// The value of a [`File`].
pub struct FileView {
    pub row_id: i64,
    pub uuid: BinaryMetadataUuid,
    pub name: Seq<char>,
    pub size: u64,
    pub document_uuid: DocumentUuid,
    pub created: CreatedTime,
    pub last_modified: LastModifiedTime,
}

impl View for File {
    type V = FileView;

    open spec fn view(&self) -> FileView {
        FileView {
            row_id: self.row_id,
            uuid: self.uuid,
            name: self.name@,
            size: self.size,
            document_uuid: self.document_uuid,
            created: self.created,
            last_modified: self.last_modified,
        }
    }
}

/// A text metadata row named `tag`: one directory under the tag directory.
#[derive(Debug)]
pub struct Tag {
    pub uuid: TextMetadataUuid,
    pub data: String,
    pub ino: u64,
}

/// The value of a [`Tag`].
pub struct TagView {
    pub uuid: TextMetadataUuid,
    pub data: Seq<char>,
    pub ino: u64,
}

impl View for Tag {
    type V = TagView;

    open spec fn view(&self) -> TagView {
        TagView { uuid: self.uuid, data: self.data@, ino: self.ino }
    }
}

impl Document {
    /// A new document with the title `title`, made at `now`: its identity
    /// is made from the title.
    pub fn new(title: String, now: DateTime) -> (document: Document)
        ensures
            document@ == (DocumentView {
                uuid: DocumentUuid(Uuid(name_based(NAMESPACE_OID, bytes_of(title@)))),
                title: title@,
                title_suffix: None,
                created: CreatedTime(now),
                last_modified: LastModifiedTime(now),
            }),
    {
        Document {
            uuid: DocumentUuid::new(title.as_str()),
            title,
            title_suffix: None,
            created: CreatedTime(now),
            last_modified: LastModifiedTime(now),
        }
    }

    /// A copy of the document.
    pub fn duplicate(&self) -> (copy: Document)
        ensures
            copy@ == self@,
    {
        Document {
            uuid: self.uuid,
            title: self.title.clone(),
            title_suffix: match &self.title_suffix {
                Some(s) => Some(s.clone()),
                None => None,
            },
            created: self.created,
            last_modified: self.last_modified,
        }
    }
}

impl File {
    /// A copy of the file's row.
    pub fn duplicate(&self) -> (copy: File)
        ensures
            copy@ == self@,
    {
        File {
            row_id: self.row_id,
            uuid: self.uuid,
            name: self.name.clone(),
            size: self.size,
            document_uuid: self.document_uuid,
            created: self.created,
            last_modified: self.last_modified,
        }
    }
}

} // verus!
