//! The relational store as the filesystem sees it: a mathematical model of
//! its tables, the queries and changes that the filesystem makes, and the
//! interface through which a store answers them.

use crate::entities::{views, Document, DocumentView, File, FileView};
use crate::ids::{DocumentUuid, TextMetadataUuid};
use vstd::prelude::*;

verus! {

/// The name under which a tag is kept among the text metadata.
pub const TAG_NAME: &'static str = "tag";

/// A text metadata row: a named text value.
#[derive(Debug)]
pub struct TextRow {
    pub uuid: TextMetadataUuid,
    pub name: String,
    pub data: String,
}

/// The value of a [`TextRow`].
pub struct TextRowView {
    pub uuid: TextMetadataUuid,
    pub name: Seq<char>,
    pub data: Seq<char>,
}

impl View for TextRow {
    type V = TextRowView;

    open spec fn view(&self) -> TextRowView {
        TextRowView { uuid: self.uuid, name: self.name@, data: self.data@ }
    }
}

impl TextRow {
    /// A copy of the row.
    pub fn duplicate(&self) -> (copy: TextRow)
        ensures
            copy@ == self@,
    {
        TextRow { uuid: self.uuid, name: self.name.clone(), data: self.data.clone() }
    }
}

/// A row that attaches a text metadata row to a document.
#[derive(Clone, Copy, Debug, PartialEq, Eq, Structural)]
pub struct TextLink {
    pub document: DocumentUuid,
    pub metadata: TextMetadataUuid,
}

/// A file row together with the bytes it holds.
pub struct StoredFile {
    pub file: FileView,
    pub data: Seq<u8>,
}

/// The contents of a store: its documents, its files with their bytes, its
/// text metadata, and the rows that attach text metadata to documents. The
/// order of a sequence is the order in which a query yields the rows.
pub struct StoreState {
    pub documents: Seq<DocumentView>,
    pub files: Seq<StoredFile>,
    pub text: Seq<TextRowView>,
    pub links: Seq<TextLink>,
}

/// The rows among the first `n` of `rows` that are named `name`, in order.
pub open spec fn named_upto(rows: Seq<TextRowView>, name: Seq<char>, n: int) -> Seq<TextRowView>
    decreases n,
{
    if n <= 0 {
        Seq::empty()
    } else if rows[n - 1].name == name {
        named_upto(rows, name, n - 1).push(rows[n - 1])
    } else {
        named_upto(rows, name, n - 1)
    }
}

/// The rows of `rows` that are named `name`, in order.
pub open spec fn named(rows: Seq<TextRowView>, name: Seq<char>) -> Seq<TextRowView> {
    named_upto(rows, name, rows.len() as int)
}

/// The text that each row holds.
pub open spec fn data_of(rows: Seq<TextRowView>) -> Seq<Seq<char>> {
    Seq::new(rows.len(), |i: int| rows[i].data)
}

/// The name that each row bears.
pub open spec fn names_of(rows: Seq<TextRowView>) -> Seq<Seq<char>> {
    Seq::new(rows.len(), |i: int| rows[i].name)
}

impl StoreState {
    /// No two text rows share an identity, and no attachment occurs twice.
    pub open spec fn wf(self) -> bool {
        &&& forall|i: int, j: int|
            0 <= i < j < self.text.len() ==> self.text[i].uuid != self.text[j].uuid
        &&& forall|i: int, j: int| 0 <= i < j < self.links.len() ==> self.links[i] != self.links[j]
    }

    /// Where the text row `id` stands, if there is one.
    pub open spec fn text_position(self, id: TextMetadataUuid) -> Option<int> {
        if exists|i: int| 0 <= i < self.text.len() && self.text[i].uuid == id {
            Some(choose|i: int| 0 <= i < self.text.len() && self.text[i].uuid == id)
        } else {
            None
        }
    }

    /// Where the attachment `link` stands, if there is one.
    pub open spec fn link_position(self, link: TextLink) -> Option<int> {
        if exists|i: int| 0 <= i < self.links.len() && self.links[i] == link {
            Some(choose|i: int| 0 <= i < self.links.len() && self.links[i] == link)
        } else {
            None
        }
    }

    /// The text row that `link` attaches, if the store has it.
    pub open spec fn row_at(self, link: TextLink) -> Option<TextRowView> {
        match self.text_position(link.metadata) {
            Some(p) => Some(self.text[p]),
            None => None,
        }
    }

    /// The text rows that the first `n` attachments attach to `document`,
    /// in the order of the attachments. An attachment whose text row is
    /// missing yields nothing.
    pub open spec fn attached_upto(self, document: DocumentUuid, n: int) -> Seq<TextRowView>
        decreases n,
    {
        if n <= 0 {
            Seq::empty()
        } else {
            let link = self.links[n - 1];
            match self.row_at(link) {
                Some(row) if link.document == document => self.attached_upto(document, n - 1).push(
                    row,
                ),
                _ => self.attached_upto(document, n - 1),
            }
        }
    }

    /// The text rows attached to `document`.
    pub open spec fn attached(self, document: DocumentUuid) -> Seq<TextRowView> {
        self.attached_upto(document, self.links.len() as int)
    }

    /// The values of the attribute `name` of `document`: the text of every
    /// attached row of that name.
    pub open spec fn values(self, document: DocumentUuid, name: Seq<char>) -> Seq<Seq<char>> {
        data_of(named(self.attached(document), name))
    }

    /// The names of the attributes of `document`, one for each attached row.
    pub open spec fn names(self, document: DocumentUuid) -> Seq<Seq<char>> {
        names_of(self.attached(document))
    }

    /// Whether `document` has an attribute `name`.
    pub open spec fn has(self, document: DocumentUuid, name: Seq<char>) -> bool {
        named(self.attached(document), name).len() > 0
    }

    /// The identity of the first row that gives `document` its attribute
    /// `name`.
    pub open spec fn metadata_named(self, document: DocumentUuid, name: Seq<char>) -> Option<
        TextMetadataUuid,
    > {
        if self.has(document, name) {
            Some(named(self.attached(document), name)[0].uuid)
        } else {
            None
        }
    }

    /// The documents that the first `n` attachments attach `metadata` to,
    /// leaving out `except`.
    pub open spec fn holders_upto(
        self,
        metadata: TextMetadataUuid,
        except: Option<DocumentUuid>,
        n: int,
    ) -> Seq<DocumentUuid>
        decreases n,
    {
        if n <= 0 {
            Seq::empty()
        } else {
            let link = self.links[n - 1];
            if link.metadata == metadata && except != Some(link.document) {
                self.holders_upto(metadata, except, n - 1).push(link.document)
            } else {
                self.holders_upto(metadata, except, n - 1)
            }
        }
    }

    /// The documents that `metadata` is attached to, leaving out `except`.
    pub open spec fn holders(self, metadata: TextMetadataUuid, except: Option<DocumentUuid>) -> Seq<
        DocumentUuid,
    > {
        self.holders_upto(metadata, except, self.links.len() as int)
    }

    /// The tags: the text rows named `tag`.
    pub open spec fn tags(self) -> Seq<TextRowView> {
        named(self.text, TAG_NAME@)
    }

    /// The file rows, without their bytes.
    pub open spec fn file_rows(self) -> Seq<FileView> {
        Seq::new(self.files.len(), |i: int| self.files[i].file)
    }

    /// Where the first file row with the reference `row_id` stands.
    pub open spec fn blob_position(self, row_id: i64) -> Option<int> {
        if exists|i: int| 0 <= i < self.files.len() && self.files[i].file.row_id == row_id {
            Some(
                choose|i: int|
                    0 <= i < self.files.len() && self.files[i].file.row_id == row_id && forall|
                        j: int,
                    |
                        0 <= j < i ==> self.files[j].file.row_id != row_id,
            )
        } else {
            None
        }
    }

    /// The bytes of the row `row_id`, if the store has such a row.
    pub open spec fn blob(self, row_id: i64) -> Option<Seq<u8>> {
        match self.blob_position(row_id) {
            Some(p) => Some(self.files[p].data),
            None => None,
        }
    }

    /// The store after `document` was given the text row `metadata` with
    /// `name` and `data`: the row replaces the one of that identity, or is
    /// added; the attachment is added unless it is there.
    pub open spec fn put(
        self,
        document: DocumentUuid,
        metadata: TextMetadataUuid,
        name: Seq<char>,
        data: Seq<char>,
    ) -> StoreState {
        let row = TextRowView { uuid: metadata, name, data };
        let link = TextLink { document, metadata };
        StoreState {
            text: match self.text_position(metadata) {
                Some(p) => self.text.update(p, row),
                None => self.text.push(row),
            },
            links: match self.link_position(link) {
                Some(_) => self.links,
                None => self.links.push(link),
            },
            ..self
        }
    }

    /// The store after `metadata` was detached from `document` and, where
    /// `delete_row` is set, the text row itself was deleted.
    pub open spec fn removed(
        self,
        document: DocumentUuid,
        metadata: TextMetadataUuid,
        delete_row: bool,
    ) -> StoreState {
        StoreState {
            links: match self.link_position(TextLink { document, metadata }) {
                Some(p) => self.links.remove(p),
                None => self.links,
            },
            text: match self.text_position(metadata) {
                Some(p) if delete_row => self.text.remove(p),
                _ => self.text,
            },
            ..self
        }
    }
}

impl StoreState {
    /// Writing a row keeps the store well formed.
    pub proof fn lemma_put_wf(
        self,
        document: DocumentUuid,
        metadata: TextMetadataUuid,
        name: Seq<char>,
        data: Seq<char>,
    )
        requires
            self.wf(),
        ensures
            self.put(document, metadata, name, data).wf(),
    {
        let after = self.put(document, metadata, name, data);
        assert forall|i: int, j: int| 0 <= i < j < after.text.len() implies after.text[i].uuid
            != after.text[j].uuid by {
            match self.text_position(metadata) {
                Some(p) => {
                    assert(self.text[i].uuid != self.text[j].uuid);
                },
                None => {
                    if j < self.text.len() {
                        assert(self.text[i].uuid != self.text[j].uuid);
                    } else {
                        assert(self.text[i].uuid != metadata);
                    }
                },
            }
        }
        assert forall|i: int, j: int| 0 <= i < j < after.links.len() implies after.links[i]
            != after.links[j] by {
            if j < self.links.len() {
                assert(self.links[i] != self.links[j]);
            } else {
                assert(self.links[i] != (TextLink { document, metadata }));
            }
        }
    }

    /// Detaching and deleting keep the store well formed.
    pub proof fn lemma_removed_wf(
        self,
        document: DocumentUuid,
        metadata: TextMetadataUuid,
        delete_row: bool,
    )
        requires
            self.wf(),
        ensures
            self.removed(document, metadata, delete_row).wf(),
    {
        let after = self.removed(document, metadata, delete_row);
        assert forall|i: int, j: int| 0 <= i < j < after.text.len() implies after.text[i].uuid
            != after.text[j].uuid by {
            match self.text_position(metadata) {
                Some(p) if delete_row => {
                    let a = if i < p { i } else { i + 1 };
                    let b = if j < p { j } else { j + 1 };
                    assert(self.text[a].uuid != self.text[b].uuid);
                },
                _ => {
                    assert(self.text[i].uuid != self.text[j].uuid);
                },
            }
        }
        assert forall|i: int, j: int| 0 <= i < j < after.links.len() implies after.links[i]
            != after.links[j] by {
            match self.link_position(TextLink { document, metadata }) {
                Some(p) => {
                    let a = if i < p { i } else { i + 1 };
                    let b = if j < p { j } else { j + 1 };
                    assert(self.links[a] != self.links[b]);
                },
                None => {
                    assert(self.links[i] != self.links[j]);
                },
            }
        }
    }
}

/// The value of what a search gave: the documents found, or the message of
/// the error.
pub open spec fn found_view(found: Result<Vec<DocumentUuid>, String>) -> Result<
    Seq<DocumentUuid>,
    Seq<char>,
> {
    match found {
        Ok(ids) => Ok(ids@),
        Err(message) => Err(message@),
    }
}

/// A store of documents, files and text metadata. Each method is one query
/// or one change, made in one transaction.
///
/// The contracts speak of the contents of the store as a [`StoreState`]. A
/// store says what its contents are by defining `state` and `found`, and
/// then owes the proof that its methods do as they say; a store that
/// defines neither is one of whose contents nothing is known.
pub trait Store {
    /// The contents of the store.
    open spec fn state(&self) -> StoreState {
        arbitrary()
    }

    /// What the full-text search gives for `phrase` on these contents: the
    /// documents found, or the message with which the search rejected the
    /// phrase.
    open spec fn found(&self, phrase: Seq<char>) -> Result<Seq<DocumentUuid>, Seq<char>> {
        arbitrary()
    }

    /// All tags: the text rows named `tag`.
    fn tags(&self) -> (rows: Vec<TextRow>)
        requires
            self.state().wf(),
        ensures
            views(rows@) == self.state().tags(),
    ;

    /// All documents.
    fn documents(&self) -> (rows: Vec<Document>)
        requires
            self.state().wf(),
        ensures
            views(rows@) == self.state().documents,
    ;

    /// All files, each with its owning document.
    fn files(&self) -> (rows: Vec<File>)
        requires
            self.state().wf(),
        ensures
            views(rows@) == self.state().file_rows(),
    ;

    /// Runs the full-text search for `phrase`.
    fn search(&self, phrase: &str) -> (found: Result<Vec<DocumentUuid>, String>)
        requires
            self.state().wf(),
        ensures
            found_view(found) == self.found(phrase@),
    ;

    /// The number of bytes in the row `row_id`, if there is such a row.
    fn blob_len(&self, row_id: i64) -> (len: Option<usize>)
        requires
            self.state().wf(),
        ensures
            match len {
                Some(n) => self.state().blob(row_id) is Some && n == self.state().blob(
                    row_id,
                )->Some_0.len(),
                None => self.state().blob(row_id) is None,
            },
    ;

    /// Reads `len` bytes at `offset` of the row `row_id`. The range must lie
    /// within the row's bytes.
    fn read_blob(&self, row_id: i64, offset: usize, len: usize) -> (bytes: Option<Vec<u8>>)
        requires
            self.state().wf(),
        ensures
            match bytes {
                Some(b) => self.state().blob(row_id) matches Some(data) && offset + len
                    <= data.len() && b@ == data.subrange(offset as int, offset + len),
                None => !(self.state().blob(row_id) matches Some(data) && offset + len
                    <= data.len()),
            },
    ;

    /// Whether `document` has an attribute `name`.
    fn has_xattr(&self, document: DocumentUuid, name: &str) -> (has: bool)
        requires
            self.state().wf(),
        ensures
            has == self.state().has(document, name@),
    ;

    /// The values of the attribute `name` of `document`.
    fn xattr_values(&self, document: DocumentUuid, name: &str) -> (values: Vec<String>)
        requires
            self.state().wf(),
        ensures
            views(values@) == self.state().values(document, name@),
    ;

    /// The names of the attributes of `document`.
    fn xattr_names(&self, document: DocumentUuid) -> (names: Vec<String>)
        requires
            self.state().wf(),
        ensures
            views(names@) == self.state().names(document),
    ;

    /// The identity of the first text row that gives `document` its
    /// attribute `name`.
    fn text_metadata_by_name(&self, document: DocumentUuid, name: &str) -> (id: Option<
        TextMetadataUuid,
    >)
        requires
            self.state().wf(),
        ensures
            id == self.state().metadata_named(document, name@),
    ;

    /// The documents that the text row `metadata` is attached to, leaving
    /// out `except`.
    fn documents_with(&self, metadata: TextMetadataUuid, except: Option<DocumentUuid>) -> (owners:
        Vec<DocumentUuid>)
        requires
            self.state().wf(),
        ensures
            owners@ == self.state().holders(metadata, except),
    ;

    /// Writes the text row `metadata` with `name` and `data`, in place of
    /// the row of that identity if there is one, and attaches it to
    /// `document` unless it is attached.
    fn put_xattr(&mut self, document: DocumentUuid, metadata: TextMetadataUuid, name: &str, data: &str)
        requires
            old(self).state().wf(),
        ensures
            final(self).state() == old(self).state().put(document, metadata, name@, data@),
            final(self).state().wf(),
    ;

    /// Detaches the text row `metadata` from `document` and, where
    /// `delete_row` is set, deletes the row.
    fn remove_xattr(&mut self, document: DocumentUuid, metadata: TextMetadataUuid, delete_row: bool)
        requires
            old(self).state().wf(),
        ensures
            final(self).state() == old(self).state().removed(document, metadata, delete_row),
            final(self).state().wf(),
    ;
}

} // verus!
