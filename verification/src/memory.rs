//! A store held in memory: the tables as vectors, every query a scan.

use crate::entities::{views, Document, File};
use crate::ids::{DocumentUuid, TextMetadataUuid};
use crate::store::{
    data_of, named, named_upto, names_of, Store, StoreState, StoredFile, TextLink, TextRow,
    TextRowView, TAG_NAME,
};
use vstd::prelude::*;
use vstd::string::StringExecFns;

verus! {

/// A file row and its bytes.
pub struct MemoryFile {
    pub file: File,
    pub data: Vec<u8>,
}

/// A store whose tables are vectors.
pub struct MemoryStore {
    documents: Vec<Document>,
    files: Vec<MemoryFile>,
    text: Vec<TextRow>,
    links: Vec<TextLink>,
}

/// Whether one of `rows` holds the text `phrase`.
pub open spec fn holds_text(rows: Seq<TextRowView>, phrase: Seq<char>) -> bool {
    exists|i: int| 0 <= i < rows.len() && (#[trigger] rows[i]).data == phrase
}

/// The documents among the first `n` that the search in memory finds for
/// `phrase`: those whose title is the phrase, and those with an attached
/// text row that holds the phrase.
pub open spec fn matching_upto(state: StoreState, phrase: Seq<char>, n: int) -> Seq<DocumentUuid>
    decreases n,
{
    if n <= 0 {
        Seq::empty()
    } else {
        let document = state.documents[n - 1];
        if document.title == phrase || holds_text(state.attached(document.uuid), phrase) {
            matching_upto(state, phrase, n - 1).push(document.uuid)
        } else {
            matching_upto(state, phrase, n - 1)
        }
    }
}

/// The documents that the search in memory finds for `phrase`.
pub open spec fn matching(state: StoreState, phrase: Seq<char>) -> Seq<DocumentUuid> {
    matching_upto(state, phrase, state.documents.len() as int)
}

impl MemoryStore {
    /// The tables as a model.
    spec fn tables(&self) -> StoreState {
        StoreState {
            documents: views(self.documents@),
            files: Seq::new(
                self.files@.len(),
                |i: int| StoredFile { file: self.files@[i].file@, data: self.files@[i].data@ },
            ),
            text: views(self.text@),
            links: self.links@,
        }
    }

    /// A store with no rows.
    pub fn new() -> (store: MemoryStore)
        ensures
            store.state().wf(),
            store.state().documents.len() == 0,
            store.state().files.len() == 0,
            store.state().text.len() == 0,
            store.state().links.len() == 0,
    {
        MemoryStore {
            documents: Vec::new(),
            files: Vec::new(),
            text: Vec::new(),
            links: Vec::new(),
        }
    }

    /// Adds a document.
    pub fn insert_document(&mut self, document: Document)
        requires
            old(self).state().wf(),
        ensures
            final(self).state().wf(),
            final(self).state() == (StoreState {
                documents: old(self).state().documents.push(document@),
                ..old(self).state()
            }),
    {
        self.documents.push(document);
        assert(self.tables().documents =~= old(self).tables().documents.push(document@));
        assert(self.tables().files =~= old(self).tables().files);
    }

    /// Adds a file row with its bytes.
    pub fn insert_file(&mut self, file: File, data: Vec<u8>)
        requires
            old(self).state().wf(),
        ensures
            final(self).state().wf(),
            final(self).state() == (StoreState {
                files: old(self).state().files.push(StoredFile { file: file@, data: data@ }),
                ..old(self).state()
            }),
    {
        self.files.push(MemoryFile { file, data });
        assert(self.tables().files =~= old(self).tables().files.push(
            StoredFile { file: file@, data: data@ },
        ));
    }

    /// Adds a text row, unless a row of that identity is there. Says
    /// whether the row was added.
    pub fn insert_text(&mut self, row: TextRow) -> (added: bool)
        requires
            old(self).state().wf(),
        ensures
            final(self).state().wf(),
            added == (old(self).state().text_position(row.uuid) is None),
            added ==> final(self).state() == (StoreState {
                text: old(self).state().text.push(row@),
                ..old(self).state()
            }),
            !added ==> final(self).state() == old(self).state(),
    {
        match self.find_text(row.uuid) {
            Some(_) => false,
            None => {
                self.text.push(row);
                assert(self.tables().text =~= old(self).tables().text.push(row@));
                assert(self.tables().files =~= old(self).tables().files);
                true
            },
        }
    }

    /// Attaches the text row `metadata` to `document`, unless it is
    /// attached. Says whether the attachment was added.
    pub fn attach(&mut self, document: DocumentUuid, metadata: TextMetadataUuid) -> (added: bool)
        requires
            old(self).state().wf(),
        ensures
            final(self).state().wf(),
            added == (old(self).state().link_position(TextLink { document, metadata }) is None),
            added ==> final(self).state() == (StoreState {
                links: old(self).state().links.push(TextLink { document, metadata }),
                ..old(self).state()
            }),
            !added ==> final(self).state() == old(self).state(),
    {
        let link = TextLink { document, metadata };
        match self.find_link(link) {
            Some(_) => false,
            None => {
                self.links.push(link);
                assert(self.tables().files =~= old(self).tables().files);
                true
            },
        }
    }

    /// Where the text row `id` stands.
    fn find_text(&self, id: TextMetadataUuid) -> (position: Option<usize>)
        requires
            self.tables().wf(),
        ensures
            match position {
                Some(p) => self.tables().text_position(id) == Some(p as int) && p
                    < self.text@.len() && self.text@[p as int].uuid == id,
                None => self.tables().text_position(id) is None,
            },
    {
        let mut i: usize = 0;
        while i < self.text.len()
            invariant
                i <= self.text@.len(),
                self.tables().wf(),
                forall|k: int| 0 <= k < i ==> (#[trigger] self.tables().text[k]).uuid != id,
            decreases self.text@.len() - i,
        {
            if self.text[i].uuid == id {
                assert(self.tables().text[i as int].uuid == id);
                return Some(i);
            }
            i += 1;
        }
        None
    }

    /// Where the attachment `link` stands.
    fn find_link(&self, link: TextLink) -> (position: Option<usize>)
        requires
            self.tables().wf(),
        ensures
            match position {
                Some(p) => self.tables().link_position(link) == Some(p as int) && p
                    < self.links@.len() && self.links@[p as int] == link,
                None => self.tables().link_position(link) is None,
            },
    {
        let mut i: usize = 0;
        while i < self.links.len()
            invariant
                i <= self.links@.len(),
                self.tables().wf(),
                forall|k: int| 0 <= k < i ==> #[trigger] self.tables().links[k] != link,
            decreases self.links@.len() - i,
        {
            if self.links[i] == link {
                assert(self.tables().links[i as int] == link);
                return Some(i);
            }
            i += 1;
        }
        None
    }

    /// The text rows attached to `document`.
    fn attached(&self, document: DocumentUuid) -> (rows: Vec<TextRow>)
        requires
            self.tables().wf(),
        ensures
            views(rows@) == self.tables().attached(document),
    {
        let mut rows: Vec<TextRow> = Vec::new();
        let mut i: usize = 0;
        assert(views(rows@) =~= self.tables().attached_upto(document, 0));
        while i < self.links.len()
            invariant
                i <= self.links@.len(),
                self.tables().wf(),
                views(rows@) == self.tables().attached_upto(document, i as int),
            decreases self.links@.len() - i,
        {
            let link = self.links[i];
            assert(self.tables().links[i as int] == link);
            if link.document == document {
                match self.find_text(link.metadata) {
                    Some(p) => {
                        let ghost before = views(rows@);
                        let row = self.text[p].duplicate();
                        rows.push(row);
                        assert(views(rows@) =~= before.push(self.tables().text[p as int]));
                    },
                    None => {},
                }
            }
            i += 1;
        }
        rows
    }

    /// The rows of `rows` that are named `name`.
    fn select_named(rows: &Vec<TextRow>, name: &str) -> (chosen: Vec<TextRow>)
        ensures
            views(chosen@) == named(views(rows@), name@),
    {
        let mut chosen: Vec<TextRow> = Vec::new();
        let mut i: usize = 0;
        let wanted = String::from_str(name);
        assert(views(chosen@) =~= named_upto(views(rows@), name@, 0));
        while i < rows.len()
            invariant
                i <= rows@.len(),
                wanted@ == name@,
                views(chosen@) == named_upto(views(rows@), name@, i as int),
            decreases rows@.len() - i,
        {
            assert(views(rows@)[i as int] == rows@[i as int]@);
            if rows[i].name == wanted {
                let ghost before = views(chosen@);
                chosen.push(rows[i].duplicate());
                assert(views(chosen@) =~= before.push(rows@[i as int]@));
            }
            i += 1;
        }
        chosen
    }

    /// Whether one of `rows` holds the text `phrase`.
    fn any_holds(rows: &Vec<TextRow>, phrase: &String) -> (holds: bool)
        ensures
            holds == holds_text(views(rows@), phrase@),
    {
        let mut i: usize = 0;
        while i < rows.len()
            invariant
                i <= rows@.len(),
                forall|k: int| 0 <= k < i ==> (#[trigger] views(rows@)[k]).data != phrase@,
            decreases rows@.len() - i,
        {
            if rows[i].data == *phrase {
                assert(views(rows@)[i as int].data == phrase@);
                return true;
            }
            i += 1;
        }
        false
    }
}

impl Store for MemoryStore {
    closed spec fn state(&self) -> StoreState {
        self.tables()
    }

    /// A document is found where its title is the phrase, or where an
    /// attached text row holds the phrase. No phrase is rejected.
    open spec fn found(&self, phrase: Seq<char>) -> Result<Seq<DocumentUuid>, Seq<char>> {
        Ok(matching(self.state(), phrase))
    }

    fn tags(&self) -> (rows: Vec<TextRow>) {
        let rows = MemoryStore::select_named(&self.text, TAG_NAME);
        rows
    }

    fn documents(&self) -> (rows: Vec<Document>) {
        let mut rows: Vec<Document> = Vec::new();
        let mut i: usize = 0;
        while i < self.documents.len()
            invariant
                i <= self.documents@.len(),
                views(rows@) == views(self.documents@).take(i as int),
            decreases self.documents@.len() - i,
        {
            let ghost before = views(rows@);
            rows.push(self.documents[i].duplicate());
            assert(views(rows@) =~= before.push(self.documents@[i as int]@));
            assert(views(self.documents@).take(i + 1) =~= views(self.documents@).take(
                i as int,
            ).push(self.documents@[i as int]@));
            i += 1;
        }
        assert(views(self.documents@).take(i as int) =~= views(self.documents@));
        rows
    }

    fn files(&self) -> (rows: Vec<File>) {
        let mut rows: Vec<File> = Vec::new();
        let mut i: usize = 0;
        while i < self.files.len()
            invariant
                i <= self.files@.len(),
                views(rows@) == self.tables().file_rows().take(i as int),
            decreases self.files@.len() - i,
        {
            let ghost before = views(rows@);
            rows.push(self.files[i].file.duplicate());
            assert(views(rows@) =~= before.push(self.files@[i as int].file@));
            assert(self.tables().file_rows().take(i + 1) =~= self.tables().file_rows().take(
                i as int,
            ).push(self.files@[i as int].file@));
            i += 1;
        }
        assert(self.tables().file_rows().take(i as int) =~= self.tables().file_rows());
        rows
    }

    fn search(&self, phrase: &str) -> (found: Result<Vec<DocumentUuid>, String>) {
        let wanted = String::from_str(phrase);
        let mut ids: Vec<DocumentUuid> = Vec::new();
        let mut i: usize = 0;
        while i < self.documents.len()
            invariant
                i <= self.documents@.len(),
                self.tables().wf(),
                wanted@ == phrase@,
                ids@ == matching_upto(self.tables(), phrase@, i as int),
            decreases self.documents@.len() - i,
        {
            let document = &self.documents[i];
            assert(self.tables().documents[i as int] == document@);
            let rows = self.attached(document.uuid);
            if document.title == wanted || MemoryStore::any_holds(&rows, &wanted) {
                ids.push(document.uuid);
            }
            i += 1;
        }
        Ok(ids)
    }

    fn blob_len(&self, row_id: i64) -> (len: Option<usize>) {
        let mut i: usize = 0;
        while i < self.files.len()
            invariant
                i <= self.files@.len(),
                forall|k: int| 0 <= k < i ==> (#[trigger] self.tables().files[k]).file.row_id != row_id,
            decreases self.files@.len() - i,
        {
            if self.files[i].file.row_id == row_id {
                assert(self.tables().files[i as int].file.row_id == row_id);
                return Some(self.files[i].data.len());
            }
            i += 1;
        }
        None
    }

    fn read_blob(&self, row_id: i64, offset: usize, len: usize) -> (bytes: Option<Vec<u8>>) {
        let mut i: usize = 0;
        while i < self.files.len()
            invariant
                i <= self.files@.len(),
                forall|k: int| 0 <= k < i ==> (#[trigger] self.tables().files[k]).file.row_id != row_id,
            decreases self.files@.len() - i,
        {
            if self.files[i].file.row_id == row_id {
                assert(self.tables().files[i as int].file.row_id == row_id);
                let data = &self.files[i].data;
                if offset > data.len() || len > data.len() - offset {
                    return None;
                }
                let mut bytes: Vec<u8> = Vec::new();
                let mut k: usize = 0;
                while k < len
                    invariant
                        k <= len,
                        offset + len <= data@.len(),
                        data@.len() <= usize::MAX,
                        bytes@ == data@.subrange(offset as int, offset + k),
                    decreases len - k,
                {
                    bytes.push(data[offset + k]);
                    assert(bytes@ =~= data@.subrange(offset as int, offset + k + 1));
                    k += 1;
                }
                return Some(bytes);
            }
            i += 1;
        }
        None
    }

    fn has_xattr(&self, document: DocumentUuid, name: &str) -> (has: bool) {
        let rows = self.attached(document);
        let chosen = MemoryStore::select_named(&rows, name);
        chosen.len() > 0
    }

    fn xattr_values(&self, document: DocumentUuid, name: &str) -> (values: Vec<String>) {
        let rows = self.attached(document);
        let chosen = MemoryStore::select_named(&rows, name);
        let mut values: Vec<String> = Vec::new();
        let mut i: usize = 0;
        while i < chosen.len()
            invariant
                i <= chosen@.len(),
                views(values@) == data_of(views(chosen@)).take(i as int),
            decreases chosen@.len() - i,
        {
            let ghost before = views(values@);
            values.push(chosen[i].data.clone());
            assert(views(values@) =~= before.push(chosen@[i as int].data@));
            assert(data_of(views(chosen@)).take(i + 1) =~= data_of(views(chosen@)).take(
                i as int,
            ).push(chosen@[i as int].data@));
            i += 1;
        }
        assert(data_of(views(chosen@)).take(i as int) =~= data_of(views(chosen@)));
        values
    }

    fn xattr_names(&self, document: DocumentUuid) -> (names: Vec<String>) {
        let rows = self.attached(document);
        let mut names: Vec<String> = Vec::new();
        let mut i: usize = 0;
        while i < rows.len()
            invariant
                i <= rows@.len(),
                views(names@) == names_of(views(rows@)).take(i as int),
            decreases rows@.len() - i,
        {
            let ghost before = views(names@);
            names.push(rows[i].name.clone());
            assert(views(names@) =~= before.push(rows@[i as int].name@));
            assert(names_of(views(rows@)).take(i + 1) =~= names_of(views(rows@)).take(
                i as int,
            ).push(rows@[i as int].name@));
            i += 1;
        }
        assert(names_of(views(rows@)).take(i as int) =~= names_of(views(rows@)));
        names
    }

    fn text_metadata_by_name(&self, document: DocumentUuid, name: &str) -> (id: Option<
        TextMetadataUuid,
    >) {
        let rows = self.attached(document);
        let chosen = MemoryStore::select_named(&rows, name);
        if chosen.len() > 0 {
            assert(views(chosen@)[0] == chosen@[0]@);
            Some(chosen[0].uuid)
        } else {
            None
        }
    }

    fn documents_with(&self, metadata: TextMetadataUuid, except: Option<DocumentUuid>) -> (owners:
        Vec<DocumentUuid>) {
        let mut owners: Vec<DocumentUuid> = Vec::new();
        let mut i: usize = 0;
        while i < self.links.len()
            invariant
                i <= self.links@.len(),
                owners@ == self.tables().holders_upto(metadata, except, i as int),
            decreases self.links@.len() - i,
        {
            let link = self.links[i];
            assert(self.tables().links[i as int] == link);
            let excluded = match except {
                Some(d) => d == link.document,
                None => false,
            };
            if link.metadata == metadata && !excluded {
                owners.push(link.document);
            }
            i += 1;
        }
        owners
    }

    fn put_xattr(&mut self, document: DocumentUuid, metadata: TextMetadataUuid, name: &str, data: &str) {
        let row = TextRow { uuid: metadata, name: String::from_str(name), data: String::from_str(data) };
        let link = TextLink { document, metadata };
        let ghost before = self.tables();
        let text_at = self.find_text(metadata);
        let link_at = self.find_link(link);
        match text_at {
            Some(p) => {
                self.text.set(p, row);
                assert(self.tables().text =~= before.text.update(p as int, row@));
            },
            None => {
                self.text.push(row);
                assert(self.tables().text =~= before.text.push(row@));
            },
        }
        match link_at {
            Some(_) => {},
            None => {
                self.links.push(link);
            },
        }
        proof {
            assert(self.tables().files =~= before.files);
            before.lemma_put_wf(document, metadata, name@, data@);
        }
    }

    fn remove_xattr(&mut self, document: DocumentUuid, metadata: TextMetadataUuid, delete_row: bool) {
        let link = TextLink { document, metadata };
        let ghost before = self.tables();
        let text_at = self.find_text(metadata);
        let link_at = self.find_link(link);
        match link_at {
            Some(p) => {
                self.links.remove(p);
            },
            None => {},
        }
        if delete_row {
            match text_at {
                Some(p) => {
                    self.text.remove(p);
                    assert(self.tables().text =~= before.text.remove(p as int));
                },
                None => {},
            }
        }
        proof {
            assert(self.tables().files =~= before.files);
            assert(self.tables().text =~= before.removed(document, metadata, delete_row).text);
            before.lemma_removed_wf(document, metadata, delete_row);
        }
    }
}

} // verus!
