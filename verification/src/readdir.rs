//! Listing directories. Every directory has one stable order of entries;
//! the cookie of an entry is its place in that order, counted from one,
//! and a listing that continues at a cookie holds what follows it.

use crate::attr::{Errno, FileType};
use crate::entities::views;
use crate::ids::DocumentUuid;
use crate::index::{BiblFs, FsView, Node, QUERY_DIR_INO, ROOT_DIR_INO, SQL_TEXT_FILE_INO, TAG_DIR_INO};
use crate::lookup::{QUERY_DIR_NAME, SQL_RESULT_FILE_NAME, SQL_TEXT_FILE_NAME, TAGS_DIR_NAME};
use crate::store::{Store, StoreState};
use vstd::prelude::*;
use vstd::string::StringExecFns;

verus! {

/// The name by which a directory lists itself.
pub const DOT: &'static str = ".";

/// The name by which a directory lists its parent.
pub const DOT_DOT: &'static str = "..";

/// One entry of a directory, before it is given a cookie.
#[derive(Debug)]
pub struct Item {
    pub ino: u64,
    pub kind: FileType,
    pub name: String,
}

/// The value of an [`Item`].
pub struct ItemView {
    pub ino: u64,
    pub kind: FileType,
    pub name: Seq<char>,
}

impl View for Item {
    type V = ItemView;

    open spec fn view(&self) -> ItemView {
        ItemView { ino: self.ino, kind: self.kind, name: self.name@ }
    }
}

/// One entry of a directory as a listing reports it.
#[derive(Debug)]
pub struct DirEntry {
    pub ino: u64,
    /// The place of the entry in its directory, counted from one.
    pub cookie: u64,
    pub kind: FileType,
    pub name: String,
}

/// The value of a [`DirEntry`].
pub struct DirEntryView {
    pub ino: u64,
    pub cookie: u64,
    pub kind: FileType,
    pub name: Seq<char>,
}

impl View for DirEntry {
    type V = DirEntryView;

    open spec fn view(&self) -> DirEntryView {
        DirEntryView { ino: self.ino, cookie: self.cookie, kind: self.kind, name: self.name@ }
    }
}

/// The entry for a directory `ino` under `name`.
pub open spec fn dir_item(ino: u64, name: Seq<char>) -> ItemView {
    ItemView { ino, kind: FileType::Directory, name }
}

/// The entry for a file `ino` under `name`.
pub open spec fn file_item(ino: u64, name: Seq<char>) -> ItemView {
    ItemView { ino, kind: FileType::RegularFile, name }
}

/// The entries of a directory with their cookies: each entry's cookie is
/// its place, counted from one.
pub open spec fn numbered(items: Seq<ItemView>) -> Seq<DirEntryView> {
    Seq::new(
        items.len(),
        |j: int|
            DirEntryView {
                ino: items[j].ino,
                cookie: (j + 1) as u64,
                kind: items[j].kind,
                name: items[j].name,
            },
    )
}

/// How many entries a listing that continues at `offset` leaves out.
pub open spec fn skipped(len: int, offset: i64) -> int {
    if offset < 0 {
        0
    } else if offset > len {
        len
    } else {
        offset as int
    }
}

/// The listing of `items` that continues at `offset`: the entries whose
/// cookie is greater than `offset`.
pub open spec fn continued(items: Seq<ItemView>, offset: i64) -> Seq<DirEntryView> {
    numbered(items).skip(skipped(items.len() as int, offset))
}

impl FsView {
    /// The entry of the file at place `i`.
    pub open spec fn item_of_file(self, i: int) -> ItemView {
        file_item(self.file_ino(i), self.files[i].name)
    }

    /// The entries of the first `n` files.
    pub open spec fn file_items(self, n: int) -> Seq<ItemView> {
        Seq::new(n as nat, |i: int| self.item_of_file(i))
    }

    /// The entries of the first `n` tags.
    pub open spec fn tag_items(self, n: int) -> Seq<ItemView> {
        Seq::new(n as nat, |i: int| dir_item(self.tag_ino(i), self.tags[i].data))
    }

    /// The entries of those among the first `n` files that belong to
    /// `document`.
    pub open spec fn items_of_document(self, document: DocumentUuid, n: int) -> Seq<ItemView>
        decreases n,
    {
        if n <= 0 {
            Seq::empty()
        } else if self.files[n - 1].document_uuid == document {
            self.items_of_document(document, n - 1).push(self.item_of_file(n - 1))
        } else {
            self.items_of_document(document, n - 1)
        }
    }

    /// The entries of the files of the first `m` of `documents`, document
    /// by document.
    pub open spec fn items_of_documents(self, documents: Seq<DocumentUuid>, m: int) -> Seq<ItemView>
        decreases m,
    {
        if m <= 0 {
            Seq::empty()
        } else {
            self.items_of_documents(documents, m - 1) + self.items_of_document(
                documents[m - 1],
                self.files.len() as int,
            )
        }
    }

    /// The index after `ino` was listed. Listing a query directory brings
    /// its results up to date, `found` being what the search for its
    /// phrase gives; nothing else changes.
    pub open spec fn listed(self, ino: u64, found: Result<Seq<DocumentUuid>, Seq<char>>) -> FsView {
        match self.node(ino) {
            Some(Node::Query(k)) => self.refreshed(k as int, found),
            _ => self,
        }
    }

    /// The phrase that a listing of `ino` searches for.
    pub open spec fn listed_phrase(self, ino: u64) -> Seq<char> {
        match self.node(ino) {
            Some(Node::Query(k)) => self.queries[k as int].phrase,
            _ => Seq::empty(),
        }
    }

    /// The entries of the directory `ino` in their order, the store being
    /// in `state`; `None` where `ino` is no directory.
    ///
    /// The root holds the tag directory, the query directory and every
    /// file; the tag directory one directory for each tag; the query
    /// directory the statement file of the default query; a query
    /// directory its own two synthesized files and the files of the
    /// documents found; a tag's directory the files of the documents that
    /// bear the tag.
    pub open spec fn listing(self, state: StoreState, ino: u64) -> Option<Seq<ItemView>> {
        match self.node(ino) {
            Some(Node::Root) => Some(
                seq![
                    dir_item(ROOT_DIR_INO, DOT@),
                    dir_item(ROOT_DIR_INO, DOT_DOT@),
                    dir_item(TAG_DIR_INO, TAGS_DIR_NAME@),
                    dir_item(QUERY_DIR_INO, QUERY_DIR_NAME@),
                ] + self.file_items(self.files.len() as int),
            ),
            Some(Node::TagDir) => Some(
                seq![dir_item(TAG_DIR_INO, DOT@), dir_item(ROOT_DIR_INO, DOT_DOT@)]
                    + self.tag_items(self.tags.len() as int),
            ),
            Some(Node::QueryDir) => Some(
                seq![
                    dir_item(QUERY_DIR_INO, DOT@),
                    dir_item(ROOT_DIR_INO, DOT_DOT@),
                    file_item(SQL_TEXT_FILE_INO, SQL_TEXT_FILE_NAME@),
                ],
            ),
            Some(Node::Query(k)) => Some(
                seq![
                    dir_item(ino, DOT@),
                    dir_item(QUERY_DIR_INO, DOT_DOT@),
                    file_item(self.statement_ino(k as int), SQL_TEXT_FILE_NAME@),
                    file_item(self.results_ino(k as int), SQL_RESULT_FILE_NAME@),
                ] + match self.queries[k as int].results {
                    Ok(ids) => self.items_of_documents(ids, ids.len() as int),
                    Err(_) => Seq::empty(),
                },
            ),
            Some(Node::Tag(i)) => Some(
                seq![dir_item(ino, DOT@), dir_item(TAG_DIR_INO, DOT_DOT@)] + self.items_of_documents(
                    state.holders(self.tags[i as int].uuid, None),
                    state.holders(self.tags[i as int].uuid, None).len() as int,
                ),
            ),
            _ => None,
        }
    }

    /// The answer to a listing of `ino` that continues at `offset`.
    pub open spec fn readdir_reply(self, state: StoreState, ino: u64, offset: i64) -> Result<
        Seq<DirEntryView>,
        Errno,
    > {
        match self.listing(state, ino) {
            Some(items) => Ok(continued(items, offset)),
            None => Err(Errno::NoEntry),
        }
    }
}

/// The value of what a listing gave.
pub open spec fn readdir_view(reply: Result<Vec<DirEntry>, Errno>) -> Result<Seq<DirEntryView>, Errno> {
    match reply {
        Ok(entries) => Ok(views(entries@)),
        Err(e) => Err(e),
    }
}

/// Makes the entry for a directory.
fn dir(ino: u64, name: &str) -> (item: Item)
    ensures
        item@ == dir_item(ino, name@),
{
    Item { ino, kind: FileType::Directory, name: String::from_str(name) }
}

/// Makes the entry for a file.
fn file(ino: u64, name: &str) -> (item: Item)
    ensures
        item@ == file_item(ino, name@),
{
    Item { ino, kind: FileType::RegularFile, name: String::from_str(name) }
}

/// Gives every entry after the first `skipped(len, offset)` its cookie.
pub fn number(items: &Vec<Item>, offset: i64) -> (entries: Vec<DirEntry>)
    ensures
        views(entries@) == continued(views(items@), offset),
{
    let len = items.len();
    let start: usize = if offset < 0 {
        0
    } else if offset as u64 > len as u64 {
        len
    } else {
        offset as usize
    };
    let mut entries: Vec<DirEntry> = Vec::new();
    let mut j: usize = start;
    while j < len
        invariant
            start <= j <= len,
            len == items@.len(),
            start == skipped(len as int, offset),
            views(entries@) == numbered(views(items@)).subrange(start as int, j as int),
        decreases len - j,
    {
        let ghost before = views(entries@);
        let item = &items[j];
        let entry = DirEntry {
            ino: item.ino,
            cookie: j as u64 + 1,
            kind: item.kind,
            name: item.name.clone(),
        };
        entries.push(entry);
        assert(views(items@)[j as int] == item@);
        assert(views(entries@) =~= before.push(numbered(views(items@))[j as int]));
        assert(numbered(views(items@)).subrange(start as int, j + 1) =~= numbered(
            views(items@),
        ).subrange(start as int, j as int).push(numbered(views(items@))[j as int]));
        j += 1;
    }
    assert(numbered(views(items@)).subrange(start as int, len as int) =~= numbered(
        views(items@),
    ).skip(start as int));
    entries
}

impl BiblFs {
    /// Appends the entries of the files of `document`.
    fn push_files_of(&self, items: &mut Vec<Item>, document: DocumentUuid)
        requires
            self.wf(),
        ensures
            views(final(items)@) == views(old(items)@) + self@.items_of_document(
                document,
                self@.files.len() as int,
            ),
    {
        let files = self.files();
        let mut i: usize = 0;
        assert(views(items@) =~= views(old(items)@) + self@.items_of_document(document, 0));
        while i < files.len()
            invariant
                i <= files@.len(),
                self.wf(),
                views(files@) == self@.files,
                views(items@) == views(old(items)@) + self@.items_of_document(document, i as int),
            decreases files@.len() - i,
        {
            assert(self@.files[i as int] == files@[i as int]@);
            if files[i].document_uuid == document {
                let ghost before = views(items@);
                let item = Item {
                    ino: self.file_ino(i),
                    kind: FileType::RegularFile,
                    name: files[i].name.clone(),
                };
                items.push(item);
                assert(views(items@) =~= before.push(self@.item_of_file(i as int)));
                assert(views(items@) =~= views(old(items)@) + self@.items_of_document(
                    document,
                    i + 1,
                ));
            }
            i += 1;
        }
    }

    /// Appends the entries of the files of `documents`, document by
    /// document.
    fn push_files_of_all(&self, items: &mut Vec<Item>, documents: &Vec<DocumentUuid>)
        requires
            self.wf(),
        ensures
            views(final(items)@) == views(old(items)@) + self@.items_of_documents(
                documents@,
                documents@.len() as int,
            ),
    {
        let mut m: usize = 0;
        assert(views(items@) =~= views(old(items)@) + self@.items_of_documents(documents@, 0));
        while m < documents.len()
            invariant
                m <= documents@.len(),
                self.wf(),
                views(items@) == views(old(items)@) + self@.items_of_documents(documents@, m as int),
            decreases documents@.len() - m,
        {
            self.push_files_of(items, documents[m]);
            assert(views(items@) =~= views(old(items)@) + self@.items_of_documents(
                documents@,
                m + 1,
            ));
            m += 1;
        }
    }

    /// Appends the entry of every file.
    fn push_all_files(&self, items: &mut Vec<Item>)
        requires
            self.wf(),
        ensures
            views(final(items)@) == views(old(items)@) + self@.file_items(self@.files.len() as int),
    {
        let files = self.files();
        let mut i: usize = 0;
        assert(views(items@) =~= views(old(items)@) + self@.file_items(0));
        while i < files.len()
            invariant
                i <= files@.len(),
                self.wf(),
                views(files@) == self@.files,
                views(items@) == views(old(items)@) + self@.file_items(i as int),
            decreases files@.len() - i,
        {
            assert(self@.files[i as int] == files@[i as int]@);
            let ghost before = views(items@);
            let item = Item {
                ino: self.file_ino(i),
                kind: FileType::RegularFile,
                name: files[i].name.clone(),
            };
            items.push(item);
            assert(views(items@) =~= before.push(self@.item_of_file(i as int)));
            assert(views(items@) =~= views(old(items)@) + self@.file_items(i + 1));
            i += 1;
        }
    }

    /// Appends the entry of every tag.
    fn push_all_tags(&self, items: &mut Vec<Item>)
        requires
            self.wf(),
        ensures
            views(final(items)@) == views(old(items)@) + self@.tag_items(self@.tags.len() as int),
    {
        let tags = self.tags();
        let mut i: usize = 0;
        assert(views(items@) =~= views(old(items)@) + self@.tag_items(0));
        while i < tags.len()
            invariant
                i <= tags@.len(),
                self.wf(),
                views(tags@) == self@.tags,
                views(items@) == views(old(items)@) + self@.tag_items(i as int),
            decreases tags@.len() - i,
        {
            assert(self@.tags[i as int] == tags@[i as int]@);
            let ghost before = views(items@);
            let item = Item {
                ino: self.tag_ino(i),
                kind: FileType::Directory,
                name: tags[i].data.clone(),
            };
            items.push(item);
            assert(views(items@) =~= before.push(
                dir_item(self@.tag_ino(i as int), self@.tags[i as int].data),
            ));
            assert(views(items@) =~= views(old(items)@) + self@.tag_items(i + 1));
            i += 1;
        }
    }

    /// The entries of the directory `ino` in their order.
    pub fn list<S: Store>(&self, store: &S, ino: u64) -> (items: Option<Vec<Item>>)
        requires
            self.wf(),
            store.state().wf(),
        ensures
            match items {
                Some(items) => self@.listing(store.state(), ino) == Some(views(items@)),
                None => self@.listing(store.state(), ino) is None,
            },
    {
        let mut items: Vec<Item> = Vec::new();
        match self.classify(ino) {
            Some(Node::Root) => {
                items.push(dir(ROOT_DIR_INO, DOT));
                items.push(dir(ROOT_DIR_INO, DOT_DOT));
                items.push(dir(TAG_DIR_INO, TAGS_DIR_NAME));
                items.push(dir(QUERY_DIR_INO, QUERY_DIR_NAME));
                assert(views(items@) =~= seq![
                    dir_item(ROOT_DIR_INO, DOT@),
                    dir_item(ROOT_DIR_INO, DOT_DOT@),
                    dir_item(TAG_DIR_INO, TAGS_DIR_NAME@),
                    dir_item(QUERY_DIR_INO, QUERY_DIR_NAME@),
                ]);
                self.push_all_files(&mut items);
                Some(items)
            },
            Some(Node::TagDir) => {
                items.push(dir(TAG_DIR_INO, DOT));
                items.push(dir(ROOT_DIR_INO, DOT_DOT));
                assert(views(items@) =~= seq![
                    dir_item(TAG_DIR_INO, DOT@),
                    dir_item(ROOT_DIR_INO, DOT_DOT@),
                ]);
                self.push_all_tags(&mut items);
                Some(items)
            },
            Some(Node::QueryDir) => {
                items.push(dir(QUERY_DIR_INO, DOT));
                items.push(dir(ROOT_DIR_INO, DOT_DOT));
                items.push(file(SQL_TEXT_FILE_INO, SQL_TEXT_FILE_NAME));
                assert(views(items@) =~= seq![
                    dir_item(QUERY_DIR_INO, DOT@),
                    dir_item(ROOT_DIR_INO, DOT_DOT@),
                    file_item(SQL_TEXT_FILE_INO, SQL_TEXT_FILE_NAME@),
                ]);
                Some(items)
            },
            Some(Node::Query(k)) => {
                items.push(dir(ino, DOT));
                items.push(dir(QUERY_DIR_INO, DOT_DOT));
                items.push(file(self.statement_ino(k), SQL_TEXT_FILE_NAME));
                items.push(file(self.results_ino(k), SQL_RESULT_FILE_NAME));
                assert(views(items@) =~= seq![
                    dir_item(ino, DOT@),
                    dir_item(QUERY_DIR_INO, DOT_DOT@),
                    file_item(self@.statement_ino(k as int), SQL_TEXT_FILE_NAME@),
                    file_item(self@.results_ino(k as int), SQL_RESULT_FILE_NAME@),
                ]);
                let queries = self.queries();
                assert(views(queries@)[k as int] == queries@[k as int]@);
                match &queries[k].results {
                    Ok(ids) => {
                        self.push_files_of_all(&mut items, ids);
                    },
                    Err(_) => {
                        assert(views(items@) =~= views(items@) + Seq::<ItemView>::empty());
                    },
                }
                Some(items)
            },
            Some(Node::Tag(i)) => {
                items.push(dir(ino, DOT));
                items.push(dir(TAG_DIR_INO, DOT_DOT));
                assert(views(items@) =~= seq![dir_item(ino, DOT@), dir_item(TAG_DIR_INO, DOT_DOT@)]);
                let tags = self.tags();
                assert(views(tags@)[i as int] == tags@[i as int]@);
                let documents = store.documents_with(tags[i].uuid, None);
                self.push_files_of_all(&mut items, &documents);
                Some(items)
            },
            _ => None,
        }
    }

    /// Lists the directory `ino`, continuing at the cookie `offset`.
    /// Listing a query directory searches first where its results are
    /// stale.
    pub fn readdir<S: Store>(&mut self, store: &S, ino: u64, offset: i64) -> (reply: Result<
        Vec<DirEntry>,
        Errno,
    >)
        requires
            old(self).wf(),
            store.state().wf(),
        ensures
            final(self).wf(),
            final(self)@ == old(self)@.listed(ino, store.found(old(self)@.listed_phrase(ino))),
            readdir_view(reply) == final(self)@.readdir_reply(store.state(), ino, offset),
    {
        match self.classify(ino) {
            Some(Node::Query(k)) => {
                self.refresh(store, k);
            },
            _ => {},
        }
        match self.list(store, ino) {
            Some(items) => Ok(number(&items, offset)),
            None => Err(Errno::NoEntry),
        }
    }
}

} // verus!
