use biblfs::attr::{Errno, FileAttr, FileType, DIR_PERM, FILE_PERM, TTL_SECONDS};
use biblfs::datetime::{CreatedTime, DateTime, LastModifiedTime};
use biblfs::entities::{Document, File};
use biblfs::ids::{BinaryMetadataUuid, DocumentUuid, TextMetadataUuid, Uuid};
use biblfs::index::{
    BiblFs, LoadError, Node, FIRST_DYNAMIC_INO, INODE_LIMIT, QUERY_DIR_INO, RESULTS_INO_BASE,
    ROOT_DIR_INO, SQL_RESULT_FILE_INO, SQL_TEXT_FILE_INO, STATEMENT_INO_BASE, TAG_DIR_INO,
};
use biblfs::kind::{InodeKind, QueryFile};
use biblfs::lookup::{Attr, Entry, SetAttr, TimeOrNow};
use biblfs::memory::MemoryStore;
use biblfs::store::{Store, TextRow};

const DOC: DocumentUuid = DocumentUuid(Uuid(0x1111_1111_1111_1111_1111_1111_1111_1111));
const OTHER_DOC: DocumentUuid = DocumentUuid(Uuid(0x2222_2222_2222_2222_2222_2222_2222_2222));
const FILE: BinaryMetadataUuid = BinaryMetadataUuid(Uuid(0xf1));
const TAG: TextMetadataUuid = TextMetadataUuid(Uuid(0xa1));

fn document(uuid: DocumentUuid, title: &str) -> Document {
    Document {
        uuid,
        title: title.to_string(),
        title_suffix: None,
        created: CreatedTime::default(),
        last_modified: LastModifiedTime::default(),
    }
}

fn file(row_id: i64, uuid: BinaryMetadataUuid, name: &str, size: u64, owner: DocumentUuid) -> File {
    File {
        row_id,
        uuid,
        name: name.to_string(),
        size,
        document_uuid: owner,
        created: CreatedTime(DateTime { seconds: 100, nanos: 5 }),
        last_modified: LastModifiedTime(DateTime { seconds: 200, nanos: 7 }),
    }
}

/// One document with one file named `report.pdf` and the tag `history`.
fn library() -> MemoryStore {
    let mut store = MemoryStore::new();
    store.insert_document(document(DOC, "Report"));
    store.insert_file(file(1, FILE, "report.pdf", 8, DOC), b"%PDF-1.4".to_vec());
    assert!(store.insert_text(TextRow {
        uuid: TAG,
        name: "tag".to_string(),
        data: "history".to_string(),
    }));
    assert!(store.attach(DOC, TAG));
    store
}

fn names(fs: &mut BiblFs, store: &MemoryStore, ino: u64) -> Vec<String> {
    fs.readdir(store, ino, 0).unwrap().into_iter().map(|e| e.name).collect()
}

fn cat(fs: &mut BiblFs, store: &MemoryStore, ino: u64) -> String {
    String::from_utf8(fs.read(store, ino, 0, 65536).unwrap()).unwrap()
}

#[test]
fn mounted_library_shows_files_tags_and_queries() {
    let store = library();
    let mut fs = BiblFs::load(&store, false).unwrap();

    // ls /
    assert_eq!(names(&mut fs, &store, ROOT_DIR_INO), [".", "..", "tags", "query", "report.pdf"]);

    // ls /tags and ls /tags/history
    let tags = fs.lookup(ROOT_DIR_INO, b"tags").unwrap();
    assert_eq!(tags.attr.ino, TAG_DIR_INO);
    assert_eq!(names(&mut fs, &store, TAG_DIR_INO), [".", "..", "history"]);
    let history = fs.lookup(TAG_DIR_INO, b"history").unwrap();
    assert_eq!(history.attr.ino, 6);
    assert_eq!(names(&mut fs, &store, history.attr.ino), [".", "..", "report.pdf"]);

    // cat /query/history/results.txt
    let query = fs.lookup(ROOT_DIR_INO, b"query").unwrap();
    assert_eq!(query.attr.ino, QUERY_DIR_INO);
    let dir = fs.lookup(QUERY_DIR_INO, b"history").unwrap();
    assert_eq!(dir.attr.ino, 8);
    assert_eq!(dir.attr.kind, FileType::Directory);
    let results = fs.lookup(dir.attr.ino, b"results.txt").unwrap();
    assert_eq!(results.attr.ino, 8 + RESULTS_INO_BASE);
    assert_eq!(results.attr.kind, FileType::RegularFile);
    assert_eq!(cat(&mut fs, &store, results.attr.ino), "11111111-1111-1111-1111-111111111111");
    let sql = fs.lookup(dir.attr.ino, b"query.sql").unwrap();
    assert_eq!(sql.attr.ino, 8 + STATEMENT_INO_BASE);
    assert_eq!(
        cat(&mut fs, &store, sql.attr.ino),
        "SELECT uuid FROM document_title_authors_text_view_fts(history)"
    );

    // cat /query/nonexistent-phrase/results.txt
    let none = fs.lookup(QUERY_DIR_INO, b"nonexistent-phrase").unwrap();
    assert_eq!(none.attr.ino, 9);
    let empty = fs.lookup(none.attr.ino, b"results.txt").unwrap();
    assert_eq!(empty.attr.ino, 9 + RESULTS_INO_BASE);
    assert_eq!(cat(&mut fs, &store, empty.attr.ino), "");
    // What was read under the first directory is still there.
    assert_eq!(cat(&mut fs, &store, results.attr.ino), "11111111-1111-1111-1111-111111111111");
}

#[test]
fn query_directory_lists_the_files_of_the_documents_found() {
    let store = library();
    let mut fs = BiblFs::load(&store, false).unwrap();
    let dir = fs.lookup(QUERY_DIR_INO, b"history").unwrap().attr.ino;
    assert_eq!(
        names(&mut fs, &store, dir),
        [".", "..", "query.sql", "results.txt", "report.pdf"]
    );
    let by_title = fs.lookup(QUERY_DIR_INO, b"Report").unwrap().attr.ino;
    assert_eq!(
        names(&mut fs, &store, by_title),
        [".", "..", "query.sql", "results.txt", "report.pdf"]
    );
    let nothing = fs.lookup(QUERY_DIR_INO, b"nothing").unwrap().attr.ino;
    assert_eq!(names(&mut fs, &store, nothing), [".", "..", "query.sql", "results.txt"]);
    assert_eq!(names(&mut fs, &store, QUERY_DIR_INO), [".", "..", "query.sql"]);
}

#[test]
fn lookup_by_name_agrees_with_getattr_by_inode() {
    let store = library();
    let mut fs = BiblFs::load(&store, false).unwrap();
    let entry = fs.lookup(ROOT_DIR_INO, b"report.pdf").unwrap();
    assert_eq!(entry.attr.ino, 7);
    assert_eq!(fs.getattr(entry.attr.ino), Ok(Attr { ttl: TTL_SECONDS, attr: entry.attr }));
    assert_eq!(
        entry,
        Entry {
            ttl: 1,
            attr: FileAttr {
                ino: 7,
                size: 8,
                blocks: 1,
                atime: 0,
                mtime: 200,
                ctime: 100,
                crtime: 0,
                kind: FileType::RegularFile,
                perm: 0o744,
                nlink: 1,
                rdev: 0,
                flags: 0,
                blksize: 512,
            },
            generation: 0,
        }
    );
    assert_eq!(FILE_PERM, 0o744);
}

#[test]
fn a_later_file_of_the_same_name_is_the_one_that_the_name_resolves_to() {
    let mut store = library();
    store.insert_file(file(2, BinaryMetadataUuid(Uuid(0xf2)), "report.pdf", 3, DOC), b"abc".to_vec());
    let mut fs = BiblFs::load(&store, false).unwrap();
    let entry = fs.lookup(ROOT_DIR_INO, b"report.pdf").unwrap();
    assert_eq!(entry.attr.ino, 8);
    assert_eq!(entry.attr.size, 3);
    // Both files keep their inodes.
    assert_eq!(fs.getattr(7).unwrap().attr.size, 8);
    assert_eq!(fs.getattr(8).unwrap().attr.size, 3);
}

#[test]
fn directories_have_directory_attributes() {
    let store = library();
    let mut fs = BiblFs::load(&store, false).unwrap();
    let expected = |ino: u64| FileAttr {
        ino,
        size: 0,
        blocks: 0,
        atime: 0,
        mtime: 0,
        ctime: 0,
        crtime: 0,
        kind: FileType::Directory,
        perm: 0o755,
        nlink: 2,
        rdev: 0,
        flags: 0,
        blksize: 512,
    };
    assert_eq!(DIR_PERM, 0o755);
    for ino in [ROOT_DIR_INO, TAG_DIR_INO, QUERY_DIR_INO, 6] {
        assert_eq!(fs.getattr(ino), Ok(Attr { ttl: 1, attr: expected(ino) }));
    }
    let dir = fs.lookup(QUERY_DIR_INO, b"history").unwrap();
    assert_eq!(dir.attr, expected(8));
    assert_eq!(fs.getattr(8).unwrap().attr, expected(8));
    assert_eq!(fs.getattr(0), Err(Errno::NoEntry));
    assert_eq!(fs.getattr(9), Err(Errno::NoEntry));
    assert_eq!(fs.getattr(u64::MAX), Err(Errno::NoEntry));
}

#[test]
fn synthesized_files_report_their_length() {
    let store = library();
    let mut fs = BiblFs::load(&store, false).unwrap();
    let dir = fs.lookup(QUERY_DIR_INO, b"history").unwrap().attr.ino;
    let sql = fs.lookup(dir, b"query.sql").unwrap();
    assert_eq!(sql.attr.ino, dir + STATEMENT_INO_BASE);
    assert_eq!(sql.attr.kind, FileType::RegularFile);
    assert_eq!(
        sql.attr.size,
        "SELECT uuid FROM document_title_authors_text_view_fts(history)".len() as u64
    );
    // The search has not run yet: no results are kept.
    let results = fs.lookup(dir, b"results.txt").unwrap().attr.ino;
    assert_eq!(fs.getattr(results).unwrap().attr.size, 0);
    assert_eq!(cat(&mut fs, &store, results).len(), 36);
    assert_eq!(fs.getattr(results).unwrap().attr.size, 36);
    assert_eq!(fs.getattr(results).unwrap().attr.ino, results);
    assert_eq!(fs.lookup(dir, b"results.txt").unwrap().attr, fs.getattr(results).unwrap().attr);
}

#[test]
fn the_files_of_the_default_query_are_empty() {
    let store = library();
    let mut fs = BiblFs::load(&store, false).unwrap();
    let dir = fs.lookup(QUERY_DIR_INO, b"history").unwrap().attr.ino;
    let results = fs.lookup(dir, b"results.txt").unwrap().attr.ino;
    assert_eq!(cat(&mut fs, &store, results).len(), 36);
    // Whatever was searched for: the files with the fixed inodes show the
    // default query, an empty statement that has found nothing.
    for ino in [SQL_TEXT_FILE_INO, SQL_RESULT_FILE_INO] {
        assert_eq!(fs.getattr(ino).unwrap().attr.size, 0);
        assert_eq!(fs.getattr(ino).unwrap().attr.ino, ino);
        assert_eq!(fs.getattr(ino).unwrap().attr.kind, FileType::RegularFile);
        assert_eq!(cat(&mut fs, &store, ino), "");
    }
    assert_eq!(fs.lookup(ROOT_DIR_INO, b"query.sql").unwrap().attr.ino, SQL_TEXT_FILE_INO);
    assert_eq!(fs.lookup(ROOT_DIR_INO, b"results.txt").unwrap().attr.ino, SQL_RESULT_FILE_INO);
    assert_eq!(BiblFs::default_query().as_sql(), "");
}

#[test]
fn names_that_do_not_resolve_have_no_entry() {
    let store = library();
    let mut fs = BiblFs::load(&store, false).unwrap();
    assert_eq!(fs.lookup(ROOT_DIR_INO, b"missing.pdf"), Err(Errno::NoEntry));
    assert_eq!(fs.lookup(TAG_DIR_INO, b"science"), Err(Errno::NoEntry));
    assert_eq!(fs.lookup(TAG_DIR_INO, b"tags"), Err(Errno::NoEntry));
    assert_eq!(fs.lookup(ROOT_DIR_INO, b"\xff\xfe"), Err(Errno::NoEntry));
    assert_eq!(fs.lookup(TAG_DIR_INO, b"\xff"), Err(Errno::NoEntry));
    assert_eq!(fs.lookup(QUERY_DIR_INO, b"\xc3\x28"), Err(Errno::NoEntry));
    // No query directory was made for the name that is not text.
    assert_eq!(fs.queries().len(), 0);
}

#[test]
fn fixed_names_resolve_wherever_they_are_looked_up() {
    let store = library();
    let mut fs = BiblFs::load(&store, false).unwrap();
    assert_eq!(fs.lookup(7, b"tags").unwrap().attr.ino, TAG_DIR_INO);
    assert_eq!(fs.lookup(6, b"tags").unwrap().attr.ino, TAG_DIR_INO);
    assert_eq!(fs.lookup(ROOT_DIR_INO, b"query.sql").unwrap().attr.ino, SQL_TEXT_FILE_INO);
    assert_eq!(fs.lookup(QUERY_DIR_INO, b"results.txt").unwrap().attr.ino, SQL_RESULT_FILE_INO);
    assert_eq!(fs.lookup(ROOT_DIR_INO, b"").unwrap().attr.ino, QUERY_DIR_INO);
    assert_eq!(fs.lookup(6, b"query").unwrap().attr.ino, QUERY_DIR_INO);
    // Files resolve by name in every directory but the two special ones.
    assert_eq!(fs.lookup(6, b"report.pdf").unwrap().attr.ino, 7);
    assert_eq!(fs.queries().len(), 0);
    assert_eq!(fs.resolve_name(ROOT_DIR_INO, &"report.pdf".to_string()), Some(7));
    assert_eq!(fs.resolve_name(TAG_DIR_INO, &"report.pdf".to_string()), None);
    assert_eq!(fs.resolve_name(ROOT_DIR_INO, &"tags".to_string()), Some(TAG_DIR_INO));
}

#[test]
fn under_the_query_directory_every_name_is_a_phrase_but_those_of_the_two_files() {
    let store = library();
    let mut fs = BiblFs::load(&store, false).unwrap();
    let tags = fs.lookup(QUERY_DIR_INO, b"tags").unwrap();
    assert_eq!(tags.attr.ino, 8);
    assert_eq!(fs.resolve(8), Some(InodeKind::DynamicQuery("tags".to_string())));
    assert_eq!(fs.lookup(QUERY_DIR_INO, b"query").unwrap().attr.ino, 9);
    assert_eq!(fs.lookup(QUERY_DIR_INO, b"").unwrap().attr.ino, 10);
    assert_eq!(fs.lookup(QUERY_DIR_INO, b"report.pdf").unwrap().attr.ino, 11);
    assert_eq!(fs.queries().len(), 4);
    // The two files that the query directory's listing may show are no phrases.
    assert_eq!(fs.lookup(QUERY_DIR_INO, b"query.sql").unwrap().attr.ino, SQL_TEXT_FILE_INO);
    assert_eq!(fs.lookup(QUERY_DIR_INO, b"results.txt").unwrap().attr.ino, SQL_RESULT_FILE_INO);
    assert_eq!(fs.queries().len(), 4);
    // In a query directory the other names resolve as they do elsewhere.
    assert_eq!(fs.lookup(8, b"tags").unwrap().attr.ino, TAG_DIR_INO);
    assert_eq!(fs.lookup(8, b"report.pdf").unwrap().attr.ino, 7);
}

#[test]
fn query_directories_are_made_once_and_keep_their_inodes() {
    let store = library();
    let mut fs = BiblFs::load(&store, false).unwrap();
    assert_eq!(fs.next_inode(), 8);
    let a = fs.lookup(QUERY_DIR_INO, b"alpha").unwrap().attr.ino;
    let b = fs.lookup(QUERY_DIR_INO, b"beta").unwrap().attr.ino;
    let again = fs.lookup(QUERY_DIR_INO, b"alpha").unwrap().attr.ino;
    assert_eq!((a, b, again), (8, 9, 8));
    assert_eq!(fs.next_inode(), 10);
    assert_eq!(fs.queries().len(), 2);
    assert_eq!(fs.queries()[0].phrase, "alpha");
    assert_eq!(fs.queries()[0].ino, 8);
    assert_eq!(fs.queries()[1].phrase, "beta");
    assert_eq!(fs.queries()[1].ino, 9);
    assert_eq!(fs.classify(8), Some(Node::Query(0)));
    assert_eq!(fs.classify(9), Some(Node::Query(1)));
    assert_eq!(fs.classify(10), None);
    // The files of each directory have inodes of their own.
    assert_eq!(fs.classify(8 + STATEMENT_INO_BASE), Some(Node::Statement(0)));
    assert_eq!(fs.classify(9 + STATEMENT_INO_BASE), Some(Node::Statement(1)));
    assert_eq!(fs.classify(8 + RESULTS_INO_BASE), Some(Node::Results(0)));
    assert_eq!(fs.classify(9 + RESULTS_INO_BASE), Some(Node::Results(1)));
    assert_eq!(fs.statement_ino(1), 9 + STATEMENT_INO_BASE);
    assert_eq!(fs.results_ino(0), 8 + RESULTS_INO_BASE);
    for ino in [
        10 + STATEMENT_INO_BASE,
        10 + RESULTS_INO_BASE,
        7 + STATEMENT_INO_BASE,
        7 + RESULTS_INO_BASE,
        STATEMENT_INO_BASE,
        RESULTS_INO_BASE,
        INODE_LIMIT - 1,
        u64::MAX,
    ] {
        assert_eq!(fs.classify(ino), None);
        assert_eq!(fs.getattr(ino), Err(Errno::NoEntry));
    }
    assert_eq!(INODE_LIMIT, 1 << 61);
    assert_eq!(STATEMENT_INO_BASE, 1 << 61);
    assert_eq!(RESULTS_INO_BASE, 1 << 62);
    // Earlier inodes mean what they meant.
    assert_eq!(fs.classify(6), Some(Node::Tag(0)));
    assert_eq!(fs.classify(7), Some(Node::File(0)));
}

#[test]
fn results_follow_the_phrase_and_are_kept_apart() {
    let mut store = library();
    store.insert_document(document(OTHER_DOC, "physics"));
    let mut fs = BiblFs::load(&store, false).unwrap();
    let history = fs.lookup(QUERY_DIR_INO, b"history").unwrap().attr.ino;
    let physics = fs.lookup(QUERY_DIR_INO, b"physics").unwrap().attr.ino;
    assert_ne!(history, physics);

    let first = fs.lookup(history, b"results.txt").unwrap().attr.ino;
    assert_eq!(cat(&mut fs, &store, first), "11111111-1111-1111-1111-111111111111");
    let second = fs.lookup(physics, b"results.txt").unwrap().attr.ino;
    assert_ne!(first, second);
    assert_eq!(cat(&mut fs, &store, second), "22222222-2222-2222-2222-222222222222");
    // Back to the first: its own results, not those read last.
    fs.lookup(history, b"results.txt").unwrap();
    assert_eq!(cat(&mut fs, &store, first), "11111111-1111-1111-1111-111111111111");
    // The order of the lookups does not matter.
    fs.lookup(QUERY_DIR_INO, b"physics").unwrap();
    fs.lookup(QUERY_DIR_INO, b"history").unwrap();
    assert_eq!(cat(&mut fs, &store, first), "11111111-1111-1111-1111-111111111111");

    // Each directory keeps what its own search gave.
    assert_eq!(fs.queries()[0].results, Ok(vec![DOC]));
    assert_eq!(fs.queries()[1].results, Ok(vec![OTHER_DOC]));
}

#[test]
fn reads_without_a_lookup_between_show_each_directory_its_own_results() {
    let mut store = library();
    store.insert_document(document(OTHER_DOC, "physics"));
    let mut fs = BiblFs::load(&store, false).unwrap();
    let d1 = fs.lookup(QUERY_DIR_INO, b"history").unwrap().attr.ino;
    let d2 = fs.lookup(QUERY_DIR_INO, b"physics").unwrap().attr.ino;
    // Both files are looked up first, as a kernel that keeps entries does.
    let r1 = fs.lookup(d1, b"results.txt").unwrap().attr.ino;
    let r2 = fs.lookup(d2, b"results.txt").unwrap().attr.ino;
    let s1 = fs.lookup(d1, b"query.sql").unwrap().attr.ino;
    let s2 = fs.lookup(d2, b"query.sql").unwrap().attr.ino;
    assert_eq!((r1, r2), (d1 + RESULTS_INO_BASE, d2 + RESULTS_INO_BASE));
    assert_eq!((s1, s2), (d1 + STATEMENT_INO_BASE, d2 + STATEMENT_INO_BASE));

    let first = fs.read(&store, r1, 0, 65536).unwrap();
    let second = fs.read(&store, r2, 0, 65536).unwrap();
    let third = fs.read(&store, r1, 0, 65536).unwrap();
    assert_eq!(first, b"11111111-1111-1111-1111-111111111111");
    assert_eq!(second, b"22222222-2222-2222-2222-222222222222");
    assert_eq!(third, first);

    // Nor do listings and reads of the statement under the other directory matter.
    assert_eq!(
        cat(&mut fs, &store, s2),
        "SELECT uuid FROM document_title_authors_text_view_fts(physics)"
    );
    fs.readdir(&store, d2, 0).unwrap();
    assert_eq!(
        cat(&mut fs, &store, s1),
        "SELECT uuid FROM document_title_authors_text_view_fts(history)"
    );
    assert_eq!(fs.read(&store, r1, 0, 65536).unwrap(), first);
    assert_eq!(fs.getattr(r1).unwrap().attr.size, 36);
    assert_eq!(fs.getattr(r2).unwrap().attr.size, 36);
    assert_eq!(fs.getattr(s1).unwrap().attr.size, 62);
}

#[test]
fn results_are_searched_again_when_the_directory_is_looked_up_again() {
    let mut store = library();
    let mut fs = BiblFs::load(&store, false).unwrap();
    let dir = fs.lookup(QUERY_DIR_INO, b"history").unwrap().attr.ino;
    let results = fs.lookup(dir, b"results.txt").unwrap().attr.ino;
    assert_eq!(cat(&mut fs, &store, results), "11111111-1111-1111-1111-111111111111");
    store.insert_document(document(OTHER_DOC, "history"));
    // Kept results are shown until the directory is looked up again.
    assert_eq!(cat(&mut fs, &store, results), "11111111-1111-1111-1111-111111111111");
    assert!(fs.queries()[0].executed);
    fs.lookup(QUERY_DIR_INO, b"history").unwrap();
    assert!(!fs.queries()[0].executed);
    assert_eq!(
        cat(&mut fs, &store, results),
        "11111111-1111-1111-1111-111111111111\n22222222-2222-2222-2222-222222222222"
    );
}

/// A store whose search rejects every phrase.
struct Rejecting {
    inner: MemoryStore,
}

impl Store for Rejecting {
    fn tags(&self) -> Vec<TextRow> {
        self.inner.tags()
    }

    fn documents(&self) -> Vec<Document> {
        self.inner.documents()
    }

    fn files(&self) -> Vec<File> {
        self.inner.files()
    }

    fn search(&self, phrase: &str) -> Result<Vec<DocumentUuid>, String> {
        Err(format!("fts5: syntax error near \"{}\"", phrase))
    }

    fn blob_len(&self, row_id: i64) -> Option<usize> {
        self.inner.blob_len(row_id)
    }

    fn read_blob(&self, row_id: i64, offset: usize, len: usize) -> Option<Vec<u8>> {
        self.inner.read_blob(row_id, offset, len)
    }

    fn has_xattr(&self, document: DocumentUuid, name: &str) -> bool {
        self.inner.has_xattr(document, name)
    }

    fn xattr_values(&self, document: DocumentUuid, name: &str) -> Vec<String> {
        self.inner.xattr_values(document, name)
    }

    fn xattr_names(&self, document: DocumentUuid) -> Vec<String> {
        self.inner.xattr_names(document)
    }

    fn text_metadata_by_name(&self, document: DocumentUuid, name: &str) -> Option<TextMetadataUuid> {
        self.inner.text_metadata_by_name(document, name)
    }

    fn documents_with(
        &self,
        metadata: TextMetadataUuid,
        except: Option<DocumentUuid>,
    ) -> Vec<DocumentUuid> {
        self.inner.documents_with(metadata, except)
    }

    fn put_xattr(&mut self, document: DocumentUuid, metadata: TextMetadataUuid, name: &str, data: &str) {
        self.inner.put_xattr(document, metadata, name, data)
    }

    fn remove_xattr(&mut self, document: DocumentUuid, metadata: TextMetadataUuid, delete_row: bool) {
        self.inner.remove_xattr(document, metadata, delete_row)
    }
}

#[test]
fn a_rejected_phrase_reads_as_the_error_text() {
    let store = Rejecting { inner: library() };
    let mut fs = BiblFs::load(&store, false).unwrap();
    let dir = fs.lookup(QUERY_DIR_INO, b"\"unbalanced").unwrap().attr.ino;
    let results = fs.lookup(dir, b"results.txt").unwrap().attr.ino;
    let text = String::from_utf8(fs.read(&store, results, 0, 4096).unwrap()).unwrap();
    assert_eq!(text, "fts5: syntax error near \"\"unbalanced\"");
    assert_eq!(fs.getattr(results).unwrap().attr.size, text.len() as u64);
    assert_eq!(fs.queries()[0].results, Err(text));
    // The listing shows the two synthesized files and nothing else.
    let listing: Vec<String> =
        fs.readdir(&store, dir, 0).unwrap().into_iter().map(|e| e.name).collect();
    assert_eq!(listing, [".", "..", "query.sql", "results.txt"]);
}

#[test]
fn setattr_changes_the_times_of_a_file_and_nothing_else() {
    let store = library();
    let mut fs = BiblFs::load(&store, false).unwrap();
    let none = SetAttr {
        mode: None,
        uid: None,
        gid: None,
        size: None,
        atime: None,
        mtime: None,
        ctime: None,
        fh: None,
        crtime: None,
        chgtime: None,
        bkuptime: None,
        flags: None,
    };
    let now = DateTime { seconds: 5000, nanos: 1 };

    // Nothing asked: the attributes as they are.
    assert_eq!(fs.setattr(7, none, now), fs.getattr(7));

    let reply = fs
        .setattr(
            7,
            SetAttr {
                mtime: Some(TimeOrNow::SpecificTime(DateTime { seconds: 300, nanos: 9 })),
                ctime: Some(DateTime { seconds: 150, nanos: 0 }),
                ..none
            },
            now,
        )
        .unwrap();
    assert_eq!(reply.ttl, 1);
    assert_eq!((reply.attr.mtime, reply.attr.ctime), (300, 150));
    assert_eq!(fs.getattr(7), Ok(reply));
    assert_eq!(fs.files()[0].last_modified, LastModifiedTime(DateTime { seconds: 300, nanos: 9 }));
    assert_eq!(fs.files()[0].created, CreatedTime(DateTime { seconds: 150, nanos: 0 }));

    let reply = fs.setattr(7, SetAttr { mtime: Some(TimeOrNow::Now), ..none }, now).unwrap();
    assert_eq!((reply.attr.mtime, reply.attr.ctime), (5000, 150));
    assert_eq!(fs.files()[0].last_modified, LastModifiedTime(now));

    // Anything else is refused, and changes nothing.
    for changes in [
        SetAttr { mode: Some(0o600), ..none },
        SetAttr { uid: Some(0), ..none },
        SetAttr { gid: Some(0), ..none },
        SetAttr { size: Some(0), ..none },
        SetAttr { atime: Some(TimeOrNow::Now), ..none },
        SetAttr { fh: Some(1), ..none },
        SetAttr { crtime: Some(now), ..none },
        SetAttr { chgtime: Some(now), ..none },
        SetAttr { bkuptime: Some(now), ..none },
        SetAttr { flags: Some(0), ..none },
        SetAttr { size: Some(0), mtime: Some(TimeOrNow::SpecificTime(DateTime::default())), ..none },
    ] {
        assert_eq!(fs.setattr(7, changes, now), Err(Errno::NotSupported));
    }
    assert_eq!(fs.getattr(7), Ok(reply));

    // Only files have times to set.
    let mtime = SetAttr { mtime: Some(TimeOrNow::Now), ..none };
    assert_eq!(fs.setattr(ROOT_DIR_INO, mtime, now), Err(Errno::NoEntry));
    assert_eq!(fs.setattr(6, mtime, now), Err(Errno::NoEntry));
    assert_eq!(fs.setattr(SQL_TEXT_FILE_INO, mtime, now), Err(Errno::NoEntry));
    let dir = fs.lookup(QUERY_DIR_INO, b"phrase").unwrap().attr.ino;
    assert_eq!(fs.setattr(dir + RESULTS_INO_BASE, mtime, now), Err(Errno::NoEntry));
    assert_eq!(fs.setattr(99, mtime, now), Err(Errno::NoEntry));
    // A refused field is reported before the inode is looked at.
    assert_eq!(fs.setattr(99, SetAttr { mode: Some(0), ..none }, now), Err(Errno::NotSupported));
}

#[test]
fn inodes_resolve_to_what_they_name() {
    let store = library();
    let mut fs = BiblFs::load(&store, false).unwrap();
    fs.lookup(QUERY_DIR_INO, b"history").unwrap();
    assert_eq!(fs.resolve(1), Some(InodeKind::Root));
    assert_eq!(fs.resolve(2), Some(InodeKind::TagDir));
    assert_eq!(fs.resolve(3), Some(InodeKind::QueryDir));
    assert_eq!(fs.resolve(4), Some(InodeKind::FixedQueryFile(QueryFile::Sql)));
    assert_eq!(fs.resolve(5), Some(InodeKind::FixedQueryFile(QueryFile::Results)));
    assert_eq!(fs.resolve(6), Some(InodeKind::Tag(TAG)));
    assert_eq!(fs.resolve(7), Some(InodeKind::File(FILE)));
    assert_eq!(fs.resolve(8), Some(InodeKind::DynamicQuery("history".to_string())));
    assert_eq!(
        fs.resolve(8 + STATEMENT_INO_BASE),
        Some(InodeKind::DynamicQueryFile("history".to_string(), QueryFile::Sql))
    );
    assert_eq!(
        fs.resolve(8 + RESULTS_INO_BASE),
        Some(InodeKind::DynamicQueryFile("history".to_string(), QueryFile::Results))
    );
    assert_eq!(fs.resolve(9 + RESULTS_INO_BASE), None);
    assert_eq!(fs.resolve(0), None);
    assert_eq!(fs.resolve(9), None);
    assert_eq!(FIRST_DYNAMIC_INO, 6);
}

#[test]
fn index_is_built_from_the_three_scans() {
    let mut store = library();
    store.insert_document(document(OTHER_DOC, "Other"));
    assert!(store.insert_text(TextRow {
        uuid: TextMetadataUuid(Uuid(0xa2)),
        name: "author".to_string(),
        data: "Anonymous".to_string(),
    }));
    assert!(store.insert_text(TextRow {
        uuid: TextMetadataUuid(Uuid(0xa3)),
        name: "tag".to_string(),
        data: "science".to_string(),
    }));
    store.insert_file(file(2, BinaryMetadataUuid(Uuid(0xf2)), "notes.txt", 0, OTHER_DOC), Vec::new());
    let fs = BiblFs::load(&store, true).unwrap();
    assert!(fs.never_replace_common_tags());
    assert_eq!(fs.documents().len(), 2);
    assert_eq!(fs.documents()[1].title, "Other");
    // Tags take the first inodes, in the order of the scan; authors are no tags.
    let tags: Vec<(u64, &str)> = fs.tags().iter().map(|t| (t.ino, t.data.as_str())).collect();
    assert_eq!(tags, [(6, "history"), (7, "science")]);
    assert_eq!(fs.tags()[1].uuid, TextMetadataUuid(Uuid(0xa3)));
    // Files follow.
    assert_eq!(fs.file_ino(0), 8);
    assert_eq!(fs.file_ino(1), 9);
    assert_eq!(fs.tag_ino(1), 7);
    assert_eq!(fs.files()[1].name, "notes.txt");
    assert_eq!(fs.files()[1].document_uuid, OTHER_DOC);
    assert_eq!(fs.next_inode(), 10);
    assert_eq!(fs.queries().len(), 0);
    assert_eq!(fs.document_uuid_for_ino(9), Some(OTHER_DOC));
    assert_eq!(fs.document_uuid_for_ino(8), Some(DOC));
    assert_eq!(fs.document_uuid_for_ino(6), None);
    assert_eq!(fs.find_document(OTHER_DOC), Some(1));
    assert_eq!(fs.find_document(DocumentUuid(Uuid(9))), None);
    assert_eq!(fs.find_file(&"notes.txt".to_string()), Some(1));
    assert_eq!(fs.find_tag(&"science".to_string()), Some(1));
    assert_eq!(fs.find_tag(&"author".to_string()), None);
    assert_eq!(fs.find_query(&"science".to_string()), None);
    assert_eq!(LoadError::OutOfInodes, LoadError::OutOfInodes);
}

#[test]
fn an_empty_store_mounts() {
    let store = MemoryStore::new();
    let mut fs = BiblFs::load(&store, false).unwrap();
    assert_eq!(names(&mut fs, &store, ROOT_DIR_INO), [".", "..", "tags", "query"]);
    assert_eq!(names(&mut fs, &store, TAG_DIR_INO), [".", ".."]);
    assert_eq!(fs.next_inode(), 6);
    assert!(fs.has_room());
    assert_eq!(fs.lookup(QUERY_DIR_INO, b"x").unwrap().attr.ino, 6);
}

#[test]
fn protection_can_be_switched() {
    let store = library();
    let mut fs = BiblFs::load(&store, false).unwrap();
    assert!(!fs.never_replace_common_tags());
    fs.set_never_replace_common_tags(true);
    assert!(fs.never_replace_common_tags());
}
