use biblfs::attr::{make_dir_attr, make_file_attr, Errno, FileType, BLOCK_SIZE, FILE_BLOCKS};
use biblfs::datetime::{CreatedTime, DateTime, LastModifiedTime};
use biblfs::entities::{Document, File};
use biblfs::ids::{BinaryMetadataUuid, DocumentUuid, MetadataUuid, TextMetadataUuid, Uuid};
use biblfs::memory::MemoryStore;
use biblfs::store::{Store, TextRow, TAG_NAME};
use biblfs::stubs::{statfs, Answer, Operation, StatFs, NAME_LENGTH};
use biblfs::undo::{DocumentModification, MetadataKind, UndoKind};

#[test]
fn structural_calls_are_not_implemented() {
    for op in [
        Operation::Readlink,
        Operation::Mknod,
        Operation::Mkdir,
        Operation::Unlink,
        Operation::Rmdir,
        Operation::Symlink,
        Operation::Rename,
        Operation::Link,
        Operation::Write,
        Operation::Flush,
        Operation::Fsync,
        Operation::Readdirplus,
        Operation::Fsyncdir,
        Operation::Access,
        Operation::Create,
        Operation::Getlk,
        Operation::Setlk,
        Operation::Bmap,
        Operation::Ioctl,
        Operation::Fallocate,
        Operation::Lseek,
        Operation::CopyFileRange,
    ] {
        assert_eq!(op.reply(), Answer::Error(Errno::NotImplemented));
    }
}

#[test]
fn opening_and_releasing_succeed() {
    assert_eq!(Operation::Open.reply(), Answer::Opened { fh: 0, flags: 0 });
    assert_eq!(Operation::Opendir.reply(), Answer::Opened { fh: 0, flags: 0 });
    assert_eq!(Operation::Release.reply(), Answer::Done);
    assert_eq!(Operation::Releasedir.reply(), Answer::Done);
}

#[test]
fn statistics_are_fixed() {
    assert_eq!(
        statfs(),
        StatFs {
            blocks: 0,
            bfree: 0,
            bavail: 0,
            files: 0,
            ffree: 0,
            bsize: 512,
            namelen: 255,
            frsize: 0,
        }
    );
    assert_eq!(NAME_LENGTH, 255);
    assert_eq!(BLOCK_SIZE, 512);
    assert_eq!(FILE_BLOCKS, 1);
}

#[test]
fn attributes_are_built_from_their_parts() {
    let dir = make_dir_attr(17);
    assert_eq!((dir.ino, dir.size, dir.blocks, dir.nlink, dir.perm), (17, 0, 0, 2, 0o755));
    assert_eq!(dir.kind, FileType::Directory);
    assert_eq!((dir.atime, dir.mtime, dir.ctime, dir.crtime), (0, 0, 0, 0));
    let file = make_file_attr(
        18,
        1234,
        1,
        LastModifiedTime(DateTime { seconds: -5, nanos: 999 }),
        CreatedTime(DateTime { seconds: 7, nanos: 1 }),
    );
    assert_eq!((file.ino, file.size, file.blocks, file.nlink, file.perm), (18, 1234, 1, 1, 0o744));
    assert_eq!(file.kind, FileType::RegularFile);
    assert_eq!((file.atime, file.mtime, file.ctime, file.crtime), (0, -5, 7, 0));
    assert_eq!((file.rdev, file.flags, file.blksize), (0, 0, 512));
}

#[test]
fn the_memory_store_answers_by_scanning_its_tables() {
    let doc = DocumentUuid(Uuid(1));
    let other = DocumentUuid(Uuid(2));
    let mut store = MemoryStore::new();
    let row = |id: u128, name: &str, data: &str| TextRow {
        uuid: TextMetadataUuid(Uuid(id)),
        name: name.to_string(),
        data: data.to_string(),
    };
    assert!(store.insert_text(row(10, "tag", "one")));
    assert!(store.insert_text(row(11, "author", "someone")));
    assert!(store.insert_text(row(12, "tag", "two")));
    // A row of an identity that is there is not added.
    assert!(!store.insert_text(row(10, "tag", "again")));
    assert_eq!(TAG_NAME, "tag");
    let tags: Vec<(u128, String)> = store.tags().into_iter().map(|t| (t.uuid.0 .0, t.data)).collect();
    assert_eq!(tags, [(10, "one".to_string()), (12, "two".to_string())]);

    assert!(store.attach(doc, TextMetadataUuid(Uuid(11))));
    assert!(store.attach(doc, TextMetadataUuid(Uuid(10))));
    assert!(!store.attach(doc, TextMetadataUuid(Uuid(10))));
    assert!(store.attach(other, TextMetadataUuid(Uuid(10))));
    // An attachment to a row that is missing yields nothing.
    assert!(store.attach(doc, TextMetadataUuid(Uuid(99))));
    assert_eq!(store.xattr_names(doc), ["author", "tag"]);
    assert_eq!(store.xattr_values(doc, "tag"), ["one"]);
    assert_eq!(store.xattr_values(doc, "nothing"), Vec::<String>::new());
    assert!(store.has_xattr(doc, "author"));
    assert!(!store.has_xattr(other, "author"));
    assert_eq!(store.text_metadata_by_name(doc, "tag"), Some(TextMetadataUuid(Uuid(10))));
    assert_eq!(store.text_metadata_by_name(doc, "nothing"), None);
    assert_eq!(store.documents_with(TextMetadataUuid(Uuid(10)), None), [doc, other]);
    assert_eq!(store.documents_with(TextMetadataUuid(Uuid(10)), Some(doc)), [other]);
    assert_eq!(store.documents_with(TextMetadataUuid(Uuid(11)), Some(doc)), []);

    store.put_xattr(doc, TextMetadataUuid(Uuid(99)), "late", "value");
    assert_eq!(store.xattr_names(doc), ["author", "tag", "late"]);
    store.remove_xattr(doc, TextMetadataUuid(Uuid(10)), false);
    assert_eq!(store.xattr_names(doc), ["author", "late"]);
    assert_eq!(store.xattr_values(other, "tag"), ["one"]);
    store.remove_xattr(other, TextMetadataUuid(Uuid(10)), true);
    assert_eq!(store.xattr_values(other, "tag"), Vec::<String>::new());
    assert_eq!(store.tags().len(), 1);
}

#[test]
fn the_memory_store_finds_by_title_and_by_attached_text() {
    let mut store = MemoryStore::new();
    for (id, title) in [(1, "history"), (2, "geography"), (3, "history")] {
        store.insert_document(Document {
            uuid: DocumentUuid(Uuid(id)),
            title: title.to_string(),
            title_suffix: None,
            created: CreatedTime::default(),
            last_modified: LastModifiedTime::default(),
        });
    }
    assert!(store.insert_text(TextRow {
        uuid: TextMetadataUuid(Uuid(10)),
        name: "author".to_string(),
        data: "Herodotus".to_string(),
    }));
    assert!(store.attach(DocumentUuid(Uuid(2)), TextMetadataUuid(Uuid(10))));
    assert_eq!(store.search("history"), Ok(vec![DocumentUuid(Uuid(1)), DocumentUuid(Uuid(3))]));
    assert_eq!(store.search("Herodotus"), Ok(vec![DocumentUuid(Uuid(2))]));
    assert_eq!(store.search("herodotus"), Ok(Vec::new()));
    assert_eq!(store.search(""), Ok(Vec::new()));
    assert_eq!(store.documents().len(), 3);
    assert_eq!(store.files().len(), 0);
}

#[test]
fn rows_are_copied_field_by_field() {
    let document = Document {
        uuid: DocumentUuid(Uuid(1)),
        title: "T".to_string(),
        title_suffix: Some("S".to_string()),
        created: CreatedTime(DateTime { seconds: 1, nanos: 2 }),
        last_modified: LastModifiedTime(DateTime { seconds: 3, nanos: 4 }),
    };
    let copy = document.duplicate();
    assert_eq!(
        (copy.uuid, copy.title, copy.title_suffix, copy.created, copy.last_modified),
        (document.uuid, document.title, document.title_suffix, document.created, document.last_modified)
    );
    let file = File {
        row_id: -3,
        uuid: BinaryMetadataUuid(Uuid(2)),
        name: "n".to_string(),
        size: 9,
        document_uuid: DocumentUuid(Uuid(1)),
        created: CreatedTime(DateTime { seconds: 1, nanos: 2 }),
        last_modified: LastModifiedTime(DateTime { seconds: 3, nanos: 4 }),
    };
    let copy = file.duplicate();
    assert_eq!(
        (copy.row_id, copy.uuid, copy.name, copy.size, copy.document_uuid),
        (-3, file.uuid, file.name, 9, file.document_uuid)
    );
    assert_eq!((copy.created, copy.last_modified), (file.created, file.last_modified));
    let row = TextRow { uuid: TextMetadataUuid(Uuid(3)), name: "a".to_string(), data: "b".to_string() };
    let copy = row.duplicate();
    assert_eq!((copy.uuid, copy.name, copy.data), (row.uuid, row.name, row.data));
}

#[test]
fn the_history_names_what_was_done() {
    let entry = UndoKind::ModifyDocument(
        DocumentUuid(Uuid(1)),
        DocumentModification::Add(MetadataKind::Tag, MetadataUuid(Uuid(2))),
    );
    assert_eq!(
        format!("{:?}", entry),
        "ModifyDocument(DocumentUuid(Uuid(1)), Add(Tag, MetadataUuid(Uuid(2))))"
    );
    let created = UndoKind::NewDocument { uuid: DocumentUuid(Uuid(1)) };
    assert!(matches!(created, UndoKind::NewDocument { .. }));
    assert!(matches!(
        DocumentModification::AlterTitle("t".to_string()),
        DocumentModification::AlterTitle(_)
    ));
    assert!(matches!(
        DocumentModification::RemoveTag(MetadataKind::Author, MetadataUuid(Uuid(0))),
        DocumentModification::RemoveTag(MetadataKind::Author, _)
    ));
    assert!(matches!(UndoKind::DeleteDocument(DocumentUuid(Uuid(1))), UndoKind::DeleteDocument(_)));
    assert!(matches!(MetadataKind::Storage, MetadataKind::Storage));
    assert!(matches!(MetadataKind::Other, MetadataKind::Other));
}
