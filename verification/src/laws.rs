//! What holds of the filesystem as a whole: laws that relate its
//! operations to one another, each proved from the definitions.

use crate::attr::Errno;
use crate::datetime::DateTime;
use crate::ids::{DocumentUuid, TextMetadataUuid, Uuid};
use crate::attr::dir_attr;
use crate::index::{
    FsView, Node, FIRST_DYNAMIC_INO, QUERY_DIR_INO, RESULTS_INO_BASE, ROOT_DIR_INO,
    SQL_RESULT_FILE_INO, SQL_TEXT_FILE_INO, STATEMENT_INO_BASE, TAG_DIR_INO,
};
use crate::lookup::{
    entry_of, Attr, Entry, SetAttr, EMPTY_NAME, QUERY_DIR_NAME, SQL_RESULT_FILE_NAME,
    SQL_TEXT_FILE_NAME, TAGS_DIR_NAME,
};
use crate::content::rendered;
use crate::read::slice_of;
use crate::readdir::{continued, numbered, skipped, ItemView};
use crate::store::{named, StoreState, TextLink};
use crate::text::{bytes_of, decoded};
use crate::relations::lemma_named_witness;
use crate::xattr::{packed, packed_upto, sized, SetxattrView, XattrFlags, NUL};
use vstd::prelude::*;
use vstd::utf8::{decode_utf8_encode_utf8, encode_utf8_decode_utf8, encode_utf8_valid_utf8};

verus! {

/// Whether `name` is one of the names that resolve to a fixed inode
/// wherever they are looked up.
pub open spec fn reserved(name: Seq<char>) -> bool {
    ||| name == TAGS_DIR_NAME@
    ||| name == QUERY_DIR_NAME@
    ||| name == SQL_TEXT_FILE_NAME@
    ||| name == SQL_RESULT_FILE_NAME@
    ||| name == EMPTY_NAME@
}

/// The bytes of a text decode to the text.
pub proof fn lemma_decoded_bytes(text: Seq<char>)
    ensures
        decoded(bytes_of(text)) == Some(text),
{
    encode_utf8_valid_utf8(text);
    encode_utf8_decode_utf8(text);
}

/// Every inode names at most one thing, and what it names has that inode.
/// The inodes from the first that the counter handed out up to the next
/// that it will hand out are those of the tags, the files and the query
/// directories; the two files of a query directory have the directory's
/// inode with a fixed number added, which lies beyond the counter's bound;
/// and no other inode beyond the fixed ones names anything.
pub proof fn law_inodes_name_one_thing(fs: FsView, ino: u64)
    requires
        fs.wf(),
    ensures
        FIRST_DYNAMIC_INO <= ino < fs.next_inode() <==> (fs.node(ino) matches Some(n) && (n is Tag
            || n is File || n is Query)),
        fs.node(ino) matches Some(Node::Tag(i)) ==> i < fs.tags.len() && fs.tag_ino(i as int) == ino
            && fs.tags[i as int].ino == ino,
        fs.node(ino) matches Some(Node::File(i)) ==> i < fs.files.len() && fs.file_ino(i as int)
            == ino,
        fs.node(ino) matches Some(Node::Query(k)) ==> k < fs.queries.len() && fs.query_ino(k as int)
            == ino && fs.queries[k as int].ino == ino,
        fs.node(ino) matches Some(Node::Statement(k)) ==> k < fs.queries.len() && fs.statement_ino(
            k as int,
        ) == ino && ino == fs.queries[k as int].ino + STATEMENT_INO_BASE,
        fs.node(ino) matches Some(Node::Results(k)) ==> k < fs.queries.len() && fs.results_ino(
            k as int,
        ) == ino && ino == fs.queries[k as int].ino + RESULTS_INO_BASE,
        fs.next_inode() <= ino < STATEMENT_INO_BASE ==> fs.node(ino) is None,
{
}

/// An inode never changes its meaning: whatever a lookup does to the
/// index, every inode that named something before names the same after.
pub proof fn law_lookup_keeps_inodes(fs: FsView, parent: u64, name: Seq<u8>, ino: u64)
    requires
        fs.wf(),
        fs.node(ino) is Some,
    ensures
        fs.lookup(parent, name).0.wf(),
        fs.lookup(parent, name).0.node(ino) == fs.node(ino),
        fs.lookup(parent, name).0.next_inode() >= fs.next_inode(),
{
    let after = fs.lookup(parent, name).0;
    assert(after.tags == fs.tags);
    assert(after.files == fs.files);
    assert(after.queries.len() >= fs.queries.len());
    match decoded(name) {
        Some(t) => {
            match fs.query_named(t) {
                Some(k) => {},
                None => {
                    let grown = fs.with_query(t);
                    assert forall|j: int, l: int| 0 <= j < l < grown.queries.len() implies (
                    #[trigger] grown.queries[j]).phrase != (#[trigger] grown.queries[l]).phrase by {
                        if l == fs.queries.len() {
                            assert(fs.queries[j].phrase != t);
                        }
                    }
                },
            }
        },
        None => {},
    }
}

/// Among the first `n` files, where one bears the name `name`, one is the
/// last to bear it.
pub proof fn lemma_last_file(fs: FsView, name: Seq<char>, n: int) -> (i: int)
    requires
        0 <= n <= fs.files.len(),
        exists|j: int| 0 <= j < n && fs.files[j].name == name,
    ensures
        0 <= i < n,
        fs.files[i].name == name,
        forall|j: int| i < j < n ==> fs.files[j].name != name,
    decreases n,
{
    if fs.files[n - 1].name == name {
        n - 1
    } else {
        lemma_last_file(fs, name, n - 1)
    }
}

/// Among the first `n` tags, where one bears the name `name`, one is the
/// last to bear it.
pub proof fn lemma_last_tag(fs: FsView, name: Seq<char>, n: int) -> (i: int)
    requires
        0 <= n <= fs.tags.len(),
        exists|j: int| 0 <= j < n && fs.tags[j].data == name,
    ensures
        0 <= i < n,
        fs.tags[i].data == name,
        forall|j: int| i < j < n ==> fs.tags[j].data != name,
    decreases n,
{
    if fs.tags[n - 1].data == name {
        n - 1
    } else {
        lemma_last_tag(fs, name, n - 1)
    }
}

/// The ways from a name to its inode and back agree. The file that a name
/// resolves to bears that name, and so does the tag; the query directory
/// that a phrase resolves to is the one for that phrase; and the inode of
/// each names it and nothing else, as do the inodes of the two files of a
/// query directory.
pub proof fn law_names_and_inodes_correspond(fs: FsView, name: Seq<char>)
    requires
        fs.wf(),
    ensures
        fs.file_named(name) matches Some(i) ==> 0 <= i < fs.files.len() && fs.files[i].name == name
            && fs.node(fs.file_ino(i)) == Some(Node::File(i as usize)),
        fs.tag_named(name) matches Some(i) ==> 0 <= i < fs.tags.len() && fs.tags[i].data == name
            && fs.node(fs.tags[i].ino) == Some(Node::Tag(i as usize)),
        fs.query_named(name) matches Some(k) ==> 0 <= k < fs.queries.len() && fs.queries[k].phrase
            == name && fs.node(fs.queries[k].ino) == Some(Node::Query(k as usize)) && fs.node(
            fs.statement_ino(k),
        ) == Some(Node::Statement(k as usize)) && fs.node(fs.results_ino(k)) == Some(
            Node::Results(k as usize),
        ),
        forall|k: int|
            0 <= k < fs.queries.len() && (#[trigger] fs.queries[k]).phrase == name
                ==> fs.query_named(name) == Some(k),
{
    if fs.file_named(name) is Some {
        let i = lemma_last_file(fs, name, fs.files.len() as int);
    }
    if fs.tag_named(name) is Some {
        let i = lemma_last_tag(fs, name, fs.tags.len() as int);
    }
}

/// Files and tags are as the scan found them: no lookup changes a tag, a
/// file or a document.
pub proof fn law_lookup_keeps_entities(fs: FsView, parent: u64, name: Seq<u8>)
    requires
        fs.wf(),
    ensures
        fs.lookup(parent, name).0.tags == fs.tags,
        fs.lookup(parent, name).0.files == fs.files,
        fs.lookup(parent, name).0.documents == fs.documents,
{
    let after = fs.lookup(parent, name).0;
    match decoded(name) {
        Some(t) => {
            let opened = fs.opened(t).0;
            assert(opened.tags == fs.tags && opened.files == fs.files && opened.documents
                == fs.documents);
            assert(after == fs || after == opened);
        },
        None => {
            assert(after == fs);
        },
    }
}

/// No search changes a tag or a file, nor what any inode names: neither
/// the search that a read brings about, nor the one that a listing does.
pub proof fn law_search_keeps_entities(
    fs: FsView,
    ino: u64,
    found: Result<Seq<DocumentUuid>, Seq<char>>,
    any: u64,
)
    requires
        fs.wf(),
    ensures
        fs.read_next(ino, found).wf(),
        fs.listed(ino, found).wf(),
        fs.read_next(ino, found).tags == fs.tags && fs.read_next(ino, found).files == fs.files,
        fs.listed(ino, found).tags == fs.tags && fs.listed(ino, found).files == fs.files,
        fs.read_next(ino, found).node(any) == fs.node(any),
        fs.listed(ino, found).node(any) == fs.node(any),
{
}

/// Setting attributes changes the two times of one file and nothing else:
/// every other file, every tag and every query directory stays as it was,
/// the file keeps its identity, name, size and owner, and every inode
/// names what it named.
pub proof fn law_setattr_changes_times_only(
    fs: FsView,
    ino: u64,
    changes: SetAttr,
    now: DateTime,
    other: int,
    any: u64,
)
    requires
        fs.wf(),
        0 <= other < fs.files.len(),
    ensures
        ({
            let next = fs.setattr(ino, changes, now).0;
            let before = fs.files[other];
            let after = next.files[other];
            &&& next.wf()
            &&& next.tags == fs.tags
            &&& next.queries == fs.queries
            &&& next.files.len() == fs.files.len()
            &&& next.node(any) == fs.node(any)
            &&& fs.node(ino) != Some(Node::File(other as usize)) ==> after == before
            &&& after.uuid == before.uuid
            &&& after.name == before.name
            &&& after.size == before.size
            &&& after.row_id == before.row_id
            &&& after.document_uuid == before.document_uuid
        }),
{
}

/// The fixed names are four different names.
pub proof fn lemma_names_differ()
    ensures
        TAGS_DIR_NAME@ != SQL_TEXT_FILE_NAME@,
        TAGS_DIR_NAME@ != SQL_RESULT_FILE_NAME@,
        SQL_TEXT_FILE_NAME@ != SQL_RESULT_FILE_NAME@,
{
    reveal_strlit("tags");
    reveal_strlit("query.sql");
    reveal_strlit("results.txt");
    assert(TAGS_DIR_NAME@.len() == 4);
    assert(SQL_TEXT_FILE_NAME@.len() == 9);
    assert(SQL_RESULT_FILE_NAME@.len() == 11);
}

/// Name resolution and direct inode lookup agree. Let a file bear a name
/// that is none of the reserved ones, and let it be the file that its
/// name resolves to, that is, let no later file bear the same name. Then
/// looking the name up in the root gives the file's inode, with the very
/// attributes that getattr reports for that inode, and changes nothing.
pub proof fn law_lookup_agrees_with_getattr(fs: FsView, i: int)
    requires
        fs.wf(),
        0 <= i < fs.files.len(),
        !reserved(fs.files[i].name),
        forall|j: int| i < j < fs.files.len() ==> fs.files[j].name != fs.files[i].name,
    ensures
        fs.lookup(ROOT_DIR_INO, bytes_of(fs.files[i].name)).0 == fs,
        fs.lookup(ROOT_DIR_INO, bytes_of(fs.files[i].name)).1 matches Ok(entry) && fs.getattr(
            fs.file_ino(i),
        ) matches Ok(attr) && entry.attr == attr.attr && entry.attr.ino == fs.file_ino(i)
            && entry.ttl == attr.ttl,
{
    let name = fs.files[i].name;
    lemma_decoded_bytes(name);
    let last = lemma_last_file(fs, name, fs.files.len() as int);
    assert(fs.file_named(name) == Some(i));
    assert(fs.node(fs.file_ino(i)) == Some(Node::File(i as usize)));
    assert(fs.resolved(ROOT_DIR_INO, name) == Some(fs.file_ino(i)));
}

/// Every name that is looked up in the same directory resolves to the same
/// inode with the same attributes as getattr reports, for as long as the
/// index is as it is: a lookup that is no lookup of a phrase changes
/// nothing.
pub proof fn law_lookup_agrees_with_getattr_everywhere(fs: FsView, parent: u64, name: Seq<u8>)
    requires
        fs.wf(),
        !(parent == QUERY_DIR_INO && (decoded(name) matches Some(text) && FsView::is_phrase(text))),
    ensures
        fs.lookup(parent, name).0 == fs,
        fs.lookup(parent, name).1 matches Ok(entry) ==> fs.getattr(entry.attr.ino) == Ok::<
            Attr,
            Errno,
        >(Attr { ttl: entry.ttl, attr: entry.attr }),
{
    match decoded(name) {
        Some(text) => {
            if fs.resolved(parent, text) is Some {
                law_names_and_inodes_correspond(fs, text);
                let ino = fs.resolved(parent, text)->Some_0;
                match fs.node(parent) {
                    Some(Node::Query(k)) => {
                        law_names_and_inodes_correspond(fs, fs.queries[k as int].phrase);
                    },
                    _ => {},
                }
                assert(fs.node(ino) is Some);
                assert(fs.attr_of(ino) is Some);
                assert(fs.attr_of(ino)->Some_0.ino == ino);
            }
        },
        None => {},
    }
}

/// Looking up a new phrase makes a directory. Let there be room, and no
/// query directory for `phrase` yet. Then looking the phrase up under the
/// query directory answers with a directory whose inode is the one that
/// the counter held, which named nothing before and is none of the fixed
/// inodes; the counter is raised by one; the phrase resolves to the new
/// directory, whose results are stale; and every query directory that was
/// there is as it was.
pub proof fn law_lookup_makes_a_directory(fs: FsView, phrase: Seq<char>, other: int)
    requires
        fs.wf(),
        FsView::is_phrase(phrase),
        fs.query_named(phrase) is None,
        fs.has_room(),
    ensures
        ({
            let made = fs.lookup(QUERY_DIR_INO, bytes_of(phrase));
            let place = fs.queries.len() as int;
            &&& made.1 == Ok::<Entry, Errno>(entry_of(dir_attr(fs.next_inode() as u64)))
            &&& fs.node(fs.next_inode() as u64) is None
            &&& fs.next_inode() >= FIRST_DYNAMIC_INO
            &&& made.0.wf()
            &&& made.0.next_inode() == fs.next_inode() + 1
            &&& made.0.node(fs.next_inode() as u64) == Some(Node::Query(place as usize))
            &&& made.0.query_named(phrase) == Some(place)
            &&& made.0.queries[place].phrase == phrase
            &&& made.0.queries[place].ino == fs.next_inode()
            &&& !made.0.queries[place].executed
            &&& 0 <= other < fs.queries.len() ==> made.0.queries[other] == fs.queries[other]
                && made.0.query_named(fs.queries[other].phrase) == Some(other) && made.0.node(
                fs.queries[other].ino,
            ) == Some(Node::Query(other as usize))
            &&& made.0.tags == fs.tags
            &&& made.0.files == fs.files
        }),
{
    lemma_decoded_bytes(phrase);
    law_lookup_keeps_inodes(fs, QUERY_DIR_INO, bytes_of(phrase), ROOT_DIR_INO);
    let made = fs.lookup(QUERY_DIR_INO, bytes_of(phrase));
    assert(made == fs.opened(phrase));
    assert(made.0.queries[fs.queries.len() as int].phrase == phrase);
    law_names_and_inodes_correspond(made.0, phrase);
    if 0 <= other < fs.queries.len() {
        assert(made.0.queries[other] == fs.queries[other]);
        law_names_and_inodes_correspond(made.0, fs.queries[other].phrase);
    }
}

/// The results shown follow the phrase. Whatever query directories there
/// are and whatever results they keep: once `phrase` was looked up under
/// the query directory, the results of its directory are stale, so that
/// the next read of its results file shows what the search for `phrase`
/// gives, and nothing that was kept before or for another phrase.
pub proof fn law_results_follow_the_phrase(
    fs: FsView,
    phrase: Seq<char>,
    found: Result<Seq<DocumentUuid>, Seq<char>>,
    state: StoreState,
    offset: i64,
    size: u32,
)
    requires
        fs.wf(),
        FsView::is_phrase(phrase),
        fs.query_named(phrase) is Some || fs.has_room(),
    ensures
        ({
            let opened = fs.lookup(QUERY_DIR_INO, bytes_of(phrase)).0;
            let k = opened.query_named(phrase)->Some_0;
            let file = opened.results_ino(k);
            let shown = opened.read_next(file, found);
            &&& fs.lookup(QUERY_DIR_INO, bytes_of(phrase)).1 matches Ok(entry) && entry.attr.ino
                == opened.query_ino(k)
            &&& opened.wf()
            &&& opened.query_named(phrase) is Some
            &&& opened.read_phrase(file) == phrase
            &&& shown.results_bytes(k) == rendered(found)
            &&& shown.read_reply(state, file, offset, size) == slice_of(
                rendered(found),
                offset,
                size,
            )
        }),
{
    lemma_decoded_bytes(phrase);
    law_lookup_keeps_inodes(fs, QUERY_DIR_INO, bytes_of(phrase), ROOT_DIR_INO);
    let opened = fs.lookup(QUERY_DIR_INO, bytes_of(phrase)).0;
    assert(opened == fs.opened(phrase).0);
    match fs.query_named(phrase) {
        Some(k) => {
            law_names_and_inodes_correspond(fs, phrase);
            assert(opened.queries[k].phrase == phrase);
            assert(!opened.queries[k].executed);
        },
        None => {
            assert(opened.queries[fs.queries.len() as int].phrase == phrase);
            assert(!opened.queries[fs.queries.len() as int].executed);
        },
    }
    law_names_and_inodes_correspond(opened, phrase);
    let k = opened.query_named(phrase)->Some_0;
    let file = opened.results_ino(k);
    assert(opened.queries[k].phrase == phrase);
    assert(!opened.queries[k].executed);
    assert(opened.node(file) == Some(Node::Results(k as usize)));
    let shown = opened.read_next(file, found);
    assert(shown == opened.with_results(k, found));
    assert(shown.node(file) == Some(Node::Results(k as usize)));
    assert(shown.synthesized(file) == Some(rendered(found)));
}

/// The files of a query directory are its own. Looking up the results
/// file or the statement file in a query directory changes nothing and
/// gives an inode that belongs to that directory alone: the inodes that
/// two different directories give differ, and they differ from the inodes
/// of the files of the default query.
pub proof fn law_files_belong_to_their_directory(fs: FsView, k: int, other: int)
    requires
        fs.wf(),
        0 <= k < fs.queries.len(),
        0 <= other < fs.queries.len(),
        k != other,
    ensures
        fs.lookup(fs.query_ino(k), bytes_of(SQL_RESULT_FILE_NAME@)) == (
            fs,
            Ok::<Entry, Errno>(entry_of(fs.attr_of(fs.results_ino(k))->Some_0)),
        ),
        fs.lookup(fs.query_ino(k), bytes_of(SQL_TEXT_FILE_NAME@)) == (
            fs,
            Ok::<Entry, Errno>(entry_of(fs.attr_of(fs.statement_ino(k))->Some_0)),
        ),
        fs.attr_of(fs.results_ino(k)) matches Some(attr) && attr.ino == fs.results_ino(k),
        fs.attr_of(fs.statement_ino(k)) matches Some(attr) && attr.ino == fs.statement_ino(k),
        fs.node(fs.results_ino(k)) == Some(Node::Results(k as usize)),
        fs.node(fs.statement_ino(k)) == Some(Node::Statement(k as usize)),
        fs.results_ino(k) != fs.results_ino(other),
        fs.statement_ino(k) != fs.statement_ino(other),
        fs.results_ino(k) != fs.statement_ino(other),
        fs.results_ino(k) != SQL_RESULT_FILE_INO,
        fs.statement_ino(k) != SQL_TEXT_FILE_INO,
{
    lemma_decoded_bytes(SQL_RESULT_FILE_NAME@);
    lemma_decoded_bytes(SQL_TEXT_FILE_NAME@);
    lemma_names_differ();
    assert(fs.node(fs.query_ino(k)) == Some(Node::Query(k as usize)));
    assert(QUERY_DIR_INO != fs.query_ino(k) && TAG_DIR_INO != fs.query_ino(k));
}

/// What is read under one query directory does not depend on what is
/// done under another. Let two query directories differ. A read of a file
/// of the first shows what the directory keeps, or what the search for
/// its phrase gives where that is stale. Whatever is then done under the
/// second (its phrase looked up again, its files looked up, the
/// directory listed, its files read), the first keeps what it kept, and
/// a read of its results file replies with the same bytes as before.
/// `search` is what the store's search gives for each phrase.
pub proof fn law_reads_do_not_depend_on_other_directories(
    fs: FsView,
    first: int,
    second: int,
    search: spec_fn(Seq<char>) -> Result<Seq<DocumentUuid>, Seq<char>>,
    state: StoreState,
    name: Seq<u8>,
    offset: i64,
    size: u32,
)
    requires
        fs.wf(),
        0 <= first < fs.queries.len(),
        0 <= second < fs.queries.len(),
        first != second,
    ensures
        ({
            let r1 = fs.results_ino(first);
            let r2 = fs.results_ino(second);
            let d2 = fs.query_ino(second);
            let read_first = fs.read_next(r1, search(fs.read_phrase(r1)));
            let read_second = read_first.read_next(r2, search(read_first.read_phrase(r2)));
            let read_again = read_second.read_next(r1, search(read_second.read_phrase(r1)));
            let shown_first = if fs.queries[first].executed {
                fs.queries[first].results
            } else {
                search(fs.queries[first].phrase)
            };
            let shown_second = if fs.queries[second].executed {
                fs.queries[second].results
            } else {
                search(fs.queries[second].phrase)
            };
            &&& r1 != r2
            &&& read_first.read_reply(state, r1, offset, size) == slice_of(
                rendered(shown_first),
                offset,
                size,
            )
            &&& read_second.read_reply(state, r2, offset, size) == slice_of(
                rendered(shown_second),
                offset,
                size,
            )
            &&& read_again.read_reply(state, r1, offset, size) == read_first.read_reply(
                state,
                r1,
                offset,
                size,
            )
            &&& read_again.queries[first] == read_first.queries[first]
            &&& read_first.lookup(QUERY_DIR_INO, bytes_of(fs.queries[second].phrase)).0.queries[first]
                == read_first.queries[first]
            &&& read_first.lookup(d2, name).0 == read_first
            &&& read_first.listed(d2, search(fs.queries[second].phrase)).queries[first]
                == read_first.queries[first]
            &&& read_first.read_next(
                fs.statement_ino(second),
                search(fs.queries[second].phrase),
            ).queries[first] == read_first.queries[first]
        }),
{
    let r1 = fs.results_ino(first);
    let r2 = fs.results_ino(second);
    let d2 = fs.query_ino(second);
    assert(fs.node(r1) == Some(Node::Results(first as usize)));
    assert(fs.node(r2) == Some(Node::Results(second as usize)));
    assert(fs.node(d2) == Some(Node::Query(second as usize)));
    assert(fs.node(fs.statement_ino(second)) == Some(Node::Statement(second as usize)));
    let read_first = fs.read_next(r1, search(fs.read_phrase(r1)));
    assert(read_first.wf());
    assert(read_first.node(r2) == Some(Node::Results(second as usize)));
    assert(read_first.node(r1) == Some(Node::Results(first as usize)));
    assert(read_first.queries[first].executed);
    let read_second = read_first.read_next(r2, search(read_first.read_phrase(r2)));
    assert(read_second.wf());
    assert(read_second.node(r1) == Some(Node::Results(first as usize)));
    assert(read_second.queries[first] == read_first.queries[first]);
    let read_again = read_second.read_next(r1, search(read_second.read_phrase(r1)));
    assert(read_again == read_second);
    lemma_decoded_bytes(fs.queries[second].phrase);
    law_names_and_inodes_correspond(read_first, fs.queries[second].phrase);
    assert(read_first.queries[second].phrase == fs.queries[second].phrase);
    assert(d2 != QUERY_DIR_INO);
}

/// Query directories do not share results. A read touches the results of
/// the query directory that the file belongs to, and a listing those of
/// the directory that is listed: what any other directory keeps stays as
/// it was.
pub proof fn law_results_are_kept_apart(
    fs: FsView,
    found: Result<Seq<DocumentUuid>, Seq<char>>,
    ino: u64,
    other: int,
)
    requires
        fs.wf(),
        0 <= other < fs.queries.len(),
    ensures
        fs.read_searches(ino) != Some(other) ==> fs.read_next(ino, found).queries[other]
            == fs.queries[other],
        fs.node(ino) != Some(Node::Query(other as usize)) ==> fs.listed(ino, found).queries[other]
            == fs.queries[other],
        fs.read_next(ino, found).queries.len() == fs.queries.len(),
        fs.listed(ino, found).queries.len() == fs.queries.len(),
{
}

/// Removing an attribute that does not exist fails with "no data" and
/// changes nothing.
pub proof fn law_remove_missing_is_no_data(fs: FsView, state: StoreState, ino: u64, name: Seq<u8>)
    requires
        fs.wf(),
        fs.owner_of(ino) matches Some(document) && decoded(name) matches Some(n) && !state.has(
            document,
            n,
        ),
    ensures
        fs.removexattr(state, ino, name) == (state, Some(Errno::NoData)),
{
}

/// The flags are exclusive. Setting an attribute that exists with the
/// create flag fails with "already exists"; setting one that does not
/// exist with the replace flag fails with "no data". Neither changes
/// anything.
pub proof fn law_flags_are_exclusive(
    fs: FsView,
    state: StoreState,
    ino: u64,
    name: Seq<u8>,
    value: Seq<u8>,
    flags: XattrFlags,
    fresh: Uuid,
)
    requires
        fs.wf(),
        fs.owner_of(ino) is Some,
        decoded(name) is Some,
        decoded(value) is Some,
    ensures
        flags.create && state.has(fs.owner_of(ino)->Some_0, decoded(name)->Some_0) ==> fs.setxattr(
            state,
            ino,
            name,
            value,
            flags,
            fresh,
        ) == (state, SetxattrView::Error(Errno::Exists)),
        flags.replace && !state.has(fs.owner_of(ino)->Some_0, decoded(name)->Some_0)
            ==> fs.setxattr(state, ino, name, value, flags, fresh) == (
            state,
            SetxattrView::Error(Errno::NoData),
        ),
{
}

/// A text row that is attached to `other` has `other` among its holders.
pub proof fn lemma_holder_is_listed(state: StoreState, link: TextLink, except: DocumentUuid, n: int)
    requires
        0 <= n <= state.links.len(),
        exists|j: int| 0 <= j < n && state.links[j] == link,
        link.document != except,
    ensures
        state.holders_upto(link.metadata, Some(except), n).len() > 0,
    decreases n,
{
    if state.links[n - 1] == link {
    } else {
        lemma_holder_is_listed(state, link, except, n - 1);
    }
}

/// Shared text rows are protected. Let the attribute of a file's document
/// be given by a text row that another document has attached too. Then,
/// where the protection is on, replacing the attribute fails: the caller
/// is told that the operation is not supported and which documents share
/// the row, and the store, with both attachments, stays as it was.
pub proof fn law_shared_rows_are_protected(
    fs: FsView,
    state: StoreState,
    ino: u64,
    name: Seq<u8>,
    value: Seq<u8>,
    fresh: Uuid,
    other: DocumentUuid,
)
    requires
        fs.wf(),
        fs.never_replace_common_tags,
        fs.owner_of(ino) matches Some(document) && decoded(name) matches Some(n) && state.has(
            document,
            n,
        ) && other != document && exists|j: int|
            0 <= j < state.links.len() && state.links[j] == (TextLink {
                document: other,
                metadata: state.metadata_named(document, n)->Some_0,
            }),
        decoded(value) is Some,
    ensures
        fs.setxattr(state, ino, name, value, XattrFlags { create: false, replace: true }, fresh).0
            == state,
        fs.setxattr(
            state,
            ino,
            name,
            value,
            XattrFlags { create: false, replace: true },
            fresh,
        ).1 matches SetxattrView::Protected(owners) && owners.len() > 0,
{
    let document = fs.owner_of(ino)->Some_0;
    let n = decoded(name)->Some_0;
    let id = state.metadata_named(document, n)->Some_0;
    lemma_holder_is_listed(
        state,
        TextLink { document: other, metadata: id },
        document,
        state.links.len() as int,
    );
}

/// A listing continues where the last one ended. The cookie of every
/// entry is its place in the directory, counted from one; a listing that
/// continues at `offset` holds exactly the entries whose cookie is
/// greater, in their order; and the entries that it leaves out are exactly
/// those whose cookie is not greater.
pub proof fn law_listing_continues(items: Seq<ItemView>, offset: i64)
    requires
        items.len() <= u64::MAX,
    ensures
        continued(items, 0) == numbered(items),
        continued(items, 0).take(skipped(items.len() as int, offset)) + continued(items, offset)
            == continued(items, 0),
        forall|j: int|
            0 <= j < continued(items, offset).len() ==> (#[trigger] continued(items, offset)[j]).cookie
                == skipped(items.len() as int, offset) + j + 1 && continued(items, offset)[j].cookie
                > offset,
        forall|j: int|
            0 <= j < skipped(items.len() as int, offset) ==> (#[trigger] continued(items, 0)[j]).cookie
                <= offset,
{
    assert(continued(items, 0) =~= numbered(items));
    assert(continued(items, 0).take(skipped(items.len() as int, offset)) + continued(items, offset)
        =~= continued(items, 0));
}

/// Successive partial listings neither repeat nor omit an entry. Let a
/// reader take the first `taken` entries of a listing and continue at the
/// cookie of the last entry it took. Then the next listing holds exactly
/// what the first had left.
pub proof fn law_partial_listings_cover(items: Seq<ItemView>, offset: i64, taken: int)
    requires
        items.len() <= i64::MAX,
        0 < taken <= continued(items, offset).len(),
    ensures
        continued(items, continued(items, offset)[taken - 1].cookie as i64) == continued(
            items,
            offset,
        ).skip(taken),
{
    let last = continued(items, offset)[taken - 1].cookie;
    assert(last == skipped(items.len() as int, offset) + taken);
    assert(continued(items, last as i64) =~= continued(items, offset).skip(taken));
}

/// What was set is read back. Let an attribute have at most one value,
/// and let a call set it. Then the attribute has the one value that was
/// set: a read gives the value followed by a NUL byte, and the names that
/// a listing gives hold the attribute's name.
pub proof fn law_set_then_get(
    fs: FsView,
    state: StoreState,
    ino: u64,
    name: Seq<u8>,
    value: Seq<u8>,
    flags: XattrFlags,
    fresh: Uuid,
    size: u32,
)
    requires
        fs.wf(),
        state.wf(),
        fs.owner_of(ino) matches Some(document) && decoded(name) matches Some(n)
            && state.values(document, n).len() <= 1,
        fs.setxattr(state, ino, name, value, flags, fresh).1 == SetxattrView::Done,
    ensures
        ({
            let after = fs.setxattr(state, ino, name, value, flags, fresh).0;
            let document = fs.owner_of(ino)->Some_0;
            &&& after.wf()
            &&& after.values(document, decoded(name)->Some_0) == seq![decoded(value)->Some_0]
            &&& fs.getxattr(after, ino, name, size) == sized(value.push(NUL), size)
            &&& after.names(document).contains(decoded(name)->Some_0)
        }),
{
    let document = fs.owner_of(ino)->Some_0;
    let n = decoded(name)->Some_0;
    let v = decoded(value)->Some_0;
    let after = fs.setxattr(state, ino, name, value, flags, fresh).0;
    let id = if state.has(document, n) {
        state.metadata_named(document, n)->Some_0
    } else {
        TextMetadataUuid(fresh)
    };
    assert(after == state.put(document, id, n, v));
    state.lemma_put_wf(document, id, n, v);
    state.lemma_put_values(document, id, n, v);
    decode_utf8_encode_utf8(value);
    assert(packed(seq![v]) =~= value.push(NUL)) by {
        assert(packed_upto(seq![v], 0) =~= Seq::<u8>::empty());
        assert(packed_upto(seq![v], 1) =~= bytes_of(v).push(NUL));
    }
    let i = lemma_named_witness(after.attached(document), n, after.attached(document).len() as int);
    assert(after.names(document)[i] == n);
}

/// What was removed is gone. Let an attribute have one value, and let a
/// call remove it. Then the call succeeds, the attribute has no value
/// left, and removing it once more fails with "no data" and changes
/// nothing.
pub proof fn law_remove_then_remove(fs: FsView, state: StoreState, ino: u64, name: Seq<u8>)
    requires
        fs.wf(),
        state.wf(),
        fs.owner_of(ino) matches Some(document) && decoded(name) matches Some(n)
            && state.values(document, n).len() == 1,
    ensures
        ({
            let after = fs.removexattr(state, ino, name).0;
            &&& fs.removexattr(state, ino, name).1 is None
            &&& after.wf()
            &&& !after.has(fs.owner_of(ino)->Some_0, decoded(name)->Some_0)
            &&& fs.removexattr(after, ino, name) == (after, Some(Errno::NoData))
        }),
{
    let document = fs.owner_of(ino)->Some_0;
    let n = decoded(name)->Some_0;
    let id = state.metadata_named(document, n)->Some_0;
    let others = state.holders(id, Some(document));
    state.lemma_removed_wf(document, id, others.len() == 0);
    state.lemma_removed_values(document, n, others.len() == 0);
}

/// What was set is listed and read. Whatever values an attribute had: once
/// a call has set it, the names that a listing gives hold the attribute's
/// name, and the values that a read gives hold the value that was set.
pub proof fn law_set_is_listed(
    fs: FsView,
    state: StoreState,
    ino: u64,
    name: Seq<u8>,
    value: Seq<u8>,
    flags: XattrFlags,
    fresh: Uuid,
)
    requires
        fs.wf(),
        state.wf(),
        fs.setxattr(state, ino, name, value, flags, fresh).1 == SetxattrView::Done,
    ensures
        ({
            let after = fs.setxattr(state, ino, name, value, flags, fresh).0;
            let document = fs.owner_of(ino)->Some_0;
            &&& after.wf()
            &&& after.names(document).contains(decoded(name)->Some_0)
            &&& after.values(document, decoded(name)->Some_0).contains(decoded(value)->Some_0)
            &&& after.has(document, decoded(name)->Some_0)
        }),
{
    let document = fs.owner_of(ino)->Some_0;
    let n = decoded(name)->Some_0;
    let v = decoded(value)->Some_0;
    let after = fs.setxattr(state, ino, name, value, flags, fresh).0;
    let id = if state.has(document, n) {
        state.metadata_named(document, n)->Some_0
    } else {
        TextMetadataUuid(fresh)
    };
    let link = TextLink { document, metadata: id };
    assert(after == state.put(document, id, n, v));
    state.lemma_put_wf(document, id, n, v);
    state.lemma_put_row_at(document, id, n, v, link);
    let j = match state.link_position(link) {
        Some(p) => p,
        None => state.links.len() as int,
    };
    assert(after.links[j] == link);
    assert(after.gives(document, n, j));
    let t = after.lemma_given_is_chosen(document, n, after.links.len() as int, j);
    let chosen = named(after.attached(document), n);
    assert(chosen[t].data == v);
    assert(after.values(document, n)[t] == v);
    let i = lemma_named_witness(after.attached(document), n, after.attached(document).len() as int);
    assert(after.names(document)[i] == n);
}

} // verus!
