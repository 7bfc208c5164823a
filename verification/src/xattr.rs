//! Extended attributes. The attributes of a file are the text metadata of
//! the document that owns it: an attribute's name is the name of a text
//! row attached to the document, its values are the texts of all attached
//! rows of that name. Names and values are text; bytes that are not UTF-8
//! are refused.

use crate::attr::Errno;
use crate::entities::views;
use crate::ids::{is_random_form, DocumentUuid, TextMetadataUuid, Uuid};
use crate::index::{BiblFs, FsView, Node};
use crate::store::{Store, StoreState};
use crate::text::{append_bytes, bytes_of, decode, decoded};
use vstd::prelude::*;

verus! {

/// The byte that ends every name and every value in a reply.
pub const NUL: u8 = 0;

/// How an attribute is to be set.
#[derive(Clone, Copy, Debug, PartialEq, Eq, Structural)]
pub struct XattrFlags {
    /// The attribute must not exist yet.
    pub create: bool,
    /// The attribute must exist already.
    pub replace: bool,
}

impl XattrFlags {
    /// Reads the flags of a call: each is set where the call's flags hold a
    /// bit of its mask.
    pub fn from_bits(flags: i32, create_mask: i32, replace_mask: i32) -> (read: XattrFlags)
        ensures
            read == (XattrFlags {
                create: flags & create_mask > 0,
                replace: flags & replace_mask > 0,
            }),
    {
        XattrFlags { create: flags & create_mask > 0, replace: flags & replace_mask > 0 }
    }
}

/// The answer to a call that sets an attribute.
#[derive(Debug)]
pub enum SetxattrReply {
    /// The attribute was set.
    Done,
    /// The call was refused.
    Error(Errno),
    /// The attribute was not replaced because its text row is shared with
    /// the documents named here. The caller is told that the operation is
    /// not supported.
    Protected(Vec<DocumentUuid>),
}

/// The value of a [`SetxattrReply`].
pub enum SetxattrView {
    Done,
    Error(Errno),
    Protected(Seq<DocumentUuid>),
}

impl View for SetxattrReply {
    type V = SetxattrView;

    open spec fn view(&self) -> SetxattrView {
        match self {
            SetxattrReply::Done => SetxattrView::Done,
            SetxattrReply::Error(e) => SetxattrView::Error(*e),
            SetxattrReply::Protected(owners) => SetxattrView::Protected(owners@),
        }
    }
}

impl SetxattrReply {
    /// The error that the caller is told of, if the call failed.
    pub fn errno(&self) -> (e: Option<Errno>)
        ensures
            e == match self@ {
                SetxattrView::Done => None,
                SetxattrView::Error(e) => Some(e),
                SetxattrView::Protected(_) => Some(Errno::NotSupported),
            },
    {
        match self {
            SetxattrReply::Done => None,
            SetxattrReply::Error(e) => Some(*e),
            SetxattrReply::Protected(_) => Some(Errno::NotSupported),
        }
    }
}

/// The answer to a call that reads an attribute or lists the names.
#[derive(Debug)]
pub enum XattrReply {
    /// The bytes asked for.
    Data(Vec<u8>),
    /// How many bytes there are, for a caller that asked with size zero.
    Size(u32),
    /// The call was refused.
    Error(Errno),
}

/// The value of an [`XattrReply`].
pub enum XattrView {
    Data(Seq<u8>),
    Size(u32),
    Error(Errno),
}

impl View for XattrReply {
    type V = XattrView;

    open spec fn view(&self) -> XattrView {
        match self {
            XattrReply::Data(bytes) => XattrView::Data(bytes@),
            XattrReply::Size(n) => XattrView::Size(*n),
            XattrReply::Error(e) => XattrView::Error(*e),
        }
    }
}

/// The first `n` of `texts`, each followed by a NUL byte.
pub open spec fn packed_upto(texts: Seq<Seq<char>>, n: int) -> Seq<u8>
    decreases n,
{
    if n <= 0 {
        Seq::empty()
    } else {
        packed_upto(texts, n - 1) + bytes_of(texts[n - 1]).push(NUL)
    }
}

/// All of `texts`, each followed by a NUL byte.
pub open spec fn packed(texts: Seq<Seq<char>>) -> Seq<u8> {
    packed_upto(texts, texts.len() as int)
}

/// The answer that carries `payload` to a caller whose buffer holds `size`
/// bytes: the payload where it fits; else an error where the caller gave
/// a buffer; else the length of the payload, or the greatest length that
/// can be told where it is greater.
pub open spec fn sized(payload: Seq<u8>, size: u32) -> XattrView {
    if payload.len() <= size {
        XattrView::Data(payload)
    } else if size > 0 {
        XattrView::Error(Errno::Range)
    } else if payload.len() <= u32::MAX {
        XattrView::Size(payload.len() as u32)
    } else {
        XattrView::Size(u32::MAX)
    }
}

/// Packs `texts`, each followed by a NUL byte.
pub fn pack(texts: &Vec<String>) -> (payload: Vec<u8>)
    ensures
        payload@ == packed(views(texts@)),
{
    let mut payload: Vec<u8> = Vec::new();
    let mut i: usize = 0;
    while i < texts.len()
        invariant
            i <= texts@.len(),
            payload@ == packed_upto(views(texts@), i as int),
        decreases texts@.len() - i,
    {
        let ghost before = payload@;
        append_bytes(&mut payload, texts[i].as_str().as_bytes());
        payload.push(NUL);
        assert(views(texts@)[i as int] == texts@[i as int]@);
        assert(payload@ =~= before + bytes_of(texts@[i as int]@).push(NUL));
        i += 1;
    }
    payload
}

/// Answers with `payload` as the caller's buffer of `size` bytes allows.
pub fn fit(payload: Vec<u8>, size: u32) -> (reply: XattrReply)
    ensures
        reply@ == sized(payload@, size),
{
    let len = payload.len();
    if len as u64 <= size as u64 {
        XattrReply::Data(payload)
    } else if size > 0 {
        XattrReply::Error(Errno::Range)
    } else if len as u64 <= u32::MAX as u64 {
        XattrReply::Size(len as u32)
    } else {
        XattrReply::Size(u32::MAX)
    }
}

/// The value of the answer to a call that removes an attribute.
pub open spec fn removed_view(reply: Result<(), Errno>) -> Option<Errno> {
    match reply {
        Ok(_) => None,
        Err(e) => Some(e),
    }
}

impl FsView {
    /// The document that owns the file `ino`; `None` where `ino` is not a
    /// file.
    pub open spec fn owner_of(self, ino: u64) -> Option<DocumentUuid> {
        match self.node(ino) {
            Some(Node::File(i)) => Some(self.files[i as int].document_uuid),
            _ => None,
        }
    }

    /// The store after the attribute `name` of the file `ino` was set to
    /// `value`, and the answer. `fresh` is the identity that a new text
    /// row takes.
    ///
    /// A name or a value that is not UTF-8 is refused as not supported; an
    /// inode that is no file has no entry. With `create` an attribute that
    /// exists is refused; with `replace` one that does not. Where the
    /// attribute exists its first text row is written anew, unless it is
    /// to be replaced, shared rows are protected and other documents
    /// share the row: then nothing changes. Where it does not exist a row
    /// is added under `fresh` and attached to the owning document.
    pub open spec fn setxattr(
        self,
        state: StoreState,
        ino: u64,
        name: Seq<u8>,
        value: Seq<u8>,
        flags: XattrFlags,
        fresh: Uuid,
    ) -> (StoreState, SetxattrView) {
        match (decoded(name), decoded(value), self.owner_of(ino)) {
            (Some(n), Some(v), Some(document)) => {
                let exists = state.has(document, n);
                if flags.create && exists {
                    (state, SetxattrView::Error(Errno::Exists))
                } else if flags.replace && !exists {
                    (state, SetxattrView::Error(Errno::NoData))
                } else if exists {
                    let id = state.metadata_named(document, n)->Some_0;
                    let others = state.holders(id, Some(document));
                    if flags.replace && self.never_replace_common_tags && others.len() > 0 {
                        (state, SetxattrView::Protected(others))
                    } else {
                        (state.put(document, id, n, v), SetxattrView::Done)
                    }
                } else {
                    (state.put(document, TextMetadataUuid(fresh), n, v), SetxattrView::Done)
                }
            },
            (Some(_), Some(_), None) => (state, SetxattrView::Error(Errno::NoEntry)),
            _ => (state, SetxattrView::Error(Errno::NotSupported)),
        }
    }

    /// The answer to a call that reads the attribute `name` of the file
    /// `ino` into a buffer of `size` bytes: all its values, each followed
    /// by a NUL byte.
    pub open spec fn getxattr(self, state: StoreState, ino: u64, name: Seq<u8>, size: u32) -> XattrView {
        match self.owner_of(ino) {
            Some(document) => match decoded(name) {
                Some(n) => sized(packed(state.values(document, n)), size),
                None => XattrView::Error(Errno::NotSupported),
            },
            None => XattrView::Error(Errno::NoEntry),
        }
    }

    /// The answer to a call that lists the attributes of the file `ino`
    /// into a buffer of `size` bytes: their names, each followed by a NUL
    /// byte.
    pub open spec fn listxattr(self, state: StoreState, ino: u64, size: u32) -> XattrView {
        match self.owner_of(ino) {
            Some(document) => sized(packed(state.names(document)), size),
            None => XattrView::Error(Errno::NoEntry),
        }
    }

    /// The store after the attribute `name` of the file `ino` was removed,
    /// and the error, if the call failed. The first text row of that name
    /// is detached from the owning document; it is deleted where no other
    /// document has it attached. An attribute that does not exist is
    /// refused as no data.
    pub open spec fn removexattr(self, state: StoreState, ino: u64, name: Seq<u8>) -> (
        StoreState,
        Option<Errno>,
    ) {
        match (decoded(name), self.owner_of(ino)) {
            (Some(n), Some(document)) => {
                if !state.has(document, n) {
                    (state, Some(Errno::NoData))
                } else {
                    let id = state.metadata_named(document, n)->Some_0;
                    let others = state.holders(id, Some(document));
                    (state.removed(document, id, others.len() == 0), None)
                }
            },
            (Some(_), None) => (state, Some(Errno::NoEntry)),
            _ => (state, Some(Errno::NotSupported)),
        }
    }
}

impl BiblFs {
    /// The document that owns the file `ino`.
    pub fn document_uuid_for_ino(&self, ino: u64) -> (owner: Option<DocumentUuid>)
        requires
            self.wf(),
        ensures
            owner == self@.owner_of(ino),
    {
        match self.classify(ino) {
            Some(Node::File(i)) => {
                let files = self.files();
                assert(views(files@)[i as int] == files@[i as int]@);
                Some(files[i].document_uuid)
            },
            _ => None,
        }
    }

    /// The values of the attribute `name` of `document`, each followed by
    /// a NUL byte; `None` where it has none.
    pub fn get_xattr<S: Store>(store: &S, document: DocumentUuid, name: &str) -> (payload: Option<
        Vec<u8>,
    >)
        requires
            store.state().wf(),
        ensures
            match payload {
                Some(bytes) => bytes@ == packed(store.state().values(document, name@))
                    && bytes@.len() > 0,
                None => packed(store.state().values(document, name@)).len() == 0,
            },
    {
        let values = store.xattr_values(document, name);
        let payload = pack(&values);
        if payload.len() == 0 {
            None
        } else {
            Some(payload)
        }
    }

    /// Sets the attribute `name` of the file `ino` to `value`, with
    /// `fresh` as the identity of a text row that is added.
    pub fn setxattr_with<S: Store>(
        &self,
        store: &mut S,
        ino: u64,
        name: &[u8],
        value: &[u8],
        flags: XattrFlags,
        fresh: Uuid,
    ) -> (reply: SetxattrReply)
        requires
            self.wf(),
            old(store).state().wf(),
        ensures
            final(store).state().wf(),
            (final(store).state(), reply@) == self@.setxattr(
                old(store).state(),
                ino,
                name@,
                value@,
                flags,
                fresh,
            ),
    {
        let name_text = match decode(name) {
            Some(t) => t,
            None => {
                return SetxattrReply::Error(Errno::NotSupported);
            },
        };
        let value_text = match decode(value) {
            Some(t) => t,
            None => {
                return SetxattrReply::Error(Errno::NotSupported);
            },
        };
        let document = match self.document_uuid_for_ino(ino) {
            Some(d) => d,
            None => {
                return SetxattrReply::Error(Errno::NoEntry);
            },
        };
        let exists = store.has_xattr(document, name_text.as_str());
        if flags.create && exists {
            return SetxattrReply::Error(Errno::Exists);
        } else if flags.replace && !exists {
            return SetxattrReply::Error(Errno::NoData);
        }
        let mut id = TextMetadataUuid(fresh);
        if exists {
            match store.text_metadata_by_name(document, name_text.as_str()) {
                Some(t) => {
                    id = t;
                },
                None => {},
            }
            if flags.replace && self.never_replace_common_tags() {
                let others = store.documents_with(id, Some(document));
                if others.len() > 0 {
                    return SetxattrReply::Protected(others);
                }
            }
        }
        store.put_xattr(document, id, name_text.as_str(), value_text.as_str());
        SetxattrReply::Done
    }

    /// Sets the attribute `name` of the file `ino` to `value`. A text row
    /// that is added takes a random identity, of the form that marks it as
    /// random.
    pub fn setxattr<S: Store>(
        &self,
        store: &mut S,
        ino: u64,
        name: &[u8],
        value: &[u8],
        flags: XattrFlags,
    ) -> (reply: SetxattrReply)
        requires
            self.wf(),
            old(store).state().wf(),
        ensures
            final(store).state().wf(),
            exists|fresh: Uuid|
                is_random_form(fresh.0) && (final(store).state(), reply@) == #[trigger] self@.setxattr(
                    old(store).state(),
                    ino,
                    name@,
                    value@,
                    flags,
                    fresh,
                ),
    {
        let fresh = Uuid::new();
        let reply = self.setxattr_with(store, ino, name, value, flags, fresh);
        assert((store.state(), reply@) == self@.setxattr(
            old(store).state(),
            ino,
            name@,
            value@,
            flags,
            fresh,
        ));
        reply
    }

    /// Reads the attribute `name` of the file `ino` for a caller whose
    /// buffer holds `size` bytes.
    pub fn getxattr<S: Store>(&self, store: &S, ino: u64, name: &[u8], size: u32) -> (reply:
        XattrReply)
        requires
            self.wf(),
            store.state().wf(),
        ensures
            reply@ == self@.getxattr(store.state(), ino, name@, size),
    {
        let document = match self.document_uuid_for_ino(ino) {
            Some(d) => d,
            None => {
                return XattrReply::Error(Errno::NoEntry);
            },
        };
        let name_text = match decode(name) {
            Some(t) => t,
            None => {
                return XattrReply::Error(Errno::NotSupported);
            },
        };
        let values = store.xattr_values(document, name_text.as_str());
        fit(pack(&values), size)
    }

    /// Lists the names of the attributes of the file `ino` for a caller
    /// whose buffer holds `size` bytes.
    pub fn listxattr<S: Store>(&self, store: &S, ino: u64, size: u32) -> (reply: XattrReply)
        requires
            self.wf(),
            store.state().wf(),
        ensures
            reply@ == self@.listxattr(store.state(), ino, size),
    {
        let document = match self.document_uuid_for_ino(ino) {
            Some(d) => d,
            None => {
                return XattrReply::Error(Errno::NoEntry);
            },
        };
        let names = store.xattr_names(document);
        fit(pack(&names), size)
    }

    /// Removes the attribute `name` of the file `ino`.
    pub fn removexattr<S: Store>(&self, store: &mut S, ino: u64, name: &[u8]) -> (reply: Result<
        (),
        Errno,
    >)
        requires
            self.wf(),
            old(store).state().wf(),
        ensures
            final(store).state().wf(),
            (final(store).state(), removed_view(reply)) == self@.removexattr(
                old(store).state(),
                ino,
                name@,
            ),
    {
        let name_text = match decode(name) {
            Some(t) => t,
            None => {
                return Err(Errno::NotSupported);
            },
        };
        let document = match self.document_uuid_for_ino(ino) {
            Some(d) => d,
            None => {
                return Err(Errno::NoEntry);
            },
        };
        if !store.has_xattr(document, name_text.as_str()) {
            return Err(Errno::NoData);
        }
        match store.text_metadata_by_name(document, name_text.as_str()) {
            Some(id) => {
                let others = store.documents_with(id, Some(document));
                store.remove_xattr(document, id, others.len() == 0);
                Ok(())
            },
            None => Err(Errno::NoData),
        }
    }
}

} // verus!
