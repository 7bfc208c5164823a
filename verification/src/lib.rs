//! A virtual filesystem over a relational document store.
//!
//! The store holds documents, their binary attachments and their text
//! metadata. This library projects it onto a namespace of inodes: every
//! attachment is a file in the root directory, every tag is a directory
//! under `tags`, every search phrase is a directory under `query`, and the
//! text metadata of a document are the extended attributes of its files.
//!
//! The library decides; it performs no input or output of its own. The
//! index ([`index::BiblFs`]) is built from a [`store::Store`] and answers
//! each call of the kernel with a plain value. A store in memory
//! ([`memory::MemoryStore`]) comes with it.
//!
//! Every operation is specified by a function on mathematical values: the
//! value of the index ([`index::FsView`]) and the contents of the store
//! ([`store::StoreState`]). The module [`laws`] states what holds across
//! operations.

pub mod attr;
pub mod bytes;
pub mod content;
pub mod datetime;
pub mod entities;
pub mod ids;
pub mod index;
pub mod kind;
pub mod laws;
pub mod lookup;
pub mod memory;
pub mod query;
pub mod read;
pub mod readdir;
pub mod relations;
pub mod report;
pub mod resolve;
pub mod storage;
pub mod store;
pub mod stubs;
pub mod text;
pub mod undo;
pub mod xattr;
