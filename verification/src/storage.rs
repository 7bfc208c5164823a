//! Metadata rows as a document editor writes them: how a row's identity
//! and content follow from what it stores.

use crate::datetime::DateTime;
use crate::ids::{name_based, MetadataUuid, Uuid, NAMESPACE_DNS, NAMESPACE_OID, NAMESPACE_URL, TAG_SEED};
use crate::store::TAG_NAME;
use crate::text::{append_bytes, bytes_of};
use vstd::prelude::*;
use vstd::string::StringExecFns;
use vstd::string::StringSliceAdditionalSpecFns;

verus! {

/// The type that is recorded for content kept in the store itself.
pub const PLAIN_TEXT: &'static str = "text/plain";

/// Where the content of a document is kept.
#[derive(Debug)]
pub enum StorageType {
    /// In the store itself: the content.
    InDatabase(String),
    /// In a file outside the store: its path.
    Local(String),
}

/// A metadata row.
#[derive(Debug)]
pub struct Metadata {
    pub uuid: MetadataUuid,
    pub name: Option<String>,
    pub data: Option<Vec<u8>>,
    pub created: DateTime,
    pub last_modified: DateTime,
}

/// What is written for a piece of storage: the metadata row, and whether
/// the row holds the content itself.
#[derive(Debug)]
pub struct StorageRow {
    pub uuid: MetadataUuid,
    pub name: String,
    pub data: Vec<u8>,
    pub is_data: bool,
}

/// How many bytes or rows a count from the store stands for: the count,
/// or none where it is negative or too great.
pub open spec fn counted(reported: i64) -> usize {
    if 0 <= reported <= usize::MAX {
        reported as usize
    } else {
        0
    }
}

/// Reads a count from the store.
pub fn count(reported: i64) -> (n: usize)
    ensures
        n == counted(reported),
{
    if reported < 0 || reported as u64 > usize::MAX as u64 {
        0
    } else {
        reported as usize
    }
}

impl StorageType {
    /// Where the content of a storage row is kept: in the store where the
    /// row holds the content itself; else in the file whose path the row
    /// names, or at the empty path where it names none.
    pub fn of_row(is_data: bool, name: Option<String>) -> (storage: StorageType)
        ensures
            is_data ==> storage is InDatabase && storage->InDatabase_0@.len() == 0,
            !is_data ==> storage is Local && storage->Local_0@ == match name {
                Some(n) => n@,
                None => Seq::empty(),
            },
    {
        if is_data {
            StorageType::InDatabase(String::new())
        } else {
            match name {
                Some(n) => StorageType::Local(n),
                None => StorageType::Local(String::new()),
            }
        }
    }

    /// The row that is written for this storage. Content kept in the
    /// store is recorded as plain text under an identity made from the
    /// content; a file outside is recorded with `mime_type` under an
    /// identity made from its path.
    pub fn row(&self, mime_type: &str) -> (row: StorageRow)
        ensures
            match self {
                StorageType::InDatabase(content) => {
                    &&& row.uuid == MetadataUuid(
                        Uuid(name_based(NAMESPACE_DNS, bytes_of(content@))),
                    )
                    &&& row.name@ == PLAIN_TEXT@
                    &&& row.data@ == bytes_of(content@)
                    &&& row.is_data
                },
                StorageType::Local(path) => {
                    &&& row.uuid == MetadataUuid(
                        Uuid(name_based(NAMESPACE_URL, bytes_of(path@))),
                    )
                    &&& row.name@ == mime_type@
                    &&& row.data@ == bytes_of(path@)
                    &&& !row.is_data
                },
            },
    {
        match self {
            StorageType::InDatabase(content) => {
                let mut data: Vec<u8> = Vec::new();
                append_bytes(&mut data, content.as_str().as_bytes());
                assert(data@ =~= bytes_of(content@));
                StorageRow {
                    uuid: MetadataUuid::new_storage_data(content.as_str().as_bytes()),
                    name: String::from_str(PLAIN_TEXT),
                    data,
                    is_data: true,
                }
            },
            StorageType::Local(path) => {
                let mut data: Vec<u8> = Vec::new();
                append_bytes(&mut data, path.as_str().as_bytes());
                assert(data@ =~= bytes_of(path@));
                StorageRow {
                    uuid: MetadataUuid::new_filesystem_path(path.as_str().as_bytes()),
                    name: String::from_str(mime_type),
                    data,
                    is_data: false,
                }
            },
        }
    }
}

impl Metadata {
    /// The row that holds `data` under `name`, written at `now`.
    pub fn new(name: Option<&str>, data: &[u8], now: DateTime) -> (row: Metadata)
        ensures
            row.uuid == MetadataUuid(
                Uuid(
                    name_based(
                        NAMESPACE_OID,
                        crate::ids::data_seed(
                            match name {
                                Some(n) => Some(n.spec_bytes()),
                                None => None,
                            },
                            data@,
                        ),
                    ),
                ),
            ),
            match name {
                Some(n) => row.name matches Some(kept) && kept@ == n@,
                None => row.name is None,
            },
            row.data matches Some(kept) && kept@ == data@,
            row.created == now,
            row.last_modified == now,
    {
        let mut kept: Vec<u8> = Vec::new();
        append_bytes(&mut kept, data);
        assert(kept@ =~= data@);
        Metadata {
            uuid: MetadataUuid::new_data(name, data),
            name: match name {
                Some(n) => Some(String::from_str(n)),
                None => None,
            },
            data: Some(kept),
            created: now,
            last_modified: now,
        }
    }

    /// The row of the tag with the text `text`, written at `now`.
    pub fn tag(text: &str, now: DateTime) -> (row: Metadata)
        ensures
            row.uuid == MetadataUuid(
                Uuid(name_based(NAMESPACE_OID, TAG_SEED.spec_bytes() + text.spec_bytes())),
            ),
            row.name matches Some(kept) && kept@ == TAG_NAME@,
            row.data matches Some(kept) && kept@ == text.spec_bytes(),
            row.created == now,
            row.last_modified == now,
    {
        let mut kept: Vec<u8> = Vec::new();
        append_bytes(&mut kept, text.as_bytes());
        assert(kept@ =~= text.spec_bytes());
        Metadata {
            uuid: MetadataUuid::new_tag(text),
            name: Some(String::from_str(TAG_NAME)),
            data: Some(kept),
            created: now,
            last_modified: now,
        }
    }
}

} // verus!
