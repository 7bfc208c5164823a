//! The shape of a change history: what was done to which document.

use crate::ids::{DocumentUuid, MetadataUuid};
use vstd::prelude::*;

verus! {

/// The role a metadata row plays for its document.
#[derive(Debug)]
pub enum MetadataKind {
    Author,
    Tag,
    Storage,
    Other,
}

/// One change to an existing document.
#[derive(Debug)]
pub enum DocumentModification {
    AlterTitle(String),
    Add(MetadataKind, MetadataUuid),
    RemoveTag(MetadataKind, MetadataUuid),
}

/// One entry of the history.
#[derive(Debug)]
pub enum UndoKind {
    NewDocument { uuid: DocumentUuid },
    ModifyDocument(DocumentUuid, DocumentModification),
    DeleteDocument(DocumentUuid),
}

} // verus!
