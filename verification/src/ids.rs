//! Identifiers: 128-bit values with their canonical text encodings, and the
//! typed wrappers that tell documents, files and text metadata apart.

use crate::text::append_bytes;
use vstd::prelude::*;
use vstd::string::StringSliceAdditionalSpecFns;

verus! {

/// The namespace for identifiers that are made from domain names.
pub const NAMESPACE_DNS: u128 = 0x6ba7b810_9dad_11d1_80b4_00c04fd430c8;

/// The namespace for identifiers that are made from locators.
pub const NAMESPACE_URL: u128 = 0x6ba7b811_9dad_11d1_80b4_00c04fd430c8;

/// The namespace for identifiers that are made from object identifiers.
pub const NAMESPACE_OID: u128 = 0x6ba7b812_9dad_11d1_80b4_00c04fd430c8;

/// What stands before the text of a tag in the name that its identity is
/// made from.
pub const TAG_SEED: &'static str = "tag\0";

/// The byte that parts the name of a metadata row from its data in the
/// name that its identity is made from.
pub const SEED_SEPARATOR: u8 = 0;

/// The sixteen lowercase hexadecimal digits, in order.
pub open spec fn hex_digits() -> Seq<char> {
    seq!['0', '1', '2', '3', '4', '5', '6', '7', '8', '9', 'a', 'b', 'c', 'd', 'e', 'f']
}

/// The `index`-th of the 32 four-bit groups of `value`, most significant first.
pub open spec fn nibble(value: u128, index: int) -> int {
    ((value >> ((4 * (31 - index)) as u128)) & 0xf) as int
}

/// How many hyphens stand before position `position` of the hyphenated text.
pub open spec fn hyphens_before(position: int) -> int {
    (if position > 8 { 1int } else { 0 }) + (if position > 13 { 1int } else { 0 })
        + (if position > 18 { 1int } else { 0 }) + (if position > 23 { 1int } else { 0 })
}

/// The 32 lowercase hexadecimal digits of `value`, most significant first.
pub open spec fn simple_text(value: u128) -> Seq<char> {
    Seq::new(32, |i: int| hex_digits()[nibble(value, i)])
}

/// The 36 characters of the hyphenated form: the digits of [`simple_text`]
/// in groups of 8, 4, 4, 4 and 12, with `-` between the groups.
pub open spec fn hyphenated_text(value: u128) -> Seq<char> {
    Seq::new(
        36,
        |i: int|
            if i == 8 || i == 13 || i == 18 || i == 23 {
                '-'
            } else {
                hex_digits()[nibble(value, i - hyphens_before(i))]
            },
    )
}

/// Whether `bits` bear the marks of a random identifier: the version 4 in
/// the thirteenth digit, and the variant of RFC 4122 in the two highest
/// bits of the seventeenth.
pub open spec fn is_random_form(bits: u128) -> bool {
    (bits >> 76u128) & 0xf == 4 && (bits >> 62u128) & 0x3 == 2
}

/// What `uuid::Uuid::parse_str` makes of a text: the 128-bit value, or `None`
/// where the text is in none of the forms it accepts.
pub uninterp spec fn parsed_uuid(text: Seq<char>) -> Option<u128>;

/// What `uuid::Uuid::new_v5` makes of a namespace and a name: the 128 bits
/// of the name-based identifier.
pub uninterp spec fn name_based(namespace: u128, name: Seq<u8>) -> u128;

/// A 128-bit universally unique identifier.
#[derive(Clone, Copy, Debug, PartialEq, Eq, Hash, PartialOrd, Ord, Structural)]
pub struct Uuid(pub u128);

/// Calls `uuid::Uuid::new_v4` and hands back its 128 bits. The value is
/// random. Claimed: it bears the marks of a random identifier, the version
/// 4 and the variant of RFC 4122. The call panics where the system gives
/// no random bytes.
#[verifier::external_body]
fn random_bits() -> (bits: u128)
    ensures
        is_random_form(bits),
{
    uuid::Uuid::new_v4().as_u128()
}

/// Calls `uuid::Uuid::to_simple` and formats the result. Claimed: the text
/// is the 32 lowercase hexadecimal digits of the value, most significant
/// first.
#[verifier::external_body]
fn simple_string(value: u128) -> (text: String)
    ensures
        text@ == simple_text(value),
{
    uuid::Uuid::from_u128(value).to_simple().to_string()
}

/// Calls `uuid::Uuid::to_hyphenated` and formats the result. Claimed: the
/// text is the digits of the simple form in groups of 8, 4, 4, 4 and 12
/// with a hyphen between each two groups.
#[verifier::external_body]
fn hyphenated_string(value: u128) -> (text: String)
    ensures
        text@ == hyphenated_text(value),
{
    uuid::Uuid::from_u128(value).to_hyphenated().to_string()
}

/// Calls `uuid::Uuid::parse_str`. Claimed: the outcome is a function of the
/// text alone.
#[verifier::external_body]
fn parse_bits(text: &str) -> (bits: Option<u128>)
    ensures
        bits == parsed_uuid(text@),
{
    uuid::Uuid::parse_str(text).ok().map(|u| u.as_u128())
}

/// Calls `uuid::Uuid::new_v5`. Claimed: the outcome is a function of the
/// namespace and the name alone.
#[verifier::external_body]
fn name_based_bits(namespace: u128, name: &[u8]) -> (bits: u128)
    ensures
        bits == name_based(namespace, name@),
{
    uuid::Uuid::new_v5(&uuid::Uuid::from_u128(namespace), name).as_u128()
}

impl Uuid {
    /// The identifier that is made from `name` in `namespace`.
    pub fn new_v5(namespace: &Uuid, name: &[u8]) -> (id: Uuid)
        ensures
            id == Uuid(name_based(namespace.0, name@)),
    {
        Uuid(name_based_bits(namespace.0, name))
    }

    /// The identifier all of whose bits are zero.
    pub fn nil() -> (id: Uuid)
        ensures
            id == Uuid(0),
    {
        Uuid(0)
    }

    /// A fresh random identifier.
    pub fn new() -> (id: Uuid)
        ensures
            is_random_form(id.0),
    {
        Uuid(random_bits())
    }

    /// The identifier that a parsed text stands for.
    pub fn from_parsed(bits: Option<u128>) -> (id: Option<Uuid>)
        ensures
            id == match bits {
                Some(b) => Some(Uuid(b)),
                None => None,
            },
    {
        match bits {
            Some(b) => Some(Uuid(b)),
            None => None,
        }
    }

    /// Reads an identifier from any of the textual forms the store may hold.
    pub fn parse_str(text: &str) -> (id: Option<Uuid>)
        ensures
            id == match parsed_uuid(text@) {
                Some(b) => Some(Uuid(b)),
                None => None,
            },
    {
        Uuid::from_parsed(parse_bits(text))
    }

    /// The form in which identifiers are stored: 32 lowercase hexadecimal
    /// digits without hyphens.
    pub fn to_simple(&self) -> (text: String)
        ensures
            text@ == simple_text(self.0),
    {
        simple_string(self.0)
    }

    /// The canonical form: lowercase hexadecimal digits with hyphens.
    pub fn to_hyphenated(&self) -> (text: String)
        ensures
            text@ == hyphenated_text(self.0),
    {
        hyphenated_string(self.0)
    }
}

impl Default for Uuid {
    fn default() -> (id: Uuid)
        ensures
            id == Uuid(0),
    {
        Uuid(0)
    }
}

/// Identity of a document.
#[derive(Clone, Copy, Debug, PartialEq, Eq, Hash, PartialOrd, Ord, Structural)]
pub struct DocumentUuid(pub Uuid);

/// Identity of a binary metadata row: an attachment, surfaced as a file.
#[derive(Clone, Copy, Debug, PartialEq, Eq, Hash, PartialOrd, Ord, Structural)]
pub struct BinaryMetadataUuid(pub Uuid);

/// Identity of a text metadata row: a tag, an author or an extended attribute.
#[derive(Clone, Copy, Debug, PartialEq, Eq, Hash, PartialOrd, Ord, Structural)]
pub struct TextMetadataUuid(pub Uuid);

/// Identity of a metadata row of either sort, as the change history names it.
#[derive(Clone, Copy, Debug, PartialEq, Eq, Hash, PartialOrd, Ord, Structural)]
pub struct MetadataUuid(pub Uuid);

/// The name that the identity of a metadata row is made from: its data,
/// after its name and a separator where it has a name.
pub open spec fn data_seed(name: Option<Seq<u8>>, data: Seq<u8>) -> Seq<u8> {
    match name {
        Some(n) => n.push(SEED_SEPARATOR) + data,
        None => data,
    }
}

impl DocumentUuid {
    /// The identity of the document with the title `title`.
    pub fn new(title: &str) -> (id: DocumentUuid)
        ensures
            id == DocumentUuid(Uuid(name_based(NAMESPACE_OID, title.spec_bytes()))),
    {
        DocumentUuid(Uuid::new_v5(&Uuid(NAMESPACE_OID), title.as_bytes()))
    }

    /// The identity all of whose bits are zero.
    pub fn null() -> (id: DocumentUuid)
        ensures
            id == DocumentUuid(Uuid(0)),
    {
        DocumentUuid(Uuid(0))
    }

    /// The identifier inside.
    pub fn inner(&self) -> (id: &Uuid)
        ensures
            *id == self.0,
    {
        &self.0
    }
}

impl MetadataUuid {
    /// The identity of the tag with the text `title`.
    pub fn new_tag(title: &str) -> (id: MetadataUuid)
        ensures
            id == MetadataUuid(
                Uuid(name_based(NAMESPACE_OID, TAG_SEED.spec_bytes() + title.spec_bytes())),
            ),
    {
        let mut seed: Vec<u8> = Vec::new();
        append_bytes(&mut seed, TAG_SEED.as_bytes());
        append_bytes(&mut seed, title.as_bytes());
        assert(seed@ =~= TAG_SEED.spec_bytes() + title.spec_bytes());
        MetadataUuid(Uuid::new_v5(&Uuid(NAMESPACE_OID), seed.as_slice()))
    }

    /// The identity of the metadata row that holds `data` under `name`.
    pub fn new_data(name: Option<&str>, data: &[u8]) -> (id: MetadataUuid)
        ensures
            id == MetadataUuid(
                Uuid(
                    name_based(
                        NAMESPACE_OID,
                        data_seed(
                            match name {
                                Some(n) => Some(n.spec_bytes()),
                                None => None,
                            },
                            data@,
                        ),
                    ),
                ),
            ),
    {
        match name {
            Some(n) => {
                let mut seed: Vec<u8> = Vec::new();
                append_bytes(&mut seed, n.as_bytes());
                seed.push(SEED_SEPARATOR);
                append_bytes(&mut seed, data);
                assert(seed@ =~= n.spec_bytes().push(SEED_SEPARATOR) + data@);
                MetadataUuid(Uuid::new_v5(&Uuid(NAMESPACE_OID), seed.as_slice()))
            },
            None => MetadataUuid(Uuid::new_v5(&Uuid(NAMESPACE_OID), data)),
        }
    }

    /// The identity of the metadata row that stores `data` as a file.
    pub fn new_storage_data(data: &[u8]) -> (id: MetadataUuid)
        ensures
            id == MetadataUuid(Uuid(name_based(NAMESPACE_DNS, data@))),
    {
        MetadataUuid(Uuid::new_v5(&Uuid(NAMESPACE_DNS), data))
    }

    /// The identity of the metadata row that points to the file at `path`.
    pub fn new_filesystem_path(path: &[u8]) -> (id: MetadataUuid)
        ensures
            id == MetadataUuid(Uuid(name_based(NAMESPACE_URL, path@))),
    {
        MetadataUuid(Uuid::new_v5(&Uuid(NAMESPACE_URL), path))
    }

    /// The identity all of whose bits are zero.
    pub fn null() -> (id: MetadataUuid)
        ensures
            id == MetadataUuid(Uuid(0)),
    {
        MetadataUuid(Uuid(0))
    }

    /// The identifier inside.
    pub fn inner(&self) -> (id: &Uuid)
        ensures
            *id == self.0,
    {
        &self.0
    }
}

impl Default for DocumentUuid {
    fn default() -> (id: DocumentUuid)
        ensures
            id == DocumentUuid(Uuid(0)),
    {
        DocumentUuid(Uuid(0))
    }
}

impl Default for BinaryMetadataUuid {
    fn default() -> (id: BinaryMetadataUuid)
        ensures
            id == BinaryMetadataUuid(Uuid(0)),
    {
        BinaryMetadataUuid(Uuid(0))
    }
}

impl Default for TextMetadataUuid {
    fn default() -> (id: TextMetadataUuid)
        ensures
            id == TextMetadataUuid(Uuid(0)),
    {
        TextMetadataUuid(Uuid(0))
    }
}

impl Default for MetadataUuid {
    fn default() -> (id: MetadataUuid)
        ensures
            id == MetadataUuid(Uuid(0)),
    {
        MetadataUuid(Uuid(0))
    }
}

} // verus!
