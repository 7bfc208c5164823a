use biblfs::ids::{
    BinaryMetadataUuid, DocumentUuid, MetadataUuid, TextMetadataUuid, Uuid, NAMESPACE_DNS,
    NAMESPACE_OID, NAMESPACE_URL,
};

const SAMPLE: u128 = 0x0123_4567_89ab_cdef_fedc_ba98_7654_3210;

#[test]
fn hyphenated_form_is_lowercase_in_five_groups() {
    assert_eq!(Uuid(SAMPLE).to_hyphenated(), "01234567-89ab-cdef-fedc-ba9876543210");
    assert_eq!(Uuid(0).to_hyphenated(), "00000000-0000-0000-0000-000000000000");
    assert_eq!(Uuid(u128::MAX).to_hyphenated(), "ffffffff-ffff-ffff-ffff-ffffffffffff");
}

#[test]
fn simple_form_is_lowercase_without_hyphens() {
    assert_eq!(Uuid(SAMPLE).to_simple(), "0123456789abcdeffedcba9876543210");
    assert_eq!(Uuid(1).to_simple(), "00000000000000000000000000000001");
}

#[test]
fn text_forms_agree_with_the_uuid_crate() {
    let theirs = uuid::Uuid::from_u128(SAMPLE);
    assert_eq!(Uuid(SAMPLE).to_hyphenated(), theirs.to_hyphenated().to_string());
    assert_eq!(Uuid(SAMPLE).to_simple(), theirs.to_simple().to_string());
}

#[test]
fn stored_form_round_trips() {
    let id = Uuid(SAMPLE);
    assert_eq!(Uuid::parse_str(&id.to_simple()), Some(id));
    assert_eq!(Uuid::parse_str(&id.to_hyphenated()), Some(id));
}

#[test]
fn parse_accepts_upper_case_and_refuses_garbage() {
    assert_eq!(Uuid::parse_str("0123456789ABCDEFFEDCBA9876543210"), Some(Uuid(SAMPLE)));
    assert_eq!(Uuid::parse_str(""), None);
    assert_eq!(Uuid::parse_str("0123456789abcdeffedcba987654321"), None);
    assert_eq!(Uuid::parse_str("0123456789abcdeffedcba987654321g"), None);
}

#[test]
fn from_parsed_wraps_the_bits() {
    assert_eq!(Uuid::from_parsed(Some(7)), Some(Uuid(7)));
    assert_eq!(Uuid::from_parsed(None), None);
}

#[test]
fn nil_and_default_are_zero() {
    assert_eq!(Uuid::nil(), Uuid(0));
    assert_eq!(Uuid::default(), Uuid(0));
    assert_eq!(DocumentUuid::default(), DocumentUuid(Uuid(0)));
    assert_eq!(BinaryMetadataUuid::default(), BinaryMetadataUuid(Uuid(0)));
    assert_eq!(TextMetadataUuid::default(), TextMetadataUuid(Uuid(0)));
    assert_eq!(MetadataUuid::default(), MetadataUuid(Uuid(0)));
}

#[test]
fn fresh_identifiers_differ() {
    let a = Uuid::new();
    let b = Uuid::new();
    assert_ne!(a, b);
    // Version 4, RFC 4122 variant.
    assert_eq!((a.0 >> 76) & 0xf, 4);
    assert_eq!((a.0 >> 62) & 0x3, 2);
}

#[test]
fn identifiers_are_ordered_by_value() {
    assert!(Uuid(1) < Uuid(2));
    assert!(DocumentUuid(Uuid(1)) < DocumentUuid(Uuid(2)));
}

#[test]
fn every_digit_is_the_nibble_at_its_place() {
    for value in [SAMPLE, 0, u128::MAX, 1, 1 << 127, 0xdead_beef] {
        let simple = Uuid(value).to_simple();
        let hyphenated = Uuid(value).to_hyphenated();
        assert_eq!(simple.len(), 32);
        assert_eq!(hyphenated.len(), 36);
        let digits = "0123456789abcdef".as_bytes();
        for i in 0..32 {
            let nibble = ((value >> (4 * (31 - i))) & 0xf) as usize;
            assert_eq!(simple.as_bytes()[i], digits[nibble]);
        }
        for i in 0..36usize {
            if i == 8 || i == 13 || i == 18 || i == 23 {
                assert_eq!(hyphenated.as_bytes()[i], b'-');
            } else {
                let before = (i > 8) as usize + (i > 13) as usize + (i > 18) as usize + (i > 23) as usize;
                let nibble = ((value >> (4 * (31 - (i - before)))) & 0xf) as usize;
                assert_eq!(hyphenated.as_bytes()[i], digits[nibble]);
            }
        }
    }
}

#[test]
fn name_based_identifiers_are_those_of_the_standard() {
    assert_eq!(Uuid(NAMESPACE_DNS).to_hyphenated(), "6ba7b810-9dad-11d1-80b4-00c04fd430c8");
    assert_eq!(Uuid(NAMESPACE_URL).to_hyphenated(), "6ba7b811-9dad-11d1-80b4-00c04fd430c8");
    assert_eq!(Uuid(NAMESPACE_OID).to_hyphenated(), "6ba7b812-9dad-11d1-80b4-00c04fd430c8");
    assert_eq!(NAMESPACE_DNS, uuid::Uuid::NAMESPACE_DNS.as_u128());
    assert_eq!(NAMESPACE_URL, uuid::Uuid::NAMESPACE_URL.as_u128());
    assert_eq!(NAMESPACE_OID, uuid::Uuid::NAMESPACE_OID.as_u128());
    assert_eq!(
        Uuid::new_v5(&Uuid(NAMESPACE_DNS), b"python.org").to_hyphenated(),
        "886313e1-3b8a-5372-9b90-0c9aee199e5d"
    );
    assert_eq!(
        MetadataUuid::new_storage_data(b"python.org").inner().to_hyphenated(),
        "886313e1-3b8a-5372-9b90-0c9aee199e5d"
    );
}

#[test]
fn identities_are_made_from_what_they_name() {
    let oid = uuid::Uuid::NAMESPACE_OID;
    let url = uuid::Uuid::NAMESPACE_URL;
    let v5 = |namespace: &uuid::Uuid, name: &[u8]| Uuid(uuid::Uuid::new_v5(namespace, name).as_u128());
    assert_eq!(DocumentUuid::new("Magna Carta"), DocumentUuid(v5(&oid, b"Magna Carta")));
    assert_ne!(DocumentUuid::new("Magna Carta"), DocumentUuid::new("magna carta"));
    assert_eq!(MetadataUuid::new_tag("history"), MetadataUuid(v5(&oid, b"tag\0history")));
    assert_eq!(MetadataUuid::new_tag(""), MetadataUuid(v5(&oid, b"tag\0")));
    assert_eq!(
        MetadataUuid::new_data(Some("author"), b"Anonymous"),
        MetadataUuid(v5(&oid, b"author\0Anonymous"))
    );
    assert_eq!(MetadataUuid::new_data(None, b"Anonymous"), MetadataUuid(v5(&oid, b"Anonymous")));
    assert_eq!(MetadataUuid::new_data(Some(""), b"x"), MetadataUuid(v5(&oid, b"\0x")));
    // A tag is the data `history` under the name `tag`.
    assert_eq!(MetadataUuid::new_tag("history"), MetadataUuid::new_data(Some("tag"), b"history"));
    assert_eq!(
        MetadataUuid::new_filesystem_path(b"./src/init.sql"),
        MetadataUuid(v5(&url, b"./src/init.sql"))
    );
    assert_eq!(DocumentUuid::null(), DocumentUuid(Uuid(0)));
    assert_eq!(MetadataUuid::null(), MetadataUuid(Uuid(0)));
    assert_eq!(*DocumentUuid(Uuid(5)).inner(), Uuid(5));
    // Version 5, RFC 4122 variant.
    let id = DocumentUuid::new("x").0 .0;
    assert_eq!((id >> 76) & 0xf, 5);
    assert_eq!((id >> 62) & 0x3, 2);
}
