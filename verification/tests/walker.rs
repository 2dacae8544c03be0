use bsondump::bytes::{CountBytes, RawArrayView, RawDocumentView, RawElement, RawValueRef};
use bsondump::{debug, get_indent, new_object_header};

fn int32_field(name: &str) -> RawElement {
    RawElement { name: name.to_string(), value: RawValueRef::Int32 }
}

#[test]
fn string_sizes_follow_the_universal_formula() {
    assert_eq!((RawValueRef::String { byte_len: 0 }).count_bytes(), 5);
    assert_eq!((RawValueRef::String { byte_len: 16384 }).count_bytes(), 16389);
    // A two-character string of multi-byte UTF-8 counts its bytes, not
    // its characters.
    let snowmen = "\u{2603}\u{2603}";
    assert_eq!(
        (RawValueRef::String { byte_len: snowmen.len() }).count_bytes(),
        4 + 6 + 1
    );
    assert_eq!(snowmen.count_bytes(), 4 + 6 + 1);
    assert_eq!("".count_bytes(), 5);
    assert_eq!("abc".count_bytes(), 8);
}

#[test]
fn binary_sizes_count_prefix_subtype_and_payload() {
    assert_eq!((RawValueRef::Binary { payload_len: 0 }).count_bytes(), 5);
    assert_eq!((RawValueRef::Binary { payload_len: 3 }).count_bytes(), 8);
    assert_eq!(
        (RawValueRef::Binary { payload_len: 16777186 }).count_bytes(),
        16777191
    );
}

#[test]
fn scalar_sizes_match_the_wire_table() {
    assert_eq!(RawValueRef::Double.count_bytes(), 8);
    assert_eq!(RawValueRef::Boolean.count_bytes(), 1);
    assert_eq!(RawValueRef::Null.count_bytes(), 0);
    assert_eq!(RawValueRef::Int32.count_bytes(), 4);
    assert_eq!(RawValueRef::Int64.count_bytes(), 8);
    assert_eq!(RawValueRef::Timestamp.count_bytes(), 8);
    assert_eq!(RawValueRef::DateTime.count_bytes(), 8);
    assert_eq!(RawValueRef::ObjectId.count_bytes(), 12);
    assert_eq!(RawValueRef::Decimal128.count_bytes(), 16);
    assert_eq!(RawValueRef::Undefined.count_bytes(), 0);
    assert_eq!(RawValueRef::MinKey.count_bytes(), 0);
    assert_eq!(RawValueRef::MaxKey.count_bytes(), 0);
    assert_eq!(RawValueRef::DbPointer.count_bytes(), 17);
    assert_eq!(
        (RawValueRef::RegularExpression { pattern_byte_len: 1, options_byte_len: 2 }).count_bytes(),
        13
    );
    assert_eq!((RawValueRef::JavaScriptCode { byte_len: 2 }).count_bytes(), 7);
    assert_eq!(
        (RawValueRef::JavaScriptCodeWithScope { code_byte_len: 2, scope_byte_len: 10 })
            .count_bytes(),
        17
    );
}

#[test]
fn element_types_match_the_wire_tags() {
    assert_eq!(RawValueRef::Double.element_type(), 1);
    assert_eq!((RawValueRef::String { byte_len: 0 }).element_type(), 2);
    assert_eq!(RawValueRef::Int32.element_type(), 16);
    assert_eq!(RawValueRef::MinKey.element_type(), 255);
    assert_eq!(RawValueRef::MaxKey.element_type(), 127);
}

#[test]
fn debug_renders_one_int32_field() {
    let doc = RawDocumentView { byte_len: 12, elements: vec![int32_field("a")] };
    let report = debug(&doc);
    assert_eq!(
        report,
        "--- new object ---\n\tsize : 12\n\t\ta\n\t\t\ttype:   16 size: 7\n"
    );
}

#[test]
fn debug_recurses_into_arrays_with_decimal_index_names() {
    let array = RawArrayView {
        byte_len: 19,
        values: vec![RawValueRef::Boolean, RawValueRef::String { byte_len: 2 }],
    };
    let doc = RawDocumentView {
        byte_len: 29,
        elements: vec![RawElement { name: "arr".to_string(), value: RawValueRef::Array(array) }],
    };
    let report = debug(&doc);
    let expected = "--- new object ---\n\tsize : 29\n\t\tarr\n\t\t\ttype:    4 size: 24\n\t\t\t--- new object ---\n\t\t\t\tsize : 19\n\t\t\t\t\t0\n\t\t\t\t\t\ttype:    8 size: 4\n\t\t\t\t\t1\n\t\t\t\t\t\ttype:    2 size: 10\n";
    assert_eq!(report, expected);
}

#[test]
fn debug_recurses_into_embedded_documents() {
    let inner = RawDocumentView { byte_len: 12, elements: vec![int32_field("a")] };
    let doc = RawDocumentView {
        byte_len: 23,
        elements: vec![RawElement {
            name: "doc".to_string(),
            value: RawValueRef::Document(inner),
        }],
    };
    let report = debug(&doc);
    let expected = "--- new object ---\n\tsize : 23\n\t\tdoc\n\t\t\ttype:    3 size: 17\n\t\t\t--- new object ---\n\t\t\t\tsize : 12\n\t\t\t\t\ta\n\t\t\t\t\t\ttype:   16 size: 7\n";
    assert_eq!(report, expected);
}

#[test]
fn debug_is_idempotent_on_the_same_view() {
    let doc = RawDocumentView {
        byte_len: 22,
        elements: vec![int32_field("a"), RawElement {
            name: "b".to_string(),
            value: RawValueRef::Boolean,
        }],
    };
    let first = debug(&doc);
    let second = debug(&doc);
    assert_eq!(first, second);
}

#[test]
fn header_prints_measured_size_at_its_level() {
    let doc = RawDocumentView { byte_len: 12, elements: vec![int32_field("a")] };
    let mut out = String::new();
    new_object_header(&mut out, &doc, 1);
    assert_eq!(out, "\t--- new object ---\n\t\tsize : 12\n");
}

#[test]
fn indent_is_one_tab_per_level() {
    assert_eq!(get_indent(0), "");
    assert_eq!(get_indent(3), "\t\t\t");
}

#[test]
fn debug_renders_an_empty_document() {
    let doc = RawDocumentView { byte_len: 5, elements: vec![] };
    assert_eq!(debug(&doc), "--- new object ---\n\tsize : 5\n");
}

#[test]
fn debug_pads_three_digit_tags() {
    let doc = RawDocumentView {
        byte_len: 8,
        elements: vec![RawElement { name: "m".to_string(), value: RawValueRef::MinKey }],
    };
    assert_eq!(
        debug(&doc),
        "--- new object ---\n\tsize : 8\n\t\tm\n\t\t\ttype:  255 size: 3\n"
    );
}

#[test]
fn well_formedness_accepts_a_consistent_view() {
    let array = RawArrayView {
        byte_len: 19,
        values: vec![RawValueRef::Boolean, RawValueRef::String { byte_len: 2 }],
    };
    let doc = RawDocumentView {
        byte_len: 29,
        elements: vec![RawElement { name: "arr".to_string(), value: RawValueRef::Array(array) }],
    };
    assert!(doc.is_well_formed());
}

#[test]
fn well_formedness_rejects_a_wrong_span() {
    let doc = RawDocumentView { byte_len: 13, elements: vec![int32_field("a")] };
    assert!(!doc.is_well_formed());
    let nested = RawDocumentView {
        byte_len: 22,
        elements: vec![RawElement {
            name: "doc".to_string(),
            value: RawValueRef::Document(RawDocumentView { byte_len: 12, elements: vec![] }),
        }],
    };
    assert!(!nested.is_well_formed(), "an embedded span that does not add up is found");
}

#[test]
fn measured_size_matches_a_real_encoder() {
    let mut raw = bson::RawDocumentBuf::new();
    let key: &bson::raw::CStr = "a".try_into().expect("a plain key");
    raw.append(key, 1i32);
    let encoded = raw.as_bytes();
    let doc = RawDocumentView { byte_len: encoded.len(), elements: vec![int32_field("a")] };
    assert_eq!(doc.count_bytes(), encoded.len());
    assert_eq!(encoded.len(), 12);
    let declared = u32::from_le_bytes([encoded[0], encoded[1], encoded[2], encoded[3]]);
    assert_eq!(declared as usize, doc.count_bytes());
}
