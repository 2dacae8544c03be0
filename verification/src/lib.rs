use vstd::prelude::*;

pub mod bytes;
pub mod docbytes;
pub mod text;

verus! {

broadcast use vstd::std_specs::vec::group_vec_axioms, vstd::seq::group_seq_axioms;

use vstd::string::StringExecFns;
use vstd::utf8::encode_utf8;

use crate::bytes::{CountBytes, RawArrayView, RawDocumentView, RawElement, RawValueRef};
use crate::bytes::{lemma_array_item_size_le_total, lemma_doc_element_size_le_total};
use crate::text::{dec_chars, pad_left4, tab_chars, tag_to_padded_dec, u64_to_dec};

/// The two header lines the walker prints when it enters a document or
/// an array: the marker line, then the object's own span length.
pub open spec fn header_chars(size: nat, level: nat) -> Seq<char> {
    tab_chars(level) + "--- new object ---\n"@ + tab_chars(level + 1) + "size : "@ + dec_chars(
        size,
    ) + "\n"@
}

/// The lines the walker prints for one field: its name, then its type
/// tag right-aligned to width four with the field's total footprint
/// (tag byte, name bytes and terminator, value), then the whole report
/// of the embedded object if the value is a document or an array.
pub open spec fn item_chars(name: Seq<char>, v: RawValueRef, level: nat) -> Seq<char>
    decreases v,
{
    tab_chars(level + 2) + name + "\n"@ + tab_chars(level + 3) + "type: "@ + pad_left4(
        dec_chars(v.tag_spec() as nat),
    ) + " size: "@ + dec_chars(1 + encode_utf8(name).len() + 1 + v.size_spec()) + "\n"@ + (match v {
        RawValueRef::Document(d) => doc_chars(d, (level + 3) as nat),
        RawValueRef::Array(a) => array_chars(a, (level + 3) as nat),
        _ => Seq::empty(),
    })
}

/// The whole report of one document at a nesting level: its header,
/// then its fields in wire order.
pub open spec fn doc_chars(d: RawDocumentView, level: nat) -> Seq<char>
    decreases d,
{
    header_chars(d.byte_len as nat, level) + doc_items_chars(d.elements@, level)
}

/// The report lines of a document's fields, in order.
pub open spec fn doc_items_chars(s: Seq<RawElement>, level: nat) -> Seq<char>
    decreases s,
{
    if s.len() == 0 {
        Seq::empty()
    } else {
        item_chars(s[0].name@, s[0].value, level) + doc_items_chars(s.drop_first(), level)
    }
}

/// The whole report of one array at a nesting level: its header, then
/// its items in wire order, named by their decimal indices.
pub open spec fn array_chars(a: RawArrayView, level: nat) -> Seq<char>
    decreases a,
{
    header_chars(a.byte_len as nat, level) + array_items_chars(a.values@, 0, level)
}

/// The report lines of an array's items, the first one carrying index
/// `i`.
pub open spec fn array_items_chars(s: Seq<RawValueRef>, i: nat, level: nat) -> Seq<char>
    decreases s,
{
    if s.len() == 0 {
        Seq::empty()
    } else {
        item_chars(dec_chars(i), s[0], level) + array_items_chars(s.drop_first(), i + 1, level)
    }
}

/// One tab character per nesting level.
pub fn get_indent(indent_level: usize) -> (s: String)
    ensures
        s@ == tab_chars(indent_level as nat),
{
    let mut s = String::new();
    for k in 0..indent_level
        invariant
            s@ == tab_chars(k as nat),
    {
        s.append("\t");
        proof {
            reveal_strlit("\t");
            assert("\t"@ =~= seq!['\t']);
            assert(s@ =~= tab_chars((k + 1) as nat));
        }
    }
    s
}

/// Prints the header the walker emits when it enters an object: the
/// marker line, then the object's measured size, both indented.
pub fn new_object_header<O: CountBytes + ?Sized>(out: &mut String, object: &O, indent_level: usize)
    requires
        object.size_spec() <= usize::MAX as nat,
        indent_level < usize::MAX,
    ensures
        final (out)@ == old(out)@ + header_chars(object.size_spec(), indent_level as nat),
{
    let ind = get_indent(indent_level);
    out.append(ind.as_str());
    out.append("--- new object ---\n");
    let ind1 = get_indent(indent_level + 1);
    out.append(ind1.as_str());
    out.append("size : ");
    let digits = u64_to_dec(object.count_bytes() as u64);
    out.append(digits.as_str());
    out.append("\n");
    proof {
        assert(out@ =~= old(out)@ + header_chars(object.size_spec(), indent_level as nat));
    }
}

/// Prints the report lines of one field, recursing into the embedded
/// object when the value is a document or an array.
pub fn debug_item(out: &mut String, name: &str, bson_ref: &RawValueRef, indent_level: usize)
    requires
        bson_ref.wf(),
        1 + encode_utf8(name@).len() + 1 + bson_ref.size_spec() <= usize::MAX as nat,
        indent_level + 3 + bson_ref.nested_span() <= usize::MAX as nat,
    ensures
        final (out)@ == old(out)@ + item_chars(name@, *bson_ref, indent_level as nat),
    decreases *bson_ref,
{
    let ind2 = get_indent(indent_level + 2);
    out.append(ind2.as_str());
    out.append(name);
    out.append("\n");
    let ind3 = get_indent(indent_level + 3);
    out.append(ind3.as_str());
    out.append("type: ");
    let tag = tag_to_padded_dec(bson_ref.element_type());
    out.append(tag.as_str());
    out.append(" size: ");
    let size_of_type: usize = 1;
    let size_of_name: usize = name.len() + 1;
    let size: usize = size_of_type + size_of_name + bson_ref.count_bytes();
    let digits = u64_to_dec(size as u64);
    out.append(digits.as_str());
    out.append("\n");
    let ghost level = indent_level as nat;
    let ghost scalar_lines = tab_chars(level + 2) + name@ + "\n"@ + tab_chars(level + 3)
        + "type: "@ + pad_left4(dec_chars(bson_ref.tag_spec() as nat)) + " size: "@ + dec_chars(
        1 + encode_utf8(name@).len() + 1 + bson_ref.size_spec(),
    ) + "\n"@;
    proof {
        assert(out@ =~= old(out)@ + scalar_lines);
    }
    match bson_ref {
        RawValueRef::Document(embedded) => {
            debug_document(out, embedded, indent_level + 3);
            proof {
                assert(item_chars(name@, *bson_ref, level) =~= scalar_lines + doc_chars(
                    *embedded,
                    level + 3,
                ));
                assert(out@ =~= old(out)@ + item_chars(name@, *bson_ref, level));
            }
        },
        RawValueRef::Array(embedded) => {
            debug_array(out, embedded, indent_level + 3);
            proof {
                assert(item_chars(name@, *bson_ref, level) =~= scalar_lines + array_chars(
                    *embedded,
                    level + 3,
                ));
                assert(out@ =~= old(out)@ + item_chars(name@, *bson_ref, level));
            }
        },
        _ => {
            proof {
                assert(item_chars(name@, *bson_ref, level) =~= scalar_lines + Seq::<
                    char,
                >::empty());
                assert(out@ =~= old(out)@ + item_chars(name@, *bson_ref, level));
            }
        },
    }
}

/// Prints the whole report of one document: its header, then each field
/// in the order the fields appear on the wire.
pub fn debug_document(out: &mut String, raw_document: &RawDocumentView, indent_level: usize)
    requires
        raw_document.wf(),
        indent_level + raw_document.byte_len <= usize::MAX as nat,
    ensures
        final (out)@ == old(out)@ + doc_chars(*raw_document, indent_level as nat),
    decreases *raw_document,
{
    new_object_header(out, raw_document, indent_level);
    let n = raw_document.elements.len();
    let ghost s = raw_document.elements@;
    let ghost level = indent_level as nat;
    proof {
        assert(s.subrange(0, n as int) =~= s);
        assert(out@ + doc_items_chars(s, level) =~= old(out)@ + doc_chars(
            *raw_document,
            level,
        ));
    }
    for k in 0..n
        invariant
            n == raw_document.elements.len(),
            s == raw_document.elements@,
            level == indent_level as nat,
            raw_document.wf(),
            indent_level + raw_document.byte_len <= usize::MAX as nat,
            old(out)@ + doc_chars(*raw_document, level) == out@ + doc_items_chars(
                s.subrange(k as int, n as int),
                level,
            ),
        decreases n - k,
    {
        let element = &raw_document.elements[k];
        proof {
            lemma_doc_element_size_le_total(s, k as int);
            assert(element.value.nested_span() <= element.value.size_spec());
        }
        let ghost prefix = out@;
        debug_item(out, element.name.as_str(), &element.value, indent_level);
        proof {
            assert(s.subrange(k as int, n as int).drop_first() =~= s.subrange(
                k + 1 as int,
                n as int,
            ));
            assert(out@ + doc_items_chars(s.subrange(k + 1 as int, n as int), level) =~= prefix
                + doc_items_chars(s.subrange(k as int, n as int), level));
        }
    }
    proof {
        assert(s.subrange(n as int, n as int) =~= Seq::<RawElement>::empty());
        assert(out@ + doc_items_chars(s.subrange(n as int, n as int), level) =~= out@);
    }
}

/// Prints the whole report of one array: its header, then each item in
/// wire order, named by its decimal index as the wire format names it.
pub fn debug_array(out: &mut String, array: &RawArrayView, indent_level: usize)
    requires
        array.wf(),
        indent_level + array.byte_len <= usize::MAX as nat,
    ensures
        final (out)@ == old(out)@ + array_chars(*array, indent_level as nat),
    decreases *array,
{
    new_object_header(out, array, indent_level);
    let n = array.values.len();
    let ghost s = array.values@;
    let ghost level = indent_level as nat;
    proof {
        assert(s.subrange(0, n as int) =~= s);
        assert(out@ + array_items_chars(s, 0, level) =~= old(out)@ + array_chars(*array, level));
    }
    for k in 0..n
        invariant
            n == array.values.len(),
            s == array.values@,
            level == indent_level as nat,
            array.wf(),
            indent_level + array.byte_len <= usize::MAX as nat,
            old(out)@ + array_chars(*array, level) == out@ + array_items_chars(
                s.subrange(k as int, n as int),
                k as nat,
                level,
            ),
        decreases n - k,
    {
        let element = &array.values[k];
        proof {
            lemma_array_item_size_le_total(s, 0, k as nat);
            assert(element.nested_span() <= element.size_spec());
        }
        let name = u64_to_dec(k as u64);
        let ghost prefix = out@;
        debug_item(out, name.as_str(), element, indent_level);
        proof {
            assert(s.subrange(k as int, n as int).drop_first() =~= s.subrange(
                k + 1 as int,
                n as int,
            ));
            assert(out@ + array_items_chars(s.subrange(k + 1 as int, n as int), (k + 1) as nat,
                level,
            ) =~= prefix + array_items_chars(s.subrange(k as int, n as int), k as nat, level));
        }
    }
    proof {
        assert(s.subrange(n as int, n as int) =~= Seq::<RawValueRef>::empty());
        assert(out@ + array_items_chars(s.subrange(n as int, n as int), n as nat, level) =~= out@);
    }
}

/// Law: the report is a function of the view alone. Two walks over the
/// same raw document view render byte-identical text: `debug` returns
/// exactly `doc_chars` of its argument, and `doc_chars` sees nothing
/// but the view.
pub proof fn walker_report_is_deterministic(d1: RawDocumentView, d2: RawDocumentView, level: nat)
    requires
        d1 == d2,
    ensures
        doc_chars(d1, level) == doc_chars(d2, level),
{
}

/// Renders the structural report of one decoded document: a depth-first
/// size breakdown, tab-indented per nesting level, with the fields in
/// the exact order they appear on the wire.
pub fn debug(raw_document: &RawDocumentView) -> (report: String)
    requires
        raw_document.wf(),
    ensures
        report@ == doc_chars(*raw_document, 0),
{
    let mut report = String::new();
    debug_document(&mut report, raw_document, 0);
    report
}

} // verus!
