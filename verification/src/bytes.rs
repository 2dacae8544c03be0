use vstd::prelude::*;

verus! {

broadcast use
    vstd::std_specs::vec::group_vec_axioms,
    vstd::seq::group_seq_axioms,
    vstd::slice::group_slice_axioms;

use vstd::string::StringSliceAdditionalSpecFns;

/// A non-owning, tagged view of one wire-format value: each variant keeps
/// only what the size accounting reads. Strings and binary payloads are
/// represented by their byte lengths; embedded documents and arrays keep
/// their decoded structure together with the span length their own
/// 4-byte prefix declared.
pub enum RawValueRef {
    Double,
    String { byte_len: usize },
    Array(RawArrayView),
    Document(RawDocumentView),
    Boolean,
    Null,
    RegularExpression { pattern_byte_len: usize, options_byte_len: usize },
    JavaScriptCode { byte_len: usize },
    JavaScriptCodeWithScope { code_byte_len: usize, scope_byte_len: usize },
    Int32,
    Int64,
    Timestamp,
    Binary { payload_len: usize },
    ObjectId,
    DateTime,
    Symbol { byte_len: usize },
    Decimal128,
    Undefined,
    MaxKey,
    MinKey,
    DbPointer,
}

/// One decoded field of a document: its name and its value view.
pub struct RawElement {
    pub name: String,
    pub value: RawValueRef,
}

/// A decoded view of one document: the fields in wire order, and the
/// total span length the document's own length prefix declared.
pub struct RawDocumentView {
    pub byte_len: usize,
    pub elements: Vec<RawElement>,
}

/// A decoded view of one array: the values in wire order (their keys on
/// the wire are the decimal indices), and the declared span length.
pub struct RawArrayView {
    pub byte_len: usize,
    pub values: Vec<RawValueRef>,
}

/// Wire size of a string of `byte_len` UTF-8 bytes: a 4-byte length
/// prefix, the bytes themselves, and one terminator byte.
pub open spec fn string_size(byte_len: nat) -> nat {
    4 + byte_len + 1
}

pub trait CountBytes {
    /// The exact wire-format byte footprint of this value.
    spec fn size_spec(&self) -> nat;

    /// Executable size oracle: returns exactly `size_spec`.
    fn count_bytes(&self) -> (r: usize)
        requires
            self.size_spec() <= usize::MAX as nat,
        ensures
            r as nat == self.size_spec(),
    ;
}

impl CountBytes for str {
    open spec fn size_spec(&self) -> nat {
        string_size(vstd::utf8::encode_utf8(self@).len())
    }

    fn count_bytes(&self) -> (r: usize) {
        4 + self.as_bytes().len() + 1
    }
}

impl CountBytes for RawValueRef {
    open spec fn size_spec(&self) -> nat {
        match *self {
            RawValueRef::Double => 8,
            RawValueRef::String { byte_len } => string_size(byte_len as nat),
            RawValueRef::Array(ref a) => a.byte_len as nat,
            RawValueRef::Document(ref d) => d.byte_len as nat,
            RawValueRef::Boolean => 1,
            RawValueRef::Null => 0,
            RawValueRef::RegularExpression { pattern_byte_len, options_byte_len } => string_size(
                pattern_byte_len as nat,
            ) + string_size(options_byte_len as nat),
            RawValueRef::JavaScriptCode { byte_len } => string_size(byte_len as nat),
            RawValueRef::JavaScriptCodeWithScope { code_byte_len, scope_byte_len } => string_size(
                code_byte_len as nat,
            ) + scope_byte_len as nat,
            RawValueRef::Int32 => 4,
            RawValueRef::Int64 => 8,
            RawValueRef::Timestamp => 8,
            RawValueRef::Binary { payload_len } => 4 + 1 + payload_len as nat,
            RawValueRef::ObjectId => 12,
            RawValueRef::DateTime => 8,
            RawValueRef::Symbol { byte_len } => string_size(byte_len as nat),
            RawValueRef::Decimal128 => 16,
            RawValueRef::Undefined => 0,
            RawValueRef::MaxKey => 0,
            RawValueRef::MinKey => 0,
            RawValueRef::DbPointer => string_size(0) + 12,
        }
    }

    fn count_bytes(&self) -> (r: usize) {
        match self {
            RawValueRef::Double => 8,
            RawValueRef::String { byte_len } => 4 + *byte_len + 1,
            RawValueRef::Array(a) => a.count_bytes(),
            RawValueRef::Document(d) => d.count_bytes(),
            RawValueRef::Boolean => 1,
            RawValueRef::Null => 0,
            RawValueRef::RegularExpression { pattern_byte_len, options_byte_len } => (4
                + *pattern_byte_len + 1) + (4 + *options_byte_len + 1),
            RawValueRef::JavaScriptCode { byte_len } => 4 + *byte_len + 1,
            RawValueRef::JavaScriptCodeWithScope { code_byte_len, scope_byte_len } => (4
                + *code_byte_len + 1) + *scope_byte_len,
            RawValueRef::Int32 => 4,
            RawValueRef::Int64 => 8,
            RawValueRef::Timestamp => 8,
            RawValueRef::Binary { payload_len } => 4 + 1 + *payload_len,
            RawValueRef::ObjectId => 12,
            RawValueRef::DateTime => 8,
            RawValueRef::Symbol { byte_len } => 4 + *byte_len + 1,
            RawValueRef::Decimal128 => 16,
            RawValueRef::Undefined => 0,
            RawValueRef::MaxKey => 0,
            RawValueRef::MinKey => 0,
            RawValueRef::DbPointer => (4 + 0 + 1) + 12,
        }
    }
}

impl CountBytes for RawDocumentView {
    open spec fn size_spec(&self) -> nat {
        self.byte_len as nat
    }

    fn count_bytes(&self) -> (r: usize) {
        self.byte_len
    }
}

impl CountBytes for RawArrayView {
    open spec fn size_spec(&self) -> nat {
        self.byte_len as nat
    }

    fn count_bytes(&self) -> (r: usize) {
        self.byte_len
    }
}

impl RawValueRef {
    /// The one-byte wire type tag of this value.
    pub open spec fn tag_spec(&self) -> u8 {
        match *self {
            RawValueRef::Double => 0x01,
            RawValueRef::String { .. } => 0x02,
            RawValueRef::Document(..) => 0x03,
            RawValueRef::Array(..) => 0x04,
            RawValueRef::Binary { .. } => 0x05,
            RawValueRef::Undefined => 0x06,
            RawValueRef::ObjectId => 0x07,
            RawValueRef::Boolean => 0x08,
            RawValueRef::DateTime => 0x09,
            RawValueRef::Null => 0x0A,
            RawValueRef::RegularExpression { .. } => 0x0B,
            RawValueRef::DbPointer => 0x0C,
            RawValueRef::JavaScriptCode { .. } => 0x0D,
            RawValueRef::Symbol { .. } => 0x0E,
            RawValueRef::JavaScriptCodeWithScope { .. } => 0x0F,
            RawValueRef::Int32 => 0x10,
            RawValueRef::Timestamp => 0x11,
            RawValueRef::Int64 => 0x12,
            RawValueRef::Decimal128 => 0x13,
            RawValueRef::MinKey => 0xFF,
            RawValueRef::MaxKey => 0x7F,
        }
    }

    /// The one-byte wire type tag, as the report prints it.
    pub fn element_type(&self) -> (t: u8)
        ensures
            t == self.tag_spec(),
    {
        match self {
            RawValueRef::Double => 0x01,
            RawValueRef::String { .. } => 0x02,
            RawValueRef::Document(..) => 0x03,
            RawValueRef::Array(..) => 0x04,
            RawValueRef::Binary { .. } => 0x05,
            RawValueRef::Undefined => 0x06,
            RawValueRef::ObjectId => 0x07,
            RawValueRef::Boolean => 0x08,
            RawValueRef::DateTime => 0x09,
            RawValueRef::Null => 0x0A,
            RawValueRef::RegularExpression { .. } => 0x0B,
            RawValueRef::DbPointer => 0x0C,
            RawValueRef::JavaScriptCode { .. } => 0x0D,
            RawValueRef::Symbol { .. } => 0x0E,
            RawValueRef::JavaScriptCodeWithScope { .. } => 0x0F,
            RawValueRef::Int32 => 0x10,
            RawValueRef::Timestamp => 0x11,
            RawValueRef::Int64 => 0x12,
            RawValueRef::Decimal128 => 0x13,
            RawValueRef::MinKey => 0xFF,
            RawValueRef::MaxKey => 0x7F,
        }
    }
}

/// Wire size of one named document field: the tag byte, the name's
/// UTF-8 bytes with their terminator, and the value itself.
pub open spec fn element_wire_size(e: RawElement) -> nat {
    1 + vstd::utf8::encode_utf8(e.name@).len() + 1 + e.value.size_spec()
}

/// Total wire size of a document's fields, in order.
pub open spec fn doc_elements_size(s: Seq<RawElement>) -> nat
    decreases s.len(),
{
    if s.len() == 0 {
        0
    } else {
        element_wire_size(s[0]) + doc_elements_size(s.drop_first())
    }
}

/// Wire size of the array item at index `i`: the tag byte, the decimal
/// index as the field name with its terminator, and the value itself.
pub open spec fn array_item_wire_size(v: RawValueRef, i: nat) -> nat {
    1 + vstd::utf8::encode_utf8(crate::text::dec_chars(i)).len() + 1 + v.size_spec()
}

/// Total wire size of an array's items from index `i` on.
pub open spec fn array_items_size(s: Seq<RawValueRef>, i: nat) -> nat
    decreases s.len() - i,
{
    if i >= s.len() {
        0
    } else {
        array_item_wire_size(s[i as int], i) + array_items_size(s, i + 1)
    }
}

impl RawValueRef {
    /// A value view is well formed when every document or array inside
    /// it is.
    pub open spec fn wf(self) -> bool
        decreases self,
    {
        match self {
            RawValueRef::Document(d) => d.wf(),
            RawValueRef::Array(a) => a.wf(),
            _ => true,
        }
    }
}

impl RawDocumentView {
    /// A document view is well formed when its declared span length is
    /// exactly the 4-byte prefix, its fields' wire sizes in order, and
    /// the trailing terminator byte, and the same holds recursively of
    /// every embedded document and array.
    pub open spec fn wf(self) -> bool
        decreases self,
    {
        &&& self.byte_len as nat == 4 + doc_elements_size(self.elements@) + 1
        &&& forall|i: int|
            0 <= i < self.elements@.len() ==> (#[trigger] self.elements@[i]).value.wf()
    }
}

impl RawArrayView {
    /// An array view is well formed when its declared span length is
    /// exactly the 4-byte prefix, its items' wire sizes under their
    /// decimal index names, and the trailing terminator byte, and the
    /// same holds recursively of every embedded document and array.
    pub open spec fn wf(self) -> bool
        decreases self,
    {
        &&& self.byte_len as nat == 4 + array_items_size(self.values@, 0) + 1
        &&& forall|i: int| 0 <= i < self.values@.len() ==> (#[trigger] self.values@[i]).wf()
    }
}

impl RawValueRef {
    /// The declared span length of an embedded document or array; zero
    /// for every scalar value.
    pub open spec fn nested_span(self) -> nat {
        match self {
            RawValueRef::Document(d) => d.byte_len as nat,
            RawValueRef::Array(a) => a.byte_len as nat,
            _ => 0,
        }
    }
}

impl RawValueRef {
    /// The value's exact wire size when it fits the machine word, and
    /// nothing otherwise.
    pub fn checked_count_bytes(&self) -> (r: Option<usize>)
        ensures
            r matches Some(s) ==> s as nat == self.size_spec(),
            r is None ==> self.size_spec() > usize::MAX as nat,
    {
        match self {
            RawValueRef::String { byte_len } => if *byte_len <= usize::MAX - 5 {
                Some(*byte_len + 5)
            } else {
                None
            },
            RawValueRef::JavaScriptCode { byte_len } => if *byte_len <= usize::MAX - 5 {
                Some(*byte_len + 5)
            } else {
                None
            },
            RawValueRef::Symbol { byte_len } => if *byte_len <= usize::MAX - 5 {
                Some(*byte_len + 5)
            } else {
                None
            },
            RawValueRef::RegularExpression { pattern_byte_len, options_byte_len } => if
                *pattern_byte_len <= usize::MAX - 10 && *options_byte_len <= usize::MAX - 10
                - *pattern_byte_len {
                Some(*pattern_byte_len + *options_byte_len + 10)
            } else {
                None
            },
            RawValueRef::JavaScriptCodeWithScope { code_byte_len, scope_byte_len } => if
                *code_byte_len <= usize::MAX - 5 && *scope_byte_len <= usize::MAX - 5
                - *code_byte_len {
                Some(*code_byte_len + *scope_byte_len + 5)
            } else {
                None
            },
            RawValueRef::Binary { payload_len } => if *payload_len <= usize::MAX - 5 {
                Some(*payload_len + 5)
            } else {
                None
            },
            RawValueRef::Document(d) => Some(d.byte_len),
            RawValueRef::Array(a) => Some(a.byte_len),
            RawValueRef::Double => Some(8),
            RawValueRef::Boolean => Some(1),
            RawValueRef::Null => Some(0),
            RawValueRef::Int32 => Some(4),
            RawValueRef::Int64 => Some(8),
            RawValueRef::Timestamp => Some(8),
            RawValueRef::ObjectId => Some(12),
            RawValueRef::DateTime => Some(8),
            RawValueRef::Decimal128 => Some(16),
            RawValueRef::Undefined => Some(0),
            RawValueRef::MaxKey => Some(0),
            RawValueRef::MinKey => Some(0),
            RawValueRef::DbPointer => Some(17),
        }
    }
}

/// Each field's wire size is bounded by the total of all fields.
pub proof fn lemma_doc_element_size_le_total(s: Seq<RawElement>, i: int)
    requires
        0 <= i < s.len(),
    ensures
        element_wire_size(s[i]) <= doc_elements_size(s),
    decreases s.len(),
{
    if i > 0 {
        lemma_doc_element_size_le_total(s.drop_first(), i - 1);
        assert(s.drop_first()[i - 1] == s[i]);
    }
}

/// Each item's wire size is bounded by the total from any index at or
/// before it.
pub proof fn lemma_array_item_size_le_total(s: Seq<RawValueRef>, i: nat, j: nat)
    requires
        i <= j < s.len(),
    ensures
        array_item_wire_size(s[j as int], j) <= array_items_size(s, i),
    decreases s.len() - i,
{
    if i < j {
        lemma_array_item_size_le_total(s, i + 1, j);
    }
}

impl RawValueRef {
    /// Decides well-formedness: whether every embedded document and
    /// array accounts for exactly the bytes its own prefix declared.
    pub fn is_well_formed(&self) -> (b: bool)
        ensures
            b == self.wf(),
        decreases *self,
    {
        match self {
            RawValueRef::Document(d) => d.is_well_formed(),
            RawValueRef::Array(a) => a.is_well_formed(),
            _ => true,
        }
    }
}

impl RawDocumentView {
    /// Decides well-formedness: the self-consistency check that the
    /// declared span length equals the re-measured total of prefix,
    /// fields and terminator, recursively.
    pub fn is_well_formed(&self) -> (b: bool)
        ensures
            b == self.wf(),
        decreases *self,
    {
        let n = self.elements.len();
        let ghost s = self.elements@;
        let mut total: u128 = 0;
        proof {
            assert(s.subrange(0, n as int) =~= s);
        }
        for k in 0..n
            invariant
                n == self.elements.len(),
                s == self.elements@,
                total as nat + doc_elements_size(s.subrange(k as int, n as int))
                    == doc_elements_size(s),
                total <= self.byte_len as u128,
                forall|i: int| 0 <= i < k ==> (#[trigger] s[i]).value.wf(),
            decreases n - k,
        {
            let element = &self.elements[k];
            if !element.value.is_well_formed() {
                proof {
                    if self.wf() {
                        assert(s[k as int].value.wf());
                    }
                }
                return false;
            }
            let size = match element.value.checked_count_bytes() {
                Some(size) => size,
                None => {
                    proof {
                        if self.wf() {
                            lemma_doc_element_size_le_total(s, k as int);
                        }
                    }
                    return false;
                },
            };
            let name_str = element.name.as_str();
            let name_len = name_str.as_bytes().len();
            total = total + 2u128 + name_len as u128 + size as u128;
            proof {
                assert(s.subrange(k as int, n as int).drop_first() =~= s.subrange(
                    k + 1 as int,
                    n as int,
                ));
                assert(s.subrange(k as int, n as int)[0] == s[k as int]);
                assert(doc_elements_size(s.subrange(k as int, n as int)) == element_wire_size(
                    s[k as int],
                ) + doc_elements_size(s.subrange(k + 1 as int, n as int)));
                assert(name_len == name_str.spec_bytes().len());
                assert(name_str.spec_bytes() == vstd::utf8::encode_utf8(name_str@));
                assert(name_len == vstd::utf8::encode_utf8(s[k as int].name@).len());
                assert(element_wire_size(s[k as int]) == 2 + name_len as nat + size as nat);
            }
            if total > self.byte_len as u128 {
                proof {
                    if self.wf() {
                        assert(doc_elements_size(s) >= total as nat);
                    }
                }
                return false;
            }
        }
        proof {
            assert(s.subrange(n as int, n as int) =~= Seq::<RawElement>::empty());
        }
        self.byte_len as u128 == total + 5
    }
}

impl RawArrayView {
    /// Decides well-formedness: the self-consistency check for arrays,
    /// whose wire-format field names are the decimal item indices.
    pub fn is_well_formed(&self) -> (b: bool)
        ensures
            b == self.wf(),
        decreases *self,
    {
        let n = self.values.len();
        let ghost s = self.values@;
        let mut total: u128 = 0;
        for k in 0..n
            invariant
                n == self.values.len(),
                s == self.values@,
                total as nat + array_items_size(s, k as nat) == array_items_size(s, 0),
                total <= self.byte_len as u128,
                forall|i: int| 0 <= i < k ==> (#[trigger] s[i]).wf(),
            decreases n - k,
        {
            let element = &self.values[k];
            if !element.is_well_formed() {
                proof {
                    if self.wf() {
                        assert(s[k as int].wf());
                    }
                }
                return false;
            }
            let size = match element.checked_count_bytes() {
                Some(size) => size,
                None => {
                    proof {
                        if self.wf() {
                            lemma_array_item_size_le_total(s, 0, k as nat);
                        }
                    }
                    return false;
                },
            };
            let name = crate::text::u64_to_dec(k as u64);
            let name_str = name.as_str();
            let name_len = name_str.as_bytes().len();
            total = total + 2u128 + name_len as u128 + size as u128;
            proof {
                assert(name_str.spec_bytes() == vstd::utf8::encode_utf8(
                    crate::text::dec_chars(k as nat),
                ));
                assert(array_items_size(s, k as nat) == array_item_wire_size(s[k as int], k as nat)
                    + array_items_size(s, (k + 1) as nat));
                assert(array_item_wire_size(s[k as int], k as nat) == 2 + name_len as nat
                    + size as nat);
            }
            if total > self.byte_len as u128 {
                proof {
                    if self.wf() {
                        assert(array_items_size(s, 0) >= total as nat);
                    }
                }
                return false;
            }
        }
        self.byte_len as u128 == total + 5
    }
}

/// Law: a string-typed field occupies its 4-byte length prefix, its
/// UTF-8 bytes, and one terminator byte, whatever the character content.
pub proof fn string_value_size_law(byte_len: usize)
    ensures
        (RawValueRef::String { byte_len }).size_spec() == 4 + byte_len + 1,
{
}

/// Law: a binary-typed field occupies its 4-byte length prefix, one
/// subtype byte, and its payload, for every payload length.
pub proof fn binary_value_size_law(payload_len: usize)
    ensures
        (RawValueRef::Binary { payload_len }).size_spec() == 4 + 1 + payload_len,
{
}

/// Law: re-measuring a well-formed document view reproduces the span
/// length its own length prefix declared: the 4-byte prefix, the fields
/// in order, and the trailing terminator account for every byte.
pub proof fn document_size_law(d: RawDocumentView)
    requires
        d.wf(),
    ensures
        RawValueRef::Document(d).size_spec() == d.byte_len,
        d.byte_len as nat == 4 + doc_elements_size(d.elements@) + 1,
{
}

/// Law: re-measuring a well-formed array view reproduces the span
/// length its own length prefix declared.
pub proof fn array_size_law(a: RawArrayView)
    requires
        a.wf(),
    ensures
        RawValueRef::Array(a).size_spec() == a.byte_len,
        a.byte_len as nat == 4 + array_items_size(a.values@, 0) + 1,
{
}

} // verus!
