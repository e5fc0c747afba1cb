//! The keyed-value document model the decoders work over.
//!
//! A document arrives as a tree of [`JsonValue`]s. An object keeps its
//! key/value pairs as an ordered list, in document order, duplicates
//! included: the field-instance decoder needs to see both the order and any
//! repeated key to report precise diagnostics.

use vstd::prelude::*;

verus! {

use vstd::string::StrSliceExecFns;

broadcast use {vstd::std_specs::vec::axiom_vec_decreases_to_view, vstd::seq::axiom_seq_index_decreases};

/// A numeric literal. The producer of a document fills both representations
/// at parse time: `int_val` is `Some(n)` exactly when the literal is an
/// integer (no fractional part, within `i64`), and `float_bits` holds the
/// IEEE 754 bit pattern of the nearest 32-bit float. A number built back from
/// an integer model value sets `int_val` alone and leaves `float_bits` zero;
/// consumers of an integer never read `float_bits`.
#[derive(Clone, Copy, PartialEq, Eq, Debug)]
pub struct JsonNum {
    pub int_val: Option<i64>,
    pub float_bits: u32,
}

/// One node of a structured document.
#[derive(PartialEq, Eq, Debug)]
pub enum JsonValue {
    Null,
    Bool(bool),
    Num(JsonNum),
    Str(String),
    Arr(Vec<JsonValue>),
    Obj(Vec<(String, JsonValue)>),
}

/// The mathematical model of a [`JsonValue`]: strings become `Seq<char>`,
/// vectors become `Seq`. All decoder contracts are stated over this model.
pub enum JsonView {
    Null,
    Bool(bool),
    Num(JsonNum),
    Str(Seq<char>),
    Arr(Seq<JsonView>),
    Obj(Seq<(Seq<char>, JsonView)>),
}

/// The model of one document value, element views taken recursively.
pub open spec fn json_view(v: JsonValue) -> JsonView
    decreases v,
{
    match v {
        JsonValue::Null => JsonView::Null,
        JsonValue::Bool(b) => JsonView::Bool(b),
        JsonValue::Num(n) => JsonView::Num(n),
        JsonValue::Str(s) => JsonView::Str(s@),
        JsonValue::Arr(items) => JsonView::Arr(
            Seq::new(
                items@.len(),
                |i: int|
                    if 0 <= i < items@.len() {
                        json_view(items@[i])
                    } else {
                        JsonView::Null
                    },
            ),
        ),
        JsonValue::Obj(entries) => JsonView::Obj(
            Seq::new(
                entries@.len(),
                |i: int|
                    if 0 <= i < entries@.len() {
                        (entries@[i].0@, json_view(entries@[i].1))
                    } else {
                        (Seq::empty(), JsonView::Null)
                    },
            ),
        ),
    }
}

impl View for JsonValue {
    type V = JsonView;

    open spec fn view(&self) -> JsonView {
        json_view(*self)
    }
}

/// The bit pattern of a 32-bit IEEE 754 float. Decoding carries float
/// channels (opacity, alpha, pivot, scale) through losslessly as their bit
/// patterns; interpreting them as numbers is the consuming layer's business.
#[derive(Clone, Copy, PartialEq, Eq, Debug)]
pub struct FloatBits(pub u32);

impl View for FloatBits {
    type V = FloatBits;

    open spec fn view(&self) -> FloatBits {
        *self
    }
}

/// The element-wise view of a sequence of document values.
pub open spec fn jsons_view(s: Seq<JsonValue>) -> Seq<JsonView> {
    Seq::new(s.len(), |i: int| s[i]@)
}

/// The element-wise view of an object's entries.
pub open spec fn entries_view(s: Seq<(String, JsonValue)>) -> Seq<(Seq<char>, JsonView)> {
    Seq::new(s.len(), |i: int| (s[i].0@, s[i].1@))
}

/// The element-wise view of a vector of model values.
pub open spec fn vec_view<T: View>(v: Vec<T>) -> Seq<T::V> {
    Seq::new(v@.len(), |i: int| v@[i]@)
}

/// An array value's view holds exactly the element views.
pub broadcast proof fn lemma_arr_view(v: JsonValue)
    ensures
        v is Arr ==> (#[trigger] v@) == JsonView::Arr(jsons_view(v->Arr_0@)),
{
    if v is Arr {
        let items = v->Arr_0;
        assert forall|i: int| 0 <= i < items@.len() implies v@->Arr_0[i] == jsons_view(items@)[i] by {
        }
        assert(v@->Arr_0 =~= jsons_view(items@));
    }
}

/// An object value's view holds exactly the entry views.
pub broadcast proof fn lemma_obj_view(v: JsonValue)
    ensures
        v is Obj ==> (#[trigger] v@) == JsonView::Obj(entries_view(v->Obj_0@)),
{
    if v is Obj {
        let entries = v->Obj_0;
        assert forall|i: int| 0 <= i < entries@.len() implies v@->Obj_0[i] == entries_view(
            entries@,
        )[i] by {
        }
        assert(v@->Obj_0 =~= entries_view(entries@));
    }
}

/// An optional document value with both states explicit: `Null` is a valid,
/// expected outcome of decoding (an absent background image, an absent field
/// value), never an error.
#[derive(Clone, Copy, PartialEq, Eq, Debug)]
pub enum Nullable<T> {
    Data(T),
    Null,
}

impl<T> Nullable<T> {
    /// Whether a value is present.
    pub fn is_data(&self) -> (r: bool)
        ensures
            r == self is Data,
    {
        match self {
            Nullable::Data(_) => true,
            Nullable::Null => false,
        }
    }
}

impl<T: View> View for Nullable<T> {
    type V = Nullable<T::V>;

    open spec fn view(&self) -> Nullable<T::V> {
        match self {
            Nullable::Data(t) => Nullable::Data(t.view()),
            Nullable::Null => Nullable::Null,
        }
    }
}

/// Character-for-character string equality.
pub fn str_eq(a: &str, b: &str) -> (r: bool)
    ensures
        r == (a@ == b@),
{
    let a_len = a.unicode_len();
    let b_len = b.unicode_len();
    if a_len != b_len {
        assert(a@ != b@);
        return false;
    }
    let mut i: usize = 0;
    while i < a_len
        invariant
            i <= a_len,
            a_len == a@.len(),
            b_len == b@.len(),
            a_len == b_len,
            forall|j: int| 0 <= j < i ==> a@[j] == b@[j],
        decreases a_len - i,
    {
        if a.get_char(i) != b.get_char(i) {
            assert(a@[i as int] != b@[i as int]);
            return false;
        }
        i += 1;
    }
    proof {
        assert(a@ =~= b@);
    }
    true
}

/// Whether `p` is a prefix of `s`.
pub open spec fn spec_starts_with(s: Seq<char>, p: Seq<char>) -> bool {
    p.len() <= s.len() && s.subrange(0, p.len() as int) == p
}

/// Character-for-character prefix test.
pub fn str_starts_with(s: &str, p: &str) -> (r: bool)
    ensures
        r == spec_starts_with(s@, p@),
{
    let s_len = s.unicode_len();
    let p_len = p.unicode_len();
    if p_len > s_len {
        return false;
    }
    let mut i: usize = 0;
    while i < p_len
        invariant
            i <= p_len,
            s_len == s@.len(),
            p_len == p@.len(),
            p_len <= s_len,
            forall|j: int| 0 <= j < i ==> s@[j] == p@[j],
        decreases p_len - i,
    {
        if s.get_char(i) != p.get_char(i) {
            assert(s@[i as int] != p@[i as int]);
            assert(s@.subrange(0, p@.len() as int)[i as int] == s@[i as int]);
            return false;
        }
        i += 1;
    }
    proof {
        assert(s@.subrange(0, p@.len() as int) =~= p@);
    }
    true
}

} // verus!
