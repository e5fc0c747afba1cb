//! Structural decoding: a key/value lookup with duplicate detection, and a
//! [`Decode`] trait tying each model type to the exact mathematical function
//! its decoder computes.

use vstd::prelude::*;

use crate::error::{res_view, DecodeError, ErrView};
use crate::json::{entries_view, jsons_view, vec_view, FloatBits, JsonValue, JsonView, Nullable};

verus! {

use vstd::string::StringExecFns;

/// How many entries of an object carry `key`.
pub open spec fn spec_count_key(entries: Seq<(Seq<char>, JsonView)>, key: Seq<char>) -> int
    decreases entries.len(),
{
    if entries.len() == 0 {
        0
    } else {
        spec_count_key(entries.drop_last(), key) + if entries.last().0 == key {
            1int
        } else {
            0int
        }
    }
}

/// The value under the first entry carrying `key`, if any.
pub open spec fn spec_find_key(entries: Seq<(Seq<char>, JsonView)>, key: Seq<char>) -> Option<
    JsonView,
>
    decreases entries.len(),
{
    if entries.len() == 0 {
        None
    } else {
        let before = spec_find_key(entries.drop_last(), key);
        if before is Some {
            before
        } else if entries.last().0 == key {
            Some(entries.last().1)
        } else {
            None
        }
    }
}

/// Looking a key up in an object: at most one entry may carry it.
pub open spec fn spec_lookup(entries: Seq<(Seq<char>, JsonView)>, key: Seq<char>) -> Result<
    Option<JsonView>,
    ErrView,
> {
    if spec_count_key(entries, key) >= 2 {
        Err(ErrView::DuplicateField(key))
    } else {
        Ok(spec_find_key(entries, key))
    }
}

/// A key's count over a prefix never exceeds its count over the whole.
proof fn lemma_count_key_prefix_le(entries: Seq<(Seq<char>, JsonView)>, key: Seq<char>, j: int)
    requires
        0 <= j <= entries.len(),
    ensures
        spec_count_key(entries.subrange(0, j), key) <= spec_count_key(entries, key),
    decreases entries.len() - j,
{
    if j < entries.len() {
        assert(entries.subrange(0, j + 1).drop_last() =~= entries.subrange(0, j));
        lemma_count_key_prefix_le(entries, key, j + 1);
    } else {
        assert(entries.subrange(0, entries.len() as int) =~= entries);
    }
}

/// Find the unique entry carrying `key`: its value, nothing, or a
/// `DuplicateField` error if a second entry carries it too.
pub fn get_unique<'a>(entries: &'a Vec<(String, JsonValue)>, key: &str) -> (r: Result<
    Option<&'a JsonValue>,
    DecodeError,
>)
    ensures
        match r {
            Ok(opt) => spec_lookup(entries_view(entries@), key@) == Ok::<_, ErrView>(
                match opt {
                    Some(v) => Some(v@),
                    None => None,
                },
            ),
            Err(e) => spec_lookup(entries_view(entries@), key@) == Err::<Option<JsonView>, _>(e@),
        },
{
    let ghost s = entries_view(entries@);
    let mut found: Option<&'a JsonValue> = None;
    let mut i: usize = 0;
    while i < entries.len()
        invariant
            i <= entries.len(),
            s == entries_view(entries@),
            s.len() == entries.len(),
            match found {
                Some(v) => spec_count_key(s.subrange(0, i as int), key@) == 1 && spec_find_key(
                    s.subrange(0, i as int),
                    key@,
                ) == Some(v@),
                None => spec_count_key(s.subrange(0, i as int), key@) == 0 && spec_find_key(
                    s.subrange(0, i as int),
                    key@,
                ) is None,
            },
        decreases entries.len() - i,
    {
        proof {
            assert(s.subrange(0, i + 1).drop_last() =~= s.subrange(0, i as int));
            assert(s.subrange(0, i + 1).last() == s[i as int]);
            assert(s[i as int] == (entries@[i as int].0@, entries@[i as int].1@));
        }
        if crate::json::str_eq(entries[i].0.as_str(), key) {
            if found.is_some() {
                proof {
                    lemma_count_key_prefix_le(s, key@, i + 1);
                }
                return Err(DecodeError::DuplicateField(key.to_owned()));
            }
            found = Some(&entries[i].1);
        }
        i += 1;
    }
    proof {
        assert(s.subrange(0, entries.len() as int) =~= s);
    }
    Ok(found)
}

/// A short name for the shape of a value, used in diagnostics.
pub open spec fn spec_shape_name(v: JsonView) -> Seq<char> {
    match v {
        JsonView::Null => "null"@,
        JsonView::Bool(_) => "bool"@,
        JsonView::Num(_) => "number"@,
        JsonView::Str(_) => "string"@,
        JsonView::Arr(_) => "array"@,
        JsonView::Obj(_) => "object"@,
    }
}

/// A short name for the shape of a value, used in diagnostics.
pub fn shape_name(v: &JsonValue) -> (r: String)
    ensures
        r@ == spec_shape_name(v@),
{
    match v {
        JsonValue::Null => String::from_str("null"),
        JsonValue::Bool(_) => String::from_str("bool"),
        JsonValue::Num(_) => String::from_str("number"),
        JsonValue::Str(_) => String::from_str("string"),
        JsonValue::Arr(_) => String::from_str("array"),
        JsonValue::Obj(_) => String::from_str("object"),
    }
}

/// A model type that decodes from one document value, by the exact
/// mathematical function `spec_decode`.
pub trait Decode: View + Sized {
    /// What decoding a value of this type yields, on every input.
    spec fn spec_decode(v: JsonView) -> Result<Self::V, ErrView>;

    /// Decode one document value.
    fn decode(v: &JsonValue) -> (r: Result<Self, DecodeError>)
        ensures
            res_view(r) == Self::spec_decode(v@),
    ;
}

impl Decode for i32 {
    open spec fn spec_decode(v: JsonView) -> Result<i32, ErrView> {
        match v {
            JsonView::Num(n) => match n.int_val {
                Some(x) => if i32::MIN <= x <= i32::MAX {
                    Ok(x as i32)
                } else {
                    Err(ErrView::WrongShape(Seq::<char>::empty(), "integer"@, "number out of range"@))
                },
                None => Err(ErrView::WrongShape(Seq::<char>::empty(), "integer"@, "fractional number"@)),
            },
            _ => Err(ErrView::WrongShape(Seq::<char>::empty(), "integer"@, spec_shape_name(v))),
        }
    }

    fn decode(v: &JsonValue) -> (r: Result<i32, DecodeError>) {
        match v {
            JsonValue::Num(n) => match n.int_val {
                Some(x) => if i32::MIN as i64 <= x && x <= i32::MAX as i64 {
                    Ok(x as i32)
                } else {
                    Err(
                        DecodeError::WrongShape(
                            String::new(),
                            String::from_str("integer"),
                            String::from_str("number out of range"),
                        ),
                    )
                },
                None => Err(
                    DecodeError::WrongShape(
                        String::new(),
                        String::from_str("integer"),
                        String::from_str("fractional number"),
                    ),
                ),
            },
            _ => Err(DecodeError::WrongShape(String::new(), String::from_str("integer"), shape_name(v))),
        }
    }
}

impl Decode for bool {
    open spec fn spec_decode(v: JsonView) -> Result<bool, ErrView> {
        match v {
            JsonView::Bool(b) => Ok(b),
            _ => Err(ErrView::WrongShape(Seq::<char>::empty(), "bool"@, spec_shape_name(v))),
        }
    }

    fn decode(v: &JsonValue) -> (r: Result<bool, DecodeError>) {
        match v {
            JsonValue::Bool(b) => Ok(*b),
            _ => Err(DecodeError::WrongShape(String::new(), String::from_str("bool"), shape_name(v))),
        }
    }
}

impl Decode for String {
    open spec fn spec_decode(v: JsonView) -> Result<Seq<char>, ErrView> {
        match v {
            JsonView::Str(s) => Ok(s),
            _ => Err(ErrView::WrongShape(Seq::<char>::empty(), "string"@, spec_shape_name(v))),
        }
    }

    fn decode(v: &JsonValue) -> (r: Result<String, DecodeError>) {
        match v {
            JsonValue::Str(s) => Ok(s.clone()),
            _ => Err(DecodeError::WrongShape(String::new(), String::from_str("string"), shape_name(v))),
        }
    }
}

impl Decode for FloatBits {
    open spec fn spec_decode(v: JsonView) -> Result<FloatBits, ErrView> {
        match v {
            JsonView::Num(n) => Ok(FloatBits(n.float_bits)),
            _ => Err(ErrView::WrongShape(Seq::<char>::empty(), "number"@, spec_shape_name(v))),
        }
    }

    fn decode(v: &JsonValue) -> (r: Result<FloatBits, DecodeError>) {
        match v {
            JsonValue::Num(n) => Ok(FloatBits(n.float_bits)),
            _ => Err(DecodeError::WrongShape(String::new(), String::from_str("number"), shape_name(v))),
        }
    }
}

impl<T: Decode> Decode for Nullable<T> {
    open spec fn spec_decode(v: JsonView) -> Result<Nullable<T::V>, ErrView> {
        if v is Null {
            Ok(Nullable::Null)
        } else {
            match T::spec_decode(v) {
                Ok(x) => Ok(Nullable::Data(x)),
                Err(e) => Err(e),
            }
        }
    }

    fn decode(v: &JsonValue) -> (r: Result<Nullable<T>, DecodeError>) {
        match v {
            JsonValue::Null => Ok(Nullable::Null),
            _ => match T::decode(v) {
                Ok(x) => Ok(Nullable::Data(x)),
                Err(e) => Err(e),
            },
        }
    }
}

impl Decode for (i32, i32) {
    open spec fn spec_decode(v: JsonView) -> Result<(i32, i32), ErrView> {
        match v {
            JsonView::Arr(items) => if items.len() == 2 {
                match (i32::spec_decode(items[0]), i32::spec_decode(items[1])) {
                    (Ok(a), Ok(b)) => Ok((a, b)),
                    (Err(e), _) => Err(e),
                    (_, Err(e)) => Err(e),
                }
            } else {
                Err(ErrView::WrongShape(Seq::<char>::empty(), "pair"@, "array of wrong length"@))
            },
            _ => Err(ErrView::WrongShape(Seq::<char>::empty(), "pair"@, spec_shape_name(v))),
        }
    }

    fn decode(v: &JsonValue) -> (r: Result<(i32, i32), DecodeError>) {
        match v {
            JsonValue::Arr(items) => if items.len() == 2 {
                match (i32::decode(&items[0]), i32::decode(&items[1])) {
                    (Ok(a), Ok(b)) => Ok((a, b)),
                    (Err(e), _) => Err(e),
                    (Ok(_), Err(e)) => Err(e),
                }
            } else {
                Err(
                    DecodeError::WrongShape(
                        String::new(),
                        String::from_str("pair"),
                        String::from_str("array of wrong length"),
                    ),
                )
            },
            _ => Err(DecodeError::WrongShape(String::new(), String::from_str("pair"), shape_name(v))),
        }
    }
}

impl Decode for (FloatBits, FloatBits) {
    open spec fn spec_decode(v: JsonView) -> Result<(FloatBits, FloatBits), ErrView> {
        match v {
            JsonView::Arr(items) => if items.len() == 2 {
                match (FloatBits::spec_decode(items[0]), FloatBits::spec_decode(items[1])) {
                    (Ok(a), Ok(b)) => Ok((a, b)),
                    (Err(e), _) => Err(e),
                    (_, Err(e)) => Err(e),
                }
            } else {
                Err(ErrView::WrongShape(Seq::<char>::empty(), "pair"@, "array of wrong length"@))
            },
            _ => Err(ErrView::WrongShape(Seq::<char>::empty(), "pair"@, spec_shape_name(v))),
        }
    }

    fn decode(v: &JsonValue) -> (r: Result<(FloatBits, FloatBits), DecodeError>) {
        match v {
            JsonValue::Arr(items) => if items.len() == 2 {
                match (FloatBits::decode(&items[0]), FloatBits::decode(&items[1])) {
                    (Ok(a), Ok(b)) => Ok((a, b)),
                    (Err(e), _) => Err(e),
                    (Ok(_), Err(e)) => Err(e),
                }
            } else {
                Err(
                    DecodeError::WrongShape(
                        String::new(),
                        String::from_str("pair"),
                        String::from_str("array of wrong length"),
                    ),
                )
            },
            _ => Err(DecodeError::WrongShape(String::new(), String::from_str("pair"), shape_name(v))),
        }
    }
}

impl Decode for (FloatBits, FloatBits, FloatBits, FloatBits) {
    open spec fn spec_decode(v: JsonView) -> Result<
        (FloatBits, FloatBits, FloatBits, FloatBits),
        ErrView,
    > {
        match v {
            JsonView::Arr(items) => if items.len() == 4 {
                match (
                    FloatBits::spec_decode(items[0]),
                    FloatBits::spec_decode(items[1]),
                    FloatBits::spec_decode(items[2]),
                    FloatBits::spec_decode(items[3]),
                ) {
                    (Ok(a), Ok(b), Ok(c), Ok(d)) => Ok((a, b, c, d)),
                    (Err(e), _, _, _) => Err(e),
                    (_, Err(e), _, _) => Err(e),
                    (_, _, Err(e), _) => Err(e),
                    (_, _, _, Err(e)) => Err(e),
                }
            } else {
                Err(ErrView::WrongShape(Seq::<char>::empty(), "quadruple"@, "array of wrong length"@))
            },
            _ => Err(ErrView::WrongShape(Seq::<char>::empty(), "quadruple"@, spec_shape_name(v))),
        }
    }

    fn decode(v: &JsonValue) -> (r: Result<
        (FloatBits, FloatBits, FloatBits, FloatBits),
        DecodeError,
    >) {
        match v {
            JsonValue::Arr(items) => if items.len() == 4 {
                match (
                    FloatBits::decode(&items[0]),
                    FloatBits::decode(&items[1]),
                    FloatBits::decode(&items[2]),
                    FloatBits::decode(&items[3]),
                ) {
                    (Ok(a), Ok(b), Ok(c), Ok(d)) => Ok((a, b, c, d)),
                    (Err(e), _, _, _) => Err(e),
                    (Ok(_), Err(e), _, _) => Err(e),
                    (Ok(_), Ok(_), Err(e), _) => Err(e),
                    (Ok(_), Ok(_), Ok(_), Err(e)) => Err(e),
                }
            } else {
                Err(
                    DecodeError::WrongShape(
                        String::new(),
                        String::from_str("quadruple"),
                        String::from_str("array of wrong length"),
                    ),
                )
            },
            _ => Err(DecodeError::WrongShape(String::new(), String::from_str("quadruple"), shape_name(v))),
        }
    }
}

impl Decode for crate::color::LdtkColor {
    open spec fn spec_decode(v: JsonView) -> Result<crate::color::LdtkColor, ErrView> {
        match v {
            JsonView::Str(s) => match crate::color::spec_parse_color(s) {
                Some(c) => Ok(c),
                None => Err(ErrView::MalformedColor(s)),
            },
            _ => Err(ErrView::WrongShape(Seq::<char>::empty(), "color string"@, spec_shape_name(v))),
        }
    }

    fn decode(v: &JsonValue) -> (r: Result<crate::color::LdtkColor, DecodeError>) {
        match v {
            JsonValue::Str(s) => crate::color::LdtkColor::parse(s.as_str()),
            _ => Err(DecodeError::WrongShape(String::new(), String::from_str("color string"), shape_name(v))),
        }
    }
}

/// Decoding a sequence element by element; the leftmost failure aborts.
pub open spec fn spec_decode_seq<T: Decode>(items: Seq<JsonView>) -> Result<Seq<T::V>, ErrView>
    decreases items.len(),
{
    if items.len() == 0 {
        Ok(Seq::empty())
    } else {
        match spec_decode_seq::<T>(items.drop_last()) {
            Err(e) => Err(e),
            Ok(init) => match T::spec_decode(items.last()) {
                Err(e) => Err(e),
                Ok(x) => Ok(init.push(x)),
            },
        }
    }
}

/// Once a prefix fails, the whole sequence fails the same way.
proof fn lemma_decode_seq_err_prefix<T: Decode>(items: Seq<JsonView>, j: int)
    requires
        0 <= j <= items.len(),
        spec_decode_seq::<T>(items.subrange(0, j)) is Err,
    ensures
        spec_decode_seq::<T>(items) == spec_decode_seq::<T>(items.subrange(0, j)),
    decreases items.len() - j,
{
    if j < items.len() {
        assert(items.subrange(0, j + 1).drop_last() =~= items.subrange(0, j));
        lemma_decode_seq_err_prefix::<T>(items, j + 1);
    } else {
        assert(items.subrange(0, items.len() as int) =~= items);
    }
}

/// Decode every element of an array.
pub fn decode_vec<T: Decode>(items: &Vec<JsonValue>) -> (r: Result<Vec<T>, DecodeError>)
    ensures
        match r {
            Ok(out) => spec_decode_seq::<T>(jsons_view(items@)) == Ok::<_, ErrView>(vec_view(out)),
            Err(e) => spec_decode_seq::<T>(jsons_view(items@)) == Err::<Seq<T::V>, _>(e@),
        },
{
    let ghost s = jsons_view(items@);
    let mut out: Vec<T> = Vec::new();
    let mut i: usize = 0;
    proof {
        assert(s.subrange(0, 0) =~= Seq::<JsonView>::empty());
        assert(vec_view(out) =~= Seq::<T::V>::empty());
    }
    while i < items.len()
        invariant
            i <= items.len(),
            s == jsons_view(items@),
            s.len() == items.len(),
            out.len() == i,
            spec_decode_seq::<T>(s.subrange(0, i as int)) == Ok::<_, ErrView>(vec_view(out)),
        decreases items.len() - i,
    {
        proof {
            assert(s.subrange(0, i + 1).drop_last() =~= s.subrange(0, i as int));
            assert(s.subrange(0, i + 1).last() == s[i as int]);
            assert(s[i as int] == items@[i as int]@);
        }
        match T::decode(&items[i]) {
            Ok(x) => {
                let ghost old_out_view = vec_view(out);
                out.push(x);
                proof {
                    assert(vec_view(out) =~= old_out_view.push(x@));
                }
            },
            Err(e) => {
                proof {
                    lemma_decode_seq_err_prefix::<T>(s, i + 1);
                }
                return Err(e);
            },
        }
        i += 1;
    }
    proof {
        assert(s.subrange(0, items.len() as int) =~= s);
    }
    Ok(out)
}

/// A required, uniquely-keyed field of an object, decoded as `T`.
pub open spec fn spec_field<T: Decode>(
    entries: Seq<(Seq<char>, JsonView)>,
    key: Seq<char>,
) -> Result<T::V, ErrView> {
    match spec_lookup(entries, key) {
        Err(e) => Err(e),
        Ok(opt) => match opt {
            None => Err(ErrView::MissingField(key)),
            Some(v) => match T::spec_decode(v) {
                Ok(x) => Ok(x),
                Err(e) => Err(crate::error::spec_nest_err(key, e)),
            },
        },
    }
}

/// Decode the required field `key` of an object.
pub fn decode_field<T: Decode>(entries: &Vec<(String, JsonValue)>, key: &str) -> (r: Result<
    T,
    DecodeError,
>)
    ensures
        res_view(r) == spec_field::<T>(entries_view(entries@), key@),
{
    match get_unique(entries, key) {
        Err(e) => Err(e),
        Ok(None) => Err(DecodeError::MissingField(key.to_owned())),
        Ok(Some(v)) => match T::decode(v) {
            Ok(x) => Ok(x),
            Err(e) => Err(crate::error::nest_err(key, e)),
        },
    }
}

/// A required field holding an array, decoded element by element as `T`.
pub open spec fn spec_field_vec<T: Decode>(
    entries: Seq<(Seq<char>, JsonView)>,
    key: Seq<char>,
) -> Result<Seq<T::V>, ErrView> {
    match spec_lookup(entries, key) {
        Err(e) => Err(e),
        Ok(opt) => match opt {
            None => Err(ErrView::MissingField(key)),
            Some(v) => match v {
                JsonView::Arr(items) => match spec_decode_seq::<T>(items) {
                    Ok(xs) => Ok(xs),
                    Err(e) => Err(crate::error::spec_nest_err(key, e)),
                },
                _ => Err(ErrView::WrongShape(key, "array"@, spec_shape_name(v))),
            },
        },
    }
}

/// Decode the required array field `key` of an object.
pub fn decode_field_vec<T: Decode>(entries: &Vec<(String, JsonValue)>, key: &str) -> (r: Result<
    Vec<T>,
    DecodeError,
>)
    ensures
        match r {
            Ok(out) => spec_field_vec::<T>(entries_view(entries@), key@) == Ok::<_, ErrView>(vec_view(out)),
            Err(e) => spec_field_vec::<T>(entries_view(entries@), key@) == Err::<Seq<T::V>, _>(e@),
        },
{
    match get_unique(entries, key) {
        Err(e) => Err(e),
        Ok(None) => Err(DecodeError::MissingField(key.to_owned())),
        Ok(Some(v)) => match v {
            JsonValue::Arr(items) => {
                proof {
                    crate::json::lemma_arr_view(*v);
                }
                match decode_vec::<T>(items) {
                    Ok(xs) => Ok(xs),
                    Err(e) => Err(crate::error::nest_err(key, e)),
                }
            },
            _ => Err(
                DecodeError::WrongShape(key.to_owned(), String::from_str("array"), shape_name(v)),
            ),
        },
    }
}


/// A key's count is never negative, and the first entry carrying it exists
/// exactly when the count is positive.
pub proof fn lemma_count_find(entries: Seq<(Seq<char>, JsonView)>, key: Seq<char>)
    ensures
        spec_count_key(entries, key) >= 0,
        spec_find_key(entries, key) is Some <==> spec_count_key(entries, key) >= 1,
    decreases entries.len(),
{
    if entries.len() > 0 {
        lemma_count_find(entries.drop_last(), key);
    }
}

/// Counting from the front: the first entry contributes, the rest follow.
pub proof fn lemma_count_key_first(entries: Seq<(Seq<char>, JsonView)>, key: Seq<char>)
    requires
        entries.len() > 0,
    ensures
        spec_count_key(entries, key) == (if entries[0].0 == key {
            1int
        } else {
            0int
        }) + spec_count_key(entries.drop_first(), key),
    decreases entries.len(),
{
    if entries.len() == 1 {
        assert(entries.drop_last() =~= Seq::<(Seq<char>, JsonView)>::empty());
        assert(entries.drop_first() =~= Seq::<(Seq<char>, JsonView)>::empty());
    } else {
        lemma_count_key_first(entries.drop_last(), key);
        assert(entries.drop_last().drop_first() =~= entries.drop_first().drop_last());
        assert(entries.drop_first().last() == entries.last());
        assert(entries.drop_last()[0] == entries[0]);
    }
}

/// Finding from the front: the first entry wins, else the rest decide.
pub proof fn lemma_find_key_first(entries: Seq<(Seq<char>, JsonView)>, key: Seq<char>)
    requires
        entries.len() > 0,
    ensures
        spec_find_key(entries, key) == (if entries[0].0 == key {
            Some(entries[0].1)
        } else {
            spec_find_key(entries.drop_first(), key)
        }),
    decreases entries.len(),
{
    if entries.len() == 1 {
        assert(entries.drop_last() =~= Seq::<(Seq<char>, JsonView)>::empty());
        assert(entries.drop_first() =~= Seq::<(Seq<char>, JsonView)>::empty());
    } else {
        lemma_find_key_first(entries.drop_last(), key);
        assert(entries.drop_last().drop_first() =~= entries.drop_first().drop_last());
        assert(entries.drop_first().last() == entries.last());
        assert(entries.drop_last()[0] == entries[0]);
    }
}


/// A model type that encodes back to its wire form, by the exact
/// mathematical function `spec_encode`.
pub trait Encode: View + Sized {
    /// What encoding a value of this type yields.
    spec fn spec_encode(v: Self::V) -> JsonView;

    /// Encode one model value.
    fn encode(&self) -> (r: JsonValue)
        ensures
            r@ == Self::spec_encode(self.view()),
    ;
}

impl Encode for i32 {
    open spec fn spec_encode(v: i32) -> JsonView {
        JsonView::Num(crate::json::JsonNum { int_val: Some(v as i64), float_bits: 0 })
    }

    fn encode(&self) -> (r: JsonValue) {
        JsonValue::Num(crate::json::JsonNum { int_val: Some(*self as i64), float_bits: 0 })
    }
}

impl Encode for bool {
    open spec fn spec_encode(v: bool) -> JsonView {
        JsonView::Bool(v)
    }

    fn encode(&self) -> (r: JsonValue) {
        JsonValue::Bool(*self)
    }
}

impl Encode for String {
    open spec fn spec_encode(v: Seq<char>) -> JsonView {
        JsonView::Str(v)
    }

    fn encode(&self) -> (r: JsonValue) {
        JsonValue::Str(self.clone())
    }
}

impl Encode for FloatBits {
    open spec fn spec_encode(v: FloatBits) -> JsonView {
        JsonView::Num(crate::json::JsonNum { int_val: None, float_bits: v.0 })
    }

    fn encode(&self) -> (r: JsonValue) {
        JsonValue::Num(crate::json::JsonNum { int_val: None, float_bits: self.0 })
    }
}

impl<T: Encode> Encode for Nullable<T> {
    open spec fn spec_encode(v: Nullable<T::V>) -> JsonView {
        match v {
            Nullable::Null => JsonView::Null,
            Nullable::Data(x) => T::spec_encode(x),
        }
    }

    fn encode(&self) -> (r: JsonValue) {
        match self {
            Nullable::Null => JsonValue::Null,
            Nullable::Data(x) => x.encode(),
        }
    }
}

impl Encode for (i32, i32) {
    open spec fn spec_encode(v: (i32, i32)) -> JsonView {
        JsonView::Arr(seq![i32::spec_encode(v.0), i32::spec_encode(v.1)])
    }

    fn encode(&self) -> (r: JsonValue) {
        let mut items: Vec<JsonValue> = Vec::new();
        items.push(self.0.encode());
        items.push(self.1.encode());
        let r = JsonValue::Arr(items);
        proof {
            crate::json::lemma_arr_view(r);
            assert(jsons_view(r->Arr_0@) =~= Self::spec_encode(self.view())->Arr_0);
        }
        r
    }
}

impl Encode for (FloatBits, FloatBits) {
    open spec fn spec_encode(v: (FloatBits, FloatBits)) -> JsonView {
        JsonView::Arr(seq![FloatBits::spec_encode(v.0), FloatBits::spec_encode(v.1)])
    }

    fn encode(&self) -> (r: JsonValue) {
        let mut items: Vec<JsonValue> = Vec::new();
        items.push(self.0.encode());
        items.push(self.1.encode());
        let r = JsonValue::Arr(items);
        proof {
            crate::json::lemma_arr_view(r);
            assert(jsons_view(r->Arr_0@) =~= Self::spec_encode(self.view())->Arr_0);
        }
        r
    }
}

impl Encode for (FloatBits, FloatBits, FloatBits, FloatBits) {
    open spec fn spec_encode(v: (FloatBits, FloatBits, FloatBits, FloatBits)) -> JsonView {
        JsonView::Arr(
            seq![
                FloatBits::spec_encode(v.0),
                FloatBits::spec_encode(v.1),
                FloatBits::spec_encode(v.2),
                FloatBits::spec_encode(v.3),
            ],
        )
    }

    fn encode(&self) -> (r: JsonValue) {
        let mut items: Vec<JsonValue> = Vec::new();
        items.push(self.0.encode());
        items.push(self.1.encode());
        items.push(self.2.encode());
        items.push(self.3.encode());
        let r = JsonValue::Arr(items);
        proof {
            crate::json::lemma_arr_view(r);
            assert(jsons_view(r->Arr_0@) =~= Self::spec_encode(self.view())->Arr_0);
        }
        r
    }
}

impl Encode for crate::color::LdtkColor {
    open spec fn spec_encode(v: crate::color::LdtkColor) -> JsonView {
        JsonView::Str(crate::color::spec_encode_color(v))
    }

    fn encode(&self) -> (r: JsonValue) {
        JsonValue::Str(crate::color::LdtkColor::encode(self))
    }
}

/// The element-wise encoding of a sequence of model values.
pub open spec fn spec_encode_seq<T: Encode>(items: Seq<T::V>) -> JsonView {
    JsonView::Arr(Seq::new(items.len(), |i: int| T::spec_encode(items[i])))
}

/// Encode every element of a vector.
pub fn encode_vec<T: Encode>(items: &Vec<T>) -> (r: JsonValue)
    ensures
        r@ == spec_encode_seq::<T>(vec_view(*items)),
{
    let mut out: Vec<JsonValue> = Vec::new();
    let mut i: usize = 0;
    while i < items.len()
        invariant
            i <= items.len(),
            out.len() == i,
            forall|j: int| 0 <= j < i ==> out@[j]@ == T::spec_encode(items@[j].view()),
        decreases items.len() - i,
    {
        let encoded = items[i].encode();
        out.push(encoded);
        i += 1;
    }
    let r = JsonValue::Arr(out);
    proof {
        crate::json::lemma_arr_view(r);
        assert(jsons_view(r->Arr_0@) =~= spec_encode_seq::<T>(vec_view(*items))->Arr_0);
    }
    r
}

} // verus!
