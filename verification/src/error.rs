//! Decode failures.
//!
//! Every failure aborts the enclosing decode immediately; the model is never
//! partially valid. Each variant carries enough context to name the offending
//! key, token or text.

use vstd::prelude::*;

verus! {

use vstd::string::StringExecFns;
use vstd::string::StrSliceExecFns;

/// Why a decode failed.
#[derive(PartialEq, Eq, Debug, Clone)]
pub enum DecodeError {
    /// A recognized key appeared more than once in one object.
    DuplicateField(String),
    /// A required key never appeared; carries the first absent key, checked
    /// in a fixed order.
    MissingField(String),
    /// The type-tag token matched no known kind or prefix.
    UnknownFieldType(String),
    /// A color string failed hex parsing; carries the offending text.
    MalformedColor(String),
    /// A deferred value's shape did not match what its resolved kind
    /// required: the expected kind, then a description of what was found.
    TypeMismatch(String, String),
    /// A statically-typed field had the wrong shape: the path of keys from
    /// the object handed to the decoder down to the offending value (empty
    /// when the handed-in value itself is at fault), the expected shape, and
    /// the found shape.
    WrongShape(String, String, String),
}

/// The mathematical model of a [`DecodeError`].
pub enum ErrView {
    DuplicateField(Seq<char>),
    MissingField(Seq<char>),
    UnknownFieldType(Seq<char>),
    MalformedColor(Seq<char>),
    TypeMismatch(Seq<char>, Seq<char>),
    WrongShape(Seq<char>, Seq<char>, Seq<char>),
}

impl View for DecodeError {
    type V = ErrView;

    open spec fn view(&self) -> ErrView {
        match self {
            DecodeError::DuplicateField(k) => ErrView::DuplicateField(k@),
            DecodeError::MissingField(k) => ErrView::MissingField(k@),
            DecodeError::UnknownFieldType(t) => ErrView::UnknownFieldType(t@),
            DecodeError::MalformedColor(s) => ErrView::MalformedColor(s@),
            DecodeError::TypeMismatch(e, a) => ErrView::TypeMismatch(e@, a@),
            DecodeError::WrongShape(p, e, f) => ErrView::WrongShape(p@, e@, f@),
        }
    }
}

impl DecodeError {
    /// A short diagnostic text naming the failure kind, for callers that
    /// report errors to a user.
    pub fn describe(&self) -> (r: String)
        ensures
            r@ == self.spec_describe(),
    {
        match self {
            DecodeError::DuplicateField(_) => String::from_str("duplicate field"),
            DecodeError::MissingField(_) => String::from_str("missing field"),
            DecodeError::UnknownFieldType(_) => String::from_str("unknown field type"),
            DecodeError::MalformedColor(_) => String::from_str("malformed color"),
            DecodeError::TypeMismatch(_, _) => String::from_str("type mismatch"),
            DecodeError::WrongShape(_, _, _) => String::from_str("structural error"),
        }
    }

    /// What [`Self::describe`] returns for each variant.
    pub open spec fn spec_describe(&self) -> Seq<char> {
        match self {
            DecodeError::DuplicateField(_) => "duplicate field"@,
            DecodeError::MissingField(_) => "missing field"@,
            DecodeError::UnknownFieldType(_) => "unknown field type"@,
            DecodeError::MalformedColor(_) => "malformed color"@,
            DecodeError::TypeMismatch(_, _) => "type mismatch"@,
            DecodeError::WrongShape(_, _, _) => "structural error"@,
        }
    }
}

/// The model of a decode result: both sides taken to their views.
pub open spec fn res_view<T: View, E: View>(r: Result<T, E>) -> Result<T::V, E::V> {
    match r {
        Ok(t) => Ok(t.view()),
        Err(e) => Err(e.view()),
    }
}


/// Prefixing a structural error's key path with the key it was found under;
/// every other failure passes through unchanged.
pub open spec fn spec_nest_err(key: Seq<char>, e: ErrView) -> ErrView {
    match e {
        ErrView::WrongShape(path, expected, found) => ErrView::WrongShape(
            if path.len() == 0 {
                key
            } else {
                key + "/"@ + path
            },
            expected,
            found,
        ),
        _ => e,
    }
}

/// Prefix a structural error's key path with the key it was found under.
pub fn nest_err(key: &str, e: DecodeError) -> (r: DecodeError)
    ensures
        r@ == spec_nest_err(key@, e@),
{
    match e {
        DecodeError::WrongShape(path, expected, found) => {
            if path.as_str().is_empty() {
                DecodeError::WrongShape(key.to_owned(), expected, found)
            } else {
                let mut joined = key.to_owned();
                joined.append("/");
                joined.append(path.as_str());
                DecodeError::WrongShape(joined, expected, found)
            }
        },
        _ => e,
    }
}

} // verus!
