//! Values as the database holds them: what a statement binds to a placeholder and what a
//! row carries in a column.

use vstd::prelude::*;

verus! {

/// One database value.
///
/// A `Real` holds the bit pattern of an IEEE 754 double, so that a value of any storage
/// class can be carried through unchanged.
#[derive(Debug, Clone, PartialEq, Eq)]
pub enum Value {
    Null,
    Integer(i64),
    Real(u64),
    Text(String),
    Blob(Vec<u8>),
}

/// What a [`Value`] is, as mathematics.
pub enum ValueView {
    Null,
    Integer(i64),
    Real(u64),
    Text(Seq<char>),
    Blob(Seq<u8>),
}

impl View for Value {
    type V = ValueView;

    open spec fn view(&self) -> ValueView {
        match self {
            Value::Null => ValueView::Null,
            Value::Integer(i) => ValueView::Integer(*i),
            Value::Real(bits) => ValueView::Real(*bits),
            Value::Text(s) => ValueView::Text(s@),
            Value::Blob(b) => ValueView::Blob(b@),
        }
    }
}

/// How an optional text is bound: the text itself, or `Null` where there is none.
pub open spec fn bound_text(text: Option<Seq<char>>) -> ValueView {
    match text {
        Some(s) => ValueView::Text(s),
        None => ValueView::Null,
    }
}

impl Value {
    /// The text value that holds `s`.
    pub fn text(s: &str) -> (r: Value)
        ensures
            r@ == ValueView::Text(s@),
    {
        Value::Text(s.to_owned())
    }

    /// The value that an optional text is bound as: `Null` for `None`.
    pub fn nullable_text(text: Option<String>) -> (r: Value)
        ensures
            r@ == bound_text(
                match text {
                    Some(s) => Some(s@),
                    None => None,
                },
            ),
    {
        match text {
            Some(s) => Value::Text(s),
            None => Value::Null,
        }
    }
}

} // verus!
