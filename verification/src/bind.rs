//! Values bound to the positional parameters of a statement.

use vstd::prelude::*;
use crate::models::opt_text;

verus! {

/// One value bound to a positional parameter. The nullable forms bind SQL
/// `NULL` when they hold `None`.
#[derive(Debug, Clone, PartialEq, Eq)]
pub enum BindValue {
    Text(String),
    Bool(bool),
    Int(i32),
    BigInt(i64),
    IntList(Vec<i32>),
    NullableText(Option<String>),
    NullableBool(Option<bool>),
}

/// The mathematical value of a [`BindValue`].
pub enum BindValueView {
    Text(Seq<char>),
    Bool(bool),
    Int(i32),
    BigInt(i64),
    IntList(Seq<i32>),
    NullableText(Option<Seq<char>>),
    NullableBool(Option<bool>),
}

impl View for BindValue {
    type V = BindValueView;

    open spec fn view(&self) -> BindValueView {
        match *self {
            BindValue::Text(s) => BindValueView::Text(s@),
            BindValue::Bool(b) => BindValueView::Bool(b),
            BindValue::Int(n) => BindValueView::Int(n),
            BindValue::BigInt(n) => BindValueView::BigInt(n),
            BindValue::IntList(v) => BindValueView::IntList(v@),
            BindValue::NullableText(o) => BindValueView::NullableText(opt_text(o)),
            BindValue::NullableBool(o) => BindValueView::NullableBool(o),
        }
    }
}

impl DeepView for BindValue {
    type V = BindValueView;

    open spec fn deep_view(&self) -> BindValueView {
        self@
    }
}

/// A copy of an optional string.
pub fn copy_opt_string(value: &Option<String>) -> (out: Option<String>)
    ensures
        opt_text(out) == opt_text(*value),
{
    match value {
        Some(s) => Some(s.clone()),
        None => None,
    }
}

/// A copy of a list of identities.
pub fn copy_ids(ids: &[i32]) -> (out: Vec<i32>)
    ensures
        out@ == ids@,
{
    let mut out: Vec<i32> = Vec::new();
    let mut i: usize = 0;
    while i < ids.len()
        invariant
            i <= ids.len(),
            out@ == ids@.take(i as int),
        decreases ids.len() - i,
    {
        out.push(ids[i]);
        assert(out@ =~= ids@.take(i + 1));
        i += 1;
    }
    assert(ids@.take(i as int) =~= ids@);
    out
}

impl BindValue {
    /// A copy of the value.
    pub fn duplicate(&self) -> (out: BindValue)
        ensures
            out@ == self@,
    {
        match self {
            BindValue::Text(s) => BindValue::Text(s.clone()),
            BindValue::Bool(b) => BindValue::Bool(*b),
            BindValue::Int(n) => BindValue::Int(*n),
            BindValue::BigInt(n) => BindValue::BigInt(*n),
            BindValue::IntList(v) => BindValue::IntList(copy_ids(v.as_slice())),
            BindValue::NullableText(o) => BindValue::NullableText(copy_opt_string(o)),
            BindValue::NullableBool(o) => BindValue::NullableBool(*o),
        }
    }
}

} // verus!
