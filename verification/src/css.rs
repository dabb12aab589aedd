//! The minimal CSS value model that drives block layout: a value is either a
//! keyword or a length in pixels, and `auto` is the one keyword the layout
//! equations single out.

use vstd::prelude::*;
use vstd::string::StrSliceExecFns;
use vstd::string::StringExecFns;

verus! {

/// Units a length can carry. Only pixels take part in layout.
#[derive(Clone, Copy)]
pub enum Unit {
    Px,
}

/// A CSS value as layout sees it: a keyword such as `auto`, or a length.
///
/// Equality of keywords is by their characters, so `Keyword("auto")` differs
/// from every length, including `Length(0, Px)`.
pub enum Value {
    Keyword(String),
    Length(i64, Unit),
}

/// The mathematical shadow of [`Value`]: a keyword is a sequence of
/// characters, a length an unbounded integer of pixels.
pub enum ValueModel {
    Keyword(Seq<char>),
    Length(int),
}

impl View for Value {
    type V = ValueModel;

    open spec fn view(&self) -> ValueModel {
        match self {
            Value::Keyword(s) => ValueModel::Keyword(s@),
            Value::Length(n, _) => ValueModel::Length(*n as int),
        }
    }
}

/// The pixel count of a value: lengths give their pixel count, keywords
/// (among them `auto`) count as zero.
pub open spec fn spec_to_px(v: ValueModel) -> int {
    match v {
        ValueModel::Keyword(_) => 0,
        ValueModel::Length(n) => n,
    }
}

/// Whether a value is the keyword `auto`.
pub open spec fn spec_is_auto(v: ValueModel) -> bool {
    v == ValueModel::Keyword("auto"@)
}

/// The keyword `auto` as an owned value, the initial value of `width` and
/// of the margins.
pub fn auto_keyword() -> (r: Value)
    ensures
        r@ == ValueModel::Keyword("auto"@),
        spec_is_auto(r@),
{
    Value::Keyword(String::from_str("auto"))
}

/// Character-by-character equality of two string slices.
pub fn str_eq(a: &str, b: &str) -> (r: bool)
    ensures
        r == (a@ == b@),
{
    let alen = a.unicode_len();
    let blen = b.unicode_len();
    if alen != blen {
        assert(a@ != b@) by {
            assert(a@.len() != b@.len());
        }
        return false;
    }
    let mut i: usize = 0;
    while i < alen
        invariant
            i <= alen,
            alen == a@.len(),
            alen == b@.len(),
            forall|j: int| 0 <= j < i ==> a@[j] == b@[j],
        decreases alen - i,
    {
        if a.get_char(i) != b.get_char(i) {
            return false;
        }
        i = i + 1;
    }
    proof {
        assert(a@ =~= b@);
    }
    true
}

impl Value {
    /// The pixel count used by the layout equations; a keyword counts as zero.
    pub fn to_px(&self) -> (r: i64)
        ensures
            r as int == spec_to_px(self@),
    {
        match self {
            Value::Keyword(_) => 0,
            Value::Length(n, _) => *n,
        }
    }

    /// Whether this value is the keyword `auto`.
    pub fn is_auto(&self) -> (r: bool)
        ensures
            r == spec_is_auto(self@),
    {
        match self {
            Value::Keyword(s) => str_eq(s.as_str(), "auto"),
            Value::Length(_, _) => false,
        }
    }

    /// A value equal to this one, usable where an owned copy is needed.
    pub fn duplicate(&self) -> (r: Value)
        ensures
            r@ == self@,
    {
        match self {
            Value::Keyword(s) => Value::Keyword(s.clone()),
            Value::Length(n, _) => Value::Length(*n, Unit::Px),
        }
    }
}

} // verus!
