//! Sentinel constants and the tag/value pair shared by the order types.
//!
//! Optional numeric fields of an order do not use zero for "not specified",
//! because zero is a legitimate price, quantity or offset in this domain.
//! Instead every optional field defaults to a reserved sentinel constant.
//! Prices, quantities and other decimal amounts are held in fixed-point
//! form: an `i64` counting ten-thousandths, so `505_000` stands for `50.5`.

use vstd::prelude::*;

verus! {

/// Sentinel for "this decimal field was not specified by the caller".
pub const UNSET_DOUBLE: i64 = i64::MAX;

/// Sentinel for "this integer field was not specified by the caller".
pub const UNSET_INTEGER: i32 = i32::MAX;

/// Number of fixed-point units in one whole: decimal amounts carry four
/// fractional digits.
pub const DOUBLE_SCALE: i64 = 10000;

/// One tag/value pair of an order's parameter lists (algo parameters,
/// smart-combo routing parameters, miscellaneous options).
#[derive(Clone, Debug)]
pub struct TagValue {
    pub tag: String,
    pub value: String,
}

/// Ghost image of a `TagValue`: both strings as character sequences.
pub ghost struct TagValueV {
    pub tag: Seq<char>,
    pub value: Seq<char>,
}

impl View for TagValue {
    type V = TagValueV;

    open spec fn view(&self) -> TagValueV {
        TagValueV { tag: self.tag@, value: self.value@ }
    }
}

impl TagValue {
    pub fn new(tag: String, value: String) -> (r: Self)
        ensures
            r@ == (TagValueV { tag: tag@, value: value@ }),
    {
        TagValue { tag, value }
    }
}

/// The view of a tag/value list, element by element.
pub open spec fn tag_values_view(s: Seq<TagValue>) -> Seq<TagValueV> {
    s.map_values(|t: TagValue| t@)
}

} // verus!
