//! A pair of bounds, with no order enforced between them.

use vstd::prelude::*;
use crate::record::{contains, field_entry, field_views, lemma_record_shows_fields, record_text, render_record};
use crate::text::{int_text, push_signed, signed_string};

verus! {

/// A low and a high bound; `low <= high` is not required.
pub struct Range {
    pub low: i64,
    pub high: i64,
}

/// Human-readable text of a range: `(low, high)`.
pub open spec fn range_text(low: i64, high: i64) -> Seq<char> {
    seq!['('] + int_text(low as int) + seq![',', ' '] + int_text(high as int) + seq![')']
}

/// The field names and values that diagnostic text of a range shows.
pub open spec fn range_fields(low: i64, high: i64) -> Seq<(Seq<char>, Seq<char>)> {
    seq![("low"@, int_text(low as int)), ("high"@, int_text(high as int))]
}

/// Diagnostic text of a range.
pub open spec fn range_diagnostic(low: i64, high: i64) -> Seq<char> {
    record_text("Range"@, range_fields(low, high))
}

impl Range {
    /// A range with the given bounds, in either order.
    pub fn new(low: i64, high: i64) -> (r: Range)
        ensures
            r.low == low,
            r.high == high,
    {
        Range { low, high }
    }

    /// `(low, high)`.
    pub fn render(&self) -> (r: String)
        ensures
            r@ == range_text(self.low, self.high),
    {
        proof {
            reveal_strlit("(");
            reveal_strlit(", ");
            reveal_strlit(")");
        }
        let mut out = String::from_str("(");
        push_signed(&mut out, self.low);
        out.append(", ");
        push_signed(&mut out, self.high);
        out.append(")");
        assert(out@ =~= range_text(self.low, self.high));
        out
    }

    /// `Range { low: .., high: .. }`.
    pub fn diagnostic(&self) -> (r: String)
        ensures
            r@ == range_diagnostic(self.low, self.high),
    {
        let fields = vec![
            (String::from_str("low"), signed_string(self.low)),
            (String::from_str("high"), signed_string(self.high)),
        ];
        let r = render_record("Range", &fields);
        assert(field_views(fields@) =~= range_fields(self.low, self.high));
        r
    }
}

/// The diagnostic text of a range begins with its type name and shows each
/// field as `name: value`.
pub proof fn lemma_range_diagnostic_shows_fields(low: i64, high: i64)
    ensures
        range_diagnostic(low, high).take("Range"@.len() as int) == "Range"@,
        contains(range_diagnostic(low, high), field_entry(("low"@, int_text(low as int)))),
        contains(range_diagnostic(low, high), field_entry(("high"@, int_text(high as int)))),
{
    lemma_record_shows_fields("Range"@, range_fields(low, high));
    assert(range_fields(low, high)[0] == ("low"@, int_text(low as int)));
    assert(range_fields(low, high)[1] == ("high"@, int_text(high as int)));
}

} // verus!
