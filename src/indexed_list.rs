//! A list of integers, rendered with the position of each element.

use vstd::prelude::*;
use crate::record::{contains, field_entry, field_views, lemma_record_shows_fields, record_text, render_record};
use crate::text::{int_text, nat_text, push_signed, push_unsigned};

verus! {

/// An ordered, possibly empty sequence of 32-bit integers.
pub struct IndexedList {
    pub elements: Vec<i32>,
}

/// One element with its zero-based position: `i: v`.
pub open spec fn indexed_entry(i: nat, v: i32) -> Seq<char> {
    nat_text(i) + seq![':', ' '] + int_text(v as int)
}

/// Every element with its position, separated by a comma and a space.
pub open spec fn indexed_entries(s: Seq<i32>) -> Seq<char>
    decreases s.len(),
{
    if s.len() == 0 {
        Seq::empty()
    } else if s.len() == 1 {
        indexed_entry(0, s[0])
    } else {
        indexed_entries(s.drop_last()) + seq![',', ' '] + indexed_entry(
            (s.len() - 1) as nat,
            s.last(),
        )
    }
}

/// Every element, separated by a comma and a space.
pub open spec fn value_entries(s: Seq<i32>) -> Seq<char>
    decreases s.len(),
{
    if s.len() == 0 {
        Seq::empty()
    } else if s.len() == 1 {
        int_text(s[0] as int)
    } else {
        value_entries(s.drop_last()) + seq![',', ' '] + int_text(s.last() as int)
    }
}

/// Human-readable text of a list: `[0: v0, 1: v1, ...]`, `[]` when empty.
pub open spec fn indexed_list_text(s: Seq<i32>) -> Seq<char> {
    seq!['['] + indexed_entries(s) + seq![']']
}

/// The elements in brackets, without positions: `[v0, v1, ...]`.
pub open spec fn values_text(s: Seq<i32>) -> Seq<char> {
    seq!['['] + value_entries(s) + seq![']']
}

/// The type and field names that diagnostic text of a list shows.
pub open spec fn indexed_list_fields(s: Seq<i32>) -> Seq<(Seq<char>, Seq<char>)> {
    seq![("elements"@, values_text(s))]
}

/// Diagnostic text of a list.
pub open spec fn indexed_list_diagnostic(s: Seq<i32>) -> Seq<char> {
    record_text("IndexedList"@, indexed_list_fields(s))
}

/// Renders the elements in brackets; with `indexed`, each one after its
/// position.
fn render_elements(v: &Vec<i32>, indexed: bool) -> (r: String)
    ensures
        indexed ==> r@ == indexed_list_text(v@),
        !indexed ==> r@ == values_text(v@),
{
    proof {
        reveal_strlit("[");
        assert("["@ =~= seq!['[']);
    }
    let mut out = String::from_str("[");
    let mut k: usize = 0;
    while k < v.len()
        invariant
            0 <= k <= v.len(),
            indexed ==> out@ == seq!['['] + indexed_entries(v@.take(k as int)),
            !indexed ==> out@ == seq!['['] + value_entries(v@.take(k as int)),
        decreases v.len() - k,
    {
        proof {
            reveal_strlit(", ");
            reveal_strlit(": ");
            assert(", "@ =~= seq![',', ' ']);
            assert(": "@ =~= seq![':', ' ']);
        }
        if k > 0 {
            out.append(", ");
        }
        let ghost sep = out@;
        if indexed {
            push_unsigned(&mut out, k as u64);
            out.append(": ");
        }
        push_signed(&mut out, v[k] as i64);
        proof {
            let taken = v@.take(k as int + 1);
            assert(taken.drop_last() =~= v@.take(k as int));
            assert(taken.last() == v@[k as int]);
            if k == 0 {
                assert(v@.take(0) =~= Seq::<i32>::empty());
            }
            if indexed {
                assert(out@ =~= sep + indexed_entry(k as nat, v@[k as int]));
            } else {
                assert(out@ =~= sep + int_text(v@[k as int] as int));
            }
        }
        k = k + 1;
    }
    proof {
        reveal_strlit("]");
        assert("]"@ =~= seq![']']);
    }
    out.append("]");
    assert(v@.take(v.len() as int) =~= v@);
    proof {
        if indexed {
            assert(out@ =~= indexed_list_text(v@));
        } else {
            assert(out@ =~= values_text(v@));
        }
    }
    out
}

impl IndexedList {
    /// A list holding the given elements in order.
    pub fn new(elements: Vec<i32>) -> (r: IndexedList)
        ensures
            r.elements@ == elements@,
    {
        IndexedList { elements }
    }

    /// `[0: v0, 1: v1, ...]`: each element after its zero-based position.
    pub fn render(&self) -> (r: String)
        ensures
            r@ == indexed_list_text(self.elements@),
    {
        render_elements(&self.elements, true)
    }

    /// `IndexedList { elements: [v0, v1, ...] }`.
    pub fn diagnostic(&self) -> (r: String)
        ensures
            r@ == indexed_list_diagnostic(self.elements@),
    {
        let fields = vec![(String::from_str("elements"), render_elements(&self.elements, false))];
        let r = render_record("IndexedList", &fields);
        assert(field_views(fields@) =~= indexed_list_fields(self.elements@));
        r
    }
}

/// The diagnostic text of a list begins with its type name and shows each
/// field as `name: value`.
pub proof fn lemma_indexed_list_diagnostic_shows_fields(elements: Seq<i32>)
    ensures
        indexed_list_diagnostic(elements).take("IndexedList"@.len() as int) == "IndexedList"@,
        contains(indexed_list_diagnostic(elements), field_entry(("elements"@, values_text(elements)))),
{
    lemma_record_shows_fields("IndexedList"@, indexed_list_fields(elements));
    assert(indexed_list_fields(elements)[0] == ("elements"@, values_text(elements)));
}

} // verus!
