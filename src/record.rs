//! Diagnostic rendering: a type name followed by each field's name and value,
//! in the shape `Name { a: 1, b: 2 }`.

use vstd::prelude::*;

verus! {

/// `s` holds `t` starting at position `i`.
pub open spec fn occurs_at(s: Seq<char>, t: Seq<char>, i: int) -> bool {
    0 <= i && i + t.len() <= s.len() && s.subrange(i, i + t.len()) == t
}

/// `t` occurs somewhere in `s`.
pub open spec fn contains(s: Seq<char>, t: Seq<char>) -> bool {
    exists|i: int| occurs_at(s, t, i)
}

/// One field as `name: value`.
pub open spec fn field_entry(field: (Seq<char>, Seq<char>)) -> Seq<char> {
    field.0 + seq![':', ' '] + field.1
}

/// The fields' entries, separated by a comma and a space.
pub open spec fn fields_text(fields: Seq<(Seq<char>, Seq<char>)>) -> Seq<char>
    decreases fields.len(),
{
    if fields.len() == 0 {
        Seq::empty()
    } else if fields.len() == 1 {
        field_entry(fields[0])
    } else {
        fields_text(fields.drop_last()) + seq![',', ' '] + field_entry(fields.last())
    }
}

/// A record's diagnostic text: the type name alone when it has no field,
/// otherwise the name and the fields inside braces.
pub open spec fn record_text(name: Seq<char>, fields: Seq<(Seq<char>, Seq<char>)>) -> Seq<char> {
    if fields.len() == 0 {
        name
    } else {
        name + seq![' ', '{', ' '] + fields_text(fields) + seq![' ', '}']
    }
}

/// The field names and values that a vector of string pairs holds.
pub open spec fn field_views(fields: Seq<(String, String)>) -> Seq<(Seq<char>, Seq<char>)> {
    fields.map_values(|f: (String, String)| (f.0@, f.1@))
}

/// Renders a record from its type name and its fields' names and value texts.
pub fn render_record(name: &str, fields: &Vec<(String, String)>) -> (r: String)
    ensures
        r@ == record_text(name@, field_views(fields@)),
{
    let mut out = String::from_str(name);
    if fields.len() == 0 {
        return out;
    }
    proof {
        reveal_strlit(" { ");
        reveal_strlit(" }");
        assert(" { "@ =~= seq![' ', '{', ' ']);
        assert(" }"@ =~= seq![' ', '}']);
    }
    out.append(" { ");
    let ghost start = out@;
    let ghost views = field_views(fields@);
    let mut k: usize = 0;
    while k < fields.len()
        invariant
            0 <= k <= fields.len(),
            views == field_views(fields@),
            out@ == start + fields_text(views.take(k as int)),
        decreases fields.len() - k,
    {
        proof {
            reveal_strlit(", ");
            reveal_strlit(": ");
            assert(", "@ =~= seq![',', ' ']);
            assert(": "@ =~= seq![':', ' ']);
        }
        let ghost before = out@;
        if k > 0 {
            out.append(", ");
        }
        out.append(fields[k].0.as_str());
        out.append(": ");
        out.append(fields[k].1.as_str());
        proof {
            let taken = views.take(k as int + 1);
            assert(taken.drop_last() =~= views.take(k as int));
            assert(taken.last() == views[k as int]);
            assert(views[k as int] == (fields@[k as int].0@, fields@[k as int].1@));
            if k == 0 {
                assert(views.take(0) =~= Seq::<(Seq<char>, Seq<char>)>::empty());
                assert(out@ =~= start + field_entry(taken[0]));
            } else {
                assert(out@ =~= before + seq![',', ' '] + field_entry(taken.last()));
            }
            assert(out@ =~= start + fields_text(taken));
        }
        k = k + 1;
    }
    out.append(" }");
    assert(views.take(fields.len() as int) =~= views);
    assert(out@ =~= record_text(name@, views));
    out
}

/// Every field of a record's diagnostic text stands in it as `name: value`,
/// and the text begins with the type name.
pub proof fn lemma_record_shows_fields(name: Seq<char>, fields: Seq<(Seq<char>, Seq<char>)>)
    ensures
        record_text(name, fields).take(name.len() as int) == name,
        forall|k: int|
            0 <= k < fields.len() ==> contains(
                #[trigger] record_text(name, fields),
                field_entry(fields[k]),
            ),
{
    let r = record_text(name, fields);
    assert(r.take(name.len() as int) =~= name);
    assert forall|k: int| 0 <= k < fields.len() implies contains(
        #[trigger] record_text(name, fields),
        field_entry(fields[k]),
    ) by {
        lemma_fields_text_shows(fields, k);
        let i = choose|i: int| occurs_at(fields_text(fields), field_entry(fields[k]), i);
        let off: int = name.len() as int + 3;
        assert(r.subrange(off + i, off + i + field_entry(fields[k]).len())
            =~= fields_text(fields).subrange(i, i + field_entry(fields[k]).len()));
        assert(occurs_at(r, field_entry(fields[k]), off + i));
    }
}

/// Each field's entry occurs in the joined field text.
pub proof fn lemma_fields_text_shows(fields: Seq<(Seq<char>, Seq<char>)>, k: int)
    requires
        0 <= k < fields.len(),
    ensures
        contains(fields_text(fields), field_entry(fields[k])),
    decreases fields.len(),
{
    let t = fields_text(fields);
    let e = field_entry(fields[k]);
    if fields.len() == 1 {
        assert(t.subrange(0, e.len() as int) =~= e);
        assert(occurs_at(t, e, 0));
    } else if k == fields.len() - 1 {
        let p: int = fields_text(fields.drop_last()).len() as int + 2;
        assert(t.subrange(p, p + e.len()) =~= e);
        assert(occurs_at(t, e, p));
    } else {
        let init = fields.drop_last();
        assert(init[k] == fields[k]);
        lemma_fields_text_shows(init, k);
        let i = choose|i: int| occurs_at(fields_text(init), e, i);
        assert(t.subrange(i, i + e.len()) =~= fields_text(init).subrange(i, i + e.len()));
        assert(occurs_at(t, e, i));
    }
}

} // verus!
