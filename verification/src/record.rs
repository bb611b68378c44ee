//! The text of a structured debug record: `Name { field: value, .. }` for records
//! with named fields, `Name(value, value)` for positional ones, `Name` alone when
//! there is nothing to show.

use crate::shape::FieldsKind;
use vstd::prelude::*;
use vstd::string::*;

verus! {

/// The items in order, with `", "` between neighbours.
pub open spec fn joined(items: Seq<Seq<char>>) -> Seq<char>
    decreases items.len(),
{
    if items.len() == 0 {
        Seq::empty()
    } else if items.len() == 1 {
        items[0]
    } else {
        joined(items.drop_last()) + ", "@ + items.last()
    }
}

/// One named entry: `name: value`.
pub open spec fn entry_text(entry: (Seq<char>, Seq<char>)) -> Seq<char> {
    entry.0 + ": "@ + entry.1
}

/// The texts of the entries, in order.
pub open spec fn entry_texts(entries: Seq<(Seq<char>, Seq<char>)>) -> Seq<Seq<char>> {
    Seq::new(entries.len(), |i: int| entry_text(entries[i]))
}

/// A record with named fields. With every field shown it closes with ` }`; a record
/// that leaves fields out closes with the marker `..` in the place of a last field.
/// A record without entries is the bare name, or `Name { .. }` when fields were
/// left out.
pub open spec fn debug_struct_text(
    name: Seq<char>,
    entries: Seq<(Seq<char>, Seq<char>)>,
    exhaustive: bool,
) -> Seq<char> {
    if entries.len() == 0 {
        if exhaustive {
            name
        } else {
            name + " { .. }"@
        }
    } else if exhaustive {
        name + " { "@ + joined(entry_texts(entries)) + " }"@
    } else {
        name + " { "@ + joined(entry_texts(entries)) + ", .. }"@
    }
}

/// A record with positional fields: the bare name when there are none.
pub open spec fn debug_tuple_text(name: Seq<char>, values: Seq<Seq<char>>) -> Seq<char> {
    if values.len() == 0 {
        name
    } else {
        name + "("@ + joined(values) + ")"@
    }
}

/// The record with the given entries, written as a field list of `kind` is: with
/// the names where the fields are named, without them where they are not.
pub open spec fn record_text(
    kind: FieldsKind,
    name: Seq<char>,
    entries: Seq<(Seq<char>, Seq<char>)>,
) -> Seq<char> {
    match kind {
        FieldsKind::Named => debug_struct_text(name, entries, true),
        FieldsKind::Unnamed => debug_tuple_text(
            name,
            Seq::new(entries.len(), |i: int| entries[i].1),
        ),
        FieldsKind::Unit => debug_tuple_text(name, Seq::new(entries.len(), |i: int| entries[i].1)),
    }
}

/// What a full derive writes for a value whose fields are named `names` and
/// format to `values`: every field, in declaration order.
pub open spec fn full_derive_text(
    kind: FieldsKind,
    name: Seq<char>,
    names: Seq<Seq<char>>,
    values: Seq<Seq<char>>,
) -> Seq<char> {
    record_text(kind, name, Seq::new(names.len(), |i: int| (names[i], values[i])))
}

/// `joined` grows by one separator and one item at a time.
proof fn lemma_joined_step(items: Seq<Seq<char>>, i: int)
    requires
        0 <= i < items.len(),
    ensures
        joined(items.take(i + 1)) == if i == 0 {
            items[0]
        } else {
            joined(items.take(i)) + ", "@ + items[i]
        },
{
    assert(items.take(i + 1).drop_last() =~= items.take(i));
}

/// The text of a record with named fields.
pub fn debug_struct(name: &str, entries: &Vec<(String, String)>, exhaustive: bool) -> (out: String)
    ensures
        out@ == debug_struct_text(name@, entries.deep_view(), exhaustive),
{
    let ghost texts = entry_texts(entries.deep_view());
    let mut out = name.to_owned();
    let mut i: usize = 0;
    while i < entries.len()
        invariant
            i <= entries.len(),
            texts == entry_texts(entries.deep_view()),
            texts.len() == entries.len(),
            i == 0 ==> out@ == name@,
            i > 0 ==> out@ == name@ + " { "@ + joined(texts.take(i as int)),
        decreases entries.len() - i,
    {
        if i == 0 {
            out.append(" { ");
        } else {
            out.append(", ");
        }
        let entry = &entries[i];
        out.append(entry.0.as_str());
        out.append(": ");
        out.append(entry.1.as_str());
        proof {
            lemma_joined_step(texts, i as int);
        }
        i += 1;
    }
    proof {
        assert(texts.take(entries.len() as int) =~= texts);
    }
    if entries.len() == 0 {
        if !exhaustive {
            out.append(" { .. }");
        }
    } else if exhaustive {
        out.append(" }");
    } else {
        out.append(", .. }");
    }
    out
}

/// The text of a record with positional fields.
pub fn debug_tuple(name: &str, values: &Vec<String>) -> (out: String)
    ensures
        out@ == debug_tuple_text(name@, values.deep_view()),
{
    let ghost texts = values.deep_view();
    let mut out = name.to_owned();
    let mut i: usize = 0;
    while i < values.len()
        invariant
            i <= values.len(),
            texts == values.deep_view(),
            texts.len() == values.len(),
            i == 0 ==> out@ == name@,
            i > 0 ==> out@ == name@ + "("@ + joined(texts.take(i as int)),
        decreases values.len() - i,
    {
        if i == 0 {
            out.append("(");
        } else {
            out.append(", ");
        }
        out.append(values[i].as_str());
        proof {
            lemma_joined_step(texts, i as int);
        }
        i += 1;
    }
    proof {
        assert(texts.take(values.len() as int) =~= texts);
    }
    if values.len() > 0 {
        out.append(")");
    }
    out
}

} // verus!
