//! The broker client's field table, which carries message headers, and what
//! this library relies on of it.

use vstd::prelude::*;
use lapin::types::{AMQPValue, FieldTable};

verus! {

/// `lapin::types::FieldTable`, the broker client's map from header names to
/// values. Nothing is known of a table but what the functions below say.
#[verifier::external_type_specification]
#[verifier::external_body]
pub struct ExFieldTable(FieldTable);

/// What a header holds: the text of a long string (as it is displayed), or
/// `None` for a value of another kind.
pub type HeaderText = Option<Seq<char>>;

/// The entries of a field table: under each key what its value holds.
pub uninterp spec fn table_entries(t: FieldTable) -> Map<Seq<char>, Option<Seq<char>>>;

/// `FieldTable::default`: a table without entries.
#[verifier::external_body]
pub(crate) fn table_new() -> (table: FieldTable)
    ensures
        table_entries(table) =~= Map::empty(),
{
    FieldTable::default()
}

/// `FieldTable::insert` with a long string made of `value`: the entry under
/// `key` is set, replacing an earlier one, and the others stay.
#[verifier::external_body]
pub(crate) fn table_insert_text(t: &mut FieldTable, key: &str, value: &str)
    ensures
        table_entries(*final(t)) == table_entries(*old(t)).insert(key@, Some(value@)),
{
    t.insert(key.into(), AMQPValue::LongString(value.into()))
}

/// `Clone` of `FieldTable`: a table with the same entries.
#[verifier::external_body]
pub(crate) fn table_copy(t: &FieldTable) -> (copy: FieldTable)
    ensures
        table_entries(copy) == table_entries(*t),
{
    t.clone()
}

/// Whether text `a` stands before text `b`: at the first place where they
/// differ `a` has the smaller character, or `a` ends there and `b` goes on.
pub open spec fn text_before(a: Seq<char>, b: Seq<char>) -> bool
    decreases a.len(),
{
    if b.len() == 0 {
        false
    } else if a.len() == 0 {
        true
    } else if a[0] != b[0] {
        (a[0] as u32) < (b[0] as u32)
    } else {
        text_before(a.skip(1), b.skip(1))
    }
}

/// The views of listed entries.
pub open spec fn item_views(items: Seq<(String, Option<String>)>) -> Seq<(Seq<char>, HeaderText)> {
    Seq::new(
        items.len(),
        |i: int|
            (
                items[i].0@,
                match items[i].1 {
                    Some(text) => Some(text@),
                    None => None,
                },
            ),
    )
}

/// Whether `items` lists the entries of `m`: each entry once, by ascending
/// key.
pub open spec fn is_listing(items: Seq<(Seq<char>, HeaderText)>, m: Map<Seq<char>, HeaderText>) -> bool {
    &&& forall|i: int|
        0 <= i < items.len() ==> #[trigger] m.contains_pair(items[i].0, items[i].1)
    &&& forall|k: Seq<char>|
        m.contains_key(k) ==> exists|i: int| 0 <= i < items.len() && #[trigger] items[i].0 == k
    &&& forall|i: int, j: int|
        0 <= i < j < items.len() ==> text_before(#[trigger] items[i].0, #[trigger] items[j].0)
}

/// Iteration over a `&FieldTable`, with `AMQPValue::as_long_string` on each
/// value: every entry of the table once, in the ascending order of the keys
/// (the table is a `BTreeMap` keyed by strings, which std orders byte by
/// byte, and so character by character); a long string comes as the text
/// that it displays as, a value of another kind as `None`.
#[verifier::external_body]
pub(crate) fn table_items(t: &FieldTable) -> (items: Vec<(String, Option<String>)>)
    ensures
        is_listing(item_views(items@), table_entries(*t)),
{
    t.into_iter().map(|(k, v)| (k.to_string(), v.as_long_string().map(|s| s.to_string()))).collect()
}

} // verus!
