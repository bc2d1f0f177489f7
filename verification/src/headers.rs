//! Message headers: reading `key=value` entries into a field table, and
//! rendering a received table as text.

use vstd::prelude::*;
use vstd::string::*;
use lapin::types::FieldTable;
use crate::table::{
    is_listing, item_views, table_entries, table_insert_text, table_items, table_new, HeaderText,
};
use crate::text::{find_first, first_at, join_with_separator, joined, lemma_first_at_unique, texts};

verus! {

/// Whether an entry holds the separator `=`.
pub open spec fn has_separator(e: Seq<char>) -> bool {
    e.contains('=')
}

/// What stands before the first `=` of an entry.
pub open spec fn entry_key(e: Seq<char>) -> Seq<char> {
    e.take(first_at(e, '='))
}

/// What stands after the first `=` of an entry, later `=` included.
pub open spec fn entry_value(e: Seq<char>) -> Seq<char> {
    e.skip(first_at(e, '=') + 1)
}

/// The header map that a list of entries stands for: the entries are read in
/// order, one without `=` is passed over, and a later entry replaces an
/// earlier one with the same key.
pub open spec fn headers_of(entries: Seq<Seq<char>>) -> Map<Seq<char>, HeaderText>
    decreases entries.len(),
{
    if entries.len() == 0 {
        Map::empty()
    } else {
        let before = headers_of(entries.drop_last());
        let e = entries.last();
        if has_separator(e) {
            before.insert(entry_key(e), Some(entry_value(e)))
        } else {
            before
        }
    }
}

/// Splits an entry at its first `=`.
pub fn split_entry(entry: &str) -> (parts: Option<(&str, &str)>)
    ensures
        parts is Some <==> has_separator(entry@),
        parts is Some ==> parts.unwrap().0@ == entry_key(entry@) && parts.unwrap().1@
            == entry_value(entry@),
{
    match find_first(entry, '=') {
        Some(i) => {
            proof {
                lemma_first_at_unique(entry@, '=', i as int);
            }
            let n: usize = entry.unicode_len();
            let key = entry.substring_char(0, i);
            let value = entry.substring_char(i + 1, n);
            Some((key, value))
        },
        None => None,
    }
}

/// Reads a list of `key=value` entries into a field table of long strings.
pub fn parse_headers(entries: &Vec<String>) -> (table: FieldTable)
    ensures
        table_entries(table) == headers_of(texts(entries@)),
{
    let mut table = table_new();
    let mut i: usize = 0;
    while i < entries.len()
        invariant
            i <= entries.len(),
            table_entries(table) =~= headers_of(texts(entries@).take(i as int)),
        decreases entries.len() - i,
    {
        let ghost all = texts(entries@);
        proof {
            assert(all.take(i + 1).drop_last() =~= all.take(i as int));
            assert(all.take(i + 1).last() == entries@[i as int]@);
        }
        match split_entry(entries[i].as_str()) {
            Some((key, value)) => {
                table_insert_text(&mut table, key, value);
            },
            None => {},
        }
        i = i + 1;
    }
    proof {
        assert(texts(entries@).take(entries.len() as int) =~= texts(entries@));
    }
    table
}

/// Whether an entry is a header under the key `k`.
pub open spec fn names(e: Seq<char>, k: Seq<char>) -> bool {
    has_separator(e) && entry_key(e) == k
}

/// One more entry sets its key, where it has a separator, and leaves the
/// other keys as they were.
proof fn lemma_one_more_entry(entries: Seq<Seq<char>>, k: Seq<char>)
    requires
        entries.len() > 0,
    ensures
        headers_of(entries).contains_key(k) <==> (headers_of(entries.drop_last()).contains_key(k)
            || names(entries.last(), k)),
        names(entries.last(), k) ==> headers_of(entries)[k] == Some(entry_value(entries.last())),
        !names(entries.last(), k) ==> headers_of(entries)[k] == headers_of(entries.drop_last())[k],
{
}

/// The map holds a key exactly where some entry names it.
pub proof fn law_one_entry_per_key(entries: Seq<Seq<char>>, k: Seq<char>)
    ensures
        headers_of(entries).contains_key(k) <==> exists|i: int|
            0 <= i < entries.len() && names(#[trigger] entries[i], k),
    decreases entries.len(),
{
    if entries.len() > 0 {
        let front = entries.drop_last();
        let n = entries.len() - 1;
        law_one_entry_per_key(front, k);
        lemma_one_more_entry(entries, k);
        if headers_of(entries).contains_key(k) {
            if names(entries.last(), k) {
                assert(names(entries[n], k));
            } else {
                let i = choose|i: int| 0 <= i < front.len() && names(#[trigger] front[i], k);
                assert(front[i] == entries[i]);
                assert(names(entries[i], k));
            }
        }
        if exists|i: int| 0 <= i < entries.len() && names(#[trigger] entries[i], k) {
            let i = choose|i: int| 0 <= i < entries.len() && names(#[trigger] entries[i], k);
            if i < n {
                assert(front[i] == entries[i]);
                assert(names(front[i], k));
            } else {
                assert(entries[i] == entries.last());
            }
        }
    }
}

/// Under a key the map holds the value of the last entry that names it:
/// where entry `i` names `k` and no later entry does, the value is that of
/// entry `i`.
pub proof fn law_last_value_wins(entries: Seq<Seq<char>>, k: Seq<char>, i: int)
    requires
        0 <= i < entries.len(),
        names(entries[i], k),
        forall|j: int| i < j < entries.len() ==> !names(#[trigger] entries[j], k),
    ensures
        headers_of(entries).contains_key(k),
        headers_of(entries)[k] == Some(entry_value(entries[i])),
    decreases entries.len(),
{
    let front = entries.drop_last();
    let n = entries.len() - 1;
    lemma_one_more_entry(entries, k);
    if i < n {
        assert(!names(entries[n], k));
        assert(front[i] == entries[i]);
        assert forall|j: int| i < j < front.len() implies !names(#[trigger] front[j], k) by {
            assert(front[j] == entries[j]);
        }
        law_last_value_wins(front, k, i);
    } else {
        assert(entries[i] == entries.last());
    }
}

/// An entry without `=` is passed over: the map is that of the list without
/// the entry.
pub proof fn law_entry_without_separator_dropped(entries: Seq<Seq<char>>, i: int)
    requires
        0 <= i < entries.len(),
        !has_separator(entries[i]),
    ensures
        headers_of(entries) == headers_of(entries.remove(i)),
    decreases entries.len(),
{
    let n = entries.len() - 1;
    if i == n {
        assert(entries.remove(i) =~= entries.drop_last());
    } else {
        law_entry_without_separator_dropped(entries.drop_last(), i);
        assert(entries.remove(i).drop_last() =~= entries.drop_last().remove(i));
        assert(entries.remove(i).last() == entries.last());
    }
}

/// How one header is shown: key, `=`, and the text of a long string; a value
/// of another kind shows as nothing.
pub open spec fn shown_item(item: (Seq<char>, HeaderText)) -> Seq<char> {
    item.0 + seq!['='] + match item.1 {
        Some(text) => text,
        None => Seq::empty(),
    }
}

/// How a list of headers is shown: each item, with a comma and a space
/// between each two.
pub open spec fn shown_items(items: Seq<(Seq<char>, HeaderText)>) -> Seq<char> {
    joined(Seq::new(items.len(), |i: int| shown_item(items[i])), seq![',', ' '])
}

/// Whether `out` shows the headers of a delivery: nothing where it has none,
/// else the table's entries by ascending key.
pub open spec fn shows_headers(out: Seq<char>, headers: Option<FieldTable>) -> bool {
    match headers {
        None => out == Seq::<char>::empty(),
        Some(t) => exists|items: Seq<(Seq<char>, HeaderText)>| #[trigger]
            is_listing(items, table_entries(t)) && out == shown_items(items),
    }
}

/// Renders the headers of a delivery as `key=value` pairs joined by `", "`.
pub fn render_headers(headers: &Option<FieldTable>) -> (out: String)
    ensures
        shows_headers(out@, *headers),
{
    match headers {
        None => String::new(),
        Some(t) => {
            let items = table_items(t);
            let ghost views = item_views(items@);
            let mut parts: Vec<String> = Vec::new();
            let mut i: usize = 0;
            while i < items.len()
                invariant
                    i <= items.len(),
                    views == item_views(items@),
                    parts@.len() == i,
                    forall|j: int| 0 <= j < i ==> (#[trigger] parts@[j])@ == shown_item(views[j]),
                decreases items.len() - i,
            {
                let mut part = String::from_str(items[i].0.as_str());
                proof {
                    reveal_strlit("=");
                    assert("="@ =~= seq!['=']);
                }
                part.append("=");
                match &items[i].1 {
                    Some(text) => {
                        part.append(text.as_str());
                    },
                    None => {
                        assert(part@ =~= shown_item(views[i as int]));
                    },
                }
                parts.push(part);
                i = i + 1;
            }
            proof {
                reveal_strlit(", ");
                assert(", "@ =~= seq![',', ' ']);
                assert(texts(parts@) =~= Seq::new(views.len(), |i: int| shown_item(views[i])));
            }
            join_with_separator(&parts, ", ")
        },
    }
}

} // verus!
