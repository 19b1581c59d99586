//! The order in which the entries of a directory are shown: directories
//! before files, and within each group by key, character by character.

use crate::snapshot::{DirectoryEntry, EntryView};
use vstd::prelude::*;

verus! {

/// Whether `a` comes strictly before `b` where both are read character by
/// character: at the first place where they differ `a` holds the smaller
/// character, or `a` ends there and `b` goes on.
pub open spec fn spec_text_precedes(a: Seq<char>, b: Seq<char>) -> bool
    decreases a.len(),
{
    if b.len() == 0 {
        false
    } else if a.len() == 0 {
        true
    } else if a[0] != b[0] {
        (a[0] as u32) < (b[0] as u32)
    } else {
        spec_text_precedes(a.drop_first(), b.drop_first())
    }
}

/// A directory entry together with the key by which it is ordered.
#[derive(Debug)]
pub struct KeyedEntry {
    pub entry: DirectoryEntry,
    pub key: Vec<char>,
}

/// A [`KeyedEntry`] as contracts see it.
pub struct KeyedView {
    pub entry: EntryView,
    pub key: Seq<char>,
}

impl View for KeyedEntry {
    type V = KeyedView;

    open spec fn view(&self) -> KeyedView {
        KeyedView { entry: self.entry@, key: self.key@ }
    }
}

/// The views of a sequence of keyed entries, in the same order.
pub open spec fn keyed_views(items: Seq<KeyedEntry>) -> Seq<KeyedView> {
    items.map_values(|item: KeyedEntry| item@)
}

/// Whether `a` is shown strictly before `b`: a directory before a file, and
/// of two of the same kind the one whose key comes first.
pub open spec fn spec_item_precedes(a: KeyedView, b: KeyedView) -> bool {
    if a.entry.is_directory != b.entry.is_directory {
        a.entry.is_directory
    } else {
        spec_text_precedes(a.key, b.key)
    }
}

/// Nothing comes before itself.
pub proof fn lemma_text_order_is_irreflexive(a: Seq<char>)
    ensures
        !spec_text_precedes(a, a),
    decreases a.len(),
{
    if a.len() > 0 {
        lemma_text_order_is_irreflexive(a.drop_first());
    }
}

/// Of two different texts one comes before the other.
pub proof fn lemma_text_order_is_total(a: Seq<char>, b: Seq<char>)
    ensures
        a == b || spec_text_precedes(a, b) || spec_text_precedes(b, a),
    decreases a.len(),
{
    if a.len() > 0 && b.len() > 0 && a[0] == b[0] {
        lemma_text_order_is_total(a.drop_first(), b.drop_first());
        if a.drop_first() == b.drop_first() {
            assert(a =~= seq![a[0]] + a.drop_first());
            assert(b =~= seq![b[0]] + b.drop_first());
        }
    } else if a.len() == 0 && b.len() == 0 {
        assert(a =~= b);
    } else if a.len() > 0 && b.len() > 0 {
        vstd::utf8::char_u32_cast(a[0], a[0] as u32);
        vstd::utf8::char_u32_cast(b[0], b[0] as u32);
    }
}

/// No two texts come before each other.
pub proof fn lemma_text_order_is_asymmetric(a: Seq<char>, b: Seq<char>)
    ensures
        !(spec_text_precedes(a, b) && spec_text_precedes(b, a)),
    decreases a.len(),
{
    if a.len() > 0 && b.len() > 0 && a[0] == b[0] {
        lemma_text_order_is_asymmetric(a.drop_first(), b.drop_first());
    }
}

/// What comes before a text comes before everything that the text comes before.
pub proof fn lemma_text_order_is_transitive(a: Seq<char>, b: Seq<char>, c: Seq<char>)
    requires
        spec_text_precedes(a, b),
        spec_text_precedes(b, c),
    ensures
        spec_text_precedes(a, c),
    decreases a.len(),
{
    if a.len() > 0 && a[0] == b[0] && b[0] == c[0] {
        lemma_text_order_is_transitive(a.drop_first(), b.drop_first(), c.drop_first());
    }
}

/// The order of entries is transitive.
pub proof fn lemma_item_order_is_transitive(a: KeyedView, b: KeyedView, c: KeyedView)
    requires
        spec_item_precedes(a, b),
        spec_item_precedes(b, c),
    ensures
        spec_item_precedes(a, c),
{
    if a.entry.is_directory == b.entry.is_directory && b.entry.is_directory
        == c.entry.is_directory {
        lemma_text_order_is_transitive(a.key, b.key, c.key);
    }
}

/// Where `a` is shown before `c`, any `b` is shown after `a` or before `c`.
pub proof fn lemma_item_order_splits(a: KeyedView, b: KeyedView, c: KeyedView)
    requires
        spec_item_precedes(a, c),
    ensures
        spec_item_precedes(a, b) || spec_item_precedes(b, c),
{
    if a.entry.is_directory == b.entry.is_directory && b.entry.is_directory
        == c.entry.is_directory {
        lemma_text_order_is_total(a.key, b.key);
        if spec_text_precedes(b.key, a.key) {
            lemma_text_order_is_transitive(b.key, a.key, c.key);
        }
    }
}

/// Whether `a` comes strictly before `b`, character by character.
pub fn text_precedes(a: &Vec<char>, b: &Vec<char>) -> (before: bool)
    ensures
        before == spec_text_precedes(a@, b@),
{
    let mut i: usize = 0;
    assert(a@.skip(0) =~= a@);
    assert(b@.skip(0) =~= b@);
    while i < a.len() && i < b.len()
        invariant
            i <= a.len(),
            i <= b.len(),
            spec_text_precedes(a@, b@) == spec_text_precedes(a@.skip(i as int), b@.skip(i as int)),
        decreases a.len() - i,
    {
        let ghost rest_a = a@.skip(i as int);
        let ghost rest_b = b@.skip(i as int);
        assert(rest_a[0] == a@[i as int]);
        assert(rest_b[0] == b@[i as int]);
        if a[i] != b[i] {
            return (a[i] as u32) < (b[i] as u32);
        }
        assert(rest_a.drop_first() =~= a@.skip(i + 1));
        assert(rest_b.drop_first() =~= b@.skip(i + 1));
        i += 1;
    }
    assert(a@.skip(i as int).len() == a@.len() - i);
    assert(b@.skip(i as int).len() == b@.len() - i);
    i < b.len()
}

/// Whether `a` is shown strictly before `b`.
pub fn item_precedes(a: &KeyedEntry, b: &KeyedEntry) -> (before: bool)
    ensures
        before == spec_item_precedes(a@, b@),
{
    if a.entry.is_directory != b.entry.is_directory {
        a.entry.is_directory
    } else {
        text_precedes(&a.key, &b.key)
    }
}

} // verus!
