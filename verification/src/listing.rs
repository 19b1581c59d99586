//! The entries of one directory, in the order in which they are shown.

use crate::ordering::{
    KeyedEntry, KeyedView, item_precedes, keyed_views, spec_item_precedes,
};
use crate::paths::chars_of;
use crate::snapshot::{
    DirectoryEntry, EntryView, Listing, Query, QueryView, Snapshot, SnapshotView, entry_views,
    query_views,
};
use vstd::prelude::*;

verus! {

/// `sorted` with `item` put in: behind every entry that `item` is not shown
/// before, so that of two entries that neither is shown before the other the
/// earlier one stays first.
pub open spec fn spec_insert_sorted(sorted: Seq<KeyedView>, item: KeyedView) -> Seq<KeyedView>
    decreases sorted.len(),
{
    if sorted.len() == 0 {
        seq![item]
    } else if spec_item_precedes(item, sorted.last()) {
        spec_insert_sorted(sorted.drop_last(), item).push(sorted.last())
    } else {
        sorted.push(item)
    }
}

/// `items` in the order in which they are shown; entries that neither is
/// shown before the other keep the order they came in.
pub open spec fn spec_sort(items: Seq<KeyedView>) -> Seq<KeyedView>
    decreases items.len(),
{
    if items.len() == 0 {
        Seq::empty()
    } else {
        spec_insert_sorted(spec_sort(items.drop_last()), items.last())
    }
}

/// Puts `item` into `sorted`, behind every entry that it is not shown before.
fn insert_sorted(sorted: &mut Vec<KeyedEntry>, item: KeyedEntry)
    ensures
        keyed_views(final(sorted)@) == spec_insert_sorted(keyed_views(old(sorted)@), item@),
{
    let ghost views = keyed_views(sorted@);
    let mut at: usize = sorted.len();
    assert(views.take(at as int) =~= views);
    assert(views.skip(at as int) =~= Seq::<KeyedView>::empty());
    assert(spec_insert_sorted(views, item@) =~= spec_insert_sorted(views, item@) + Seq::<
        KeyedView,
    >::empty());
    while at > 0 && item_precedes(&item, &sorted[at - 1])
        invariant
            at <= sorted.len(),
            sorted@ == old(sorted)@,
            views == keyed_views(sorted@),
            spec_insert_sorted(views, item@) == spec_insert_sorted(
                views.take(at as int),
                item@,
            ) + views.skip(at as int),
        decreases at,
    {
        let ghost head = views.take(at as int);
        assert(head.last() == sorted@[at - 1]@);
        assert(head.drop_last() =~= views.take(at - 1));
        assert(spec_insert_sorted(head, item@) == spec_insert_sorted(
            views.take(at - 1),
            item@,
        ).push(head.last()));
        assert(spec_insert_sorted(views.take(at - 1), item@).push(head.last()) + views.skip(
            at as int,
        ) =~= spec_insert_sorted(views.take(at - 1), item@) + views.skip(at - 1));
        at -= 1;
    }
    let ghost head = views.take(at as int);
    assert(spec_insert_sorted(head, item@) == head.push(item@)) by {
        if at > 0 {
            assert(head.last() == sorted@[at - 1]@);
        }
    }
    sorted.insert(at, item);
    assert(keyed_views(sorted@) =~= head.push(item@) + views.skip(at as int));
}

/// Puts `items` into the order in which they are shown: directories before
/// files, and within each group by key. Entries that neither is shown before
/// the other keep the order they came in.
pub fn sort_keyed_entries(items: Vec<KeyedEntry>) -> (sorted: Vec<KeyedEntry>)
    ensures
        keyed_views(sorted@) == spec_sort(keyed_views(items@)),
{
    let ghost all = keyed_views(items@);
    let mut rest = items;
    let mut sorted: Vec<KeyedEntry> = Vec::new();
    let ghost mut done: int = 0;
    assert(all.skip(0) =~= all);
    assert(keyed_views(sorted@) =~= spec_sort(all.take(0)));
    while rest.len() > 0
        invariant
            0 <= done <= all.len(),
            done + rest.len() == all.len(),
            keyed_views(rest@) == all.skip(done),
            keyed_views(sorted@) == spec_sort(all.take(done)),
        decreases rest.len(),
    {
        let ghost before = keyed_views(rest@);
        let ghost held = rest@;
        let item = rest.remove(0);
        proof {
            assert(item@ == before[0]);
            assert(before[0] == all[done]);
            assert(rest@ =~= held.skip(1));
            assert(keyed_views(rest@) =~= before.skip(1));
            assert(before.skip(1) =~= all.skip(done + 1));
            assert(all.take(done + 1).drop_last() =~= all.take(done));
            assert(all.take(done + 1).last() == all[done]);
        }
        insert_sorted(&mut sorted, item);
        proof {
            done = done + 1;
        }
    }
    assert(all.take(done) =~= all);
    sorted
}

/// The lower-case form of a text.
pub uninterp spec fn spec_lowercase(text: Seq<char>) -> Seq<char>;

/// The lower-case form of `text`, as the standard library's `str::to_lowercase`
/// gives it. The contract only names the result: it is a function of the
/// characters of `text` and of nothing else.
#[verifier::external_body]
fn lowercase(text: &str) -> (lower: String)
    ensures
        lower@ == spec_lowercase(text@),
{
    text.to_lowercase()
}

/// `entry` with the key by which it is ordered: its name in lower case.
pub open spec fn spec_keyed(entry: EntryView) -> KeyedView {
    KeyedView { entry, key: spec_lowercase(entry.name) }
}

/// The entries of `items`, without their keys.
pub open spec fn spec_entries_of(items: Seq<KeyedView>) -> Seq<EntryView> {
    items.map_values(|item: KeyedView| item.entry)
}

/// `entries` in the order in which they are shown: directories before files,
/// and within each group by name without regard to case.
pub open spec fn spec_shown_order(entries: Seq<EntryView>) -> Seq<EntryView> {
    spec_entries_of(spec_sort(entries.map_values(|entry: EntryView| spec_keyed(entry))))
}

/// Why a directory cannot be listed.
#[derive(Clone, Copy, Debug, PartialEq, Eq, Structural)]
pub enum ListingError {
    /// The snapshot does not hold the directory's listing.
    NotObserved,
    /// The directory could not be opened for listing.
    Unreadable,
}

/// What `snapshot` gives for the listing of `path`.
pub open spec fn spec_list_directory(snapshot: SnapshotView, path: Seq<char>) -> Result<
    Seq<EntryView>,
    ListingError,
> {
    if !snapshot.knows_listing(path) {
        Err(ListingError::NotObserved)
    } else {
        match snapshot.listings[path] {
            None => Err(ListingError::Unreadable),
            Some(entries) => Ok(spec_shown_order(entries)),
        }
    }
}

/// Lists the immediate children of `path`: directories before files, and
/// within each group by name without regard to case.
pub fn list_directory(path: &str, snapshot: &Snapshot) -> (listed: Result<
    Vec<DirectoryEntry>,
    ListingError,
>)
    ensures
        match listed {
            Ok(entries) => spec_list_directory(snapshot@, path@) == Ok::<
                Seq<EntryView>,
                ListingError,
            >(entry_views(entries@)),
            Err(error) => spec_list_directory(snapshot@, path@) == Err::<
                Seq<EntryView>,
                ListingError,
            >(error),
        },
{
    match snapshot.listing(path) {
        None => Err(ListingError::NotObserved),
        Some(Listing::Unreadable) => Err(ListingError::Unreadable),
        Some(Listing::Entries(entries)) => {
            let ghost views = entry_views(entries@);
            let ghost wanted = views.map_values(|entry: EntryView| spec_keyed(entry));
            let mut keyed: Vec<KeyedEntry> = Vec::new();
            let mut i: usize = 0;
            while i < entries.len()
                invariant
                    i <= entries.len(),
                    views == entry_views(entries@),
                    wanted == views.map_values(|entry: EntryView| spec_keyed(entry)),
                    keyed_views(keyed@) =~= wanted.take(i as int),
                decreases entries.len() - i,
            {
                let lower = lowercase(entries[i].name.as_str());
                let item = KeyedEntry {
                    entry: entries[i].clone(),
                    key: chars_of(lower.as_str()),
                };
                assert(item@ == wanted[i as int]);
                let ghost so_far = keyed_views(keyed@);
                keyed.push(item);
                assert(keyed_views(keyed@) =~= so_far.push(wanted[i as int]));
                assert(wanted.take(i + 1) =~= wanted.take(i as int).push(wanted[i as int]));
                i += 1;
            }
            assert(wanted.take(entries.len() as int) =~= wanted);
            let sorted = sort_keyed_entries(keyed);
            let mut shown: Vec<DirectoryEntry> = Vec::new();
            let mut rest = sorted;
            let ghost all = keyed_views(rest@);
            let ghost mut done: int = 0;
            assert(all.skip(0) =~= all);
            while rest.len() > 0
                invariant
                    0 <= done <= all.len(),
                    done + rest.len() == all.len(),
                    keyed_views(rest@) == all.skip(done),
                    entry_views(shown@) =~= spec_entries_of(all).take(done),
                decreases rest.len(),
            {
                let ghost before = keyed_views(rest@);
                let ghost held = rest@;
                let ghost so_far = entry_views(shown@);
                let item = rest.remove(0);
                proof {
                    assert(item@ == before[0]);
                    assert(before[0] == all[done]);
                    assert(rest@ =~= held.skip(1));
                    assert(keyed_views(rest@) =~= before.skip(1));
                    assert(before.skip(1) =~= all.skip(done + 1));
                    assert(spec_entries_of(all).take(done + 1) =~= spec_entries_of(all).take(
                        done,
                    ).push(all[done].entry));
                    done = done + 1;
                }
                shown.push(item.entry);
                assert(entry_views(shown@) =~= so_far.push(item@.entry));
            }
            assert(spec_entries_of(all).take(done) =~= spec_entries_of(all));
            Ok(shown)
        },
    }
}

/// What has to be looked at before [`list_directory`] can speak for the file
/// system: the listing of `path`, unless the snapshot holds it.
pub fn list_directory_queries(path: &str, snapshot: &Snapshot) -> (queries: Vec<Query>)
    ensures
        query_views(queries@) == if snapshot@.knows_listing(path@) {
            Seq::<QueryView>::empty()
        } else {
            seq![QueryView::Listing(path@)]
        },
{
    let mut queries: Vec<Query> = Vec::new();
    if !snapshot.knows_listing(path) {
        queries.push(Query::Listing(String::from_str(path)));
        assert(query_views(queries@) =~= seq![QueryView::Listing(path@)]);
    } else {
        assert(query_views(queries@) =~= Seq::<QueryView>::empty());
    }
    queries
}

} // verus!
