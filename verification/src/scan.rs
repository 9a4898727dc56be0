//! Scans over the entries of the notes directory: full-text search and the
//! distinct tags.

use crate::config::Config;
use crate::path::{entry_path, join};
use crate::tags::{find_tags, lemma_with_tags, tags_in, with_tags, TagSet};
use crate::text::{contains, contains_text};
use vstd::prelude::*;

verus! {

/// One entry of the notes directory, as the caller read it.
#[derive(Clone, Debug, PartialEq, Eq)]
pub struct Entry {
    /// The entry's file name.
    pub name: String,
    /// What the file holds, where it could be read as text.
    pub text: Option<String>,
}

/// An `Entry` as text.
pub struct EntryView {
    pub name: Seq<char>,
    pub text: Option<Seq<char>>,
}

impl View for Entry {
    type V = EntryView;

    open spec fn view(&self) -> EntryView {
        EntryView {
            name: self.name@,
            text: match self.text {
                Some(text) => Some(text@),
                None => None,
            },
        }
    }
}

impl DeepView for Entry {
    type V = EntryView;

    open spec fn deep_view(&self) -> EntryView {
        self@
    }
}

/// A note that a search found.
#[derive(Clone, Debug, PartialEq, Eq)]
pub struct Hit {
    /// The note's path.
    pub path: String,
    /// All that the note holds.
    pub text: String,
}

/// A `Hit` as text.
pub struct HitView {
    pub path: Seq<char>,
    pub text: Seq<char>,
}

impl View for Hit {
    type V = HitView;

    open spec fn view(&self) -> HitView {
        HitView { path: self.path@, text: self.text@ }
    }
}

impl DeepView for Hit {
    type V = HitView;

    open spec fn deep_view(&self) -> HitView {
        self@
    }
}

/// The entry could be read and holds `query` as a contiguous part.
pub open spec fn is_hit(entry: EntryView, query: Seq<char>) -> bool {
    entry.text matches Some(text) && contains_text(text, query)
}

/// The hit that a readable entry of the directory `dir` makes.
pub open spec fn hit_of(dir: Seq<char>, entry: EntryView) -> HitView {
    HitView { path: entry_path(dir, entry.name), text: entry.text->0 }
}

/// The hits of a search for `query`: one for each entry that could be read
/// and holds `query`, in the order of the entries.
pub open spec fn hits_of(dir: Seq<char>, entries: Seq<EntryView>, query: Seq<char>) -> Seq<
    HitView,
> {
    entries.filter(|entry: EntryView| is_hit(entry, query)).map_values(
        |entry: EntryView| hit_of(dir, entry),
    )
}

/// One more entry adds its hit where it is one, and nothing else.
pub proof fn lemma_hits_of_push(
    dir: Seq<char>,
    entries: Seq<EntryView>,
    entry: EntryView,
    query: Seq<char>,
)
    ensures
        hits_of(dir, entries.push(entry), query) == if is_hit(entry, query) {
            hits_of(dir, entries, query).push(hit_of(dir, entry))
        } else {
            hits_of(dir, entries, query)
        },
{
    let wanted = |entry: EntryView| is_hit(entry, query);
    let to_hit = |entry: EntryView| hit_of(dir, entry);
    entries.lemma_filter_push(entry, wanted);
    if is_hit(entry, query) {
        entries.filter(wanted).lemma_push_map_commute(to_hit, entry);
    }
}

/// A search finds the readable entries that hold the query, and nothing
/// else.
pub proof fn lemma_hits_of(dir: Seq<char>, entries: Seq<EntryView>, query: Seq<char>)
    ensures
        forall|hit: HitView|
            hits_of(dir, entries, query).contains(hit) <==> exists|i: int|
                0 <= i < entries.len() && is_hit(#[trigger] entries[i], query) && hit == hit_of(
                    dir,
                    entries[i],
                ),
    decreases entries.len(),
{
    let found = |hit: HitView|
        exists|i: int|
            0 <= i < entries.len() && is_hit(#[trigger] entries[i], query) && hit == hit_of(
                dir,
                entries[i],
            );
    if entries.len() == 0 {
        reveal(Seq::filter);
        assert(hits_of(dir, entries, query) =~= Seq::<HitView>::empty());
    } else {
        let front = entries.drop_last();
        let last = entries.last();
        assert(entries =~= front.push(last));
        lemma_hits_of(dir, front, query);
        lemma_hits_of_push(dir, front, last, query);
        assert forall|hit: HitView| hits_of(dir, entries, query).contains(hit) <==> found(
            hit,
        ) by {
            let before = hits_of(dir, front, query);
            if is_hit(last, query) {
                vstd::seq_lib::lemma_seq_contains_after_push(before, hit_of(dir, last), hit);
            }
            if before.contains(hit) {
                let i = choose|i: int|
                    0 <= i < front.len() && is_hit(#[trigger] front[i], query) && hit == hit_of(
                        dir,
                        front[i],
                    );
                assert(is_hit(entries[i], query) && hit == hit_of(dir, entries[i]));
            }
            if is_hit(last, query) && hit == hit_of(dir, last) {
                assert(is_hit(entries[entries.len() - 1], query));
            }
            if found(hit) {
                let i = choose|i: int|
                    0 <= i < entries.len() && is_hit(#[trigger] entries[i], query) && hit
                        == hit_of(dir, entries[i]);
                if i < front.len() {
                    assert(is_hit(front[i], query) && hit == hit_of(dir, front[i]));
                }
            }
        }
    }
}

/// Searches the entries for `query`, taken literally and with case as it
/// stands. An entry that could not be read is passed over.
pub fn search_notes(config: &Config, entries: &Vec<Entry>, query: &str) -> (hits: Vec<Hit>)
    ensures
        hits.deep_view() == hits_of(config.notes_dir@, entries.deep_view(), query@),
{
    let ghost dir = config.notes_dir@;
    let ghost all = entries.deep_view();
    let mut hits: Vec<Hit> = Vec::new();
    let mut i: usize = 0;
    proof {
        assert(all.take(0) =~= Seq::<EntryView>::empty());
        reveal(Seq::filter);
        assert(hits.deep_view() =~= hits_of(dir, all.take(0), query@));
    }
    while i < entries.len()
        invariant
            i <= entries.len(),
            dir == config.notes_dir@,
            all == entries.deep_view(),
            hits.deep_view() == hits_of(dir, all.take(i as int), query@),
        decreases entries.len() - i,
    {
        let ghost before = hits.deep_view();
        let entry = &entries[i];
        proof {
            assert(all.take(i + 1) =~= all.take(i as int).push(entry@));
            lemma_hits_of_push(dir, all.take(i as int), entry@, query@);
        }
        match &entry.text {
            Some(text) => {
                if contains(text.as_str(), query) {
                    let hit = Hit {
                        path: join(config.notes_dir.as_str(), entry.name.as_str()),
                        text: text.clone(),
                    };
                    hits.push(hit);
                    assert(hits.deep_view() =~= before.push(hit_of(dir, entry@)));
                }
            },
            None => {},
        }
        i += 1;
    }
    assert(all.take(i as int) =~= all);
    hits
}

/// The tags of one entry: those in its text, none where it could not be
/// read.
pub open spec fn entry_tags(entry: EntryView) -> Seq<Seq<char>> {
    match entry.text {
        Some(text) => tags_in(text),
        None => Seq::empty(),
    }
}

/// The distinct tags of the entries, each in the place where the entries
/// first have it.
pub open spec fn tags_of(entries: Seq<EntryView>) -> Seq<Seq<char>>
    decreases entries.len(),
{
    if entries.len() == 0 {
        Seq::empty()
    } else {
        with_tags(tags_of(entries.drop_last()), entry_tags(entries.last()))
    }
}

/// Some entry has `tag`.
pub open spec fn is_tag_of(entries: Seq<EntryView>, tag: Seq<char>) -> bool {
    exists|i: int| 0 <= i < entries.len() && #[trigger] entry_tags(entries[i]).contains(tag)
}

/// The tags of the entries are the union of the tags of each, with nothing
/// twice.
pub proof fn lemma_tags_of(entries: Seq<EntryView>)
    ensures
        tags_of(entries).no_duplicates(),
        forall|tag: Seq<char>| tags_of(entries).contains(tag) <==> is_tag_of(entries, tag),
    decreases entries.len(),
{
    if entries.len() > 0 {
        let front = entries.drop_last();
        let last = entries.last();
        lemma_tags_of(front);
        lemma_with_tags(tags_of(front), entry_tags(last));
        assert forall|tag: Seq<char>| tags_of(entries).contains(tag) <==> is_tag_of(
            entries,
            tag,
        ) by {
            if is_tag_of(front, tag) {
                let i = choose|i: int|
                    0 <= i < front.len() && #[trigger] entry_tags(front[i]).contains(tag);
                assert(entry_tags(entries[i]).contains(tag));
            }
            if entry_tags(last).contains(tag) {
                assert(entry_tags(entries[entries.len() - 1]).contains(tag));
            }
            if is_tag_of(entries, tag) {
                let i = choose|i: int|
                    0 <= i < entries.len() && #[trigger] entry_tags(entries[i]).contains(tag);
                if i < front.len() {
                    assert(entry_tags(front[i]).contains(tag));
                }
            }
        }
    }
}

/// The order of the entries does not matter to which tags they have: two
/// lists of the same entries have the same set of tags.
pub proof fn lemma_tags_ignore_order(first: Seq<EntryView>, second: Seq<EntryView>)
    requires
        first.to_multiset() == second.to_multiset(),
    ensures
        tags_of(first).to_set() == tags_of(second).to_set(),
{
    lemma_tags_of(first);
    lemma_tags_of(second);
    assert forall|tag: Seq<char>| is_tag_of(first, tag) <==> is_tag_of(second, tag) by {
        if is_tag_of(first, tag) {
            lemma_tag_carries_over(first, second, tag);
        }
        if is_tag_of(second, tag) {
            lemma_tag_carries_over(second, first, tag);
        }
    }
    assert forall|tag: Seq<char>|
        tags_of(first).to_set().contains(tag) <==> tags_of(second).to_set().contains(tag) by {
        assert(tags_of(first).contains(tag) <==> is_tag_of(first, tag));
        assert(tags_of(second).contains(tag) <==> is_tag_of(second, tag));
    }
    assert(tags_of(first).to_set() =~= tags_of(second).to_set());
}

proof fn lemma_tag_carries_over(from: Seq<EntryView>, to: Seq<EntryView>, tag: Seq<char>)
    requires
        from.to_multiset() == to.to_multiset(),
        is_tag_of(from, tag),
    ensures
        is_tag_of(to, tag),
{
    let i = choose|i: int| 0 <= i < from.len() && #[trigger] entry_tags(from[i]).contains(tag);
    let entry = from[i];
    assert(from.contains(entry));
    vstd::seq_lib::to_multiset_contains(from, entry);
    vstd::seq_lib::to_multiset_contains(to, entry);
    let j = choose|j: int| 0 <= j < to.len() && to[j] == entry;
    assert(entry_tags(to[j]).contains(tag));
}

/// Collects the distinct tags of all entries that could be read, each in the
/// place where it was first met.
pub fn extract_tags(entries: &Vec<Entry>) -> (tags: Vec<String>)
    ensures
        tags.deep_view() == tags_of(entries.deep_view()),
        tags.deep_view().no_duplicates(),
        forall|tag: Seq<char>|
            tags.deep_view().contains(tag) <==> is_tag_of(entries.deep_view(), tag),
{
    let ghost all = entries.deep_view();
    let mut tags = TagSet::new();
    let mut i: usize = 0;
    assert(all.take(0) =~= Seq::<EntryView>::empty());
    while i < entries.len()
        invariant
            i <= entries.len(),
            all == entries.deep_view(),
            tags.wf(),
            tags@ == tags_of(all.take(i as int)),
        decreases entries.len() - i,
    {
        proof {
            assert(all.take(i + 1).drop_last() =~= all.take(i as int));
            assert(all.take(i + 1).last() == entries@[i as int]@);
        }
        match &entries[i].text {
            Some(text) => {
                let found = find_tags(text.as_str());
                tags.extend(&found);
            },
            None => {},
        }
        i += 1;
    }
    proof {
        assert(all.take(i as int) =~= all);
        lemma_tags_of(all);
    }
    tags.into_vec()
}

} // verus!
