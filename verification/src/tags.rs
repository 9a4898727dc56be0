//! Tags: what the pattern finds in a text, and the distinct tags of many
//! texts.

use vstd::hash_set::StringHashSet;
use vstd::prelude::*;

verus! {

/// What the regex engine finds: `None` where `pattern` does not compile;
/// else the texts of the successive non-overlapping matches of `pattern` in
/// `text`, from left to right.
pub uninterp spec fn regex_matches(pattern: Seq<char>, text: Seq<char>) -> Option<Seq<Seq<char>>>;

/// `regex::Regex::new` on `pattern`, then `Regex::find_iter` on `text` with
/// `Match::as_str` on each match. Trusted: the result is what
/// `regex_matches` names; nothing more is claimed of it.
#[verifier::external_body]
fn find_all(pattern: &str, text: &str) -> (found: Option<Vec<String>>)
    ensures
        found.deep_view() == regex_matches(pattern@, text@),
{
    match regex::Regex::new(pattern) {
        Ok(re) => Some(re.find_iter(text).map(|m| m.as_str().to_string()).collect()),
        Err(_) => None,
    }
}

/// The pattern of a tag: a hash sign and the word characters that follow it,
/// at least one.
pub open spec fn tag_pattern() -> Seq<char> {
    "#\\w+"@
}

/// The tags in `text`, one for each occurrence, from left to right. A
/// pattern that the engine refuses finds nothing.
pub open spec fn tags_in(text: Seq<char>) -> Seq<Seq<char>> {
    match regex_matches(tag_pattern(), text) {
        Some(found) => found,
        None => Seq::empty(),
    }
}

/// `seen` with `tag` behind it, unless it is there already.
pub open spec fn with_tag(seen: Seq<Seq<char>>, tag: Seq<char>) -> Seq<Seq<char>> {
    if seen.contains(tag) {
        seen
    } else {
        seen.push(tag)
    }
}

/// `seen` with the new ones among `found` behind it: each once, in the order
/// in which `found` first has them.
pub open spec fn with_tags(seen: Seq<Seq<char>>, found: Seq<Seq<char>>) -> Seq<Seq<char>>
    decreases found.len(),
{
    if found.len() == 0 {
        seen
    } else {
        with_tag(with_tags(seen, found.drop_last()), found.last())
    }
}

/// Adding tags loses none, invents none and keeps the tags distinct.
pub proof fn lemma_with_tags(seen: Seq<Seq<char>>, found: Seq<Seq<char>>)
    requires
        seen.no_duplicates(),
    ensures
        with_tags(seen, found).no_duplicates(),
        forall|tag: Seq<char>|
            with_tags(seen, found).contains(tag) <==> seen.contains(tag) || found.contains(tag),
    decreases found.len(),
{
    if found.len() > 0 {
        let front = found.drop_last();
        let last = found.last();
        lemma_with_tags(seen, front);
        let before = with_tags(seen, front);
        assert(found =~= front.push(last));
        assert forall|tag: Seq<char>|
            with_tags(seen, found).contains(tag) <==> seen.contains(tag) || found.contains(
                tag,
            ) by {
            vstd::seq_lib::lemma_seq_contains_after_push(front, last, tag);
            vstd::seq_lib::lemma_seq_contains_after_push(before, last, tag);
        }
    }
}

/// The distinct tags met so far, in the order in which each was first met.
pub struct TagSet {
    seen: StringHashSet,
    order: Vec<String>,
}

impl View for TagSet {
    type V = Seq<Seq<char>>;

    closed spec fn view(&self) -> Seq<Seq<char>> {
        self.order.deep_view()
    }
}

impl TagSet {
    /// The two halves agree: the set holds what the list holds, and the list
    /// holds nothing twice.
    pub closed spec fn wf(&self) -> bool {
        &&& self.seen@ == self.order.deep_view().to_set()
        &&& self.order.deep_view().no_duplicates()
    }

    /// A well-formed set holds no tag twice.
    pub proof fn lemma_distinct(&self)
        requires
            self.wf(),
        ensures
            self@.no_duplicates(),
    {
    }

    /// The empty set.
    pub fn new() -> (tags: TagSet)
        ensures
            tags.wf(),
            tags@ == Seq::<Seq<char>>::empty(),
    {
        let tags = TagSet { seen: StringHashSet::new(), order: Vec::new() };
        assert(tags.order.deep_view() =~= Seq::<Seq<char>>::empty());
        assert(tags.order.deep_view().to_set() =~= Set::<Seq<char>>::empty());
        tags
    }

    /// Adds `tag` unless the set has it; tells whether it was new.
    pub fn insert(&mut self, tag: String) -> (fresh: bool)
        requires
            old(self).wf(),
        ensures
            final(self).wf(),
            final(self)@ == with_tag(old(self)@, tag@),
            fresh == !old(self)@.contains(tag@),
    {
        let ghost before = self.order.deep_view();
        let fresh = self.seen.insert(tag.clone());
        if fresh {
            self.order.push(tag);
            proof {
                assert(self.order.deep_view() =~= before.push(tag@));
                before.lemma_push_to_set_commute(tag@);
            }
        } else {
            assert(self.seen@ =~= before.to_set());
        }
        fresh
    }

    /// Adds the new ones among `found`, in their order.
    pub fn extend(&mut self, found: &Vec<String>)
        requires
            old(self).wf(),
        ensures
            final(self).wf(),
            final(self)@ == with_tags(old(self)@, found.deep_view()),
    {
        let ghost all = found.deep_view();
        let mut i: usize = 0;
        assert(all.take(0) =~= Seq::<Seq<char>>::empty());
        while i < found.len()
            invariant
                i <= found.len(),
                all == found.deep_view(),
                self.wf(),
                self@ == with_tags(old(self)@, all.take(i as int)),
            decreases found.len() - i,
        {
            proof {
                assert(all.take(i + 1).drop_last() =~= all.take(i as int));
                assert(all.take(i + 1).last() == found@[i as int]@);
            }
            self.insert(found[i].clone());
            i += 1;
        }
        assert(all.take(i as int) =~= all);
    }

    /// The tags, in the order in which each was first met.
    pub fn into_vec(self) -> (tags: Vec<String>)
        requires
            self.wf(),
        ensures
            tags.deep_view() == self@,
            tags.deep_view().no_duplicates(),
    {
        self.order
    }
}

/// Finds the tags in `text`, one for each occurrence, from left to right.
pub fn find_tags(text: &str) -> (found: Vec<String>)
    ensures
        found.deep_view() == tags_in(text@),
{
    match find_all("#\\w+", text) {
        Some(found) => found,
        None => {
            let none: Vec<String> = Vec::new();
            assert(none.deep_view() =~= Seq::<Seq<char>>::empty());
            none
        },
    }
}

} // verus!
