use vstd::prelude::*;

use crate::navigation::{lemma_next_then_prev, next_match, prev_match, GetWhere};

verus! {

/// One image of the queue: its path and the tag keys assigned to it.
#[derive(Debug)]
pub struct ImageInfo {
    pub path: String,
    pub tags: Vec<char>,
}

impl ImageInfo {
    /// The tag keys as a set.
    pub open spec fn tag_set(&self) -> Set<char> {
        self.tags@.to_set()
    }

    /// Each tag key is held once.
    pub open spec fn wf(&self) -> bool {
        self.tags@.no_duplicates()
    }
}

/// Which way a scan of the queue goes.
#[derive(Debug, Clone, Copy, PartialEq, Eq, Structural)]
pub enum Direction {
    Forward,
    Backward,
}

/// Which images a scan of the queue stops at.
#[derive(Debug, Clone, Copy, PartialEq, Eq, Structural)]
pub enum TagFilter {
    /// Every image.
    Any,
    /// Images with no tag.
    Untagged,
    /// Images with at least one tag.
    Tagged,
}

impl TagFilter {
    pub open spec fn spec_holds(self, info: ImageInfo) -> bool {
        match self {
            TagFilter::Any => true,
            TagFilter::Untagged => info.tags@.len() == 0,
            TagFilter::Tagged => info.tags@.len() > 0,
        }
    }

    /// The filter as a predicate on images.
    pub open spec fn pred(self) -> spec_fn(ImageInfo) -> bool {
        |info: ImageInfo| self.spec_holds(info)
    }

    pub fn holds(&self, info: &ImageInfo) -> (r: bool)
        ensures
            r == self.spec_holds(*info),
    {
        match self {
            TagFilter::Any => true,
            TagFilter::Untagged => info.tags.len() == 0,
            TagFilter::Tagged => info.tags.len() > 0,
        }
    }
}

/// The tag set after toggling `key`: removed if present, inserted otherwise.
pub open spec fn toggled(tags: Set<char>, key: char) -> Set<char> {
    if tags.contains(key) {
        tags.remove(key)
    } else {
        tags.insert(key)
    }
}

/// Lexicographic order on character sequences, by code point.
pub open spec fn char_seq_le(a: Seq<char>, b: Seq<char>) -> bool
    decreases a.len(),
{
    if a.len() == 0 {
        true
    } else if b.len() == 0 {
        false
    } else if a[0] != b[0] {
        (a[0] as u32) < (b[0] as u32)
    } else {
        char_seq_le(a.drop_first(), b.drop_first())
    }
}

/// Strings in ascending lexicographic order.
pub open spec fn sorted_names(s: Seq<String>) -> bool {
    forall|i: int, j: int| 0 <= i < j < s.len() ==> char_seq_le(#[trigger] s[i]@, #[trigger] s[j]@)
}

/// The paths of a sequence of images.
pub open spec fn paths_of(infos: Seq<ImageInfo>) -> Seq<String> {
    infos.map_values(|info: ImageInfo| info.path)
}

/// Relies on slice::sort_unstable: the strings end up a permutation of what they were, in
/// ascending order; std orders `String` by its bytes, which for UTF-8 is the order of code points.
#[verifier::external_body]
fn sort_names(names: &mut Vec<String>)
    ensures
        final(names)@.to_multiset() == old(names)@.to_multiset(),
        sorted_names(final(names)@),
{
    names.sort_unstable();
}

/// The ordered list of images being tagged, with the selected one.
#[derive(Debug)]
pub struct ImageQueueState {
    pub selected_image_index: usize,
    pub image_infos: Vec<ImageInfo>,
}

impl ImageQueueState {
    /// The selection is in range whenever there is something to select, and every image holds
    /// each of its tag keys once.
    pub open spec fn wf(&self) -> bool {
        &&& (self.image_infos@.len() > 0 ==> self.selected_image_index < self.image_infos@.len())
        &&& forall|i: int| 0 <= i < self.image_infos@.len() ==> (#[trigger] self.image_infos@[i]).wf()
    }

    /// A queue of the given file names in ascending order, none of them tagged, the first one
    /// selected.
    pub fn new(file_names: Vec<String>) -> (r: ImageQueueState)
        ensures
            r.wf(),
            r.selected_image_index == 0,
            paths_of(r.image_infos@).to_multiset() == file_names@.to_multiset(),
            sorted_names(paths_of(r.image_infos@)),
            forall|i: int| 0 <= i < r.image_infos@.len() ==> (#[trigger] r.image_infos@[i]).tags@.len() == 0,
    {
        let mut names = file_names;
        sort_names(&mut names);
        let mut infos: Vec<ImageInfo> = Vec::new();
        let n = names.len();
        let mut k: usize = 0;
        while k < n
            invariant
                n == names@.len(),
                k <= n,
                infos@.len() == k,
                forall|i: int| 0 <= i < k ==> (#[trigger] infos@[i]).path == names@[i],
                forall|i: int| 0 <= i < k ==> (#[trigger] infos@[i]).tags@.len() == 0,
            decreases n - k,
        {
            infos.push(ImageInfo { path: names[k].clone(), tags: Vec::new() });
            k = k + 1;
        }
        assert(paths_of(infos@) =~= names@);
        ImageQueueState { selected_image_index: 0, image_infos: infos }
    }

    /// Moves the selection to the nearest image strictly on the given side of it that passes
    /// `filter`, and returns its index; with none there, returns `None` and keeps the selection.
    pub fn navigate(&mut self, direction: Direction, filter: TagFilter) -> (r: Option<usize>)
        ensures
            final(self).image_infos@ == old(self).image_infos@,
            ({
                let s = old(self).image_infos@;
                let i = old(self).selected_image_index as int;
                let found = match direction {
                    Direction::Forward => next_match(s, i, filter.pred()),
                    Direction::Backward => prev_match(s, i, filter.pred()),
                };
                match r {
                    Some(j) => found == Some(j as int) && final(self).selected_image_index == j,
                    None => found is None && final(self).selected_image_index
                        == old(self).selected_image_index,
                }
            }),
            old(self).wf() ==> final(self).wf(),
    {
        let pred = |info: &ImageInfo| -> (b: bool)
            ensures
                b == filter.spec_holds(*info),
            { filter.holds(info) };
        let index = self.selected_image_index;
        let found = match direction {
            Direction::Forward => self.image_infos.next(index, pred),
            Direction::Backward => self.image_infos.prev(index, pred),
        };
        proof {
            let s = self.image_infos@;
            let p = filter.pred();
            let i = index as int;
            match direction {
                Direction::Forward => {
                    match found {
                        Some(j) => crate::navigation::lemma_first_match_from(s, i + 1, j as int, p),
                        None => {
                            assert forall|m: int| i + 1 <= m < s.len() implies !p(#[trigger] s[m]) by {
                                assert(pred.ensures((&self.image_infos.items()[m],), false));
                            }
                            crate::navigation::lemma_first_match_none(s, i + 1, p);
                        },
                    }
                },
                Direction::Backward => {
                    let top = if i > s.len() { s.len() - 1 } else { i - 1 };
                    match found {
                        Some(j) => crate::navigation::lemma_last_match_upto(s, top, j as int, p),
                        None => {
                            assert forall|m: int| 0 <= m <= top implies !p(#[trigger] s[m]) by {
                                assert(pred.ensures((&self.image_infos.items()[m],), false));
                            }
                            crate::navigation::lemma_last_match_none(s, top, p);
                        },
                    }
                },
            }
        }
        if let Some(j) = found {
            self.selected_image_index = j;
        }
        found
    }

    /// The selected image, if the queue has any.
    pub fn current(&self) -> (r: Option<&ImageInfo>)
        requires
            self.wf(),
        ensures
            match r {
                Some(info) => self.image_infos@.len() > 0
                    && *info == self.image_infos@[self.selected_image_index as int],
                None => self.image_infos@.len() == 0,
            },
    {
        if self.image_infos.len() == 0 {
            None
        } else {
            Some(&self.image_infos[self.selected_image_index])
        }
    }

    /// The range of indices to show around the selection: from two before it (or the start) to
    /// ten after it, stopping at the end.
    pub fn window(&self) -> (r: (usize, usize))
        requires
            self.wf(),
        ensures
            self.image_infos@.len() == 0 ==> r == (0usize, 0usize),
            self.image_infos@.len() > 0 ==> {
                &&& r.0 == if self.selected_image_index < 3 { 0 } else { self.selected_image_index - 2 }
                &&& r.1 == if self.selected_image_index + 10 < self.image_infos@.len() {
                    self.selected_image_index + 10
                } else {
                    self.image_infos@.len() as int
                }
            },
            r.0 <= r.1 <= self.image_infos@.len(),
    {
        let sel = self.selected_image_index;
        let len = self.image_infos.len();
        if len == 0 {
            return (0, 0);
        }
        let start = if sel < 3 { 0 } else { sel - 2 };
        let end = if len - sel > 10 { sel + 10 } else { len };
        (start, end)
    }

    /// Toggles `key` on the selected image: removes it where present, adds it otherwise.
    /// On an empty queue nothing changes.
    pub fn toggle_tag(&mut self, key: char)
        requires
            old(self).wf(),
        ensures
            final(self).wf(),
            final(self).selected_image_index == old(self).selected_image_index,
            final(self).image_infos@.len() == old(self).image_infos@.len(),
            forall|i: int| 0 <= i < old(self).image_infos@.len() && i != old(self).selected_image_index
                ==> #[trigger] final(self).image_infos@[i] == old(self).image_infos@[i],
            old(self).image_infos@.len() > 0 ==> {
                let sel = old(self).selected_image_index as int;
                &&& final(self).image_infos@[sel].path == old(self).image_infos@[sel].path
                &&& final(self).image_infos@[sel].tag_set() == toggled(old(self).image_infos@[sel].tag_set(), key)
            },
    {
        if self.image_infos.len() == 0 {
            return;
        }
        let sel = self.selected_image_index;
        let mut info = self.image_infos.remove(sel);
        let ghost before = info.tags@;
        let n = info.tags.len();
        let mut k: usize = 0;
        while k < n
            invariant
                n == info.tags@.len(),
                k <= n,
                forall|m: int| 0 <= m < k ==> info.tags@[m] != key,
            ensures
                k <= n,
                forall|m: int| 0 <= m < k ==> info.tags@[m] != key,
                k < n ==> info.tags@[k as int] == key,
            decreases n - k,
        {
            if info.tags[k] == key {
                break;
            }
            k = k + 1;
        }
        if k < n {
            info.tags.remove(k);
            proof { lemma_remove_unique(before, k as int); }
        } else {
            assert(!before.contains(key));
            info.tags.push(key);
            proof { lemma_push_fresh(before, key); }
        }
        self.image_infos.insert(sel, info);
    }

    /// Removes the selected image. When that was the last one, the selection moves back by one,
    /// unless the queue is now empty. An empty queue stays as it is.
    pub fn delete_current(&mut self)
        requires
            old(self).wf(),
        ensures
            final(self).wf(),
            old(self).image_infos@.len() == 0 ==> final(self).image_infos@ == old(self).image_infos@
                && final(self).selected_image_index == old(self).selected_image_index,
            old(self).image_infos@.len() > 0 ==> {
                let sel = old(self).selected_image_index as int;
                let n = old(self).image_infos@.len();
                &&& final(self).image_infos@ == old(self).image_infos@.remove(sel)
                &&& final(self).image_infos@.len() == n - 1
                &&& final(self).selected_image_index == if sel == n - 1 && n > 1 { sel - 1 } else { sel }
                &&& (final(self).image_infos@.len() == 0
                    || final(self).selected_image_index < final(self).image_infos@.len())
            },
    {
        if self.selected_image_index < self.image_infos.len() {
            self.image_infos.remove(self.selected_image_index);
            if self.selected_image_index == self.image_infos.len() && self.selected_image_index > 0 {
                self.selected_image_index = self.selected_image_index - 1;
            }
        }
    }
}

/// With the filter that passes every image, navigating forward from index `i` and then back
/// returns to `i`; only from the last image does the forward step find nothing.
pub proof fn lemma_navigate_round_trip(infos: Seq<ImageInfo>, i: int)
    requires
        0 <= i < infos.len(),
    ensures
        i + 1 < infos.len() ==> next_match(infos, i, TagFilter::Any.pred()) == Some(i + 1)
            && prev_match(infos, i + 1, TagFilter::Any.pred()) == Some(i),
        i + 1 == infos.len() ==> next_match(infos, i, TagFilter::Any.pred()) is None,
{
    let p = TagFilter::Any.pred();
    assert(p(infos[i]));
    lemma_next_then_prev(infos, i, p);
    if i + 1 < infos.len() {
        assert(p(infos[i + 1]));
        crate::navigation::lemma_first_match_from(infos, i + 1, i + 1, p);
    }
}

/// Toggling the same key twice gives back the tag set one started with.
pub proof fn lemma_toggle_twice(tags: Set<char>, key: char)
    ensures
        toggled(toggled(tags, key), key) == tags,
{
    if tags.contains(key) {
        assert(tags.remove(key).insert(key) =~= tags);
    } else {
        assert(tags.insert(key).remove(key) =~= tags);
    }
}

/// Removing the one occurrence of an item from a sequence without duplicates removes it from the set.
proof fn lemma_remove_unique(s: Seq<char>, k: int)
    requires
        s.no_duplicates(),
        0 <= k < s.len(),
    ensures
        s.remove(k).no_duplicates(),
        s.remove(k).to_set() == s.to_set().remove(s[k]),
{
    let r = s.remove(k);
    assert forall|x: char| r.to_set().contains(x) <==> s.to_set().remove(s[k]).contains(x) by {
        if r.to_set().contains(x) {
            let m = choose|m: int| 0 <= m < r.len() && r[m] == x;
            if m < k {
                assert(s[m] == x);
            } else {
                assert(s[m + 1] == x);
            }
        }
        if s.to_set().remove(s[k]).contains(x) {
            let m = choose|m: int| 0 <= m < s.len() && s[m] == x;
            assert(m != k);
            if m < k {
                assert(r[m] == x);
            } else {
                assert(r[m - 1] == x);
            }
        }
    }
    assert(r.to_set() =~= s.to_set().remove(s[k]));
}

/// Pushing an item that is not there yet adds it to the set and keeps the items distinct.
proof fn lemma_push_fresh(s: Seq<char>, x: char)
    requires
        s.no_duplicates(),
        !s.contains(x),
    ensures
        s.push(x).no_duplicates(),
        s.push(x).to_set() == s.to_set().insert(x),
{
    let r = s.push(x);
    assert forall|y: char| r.to_set().contains(y) <==> s.to_set().insert(x).contains(y) by {
        if r.to_set().contains(y) {
            let m = choose|m: int| 0 <= m < r.len() && r[m] == y;
            if m < s.len() {
                assert(s[m] == y);
            }
        }
        if s.to_set().contains(y) {
            let m = choose|m: int| 0 <= m < s.len() && s[m] == y;
            assert(r[m] == y);
        }
        if y == x {
            assert(r[s.len() as int] == y);
        }
    }
    assert(r.to_set() =~= s.to_set().insert(x));
}

} // verus!