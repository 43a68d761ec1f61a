use vstd::prelude::*;

verus! {

/// The first index `j >= k` of `s` whose item satisfies `p`, if any.
pub open spec fn first_match_from<T>(s: Seq<T>, k: int, p: spec_fn(T) -> bool) -> Option<int>
    decreases s.len() - k,
{
    if k < 0 || k >= s.len() {
        None
    } else if p(s[k]) {
        Some(k)
    } else {
        first_match_from(s, k + 1, p)
    }
}

/// The last index `j <= k` of `s` whose item satisfies `p`, if any.
pub open spec fn last_match_upto<T>(s: Seq<T>, k: int, p: spec_fn(T) -> bool) -> Option<int>
    decreases k + 1,
{
    if k < 0 || k >= s.len() {
        None
    } else if p(s[k]) {
        Some(k)
    } else {
        last_match_upto(s, k - 1, p)
    }
}

/// The index that a forward scan strictly after `i` stops at.
pub open spec fn next_match<T>(s: Seq<T>, i: int, p: spec_fn(T) -> bool) -> Option<int> {
    first_match_from(s, i + 1, p)
}

/// The index that a backward scan strictly before `i` stops at.
pub open spec fn prev_match<T>(s: Seq<T>, i: int, p: spec_fn(T) -> bool) -> Option<int> {
    if i > s.len() {
        last_match_upto(s, s.len() - 1, p)
    } else {
        last_match_upto(s, i - 1, p)
    }
}

/// A scan that found index `j` after `i`: `j` matches and nothing between does.
pub proof fn lemma_first_match_from<T>(s: Seq<T>, k: int, j: int, p: spec_fn(T) -> bool)
    requires
        0 <= k <= j < s.len(),
        p(s[j]),
        forall|m: int| k <= m < j ==> !p(#[trigger] s[m]),
    ensures
        first_match_from(s, k, p) == Some(j),
    decreases j - k,
{
    if k < j {
        lemma_first_match_from(s, k + 1, j, p);
    }
}

/// A scan from `k` to the end that matched nothing.
pub proof fn lemma_first_match_none<T>(s: Seq<T>, k: int, p: spec_fn(T) -> bool)
    requires
        0 <= k,
        forall|m: int| k <= m < s.len() ==> !p(#[trigger] s[m]),
    ensures
        first_match_from(s, k, p) == None::<int>,
    decreases s.len() - k,
{
    if k < s.len() {
        lemma_first_match_none(s, k + 1, p);
    }
}

/// A backward scan that found index `j` at or before `k`.
pub proof fn lemma_last_match_upto<T>(s: Seq<T>, k: int, j: int, p: spec_fn(T) -> bool)
    requires
        0 <= j <= k < s.len(),
        p(s[j]),
        forall|m: int| j < m <= k ==> !p(#[trigger] s[m]),
    ensures
        last_match_upto(s, k, p) == Some(j),
    decreases k - j,
{
    if j < k {
        lemma_last_match_upto(s, k - 1, j, p);
    }
}

/// A backward scan from `k` to the start that matched nothing.
pub proof fn lemma_last_match_none<T>(s: Seq<T>, k: int, p: spec_fn(T) -> bool)
    requires
        k < s.len(),
        forall|m: int| 0 <= m <= k ==> !p(#[trigger] s[m]),
    ensures
        last_match_upto(s, k, p) == None::<int>,
    decreases k + 1,
{
    if k >= 0 {
        lemma_last_match_none(s, k - 1, p);
    }
}

/// What a forward scan from `k` finds: a match with none before it from `k` on.
pub proof fn lemma_first_match_from_found<T>(s: Seq<T>, k: int, p: spec_fn(T) -> bool)
    requires
        0 <= k,
        first_match_from(s, k, p) is Some,
    ensures
        ({
            let j = first_match_from(s, k, p)->0;
            &&& k <= j < s.len()
            &&& p(s[j])
            &&& forall|m: int| k <= m < j ==> !p(#[trigger] s[m])
        }),
    decreases s.len() - k,
{
    if k < s.len() && !p(s[k]) {
        lemma_first_match_from_found(s, k + 1, p);
    }
}

/// A forward scan from `k` that finds nothing: no item from `k` on matches.
pub proof fn lemma_first_match_from_absent<T>(s: Seq<T>, k: int, p: spec_fn(T) -> bool)
    requires
        0 <= k,
        first_match_from(s, k, p) is None,
    ensures
        forall|m: int| k <= m < s.len() ==> !p(#[trigger] s[m]),
    decreases s.len() - k,
{
    if k < s.len() {
        lemma_first_match_from_absent(s, k + 1, p);
    }
}

/// Scanning forward from a matching index `i` and then back from where the scan stopped
/// returns to `i`. When the forward scan finds nothing, no later item matches.
pub proof fn lemma_next_then_prev<T>(s: Seq<T>, i: int, p: spec_fn(T) -> bool)
    requires
        0 <= i < s.len(),
        p(s[i]),
    ensures
        match next_match(s, i, p) {
            Some(j) => i < j < s.len() && prev_match(s, j, p) == Some(i),
            None => forall|m: int| i < m < s.len() ==> !p(#[trigger] s[m]),
        },
{
    match next_match(s, i, p) {
        Some(j) => {
            lemma_first_match_from_found(s, i + 1, p);
            lemma_last_match_upto(s, j - 1, i, p);
        },
        None => {
            lemma_first_match_from_absent(s, i + 1, p);
        },
    }
}

/// Searching a sequence for an item that satisfies a predicate, on either side of an index.
pub trait GetWhere<T> {
    spec fn items(&self) -> Seq<T>;

    /// The first index after `index` whose item satisfies `predicate`.
    fn next<F: Fn(&T) -> bool>(&self, index: usize, predicate: F) -> (r: Option<usize>)
        requires
            forall|m: int| 0 <= m < self.items().len() ==> predicate.requires((&self.items()[m],)),
        ensures
            match r {
                Some(j) => index < j < self.items().len()
                    && predicate.ensures((&self.items()[j as int],), true)
                    && forall|m: int| index < m < j ==> predicate.ensures((&self.items()[m],), false),
                None => forall|m: int| index < m < self.items().len()
                    ==> predicate.ensures((&self.items()[m],), false),
            },
    ;

    /// The last index before `index` whose item satisfies `predicate`.
    fn prev<F: Fn(&T) -> bool>(&self, index: usize, predicate: F) -> (r: Option<usize>)
        requires
            forall|m: int| 0 <= m < self.items().len() ==> predicate.requires((&self.items()[m],)),
        ensures
            match r {
                Some(j) => j < index && j < self.items().len()
                    && predicate.ensures((&self.items()[j as int],), true)
                    && forall|m: int| j < m < index && m < self.items().len()
                        ==> predicate.ensures((&self.items()[m],), false),
                None => forall|m: int| 0 <= m < index && m < self.items().len()
                    ==> predicate.ensures((&self.items()[m],), false),
            },
    ;
}

impl<T> GetWhere<T> for Vec<T> {
    open spec fn items(&self) -> Seq<T> {
        self@
    }

    fn next<F: Fn(&T) -> bool>(&self, index: usize, predicate: F) -> (r: Option<usize>) {
        let len = self.len();
        if index >= len {
            return None;
        }
        let mut k: usize = index + 1;
        while k < len
            invariant
                len == self@.len(),
                index < k <= len,
                forall|m: int| 0 <= m < self.items().len() ==> predicate.requires((&self.items()[m],)),
                forall|m: int| index < m < k ==> predicate.ensures((&self@[m],), false),
            decreases len - k,
        {
            assert(predicate.requires((&self.items()[k as int],)));
            if predicate(&self[k]) {
                return Some(k);
            }
            k = k + 1;
        }
        None
    }

    fn prev<F: Fn(&T) -> bool>(&self, index: usize, predicate: F) -> (r: Option<usize>) {
        let len = self.len();
        let mut k: usize = if index < len { index } else { len };
        while k > 0
            invariant
                len == self@.len(),
                k <= index,
                k <= len,
                forall|m: int| 0 <= m < self.items().len() ==> predicate.requires((&self.items()[m],)),
                forall|m: int| k <= m < index && m < len ==> predicate.ensures((&self@[m],), false),
            decreases k,
        {
            k = k - 1;
            assert(predicate.requires((&self.items()[k as int],)));
            if predicate(&self[k]) {
                return Some(k);
            }
        }
        None
    }
}

} // verus!
