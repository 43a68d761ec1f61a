use vstd::prelude::*;

use crate::image_queue::{ImageInfo, ImageQueueState};
use crate::side_panel::{lookup, SidePanelState};

verus! {

/// How many keys of `tags` are registered with the label `label`.
pub open spec fn hits(tags: Seq<char>, reg: Seq<(char, String)>, label: Seq<char>) -> nat
    decreases tags.len(),
{
    if tags.len() == 0 {
        0
    } else {
        hits(tags.drop_last(), reg, label) + if lookup(reg, tags.last()) == Some(label) {
            1nat
        } else {
            0nat
        }
    }
}

/// `n` copies of `path`.
pub open spec fn repeat(path: String, n: nat) -> Seq<String> {
    Seq::new(n, |_j: int| path)
}

/// The paths filed under `label`: each image in queue order, once for each of its keys that is
/// registered with that label.
pub open spec fn bucket(infos: Seq<ImageInfo>, reg: Seq<(char, String)>, label: Seq<char>) -> Seq<String>
    decreases infos.len(),
{
    if infos.len() == 0 {
        Seq::empty()
    } else {
        bucket(infos.drop_last(), reg, label) + repeat(infos.last().path, hits(infos.last().tags@, reg, label))
    }
}

/// The paths to be filed in one label's folder.
#[derive(Debug)]
pub struct Bucket {
    pub label: String,
    pub paths: Vec<String>,
}

/// Labels are distinct and no bucket is empty.
pub open spec fn plan_wf(plan: Seq<Bucket>) -> bool {
    &&& forall|i: int, j: int| 0 <= i < j < plan.len() ==> (#[trigger] plan[i]).label@ != (#[trigger] plan[j]).label@
    &&& forall|i: int| 0 <= i < plan.len() ==> (#[trigger] plan[i]).paths@.len() > 0
}

/// `plan` files the images of `infos` by the labels of `reg`: one bucket for each label that
/// some image is filed under, holding exactly that label's paths.
pub open spec fn is_plan_of(plan: Seq<Bucket>, infos: Seq<ImageInfo>, reg: Seq<(char, String)>) -> bool {
    &&& plan_wf(plan)
    &&& forall|i: int| 0 <= i < plan.len() ==> (#[trigger] plan[i]).paths@ == bucket(infos, reg, plan[i].label@)
    &&& forall|label: Seq<char>| #[trigger] bucket(infos, reg, label).len() > 0
        ==> exists|i: int| 0 <= i < plan.len() && (#[trigger] plan[i]).label@ == label
}

/// The paths filed under `label` after the first `a` images and the first `t` keys of image `a`.
pub open spec fn partial_bucket(infos: Seq<ImageInfo>, reg: Seq<(char, String)>, a: int, t: int, label: Seq<char>) -> Seq<String> {
    if a < infos.len() {
        bucket(infos.take(a), reg, label) + repeat(infos[a].path, hits(infos[a].tags@.take(t), reg, label))
    } else {
        bucket(infos.take(a), reg, label)
    }
}

pub open spec fn partial_plan(plan: Seq<Bucket>, infos: Seq<ImageInfo>, reg: Seq<(char, String)>, a: int, t: int) -> bool {
    &&& plan_wf(plan)
    &&& forall|i: int| 0 <= i < plan.len() ==> (#[trigger] plan[i]).paths@ == partial_bucket(infos, reg, a, t, plan[i].label@)
    &&& forall|label: Seq<char>| #[trigger] partial_bucket(infos, reg, a, t, label).len() > 0
        ==> exists|i: int| 0 <= i < plan.len() && (#[trigger] plan[i]).label@ == label
}

fn find_bucket(plan: &Vec<Bucket>, label: &String) -> (r: Option<usize>)
    ensures
        match r {
            Some(i) => i < plan@.len() && plan@[i as int].label@ == label@,
            None => forall|i: int| 0 <= i < plan@.len() ==> (#[trigger] plan@[i]).label@ != label@,
        },
{
    let n = plan.len();
    let mut i: usize = 0;
    while i < n
        invariant
            n == plan@.len(),
            i <= n,
            forall|j: int| 0 <= j < i ==> (#[trigger] plan@[j]).label@ != label@,
        decreases n - i,
    {
        if plan[i].label == *label {
            return Some(i);
        }
        i = i + 1;
    }
    None
}

/// Groups the paths of the queue by the labels of their tags. A tag key with no label adds
/// nothing; a path is added once for each of its keys that resolves to the bucket's label.
pub fn build_plan(queue: &ImageQueueState, registry: &SidePanelState) -> (plan: Vec<Bucket>)
    ensures
        is_plan_of(plan@, queue.image_infos@, registry.tags@),
{
    let ghost infos = queue.image_infos@;
    let ghost reg = registry.tags@;
    let mut plan: Vec<Bucket> = Vec::new();
    let n = queue.image_infos.len();
    let mut a: usize = 0;
    while a < n
        invariant
            n == infos.len(),
            infos == queue.image_infos@,
            reg == registry.tags@,
            a <= n,
            partial_plan(plan@, infos, reg, a as int, 0),
        decreases n - a,
    {
        let info = &queue.image_infos[a];
        let nt = info.tags.len();
        let mut t: usize = 0;
        proof {
            assert(infos[a as int].tags@.take(0) =~= Seq::<char>::empty());
        }
        while t < nt
            invariant
                n == infos.len(),
                infos == queue.image_infos@,
                reg == registry.tags@,
                a < n,
                *info == infos[a as int],
                nt == info.tags@.len(),
                t <= nt,
                partial_plan(plan@, infos, reg, a as int, t as int),
            decreases nt - t,
        {
            let key = info.tags[t];
            let ghost before = plan@;
            proof {
                assert(info.tags@.take(t as int + 1).drop_last() =~= info.tags@.take(t as int));
            }
            proof {
                lemma_partial_step(infos, reg, a as int, t as int);
            }
            match registry.get(key) {
                Some(label) => {
                    match find_bucket(&plan, label) {
                        Some(i) => {
                            plan[i].paths.push(info.path.clone());
                            proof {
                                assert forall|m: int| 0 <= m < plan@.len() implies (#[trigger] plan@[m]).paths@
                                    == partial_bucket(infos, reg, a as int, t + 1, plan@[m].label@) by {
                                    if m != i {
                                        assert(plan@[m] == before[m]);
                                    }
                                }
                                assert forall|l: Seq<char>| #[trigger] partial_bucket(infos, reg, a as int, t + 1, l).len() > 0
                                    implies exists|m: int| 0 <= m < plan@.len() && (#[trigger] plan@[m]).label@ == l by {
                                    if l != label@ {
                                        let m = choose|m: int| 0 <= m < before.len() && (#[trigger] before[m]).label@ == l;
                                        assert(plan@[m].label@ == l);
                                    } else {
                                        assert(plan@[i as int].label@ == l);
                                    }
                                }
                            }
                        },
                        None => {
                            let mut paths: Vec<String> = Vec::new();
                            paths.push(info.path.clone());
                            plan.push(Bucket { label: label.clone(), paths });
                            proof {
                                let last = plan@.len() - 1;
                                if partial_bucket(infos, reg, a as int, t as int, label@).len() > 0 {
                                    let m = choose|m: int| 0 <= m < before.len() && (#[trigger] before[m]).label@ == label@;
                                    assert(false);
                                }
                                assert(plan@[last].paths@ =~= partial_bucket(infos, reg, a as int, t + 1, label@));
                                assert forall|m: int| 0 <= m < plan@.len() implies (#[trigger] plan@[m]).paths@
                                    == partial_bucket(infos, reg, a as int, t + 1, plan@[m].label@) by {
                                    if m != last {
                                        assert(plan@[m] == before[m]);
                                    }
                                }
                                assert forall|l: Seq<char>| #[trigger] partial_bucket(infos, reg, a as int, t + 1, l).len() > 0
                                    implies exists|m: int| 0 <= m < plan@.len() && (#[trigger] plan@[m]).label@ == l by {
                                    if l != label@ {
                                        let m = choose|m: int| 0 <= m < before.len() && (#[trigger] before[m]).label@ == l;
                                        assert(plan@[m].label@ == l);
                                    } else {
                                        assert(plan@[last].label@ == l);
                                    }
                                }
                            }
                        },
                    }
                },
                None => {
                    proof {
                        assert forall|l: Seq<char>| #[trigger] partial_bucket(infos, reg, a as int, t + 1, l)
                            == partial_bucket(infos, reg, a as int, t as int, l) by {}
                    }
                },
            }
            t = t + 1;
        }
        proof {
            lemma_partial_next_image(infos, reg, a as int);
        }
        a = a + 1;
    }
    proof {
        assert(infos.take(n as int) =~= infos);
        assert forall|l: Seq<char>| #[trigger] bucket(infos, reg, l) == partial_bucket(infos, reg, n as int, 0, l) by {}
        assert forall|l: Seq<char>| #[trigger] bucket(infos, reg, l).len() > 0
            implies exists|m: int| 0 <= m < plan@.len() && (#[trigger] plan@[m]).label@ == l by {
            assert(partial_bucket(infos, reg, n as int, 0, l).len() > 0);
        }
    }
    plan
}

/// An image none of whose keys has a label is filed nowhere: every bucket is what it would be
/// without that image.
pub proof fn lemma_unregistered_image_ignored(infos: Seq<ImageInfo>, reg: Seq<(char, String)>, i: int)
    requires
        0 <= i < infos.len(),
        forall|t: int| 0 <= t < infos[i].tags@.len() ==> lookup(reg, #[trigger] infos[i].tags@[t]) is None,
    ensures
        forall|label: Seq<char>| #[trigger] bucket(infos, reg, label) == bucket(infos.remove(i), reg, label),
    decreases infos.len(),
{
    assert forall|label: Seq<char>| #[trigger] bucket(infos, reg, label) == bucket(infos.remove(i), reg, label) by {
        if i == infos.len() - 1 {
            lemma_no_hits(infos[i].tags@, reg, label);
            assert(infos.last() == infos[i]);
            assert(infos.remove(i) =~= infos.drop_last());
            assert(repeat(infos[i].path, 0) =~= Seq::<String>::empty());
            assert(bucket(infos.drop_last(), reg, label) + repeat(infos[i].path, 0) =~= bucket(infos.drop_last(), reg, label));
            assert(bucket(infos, reg, label) == bucket(infos.drop_last(), reg, label) + repeat(infos[i].path, 0));
        } else {
            lemma_unregistered_image_ignored(infos.drop_last(), reg, i);
            assert(infos.remove(i).drop_last() =~= infos.drop_last().remove(i));
            let r = infos.remove(i);
            assert(r.len() > 0);
            assert(r.last() == infos.last());
            assert(bucket(r, reg, label) == bucket(r.drop_last(), reg, label) + repeat(r.last().path, hits(r.last().tags@, reg, label)));
            assert(bucket(infos.drop_last(), reg, label) == bucket(infos.drop_last().remove(i), reg, label));
        }
    }
}

/// Keys with no label count for no label.
proof fn lemma_no_hits(tags: Seq<char>, reg: Seq<(char, String)>, label: Seq<char>)
    requires
        forall|t: int| 0 <= t < tags.len() ==> lookup(reg, #[trigger] tags[t]) is None,
    ensures
        hits(tags, reg, label) == 0,
    decreases tags.len(),
{
    if tags.len() > 0 {
        let d = tags.drop_last();
        assert forall|t: int| 0 <= t < d.len() implies lookup(reg, #[trigger] d[t]) is None by {
            assert(d[t] == tags[t]);
        }
        lemma_no_hits(d, reg, label);
    }
}

/// Counting one more key of image `a` adds its path to the bucket of that key's label only.
proof fn lemma_partial_step(infos: Seq<ImageInfo>, reg: Seq<(char, String)>, a: int, t: int)
    requires
        0 <= a < infos.len(),
        0 <= t < infos[a].tags@.len(),
    ensures
        forall|l: Seq<char>| #[trigger] partial_bucket(infos, reg, a, t + 1, l) == if lookup(reg, infos[a].tags@[t]) == Some(l) {
            partial_bucket(infos, reg, a, t, l).push(infos[a].path)
        } else {
            partial_bucket(infos, reg, a, t, l)
        },
{
    let tags = infos[a].tags@;
    let p = infos[a].path;
    assert(tags.take(t + 1).drop_last() =~= tags.take(t));
    assert forall|l: Seq<char>| #[trigger] partial_bucket(infos, reg, a, t + 1, l) == if lookup(reg, tags[t]) == Some(l) {
        partial_bucket(infos, reg, a, t, l).push(p)
    } else {
        partial_bucket(infos, reg, a, t, l)
    } by {
        let h = hits(tags.take(t), reg, l);
        assert(hits(tags.take(t + 1), reg, l) == h + if lookup(reg, tags[t]) == Some(l) { 1nat } else { 0nat });
        assert(repeat(p, h + 1) =~= repeat(p, h).push(p));
        assert(bucket(infos.take(a), reg, l) + repeat(p, h).push(p)
            =~= (bucket(infos.take(a), reg, l) + repeat(p, h)).push(p));
    }
}

/// Having counted every key of image `a` is having counted no key of image `a + 1`.
proof fn lemma_partial_next_image(infos: Seq<ImageInfo>, reg: Seq<(char, String)>, a: int)
    requires
        0 <= a < infos.len(),
    ensures
        forall|l: Seq<char>| #[trigger] partial_bucket(infos, reg, a + 1, 0, l)
            == partial_bucket(infos, reg, a, infos[a].tags@.len() as int, l),
{
    let tags = infos[a].tags@;
    assert(tags.take(tags.len() as int) =~= tags);
    assert(infos.take(a + 1).drop_last() =~= infos.take(a));
    assert forall|l: Seq<char>| #[trigger] partial_bucket(infos, reg, a + 1, 0, l)
        == partial_bucket(infos, reg, a, tags.len() as int, l) by {
        if a + 1 < infos.len() {
            assert(infos[a + 1].tags@.take(0) =~= Seq::<char>::empty());
            assert(repeat(infos[a + 1].path, 0) =~= Seq::<String>::empty());
            assert(bucket(infos.take(a + 1), reg, l) + repeat(infos[a + 1].path, 0) =~= bucket(infos.take(a + 1), reg, l));
        }
    }
}

} // verus!
