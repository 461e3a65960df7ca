use vstd::prelude::*;

use crate::color::Color;

verus! {

/// Body `k` holds the nearest hit among `hits`, where `hits[i]` is how far along the ray body `i`
/// is first hit (a smaller key is nearer) or `None` where the ray misses it. Of equally near
/// bodies the first one wins.
pub open spec fn is_nearest(hits: Seq<Option<u64>>, k: int) -> bool {
    &&& 0 <= k < hits.len()
    &&& hits[k] is Some
    &&& forall|i: int| 0 <= i < hits.len() && #[trigger] hits[i] is Some ==> hits[k]->0 <= hits[i]->0
    &&& forall|i: int| 0 <= i < k && #[trigger] hits[i] is Some ==> hits[k]->0 < hits[i]->0
}

/// The ray misses every body.
pub open spec fn misses_all(hits: Seq<Option<u64>>) -> bool {
    forall|i: int| 0 <= i < hits.len() ==> #[trigger] hits[i] is None
}

/// The color that a ray sees: that of the body holding the nearest hit, or `background` where
/// no body is hit. `hits[i]` and `colors[i]` belong to body `i`.
pub open spec fn seen_color(hits: Seq<Option<u64>>, colors: Seq<Color>, background: Color) -> Color {
    if exists|k: int| is_nearest(hits, k) {
        colors[choose|k: int| is_nearest(hits, k)]
    } else {
        background
    }
}

/// The index of the body that the ray hits first, or `None` where it hits none.
pub fn nearest_hit(hits: &Vec<Option<u64>>) -> (r: Option<usize>)
    ensures
        r is None <==> misses_all(hits@),
        r matches Some(k) ==> is_nearest(hits@, k as int),
{
    let mut best: Option<usize> = None;
    let mut i: usize = 0;
    while i < hits.len()
        invariant
            i <= hits@.len(),
            best is None <==> misses_all(hits@.subrange(0, i as int)),
            best matches Some(k) ==> is_nearest(hits@.subrange(0, i as int), k as int),
        decreases hits@.len() - i,
    {
        let ghost seen = hits@.subrange(0, i as int);
        let ghost next = hits@.subrange(0, i + 1);
        assert(forall|j: int| 0 <= j < i ==> next[j] == seen[j]);
        match hits[i] {
            Some(d) => {
                match best {
                    Some(k) => {
                        if d < hits[k].unwrap() {
                            best = Some(i);
                        }
                    },
                    None => {
                        best = Some(i);
                    },
                }
            },
            None => {},
        }
        proof {
            if best is None {
                assert forall|j: int| 0 <= j < next.len() implies #[trigger] next[j] is None by {
                    if j < i {
                        assert(seen[j] is None);
                    }
                }
            } else {
                assert(next[best->0 as int] is Some);
            }
        }
        i += 1;
    }
    assert(hits@.subrange(0, i as int) =~= hits@);
    best
}

/// The color that a ray sees, from what each body reports.
pub fn resolve_color(hits: &Vec<Option<u64>>, colors: &Vec<Color>, background: Color) -> (r: Color)
    requires
        hits@.len() == colors@.len(),
    ensures
        r == seen_color(hits@, colors@, background),
{
    match nearest_hit(hits) {
        Some(k) => {
            proof {
                let j = choose|j: int| is_nearest(hits@, j);
                lemma_nearest_unique(hits@, j, k as int);
            }
            colors[k]
        },
        None => {
            assert forall|j: int| !is_nearest(hits@, j) by {
                if 0 <= j < hits@.len() {
                    assert(hits@[j] is None);
                }
            }
            background
        },
    }
}

/// At most one body holds the nearest hit.
pub proof fn lemma_nearest_unique(hits: Seq<Option<u64>>, j: int, k: int)
    requires
        is_nearest(hits, j),
        is_nearest(hits, k),
    ensures
        j == k,
{
    if j < k {
        assert(hits[j] is Some);
    } else if k < j {
        assert(hits[k] is Some);
    }
}

} // verus!
