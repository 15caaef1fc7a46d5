//! Point aggregation: collapse projected points that land on the same pixel
//! into one weighted marker.
//!
//! Every distinct pixel gets exactly one marker. A marker opens at a fixed
//! base weight — chosen so a single point still renders as a visible circle —
//! and grows by one for each further point landing on the same pixel, so the
//! weight doubles as the marker's render radius. Markers are produced in
//! first-seen order; no ordering across markers is promised to callers.

use vstd::prelude::*;

verus! {

/// The weight a marker starts at when its pixel is first seen.
pub const BASE_WEIGHT: u32 = 3;

/// How many of the points of `s` land on pixel `p`.
pub open spec fn count_of(s: Seq<(i32, i32)>, p: (i32, i32)) -> nat
    decreases s.len(),
{
    if s.len() == 0 {
        0
    } else {
        count_of(s.drop_last(), p) + if s.last() == p {
            1nat
        } else {
            0nat
        }
    }
}

/// No pixel occurs more often than there are points.
pub proof fn lemma_count_le_len(s: Seq<(i32, i32)>, p: (i32, i32))
    ensures
        count_of(s, p) <= s.len(),
    decreases s.len(),
{
    if s.len() > 0 {
        lemma_count_le_len(s.drop_last(), p);
    }
}

/// A pixel with a positive count occurs in the sequence.
pub proof fn lemma_count_pos_exists(s: Seq<(i32, i32)>, p: (i32, i32))
    requires
        count_of(s, p) >= 1,
    ensures
        exists|i: int| 0 <= i < s.len() && s[i] == p,
    decreases s.len(),
{
    if s.last() == p {
        assert(s[s.len() - 1] == p);
    } else {
        lemma_count_pos_exists(s.drop_last(), p);
        let i = choose|i: int| 0 <= i < s.drop_last().len() && s.drop_last()[i] == p;
        assert(s[i] == p);
    }
}

/// One aggregation step: a pixel already holding a marker bumps that marker's
/// weight by one; a new pixel opens a marker at the base weight.
pub open spec fn spec_bump(acc: Seq<((i32, i32), u32)>, p: (i32, i32)) -> Seq<((i32, i32), u32)> {
    if exists|j: int| 0 <= j < acc.len() && acc[j].0 == p {
        let j = choose|j: int| 0 <= j < acc.len() && acc[j].0 == p;
        acc.update(j, (p, (acc[j].1 + 1) as u32))
    } else {
        acc.push((p, BASE_WEIGHT))
    }
}

/// The markers of a projected point sequence, in first-seen pixel order.
pub open spec fn spec_aggregate(s: Seq<(i32, i32)>) -> Seq<((i32, i32), u32)>
    decreases s.len(),
{
    if s.len() == 0 {
        Seq::empty()
    } else {
        spec_bump(spec_aggregate(s.drop_last()), s.last())
    }
}

/// Law: aggregation yields exactly one marker per distinct projected pixel,
/// weighted at the base weight plus one for each point beyond the first that
/// lands on the pixel.
pub proof fn lemma_aggregate_props(s: Seq<(i32, i32)>)
    requires
        s.len() + 2 <= u32::MAX,
    ensures
        forall|i: int, j: int|
            0 <= i < j < spec_aggregate(s).len() ==> (#[trigger] spec_aggregate(s)[i]).0 != (
            #[trigger] spec_aggregate(s)[j]).0,
        forall|i: int|
            0 <= i < spec_aggregate(s).len() ==> count_of(s, (#[trigger] spec_aggregate(s)[i]).0)
                >= 1,
        forall|i: int|
            0 <= i < spec_aggregate(s).len() ==> (#[trigger] spec_aggregate(s)[i]).1 as int
                == BASE_WEIGHT - 1 + count_of(s, spec_aggregate(s)[i].0),
        forall|p: (i32, i32)|
            #[trigger] count_of(s, p) >= 1 ==> exists|i: int|
                0 <= i < spec_aggregate(s).len() && (#[trigger] spec_aggregate(s)[i]).0 == p,
    decreases s.len(),
{
    if s.len() > 0 {
        let s0 = s.drop_last();
        let p = s.last();
        let acc = spec_aggregate(s0);
        let agg = spec_aggregate(s);
        lemma_aggregate_props(s0);
        lemma_count_le_len(s0, p);
        if exists|j: int| 0 <= j < acc.len() && acc[j].0 == p {
            let j = choose|j: int| 0 <= j < acc.len() && acc[j].0 == p;
            assert(agg == acc.update(j, (p, (acc[j].1 + 1) as u32)));
            assert(count_of(s, p) == count_of(s0, p) + 1);
            assert forall|q: (i32, i32)| q != p implies count_of(s, q) == count_of(s0, q) by {}
            assert forall|i: int|
                0 <= i < agg.len() implies (#[trigger] agg[i]).1 as int == BASE_WEIGHT - 1
                + count_of(s, agg[i].0) by {
                if i != j {
                    assert(agg[i] == acc[i]);
                    assert(acc[i].0 != p);
                }
            }
            assert forall|q: (i32, i32)| #[trigger] count_of(s, q) >= 1 implies exists|i: int|
                0 <= i < agg.len() && (#[trigger] agg[i]).0 == q by {
                if q == p {
                    assert(agg[j].0 == p);
                } else {
                    assert(count_of(s0, q) >= 1);
                    let i0 = choose|i: int| 0 <= i < acc.len() && (#[trigger] acc[i]).0 == q;
                    assert(agg[i0].0 == q);
                }
            }
        } else {
            // a pixel without a marker cannot occur in the prefix
            if count_of(s0, p) >= 1 {
                let w = choose|i: int| 0 <= i < acc.len() && acc[i].0 == p;
                assert(false);
            }
            assert(agg == acc.push((p, BASE_WEIGHT)));
            assert(count_of(s, p) == 1);
            assert forall|i: int|
                0 <= i < agg.len() implies (#[trigger] agg[i]).1 as int == BASE_WEIGHT - 1
                + count_of(s, agg[i].0) by {
                if i < acc.len() {
                    assert(agg[i] == acc[i]);
                    assert(acc[i].0 != p);
                }
            }
            assert forall|q: (i32, i32)| #[trigger] count_of(s, q) >= 1 implies exists|i: int|
                0 <= i < agg.len() && (#[trigger] agg[i]).0 == q by {
                if q == p {
                    assert(agg[acc.len() as int].0 == p);
                } else {
                    assert(count_of(s0, q) >= 1);
                    let i0 = choose|i: int| 0 <= i < acc.len() && (#[trigger] acc[i]).0 == q;
                    assert(agg[i0].0 == q);
                }
            }
        }
    }
}

/// The first marker index holding pixel `p`, if any.
fn find_key(markers: &Vec<((i32, i32), u32)>, p: (i32, i32)) -> (r: Option<usize>)
    ensures
        r matches Some(j) ==> 0 <= j < markers@.len() && markers@[j as int].0 == p,
        r is None ==> forall|k: int| 0 <= k < markers@.len() ==> (#[trigger] markers@[k]).0 != p,
{
    let mut j: usize = 0;
    while j < markers.len()
        invariant
            0 <= j <= markers@.len(),
            forall|k: int| 0 <= k < j ==> (#[trigger] markers@[k]).0 != p,
        decreases markers@.len() - j,
    {
        if markers[j].0.0 == p.0 && markers[j].0.1 == p.1 {
            return Some(j);
        }
        j = j + 1;
    }
    None
}

/// Collapse the projected points into weighted markers, one per distinct
/// pixel, in first-seen order: a pixel's marker opens at the base weight and
/// gains one for every further point on the same pixel.
pub fn aggregate(points: &Vec<(i32, i32)>) -> (r: Vec<((i32, i32), u32)>)
    requires
        points@.len() + 2 <= u32::MAX,
    ensures
        r@ == spec_aggregate(points@),
{
    let mut markers: Vec<((i32, i32), u32)> = Vec::new();
    let mut i: usize = 0;
    while i < points.len()
        invariant
            0 <= i <= points@.len(),
            points@.len() + 2 <= u32::MAX,
            markers@ == spec_aggregate(points@.take(i as int)),
        decreases points@.len() - i,
    {
        let p = points[i];
        proof {
            assert(points@.take(i + 1).drop_last() =~= points@.take(i as int));
            assert(points@.take(i + 1).last() == points@[i as int]);
            lemma_aggregate_props(points@.take(i as int));
            vstd::seq_lib::lemma_seq_take_len(points@, i as int);
        }
        match find_key(&markers, p) {
            Some(j) => {
                proof {
                    let acc = spec_aggregate(points@.take(i as int));
                    let jj = choose|k: int| 0 <= k < acc.len() && acc[k].0 == p;
                    assert(jj == j);
                    lemma_count_le_len(points@.take(i as int), p);
                }
                let w = markers[j].1;
                markers.set(j, (p, w + 1));
            },
            None => {
                markers.push((p, BASE_WEIGHT));
            },
        }
        i = i + 1;
    }
    proof {
        assert(points@.take(points@.len() as int) =~= points@);
    }
    markers
}

} // verus!
