//! Label generation: derive an ascending, unit-spaced label run covering a
//! data extent.
//!
//! Given a non-empty sequence of values, the generator takes the floor of the
//! least value and the ceiling of the greatest, and emits every whole number
//! from the first to the second inclusive. An empty sequence has no extent,
//! so it is rejected with [`ChartErrors::EmptyInput`].

use vstd::prelude::*;

use crate::error::{ChartErrors, ChartResult};
use crate::fixed::Fixed;

verus! {

/// The least `milli` among the values of `s`.
pub open spec fn min_milli(s: Seq<Fixed>) -> int
    decreases s.len(),
{
    if s.len() == 0 {
        0
    } else if s.len() == 1 {
        s[0].milli as int
    } else {
        let m = min_milli(s.drop_last());
        if s.last().milli < m {
            s.last().milli as int
        } else {
            m
        }
    }
}

/// The greatest `milli` among the values of `s`.
pub open spec fn max_milli(s: Seq<Fixed>) -> int
    decreases s.len(),
{
    if s.len() == 0 {
        0
    } else if s.len() == 1 {
        s[0].milli as int
    } else {
        let m = max_milli(s.drop_last());
        if s.last().milli > m {
            s.last().milli as int
        } else {
            m
        }
    }
}

/// The floor of a value held in thousandths.
pub open spec fn floor_of(m: int) -> int {
    m / 1000
}

/// The ceiling of a value held in thousandths.
pub open spec fn ceil_of(m: int) -> int {
    if m % 1000 == 0 {
        m / 1000
    } else {
        m / 1000 + 1
    }
}

/// The label run the generator derives from a non-empty value sequence:
/// `floor(min), floor(min) + 1, …, ceil(max)`.
pub open spec fn labels_for(s: Seq<Fixed>) -> Seq<int> {
    let lo = floor_of(min_milli(s));
    let hi = ceil_of(max_milli(s));
    Seq::new((hi - lo + 1) as nat, |i: int| lo + i)
}

/// An ascending, unit-spaced label run: each label is the first plus its
/// index.
pub open spec fn unit_spaced(s: Seq<i64>) -> bool {
    forall|i: int| 0 <= i < s.len() ==> #[trigger] s[i] == s[0] + i
}

/// Unit-spaced labels ascend strictly.
pub proof fn lemma_unit_spaced_ascending(s: Seq<i64>)
    requires
        unit_spaced(s),
    ensures
        forall|i: int, j: int| 0 <= i < j < s.len() ==> #[trigger] s[i] < #[trigger] s[j],
{
}

/// Every element lies between the sequence's least and greatest values.
pub proof fn lemma_min_max_bound(s: Seq<Fixed>, i: int)
    requires
        0 <= i < s.len(),
    ensures
        min_milli(s) <= s[i].milli,
        s[i].milli <= max_milli(s),
    decreases s.len(),
{
    if s.len() > 1 && i < s.len() - 1 {
        lemma_min_max_bound(s.drop_last(), i);
    }
}

/// The least value never exceeds the greatest.
pub proof fn lemma_min_le_max(s: Seq<Fixed>)
    requires
        s.len() > 0,
    ensures
        min_milli(s) <= max_milli(s),
{
    lemma_min_max_bound(s, 0);
    assert(min_milli(s) <= s[0].milli);
    assert(s[0].milli <= max_milli(s));
}

/// Law: for every non-empty value sequence the generated label run is
/// non-empty, starts at or below the floor of the least value, ends at or
/// above the ceiling of the greatest, and consecutive labels differ by
/// exactly one.
pub proof fn lemma_label_run_covers(s: Seq<Fixed>)
    requires
        s.len() > 0,
    ensures
        labels_for(s).len() >= 1,
        labels_for(s)[0] <= floor_of(min_milli(s)),
        labels_for(s).last() >= ceil_of(max_milli(s)),
        forall|i: int|
            0 <= i < labels_for(s).len() - 1 ==> #[trigger] labels_for(s)[i + 1] == labels_for(
                s,
            )[i] + 1,
{
    lemma_min_le_max(s);
    vstd::arithmetic::div_mod::lemma_div_is_ordered(min_milli(s), max_milli(s), 1000);
}

/// Law: every value's floor label lies inside the generated run, so a
/// registry built from generated labels covers the whole data extent.
pub proof fn lemma_label_run_covers_floors(s: Seq<Fixed>, i: int)
    requires
        0 <= i < s.len(),
    ensures
        labels_for(s)[0] <= s[i].milli as int / 1000 <= labels_for(s).last(),
{
    lemma_min_max_bound(s, i);
    lemma_min_le_max(s);
    vstd::arithmetic::div_mod::lemma_div_is_ordered(min_milli(s), s[i].milli as int, 1000);
    vstd::arithmetic::div_mod::lemma_div_is_ordered(s[i].milli as int, max_milli(s), 1000);
}

/// Derive the ascending, unit-spaced label run covering the extent of
/// `values`: its first label is the floor of the least value, its last the
/// ceiling of the greatest. An empty input is rejected with `EmptyInput`.
pub fn generate_labels(values: &Vec<Fixed>) -> (r: ChartResult<Vec<i64>>)
    ensures
        r is Err <==> values@.len() == 0,
        r is Err ==> r == ChartResult::<Vec<i64>>::Err(ChartErrors::EmptyInput),
        r matches Ok(l) ==> {
            &&& l@.len() == labels_for(values@).len()
            &&& forall|i: int| 0 <= i < l@.len() ==> l@[i] == labels_for(values@)[i]
            &&& unit_spaced(l@)
        },
{
    if values.len() == 0 {
        return Err(ChartErrors::EmptyInput);
    }
    let mut mn: i64 = values[0].milli;
    let mut mx: i64 = values[0].milli;
    let mut i: usize = 1;
    while i < values.len()
        invariant
            1 <= i <= values@.len(),
            mn == min_milli(values@.take(i as int)),
            mx == max_milli(values@.take(i as int)),
        decreases values@.len() - i,
    {
        proof {
            assert(values@.take(i + 1).drop_last() =~= values@.take(i as int));
            assert(values@.take(i + 1).last() == values@[i as int]);
        }
        let v = values[i].milli;
        if v < mn {
            mn = v;
        }
        if v > mx {
            mx = v;
        }
        i = i + 1;
    }
    proof {
        assert(values@.take(values@.len() as int) =~= values@);
    }
    let lo = Fixed::from_milli(mn).floor();
    let hi = Fixed::from_milli(mx).ceil();
    proof {
        lemma_min_le_max(values@);
        vstd::arithmetic::div_mod::lemma_div_is_ordered(mn as int, mx as int, 1000);
        vstd::arithmetic::div_mod::lemma_div_is_ordered(i64::MIN as int, mn as int, 1000);
        vstd::arithmetic::div_mod::lemma_div_is_ordered(mx as int, i64::MAX as int, 1000);
    }
    let mut out: Vec<i64> = Vec::new();
    let mut cur = lo;
    while cur <= hi
        invariant
            lo <= cur <= hi + 1,
            hi < i64::MAX,
            out@.len() == cur - lo,
            forall|j: int| 0 <= j < out@.len() ==> out@[j] == lo + j,
        decreases hi + 1 - cur,
    {
        out.push(cur);
        cur = cur + 1;
    }
    Ok(out)
}

} // verus!
