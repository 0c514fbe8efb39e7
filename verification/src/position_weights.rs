use vstd::prelude::*;

use crate::methods::SortScoringMethod;

verus! {

/// The weight of the comment at `index` in a ranked list of `count`
/// comments: its distance from the bottom of the list (the last comment is
/// one away), squared where the method squares places.
pub open spec fn position_weight(method: SortScoringMethod, count: int, index: int) -> int {
    let distance = count - index;
    if method.spec_squares_place() {
        distance * distance
    } else {
        distance
    }
}

/// Whether a list of `count` comments is scored on qualities rescaled to the
/// range of the list (a single comment keeps its own quality).
pub open spec fn spec_rescales_qualities(method: SortScoringMethod, count: usize) -> bool {
    method.spec_is_normalized() && count > 1
}

/// Whether the cumulative score of a list of `count` comments rescales the
/// qualities to the range of the list.
pub fn rescales_qualities(method: SortScoringMethod, count: usize) -> (r: bool)
    ensures
        r == spec_rescales_qualities(method, count),
{
    method.is_normalized() && count > 1
}

/// The weight of each position of a ranked list of `count` comments, top
/// first; the cumulative score of the list is the sum of each comment's
/// (possibly rescaled) quality times the weight of its position.
pub fn position_weights_for_sorted_list(method: SortScoringMethod, count: usize) -> (weights: Vec<
    u128,
>)
    ensures
        weights.len() == count,
        forall|i: int| 0 <= i < count ==> #[trigger] weights@[i] == position_weight(method, count as int, i),
        forall|i: int|
            0 <= i < count ==> #[trigger] weights@[i] == if method
                == SortScoringMethod::PlaceSquared || method
                == SortScoringMethod::NormalizedPlaceSquared {
                (count - i) * (count - i)
            } else {
                count - i
            },
{
    let squares = method.squares_place();
    let mut weights: Vec<u128> = Vec::with_capacity(count);
    let mut index: usize = 0;
    while index < count
        invariant
            index <= count,
            squares == method.spec_squares_place(),
            weights.len() == index,
            forall|i: int| 0 <= i < index ==> #[trigger] weights@[i] == position_weight(method, count as int, i),
        decreases count - index,
    {
        let distance: u128 = (count - index) as u128;
        let weight: u128 = if squares {
            assert(distance * distance <= 0xffff_ffff_ffff_ffffu128 * 0xffff_ffff_ffff_ffffu128)
                by (nonlinear_arith)
                requires
                    distance <= 0xffff_ffff_ffff_ffffu128,
            ;
            distance * distance
        } else {
            distance
        };
        weights.push(weight);
        index = index + 1;
    }
    weights
}

/// A higher position always weighs more than a lower one, and the bottom
/// position weighs one.
pub proof fn lemma_higher_positions_weigh_more(
    method: SortScoringMethod,
    count: int,
    i: int,
    j: int,
)
    requires
        0 <= i < j < count,
    ensures
        position_weight(method, count, i) > position_weight(method, count, j) >= 1,
        position_weight(method, count, count - 1) == 1,
{
    let a = count - i;
    let b = count - j;
    let bottom = count - (count - 1);
    assert(a * a > b * b >= 1 && bottom * bottom == 1) by (nonlinear_arith)
        requires
            a > b >= 1,
            bottom == 1,
    ;
}

/// The cumulative score of a ranked list of (integer) qualities, top first:
/// the top quality times the weight of the top position, plus the
/// cumulative score of the rest of the list (whose positions weigh what they
/// weigh in the whole list).
pub open spec fn cumulative_score(method: SortScoringMethod, qualities: Seq<int>) -> int
    decreases qualities.len(),
{
    if qualities.len() == 0 {
        0
    } else {
        position_weight(method, qualities.len() as int, 0) * qualities[0] + cumulative_score(
            method,
            qualities.drop_first(),
        )
    }
}

/// Whether `qualities` is ordered from highest to lowest (`descending`) or
/// from lowest to highest.
pub open spec fn is_ordered(qualities: Seq<int>, descending: bool) -> bool {
    forall|i: int, j: int|
        0 <= i < j < qualities.len() ==> if descending {
            qualities[i] >= qualities[j]
        } else {
            qualities[i] <= qualities[j]
        }
}

/// `qualities` with the entries at `i` and `i + 1` exchanged.
pub open spec fn swap_adjacent(qualities: Seq<int>, i: int) -> Seq<int> {
    qualities.update(i, qualities[i + 1]).update(i + 1, qualities[i])
}

proof fn lemma_swap_adjacent_score(method: SortScoringMethod, qualities: Seq<int>, i: int)
    requires
        0 <= i < qualities.len() - 1,
    ensures
        cumulative_score(method, swap_adjacent(qualities, i)) - cumulative_score(method, qualities)
            == (position_weight(method, qualities.len() as int, i) - position_weight(
            method,
            qualities.len() as int,
            i + 1,
        )) * (qualities[i + 1] - qualities[i]),
    decreases i,
{
    let n = qualities.len() as int;
    let swapped = swap_adjacent(qualities, i);
    if i == 0 {
        let rest = qualities.drop_first().drop_first();
        assert(swapped.drop_first().drop_first() =~= rest);
        assert(swapped.drop_first()[0] == qualities[0]);
        assert(qualities.drop_first()[0] == qualities[1]);
        let w0 = position_weight(method, n, 0);
        let w1 = position_weight(method, n, 1);
        assert(position_weight(method, n - 1, 0) == w1);
        let a = qualities[0];
        let b = qualities[1];
        assert(cumulative_score(method, qualities) == w0 * a + cumulative_score(method, qualities.drop_first()));
        assert(cumulative_score(method, qualities.drop_first()) == w1 * b + cumulative_score(method, rest));
        assert(cumulative_score(method, swapped) == w0 * b + cumulative_score(method, swapped.drop_first()));
        assert(cumulative_score(method, swapped.drop_first()) == w1 * a + cumulative_score(method, rest));
        assert(w0 * b + w1 * a - (w0 * a + w1 * b) == (w0 - w1) * (b - a)) by (nonlinear_arith);
    } else {
        let tail = qualities.drop_first();
        lemma_swap_adjacent_score(method, tail, i - 1);
        assert(swapped.drop_first() =~= swap_adjacent(tail, i - 1));
        assert(position_weight(method, n - 1, i - 1) == position_weight(method, n, i));
        assert(position_weight(method, n - 1, i) == position_weight(method, n, i + 1));
        assert(swapped[0] == qualities[0]);
        assert(cumulative_score(method, qualities) == position_weight(method, n, 0) * qualities[0]
            + cumulative_score(method, tail));
        assert(cumulative_score(method, swapped) == position_weight(method, n, 0) * qualities[0]
            + cumulative_score(method, swapped.drop_first()));
        assert(tail[i] == qualities[i + 1] && tail[i - 1] == qualities[i]);
    }
}

proof fn lemma_move_to_front(
    method: SortScoringMethod,
    qualities: Seq<int>,
    k: int,
    descending: bool,
)
    requires
        0 <= k < qualities.len(),
        forall|j: int|
            0 <= j < k ==> if descending {
                #[trigger] qualities[j] <= qualities[k]
            } else {
                #[trigger] qualities[j] >= qualities[k]
            },
    ensures
        descending ==> cumulative_score(method, qualities) <= cumulative_score(
            method,
            seq![qualities[k]] + qualities.remove(k),
        ),
        !descending ==> cumulative_score(method, qualities) >= cumulative_score(
            method,
            seq![qualities[k]] + qualities.remove(k),
        ),
    decreases k,
{
    if k == 0 {
        assert(seq![qualities[0]] + qualities.remove(0) =~= qualities);
    } else {
        let n = qualities.len() as int;
        let swapped = swap_adjacent(qualities, k - 1);
        lemma_swap_adjacent_score(method, qualities, k - 1);
        lemma_higher_positions_weigh_more(method, n, k - 1, k);
        let dw = position_weight(method, n, k - 1) - position_weight(method, n, k);
        let dq = qualities[k] - qualities[k - 1];
        if descending {
            assert(dw * dq >= 0) by (nonlinear_arith)
                requires
                    dw >= 0,
                    dq >= 0,
            ;
        } else {
            assert(dw * dq <= 0) by (nonlinear_arith)
                requires
                    dw >= 0,
                    dq <= 0,
            ;
        }
        assert forall|j: int| 0 <= j < k - 1 implies if descending {
            #[trigger] swapped[j] <= swapped[k - 1]
        } else {
            #[trigger] swapped[j] >= swapped[k - 1]
        } by {
            assert(swapped[j] == qualities[j]);
        }
        lemma_move_to_front(method, swapped, k - 1, descending);
        assert(swapped.remove(k - 1) =~= qualities.remove(k));
    }
}

/// Ordering a list from its highest quality to its lowest gives it the
/// highest cumulative score any order of the same qualities can have, and
/// ordering it from lowest to highest the lowest: the scores of the optimal
/// and of the worst ranking bound that of every other ranking.
pub proof fn lemma_ordered_list_bounds_cumulative_score(
    method: SortScoringMethod,
    qualities: Seq<int>,
    ordered: Seq<int>,
    descending: bool,
)
    requires
        qualities.to_multiset() == ordered.to_multiset(),
        is_ordered(ordered, descending),
    ensures
        descending ==> cumulative_score(method, qualities) <= cumulative_score(method, ordered),
        !descending ==> cumulative_score(method, qualities) >= cumulative_score(method, ordered),
    decreases qualities.len(),
{
    broadcast use vstd::seq_lib::group_to_multiset_ensures;

    assert(qualities.len() == qualities.to_multiset().len());
    assert(ordered.len() == ordered.to_multiset().len());
    if qualities.len() > 0 {
        let n = qualities.len() as int;
        let top = ordered[0];
        assert(ordered.contains(top));
        assert(ordered.to_multiset().count(top) > 0);
        assert(qualities.contains(top));
        let k = choose|k: int| 0 <= k < n && qualities[k] == top;
        assert forall|j: int| 0 <= j < k implies if descending {
            #[trigger] qualities[j] <= qualities[k]
        } else {
            #[trigger] qualities[j] >= qualities[k]
        } by {
            let x = qualities[j];
            assert(qualities.contains(x));
            assert(qualities.to_multiset().count(x) > 0);
            assert(ordered.contains(x));
            let idx = choose|idx: int| 0 <= idx < ordered.len() && ordered[idx] == x;
            if idx > 0 {
                assert(0 <= 0int < idx < ordered.len());
            }
        }
        lemma_move_to_front(method, qualities, k, descending);
        let rest = qualities.remove(k);
        let front = seq![top] + rest;
        assert(front.drop_first() =~= rest);
        assert(front[0] == top);
        assert(rest.to_multiset() == qualities.to_multiset().remove(top));
        assert(ordered.remove(0).to_multiset() == ordered.to_multiset().remove(top));
        assert(ordered.remove(0) =~= ordered.drop_first());
        let ordered_rest = ordered.drop_first();
        assert forall|i: int, j: int| 0 <= i < j < ordered_rest.len() implies if descending {
            ordered_rest[i] >= ordered_rest[j]
        } else {
            ordered_rest[i] <= ordered_rest[j]
        } by {
            assert(ordered_rest[i] == ordered[i + 1]);
            assert(ordered_rest[j] == ordered[j + 1]);
        }
        lemma_ordered_list_bounds_cumulative_score(method, rest, ordered_rest, descending);
        assert(rest.len() == n - 1);
    }
}

/// A position's weight is its distance from the bottom of the list for
/// `Linear` and `NormalizedLinear`, and the square of that distance for
/// `PlaceSquared` and `NormalizedPlaceSquared`.
pub proof fn lemma_position_weight_by_method(count: int, i: int)
    ensures
        position_weight(SortScoringMethod::Linear, count, i) == count - i,
        position_weight(SortScoringMethod::NormalizedLinear, count, i) == count - i,
        position_weight(SortScoringMethod::PlaceSquared, count, i) == (count - i) * (count - i),
        position_weight(SortScoringMethod::NormalizedPlaceSquared, count, i) == (count - i) * (
        count - i),
{
}

} // verus!
