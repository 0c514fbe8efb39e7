use comment_ranking::interaction::number_of_comments_to_view;
use comment_ranking::methods::SortScoringMethod;
use comment_ranking::position_weights::{position_weights_for_sorted_list, rescales_qualities};

#[test]
fn linear_weights_count_down_to_one() {
    assert_eq!(position_weights_for_sorted_list(SortScoringMethod::Linear, 4), vec![4, 3, 2, 1]);
    assert_eq!(
        position_weights_for_sorted_list(SortScoringMethod::NormalizedLinear, 3),
        vec![3, 2, 1]
    );
}

#[test]
fn squared_weights_square_the_distance() {
    assert_eq!(
        position_weights_for_sorted_list(SortScoringMethod::PlaceSquared, 4),
        vec![16, 9, 4, 1]
    );
    assert_eq!(
        position_weights_for_sorted_list(SortScoringMethod::NormalizedPlaceSquared, 2),
        vec![4, 1]
    );
    assert_eq!(position_weights_for_sorted_list(SortScoringMethod::PlaceSquared, 0), Vec::<u128>::new());
}

#[test]
fn descending_order_scores_highest_on_an_example() {
    // qualities 1, 3, 2 under squared weights
    let weights = position_weights_for_sorted_list(SortScoringMethod::PlaceSquared, 3);
    let score = |q: [u128; 3]| -> u128 { q.iter().zip(weights.iter()).map(|(a, b)| a * b).sum() };
    let best = score([3, 2, 1]);
    let worst = score([1, 2, 3]);
    for q in [[1, 3, 2], [2, 1, 3], [2, 3, 1], [3, 1, 2]] {
        assert!(worst <= score(q) && score(q) <= best);
    }
    assert_eq!(best, 27 + 8 + 1);
    assert_eq!(worst, 9 + 8 + 3);
}

#[test]
fn only_normalized_methods_on_longer_lists_rescale() {
    assert!(rescales_qualities(SortScoringMethod::NormalizedLinear, 2));
    assert!(rescales_qualities(SortScoringMethod::NormalizedPlaceSquared, 10));
    assert!(!rescales_qualities(SortScoringMethod::NormalizedLinear, 1));
    assert!(!rescales_qualities(SortScoringMethod::Linear, 10));
    assert!(!rescales_qualities(SortScoringMethod::PlaceSquared, 10));
}

#[test]
fn methods_report_normalization_and_squaring() {
    assert!(SortScoringMethod::NormalizedLinear.is_normalized());
    assert!(!SortScoringMethod::PlaceSquared.is_normalized());
    assert!(SortScoringMethod::PlaceSquared.squares_place());
    assert!(!SortScoringMethod::NormalizedLinear.squares_place());
}

#[test]
fn every_user_reads_the_top_comment() {
    assert_eq!(number_of_comments_to_view(0, 5), 1);
    assert_eq!(number_of_comments_to_view(2, 5), 3);
    assert_eq!(number_of_comments_to_view(9, 5), 5);
    assert_eq!(number_of_comments_to_view(0, 0), 0);
}

#[test]
fn list_length_is_taken_as_a_sixteen_bit_count() {
    assert_eq!(number_of_comments_to_view(3, 65536 + 2), 2);
}
