use comment_ranking::methods::{CommentListSortingMethod, CommentScoringMethod, LowScoreMemberHandling};
use comment_ranking::sorting_score::{
    base_sorting_score_for_one_comment, calculate_sorting_score_for_one_comment,
    check_for_external_reason_to_boost_comment, BaseSortingScore, ExternalBoost, SortingScorePlan,
};
use comment_ranking::votes::{count_positive_and_negative_votes, VoteSign, VoteTally};

fn sign_of(score: f32) -> VoteSign {
    if score > 0.50 {
        VoteSign::Positive
    } else if score < 0.50 {
        VoteSign::Negative
    } else {
        VoteSign::Neutral
    }
}

fn tally_of(scores: &[f32]) -> VoteTally {
    let signs: Vec<VoteSign> = scores.iter().map(|s| sign_of(*s)).collect();
    count_positive_and_negative_votes(&signs)
}

#[test]
fn test_calculate_sorting_position_top_true_score() {
    let true_quality: f32 = 8.0;
    let plan = calculate_sorting_score_for_one_comment(
        CommentListSortingMethod::Top,
        100,
        100,
        LowScoreMemberHandling::Ignore,
        true,
    );
    assert_eq!(plan, SortingScorePlan::TrueQuality);
    let position = true_quality;
    assert!(position >= 0.0, "Position should be non-negative for Top sorting.");
}

#[test]
fn test_calculate_sorting_position_top_perceived_score() {
    let plan = calculate_sorting_score_for_one_comment(
        CommentListSortingMethod::Top,
        100,
        100,
        LowScoreMemberHandling::Ignore,
        false,
    );
    assert_eq!(plan, SortingScorePlan::Base);
    let base = base_sorting_score_for_one_comment(
        CommentListSortingMethod::Top,
        CommentScoringMethod::ThumbsUpDown,
        100,
        tally_of(&[]),
    );
    assert_eq!(base, BaseSortingScore::NetPositiveVotes { net: 0 });
    let position = match base {
        BaseSortingScore::NetPositiveVotes { net } => net as f32,
        _ => unreachable!(),
    };
    assert!(position >= 0.0, "Position should be non-negative for Top sorting.");
}

#[test]
fn test_calculate_sorting_position_new_true_score() {
    let plan = calculate_sorting_score_for_one_comment(
        CommentListSortingMethod::New,
        200,
        300,
        LowScoreMemberHandling::Ignore,
        true,
    );
    assert_eq!(plan, SortingScorePlan::Base);
    let base = base_sorting_score_for_one_comment(
        CommentListSortingMethod::New,
        CommentScoringMethod::ThumbsUpDown,
        200,
        tally_of(&[]),
    );
    assert_eq!(base, BaseSortingScore::CreationTime { time: 200 });
    let position = match base {
        BaseSortingScore::CreationTime { time } => time as f32,
        _ => unreachable!(),
    };
    assert!(position >= 0.0, "Position should be non-negative for New sorting.");
}

#[test]
fn test_calculate_sorting_position_new_perceived_score() {
    let plan = calculate_sorting_score_for_one_comment(
        CommentListSortingMethod::New,
        200,
        300,
        LowScoreMemberHandling::Ignore,
        false,
    );
    assert_eq!(plan, SortingScorePlan::Base);
    let base = base_sorting_score_for_one_comment(
        CommentListSortingMethod::New,
        CommentScoringMethod::ThumbsUpDown,
        200,
        tally_of(&[]),
    );
    assert_eq!(base, BaseSortingScore::CreationTime { time: 200 });
    let position = match base {
        BaseSortingScore::CreationTime { time } => time as f32,
        _ => unreachable!(),
    };
    assert!(position >= 0.0, "Position should be non-negative for New sorting.");
}

#[test]
fn test_calculate_sorting_position_best_true_score() {
    let true_quality: f32 = 9.0;
    let plan = calculate_sorting_score_for_one_comment(
        CommentListSortingMethod::Best,
        300,
        100,
        LowScoreMemberHandling::Ignore,
        true,
    );
    assert_eq!(plan, SortingScorePlan::TrueQuality);
    let position = true_quality;
    assert!(position >= 0.0, "Position should be non-negative for Best sorting.");
}

#[test]
fn test_calculate_sorting_position_best_perceived_score() {
    let scores = [0.0f32];
    let plan = calculate_sorting_score_for_one_comment(
        CommentListSortingMethod::Best,
        300,
        100,
        LowScoreMemberHandling::Ignore,
        false,
    );
    assert_eq!(plan, SortingScorePlan::Base);
    let base = base_sorting_score_for_one_comment(
        CommentListSortingMethod::Best,
        CommentScoringMethod::ThumbsUpDown,
        300,
        tally_of(&scores),
    );
    assert_eq!(
        base,
        BaseSortingScore::WilsonLowerBound { positive: 0, negative: 1, use_score_totals: false }
    );
    // The lower bound of the Wilson score interval over the vote counts.
    let position = match base {
        BaseSortingScore::WilsonLowerBound { positive, .. } => {
            let z: f32 = 1.95996398454;
            let mut number_of_scores = scores.len() as f32;
            let mut p_hat = positive as f32 / number_of_scores;
            if p_hat.is_nan() {
                p_hat = 1.0;
                number_of_scores = 1.0;
            }
            let part1 = p_hat + z.powi(2) / number_of_scores;
            let under_radical = (p_hat * (1.0 - p_hat) + z.powi(2) / (4.0 * number_of_scores)) / number_of_scores;
            let part2 = z * under_radical.sqrt();
            (part1 - part2) / (1.0 + z.powi(2) / number_of_scores)
        },
        _ => unreachable!(),
    };
    assert!(!position.is_nan(), "Position should be A number for Best sorting.");
}

#[test]
fn test_calculate_sorting_position_controversial_true_score() {
    let true_quality: f32 = 7.0;
    let plan = calculate_sorting_score_for_one_comment(
        CommentListSortingMethod::Controversial,
        400,
        100,
        LowScoreMemberHandling::Ignore,
        true,
    );
    assert_eq!(plan, SortingScorePlan::TrueQuality);
    let position = true_quality;
    assert!(position == 7.0, "Position should be non-negative for Controversial sorting.");
}

#[test]
fn test_calculate_sorting_position_controversial_perceived_score() {
    let scores = [1.0f32, -1.0, 1.0];
    let plan = calculate_sorting_score_for_one_comment(
        CommentListSortingMethod::Controversial,
        400,
        100,
        LowScoreMemberHandling::Ignore,
        false,
    );
    assert_eq!(plan, SortingScorePlan::Base);
    let base = base_sorting_score_for_one_comment(
        CommentListSortingMethod::Controversial,
        CommentScoringMethod::ThumbsUpDown,
        400,
        tally_of(&scores),
    );
    assert_eq!(base, BaseSortingScore::Controversy { difference: 1, total: 3 });
    let position = match base {
        BaseSortingScore::Controversy { difference, total } => {
            let fraction_score = difference as f32 / total as f32;
            1.0 - fraction_score * fraction_score
        },
        _ => unreachable!(),
    };
    assert!(position == 0.88888889533, "Position should be .333 squared .");
}

#[test]
fn young_comment_is_lifted_by_its_age() {
    let plan = calculate_sorting_score_for_one_comment(
        CommentListSortingMethod::Best,
        97,
        100,
        LowScoreMemberHandling::Ignore,
        false,
    );
    assert_eq!(plan, SortingScorePlan::NewCommentBoost { age: 3, current_time: 100 });
}

#[test]
fn comment_made_at_this_interaction_is_not_lifted() {
    let boost = check_for_external_reason_to_boost_comment(100, 100, LowScoreMemberHandling::Flat_Percent_Chance);
    assert_eq!(boost, ExternalBoost::NewComment { age: 0, current_time: 100 });
    let plan = calculate_sorting_score_for_one_comment(
        CommentListSortingMethod::Top,
        100,
        100,
        LowScoreMemberHandling::Flat_Percent_Chance,
        false,
    );
    assert_eq!(plan, SortingScorePlan::Base);
}

#[test]
fn comment_dated_after_the_current_time_gets_a_negative_age_ratio() {
    let boost = check_for_external_reason_to_boost_comment(400, 100, LowScoreMemberHandling::Proportional_To_Score_Chance);
    assert_eq!(boost, ExternalBoost::NewComment { age: -300, current_time: 100 });
    let plan = calculate_sorting_score_for_one_comment(
        CommentListSortingMethod::Controversial,
        400,
        100,
        LowScoreMemberHandling::Proportional_To_Score_Chance,
        false,
    );
    assert_eq!(plan, SortingScorePlan::Base);
}

#[test]
fn old_comment_is_not_boosted_when_ignored() {
    let boost = check_for_external_reason_to_boost_comment(10, 100, LowScoreMemberHandling::Ignore);
    assert_eq!(boost, ExternalBoost::NoBoost);
}

#[test]
fn comment_at_the_age_limit_goes_to_the_lottery() {
    let boost = check_for_external_reason_to_boost_comment(95, 100, LowScoreMemberHandling::Flat_Percent_Chance);
    assert_eq!(
        boost,
        ExternalBoost::Lottery { handling: LowScoreMemberHandling::Flat_Percent_Chance }
    );
    let plan = calculate_sorting_score_for_one_comment(
        CommentListSortingMethod::Hot,
        10,
        100,
        LowScoreMemberHandling::Proportional_To_Score_Chance,
        false,
    );
    assert_eq!(
        plan,
        SortingScorePlan::LowScoreLottery {
            handling: LowScoreMemberHandling::Proportional_To_Score_Chance
        }
    );
}

#[test]
fn ignored_old_comment_is_not_drawn() {
    let plan = calculate_sorting_score_for_one_comment(
        CommentListSortingMethod::Top,
        10,
        100,
        LowScoreMemberHandling::Ignore,
        false,
    );
    assert_eq!(plan, SortingScorePlan::Base);
}

#[test]
fn evaluation_sort_leaves_nothing_to_chance() {
    for handling in [
        LowScoreMemberHandling::Ignore,
        LowScoreMemberHandling::Flat_Percent_Chance,
        LowScoreMemberHandling::Proportional_To_Score_Chance,
    ] {
        let plan = calculate_sorting_score_for_one_comment(
            CommentListSortingMethod::Best,
            0,
            -1,
            handling,
            false,
        );
        assert_eq!(plan, SortingScorePlan::Base);
    }
}

#[test]
fn new_ranks_by_creation_time_even_for_true_score() {
    let plan = calculate_sorting_score_for_one_comment(
        CommentListSortingMethod::New,
        42,
        -1,
        LowScoreMemberHandling::Flat_Percent_Chance,
        true,
    );
    assert_eq!(plan, SortingScorePlan::Base);
}

#[test]
fn net_positive_votes_for_top_and_hot() {
    let tally = VoteTally { positive: 7, negative: 3 };
    for method in [CommentListSortingMethod::Top, CommentListSortingMethod::Hot] {
        let base = base_sorting_score_for_one_comment(method, CommentScoringMethod::ZeroToTen, 5, tally);
        assert_eq!(base, BaseSortingScore::NetPositiveVotes { net: 4 });
    }
}

#[test]
fn best_uses_score_totals_for_raw_scores() {
    let tally = VoteTally { positive: 2, negative: 5 };
    let base = base_sorting_score_for_one_comment(
        CommentListSortingMethod::Best,
        CommentScoringMethod::RawScore,
        5,
        tally,
    );
    assert_eq!(
        base,
        BaseSortingScore::WilsonLowerBound { positive: 2, negative: 5, use_score_totals: true }
    );
}

#[test]
fn controversy_with_more_negative_votes() {
    let tally = VoteTally { positive: 1, negative: 4 };
    let base = base_sorting_score_for_one_comment(
        CommentListSortingMethod::Controversial,
        CommentScoringMethod::ThumbsUpDown,
        5,
        tally,
    );
    assert_eq!(base, BaseSortingScore::Controversy { difference: -3, total: 5 });
}
