use comment_ranking::votes::{count_positive_and_negative_votes, VoteSign, VoteTally};

#[test]
fn tally_counts_each_side_and_skips_neutral_votes() {
    let votes = vec![
        VoteSign::Positive,
        VoteSign::Neutral,
        VoteSign::Negative,
        VoteSign::Positive,
        VoteSign::Positive,
        VoteSign::Neutral,
    ];
    let tally = count_positive_and_negative_votes(&votes);
    assert_eq!(tally, VoteTally { positive: 3, negative: 1 });
}

#[test]
fn tally_of_no_votes_is_zero() {
    let tally = count_positive_and_negative_votes(&Vec::new());
    assert_eq!(tally, VoteTally { positive: 0, negative: 0 });
}
