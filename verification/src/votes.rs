use vstd::prelude::*;

verus! {

/// Which side of the middle of the scale a recorded user score falls on.
///
/// A score above the middle counts as a positive vote, one below it as a
/// negative vote, and one exactly at the middle (or one that compares with
/// nothing) as neither.
#[derive(Clone, Copy, Debug, PartialEq, Eq, Structural)]
pub enum VoteSign {
    Positive,
    Negative,
    Neutral,
}

/// The number of positive and of negative votes a comment received.
#[derive(Clone, Copy, Debug, PartialEq, Eq, Structural)]
pub struct VoteTally {
    pub positive: u32,
    pub negative: u32,
}

/// The number of votes in `votes` that carry the sign `sign`.
pub open spec fn count_sign(votes: Seq<VoteSign>, sign: VoteSign) -> nat
    decreases votes.len(),
{
    if votes.len() == 0 {
        0
    } else {
        count_sign(votes.drop_last(), sign) + if votes.last() == sign {
            1nat
        } else {
            0nat
        }
    }
}

/// A sign is counted at most once per vote.
pub proof fn lemma_count_sign_bounded(votes: Seq<VoteSign>, sign: VoteSign)
    ensures
        count_sign(votes, sign) <= votes.len(),
    decreases votes.len(),
{
    if votes.len() > 0 {
        lemma_count_sign_bounded(votes.drop_last(), sign);
    }
}

/// Every vote carries exactly one sign: the three counts add up to the
/// number of votes.
pub proof fn lemma_signs_partition_votes(votes: Seq<VoteSign>)
    ensures
        count_sign(votes, VoteSign::Positive) + count_sign(votes, VoteSign::Negative)
            + count_sign(votes, VoteSign::Neutral) == votes.len(),
    decreases votes.len(),
{
    if votes.len() > 0 {
        lemma_signs_partition_votes(votes.drop_last());
    }
}

/// A prefix of the votes holds no more votes of a sign than all of them.
proof fn lemma_count_sign_of_prefix(votes: Seq<VoteSign>, i: int, sign: VoteSign)
    requires
        0 <= i <= votes.len(),
    ensures
        count_sign(votes.take(i), sign) <= count_sign(votes, sign),
    decreases votes.len(),
{
    if i < votes.len() {
        lemma_count_sign_of_prefix(votes.drop_last(), i, sign);
        assert(votes.drop_last().take(i) =~= votes.take(i));
    } else {
        assert(votes.take(i) =~= votes);
    }
}

/// Counts the positive and the negative votes among the scores a comment has
/// received; neutral scores count toward neither.
pub fn count_positive_and_negative_votes(votes: &Vec<VoteSign>) -> (tally: VoteTally)
    requires
        count_sign(votes@, VoteSign::Positive) <= u32::MAX,
        count_sign(votes@, VoteSign::Negative) <= u32::MAX,
    ensures
        tally.positive == count_sign(votes@, VoteSign::Positive),
        tally.negative == count_sign(votes@, VoteSign::Negative),
        tally.positive + tally.negative <= votes.len(),
{
    let mut positive: u32 = 0;
    let mut negative: u32 = 0;
    let mut i: usize = 0;
    while i < votes.len()
        invariant
            i <= votes.len(),
            count_sign(votes@, VoteSign::Positive) <= u32::MAX,
            count_sign(votes@, VoteSign::Negative) <= u32::MAX,
            positive == count_sign(votes@.take(i as int), VoteSign::Positive),
            negative == count_sign(votes@.take(i as int), VoteSign::Negative),
            positive + negative <= i,
        decreases votes.len() - i,
    {
        assert(votes@.take(i + 1).drop_last() == votes@.take(i as int));
        proof {
            lemma_count_sign_of_prefix(votes@, i + 1, VoteSign::Positive);
            lemma_count_sign_of_prefix(votes@, i + 1, VoteSign::Negative);
        }
        match votes[i] {
            VoteSign::Positive => {
                positive = positive + 1;
            },
            VoteSign::Negative => {
                negative = negative + 1;
            },
            VoteSign::Neutral => {},
        }
        i = i + 1;
    }
    assert(votes@.take(votes.len() as int) == votes@);
    VoteTally { positive, negative }
}

} // verus!
