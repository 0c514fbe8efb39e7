use vstd::prelude::*;

use crate::methods::{CommentListSortingMethod, CommentScoringMethod, LowScoreMemberHandling};
use crate::votes::VoteTally;

verus! {

/// For how many interactions after its creation a comment is kept near the
/// top of a list sorted for viewing.
pub const TIME_TO_KEEP_NEW_COMMENTS_AT_TOP: u16 = 5;

/// A reason, outside the comment's votes, to lift a comment in a list sorted
/// for viewing.
#[derive(Clone, Copy, Debug, PartialEq, Eq, Structural)]
pub enum ExternalBoost {
    /// The comment is young (younger than `TIME_TO_KEEP_NEW_COMMENTS_AT_TOP`,
    /// at a positive time): the reason is the ratio `age / current_time`,
    /// which lifts the comment only where it is above zero, that is where the
    /// age is (a comment dated after `current_time` has a negative age).
    NewComment { age: i32, current_time: i32 },
    /// The comment is old: a random draw under `handling` decides whether it
    /// is lifted to `1 - quality^5`.
    Lottery { handling: LowScoreMemberHandling },
    /// Nothing lifts the comment.
    NoBoost,
}

/// How the sorting score of one comment is obtained.
#[derive(Clone, Copy, Debug, PartialEq, Eq, Structural)]
pub enum SortingScorePlan {
    /// The score is the comment's true quality.
    TrueQuality,
    /// The score is the young comment's `age / current_time`.
    NewCommentBoost { age: i32, current_time: i32 },
    /// A random draw under `handling` decides whether the old comment is
    /// lifted to `1 - quality^5`; where it is not (or that value is not above
    /// zero), the score is the comment's base sorting score.
    LowScoreLottery { handling: LowScoreMemberHandling },
    /// The score is the comment's base sorting score.
    Base,
}

/// The score a sorting method gives a comment from its votes and its age.
#[derive(Clone, Copy, Debug, PartialEq, Eq, Structural)]
pub enum BaseSortingScore {
    /// Positive votes less negative votes (`Top` and `Hot`).
    NetPositiveVotes { net: u32 },
    /// The interaction at which the comment was made (`New`).
    CreationTime { time: u32 },
    /// The lower bound of the Wilson score interval (`Best`), over the vote
    /// counts, or over the score totals where `use_score_totals` holds.
    WilsonLowerBound { positive: u32, negative: u32, use_score_totals: bool },
    /// `1 - (difference / total)^2` (`Controversial`).
    Controversy { difference: i32, total: u32 },
}

/// The age of a comment made at `creation_time`, at `current_time`.
pub open spec fn comment_age(creation_time: u32, current_time: i32) -> int {
    current_time - (creation_time as i32)
}

pub open spec fn age_fits(creation_time: u32, current_time: i32) -> bool {
    i32::MIN <= comment_age(creation_time, current_time) <= i32::MAX
}

/// What lifts a comment made at `creation_time`, at `current_time`.
///
/// A young comment (age below `TIME_TO_KEEP_NEW_COMMENTS_AT_TOP`, at a
/// positive time) gets the ratio `age / current_time`, whatever its age and
/// the handling of old comments; an old comment is left to chance unless old
/// comments are ignored.
pub open spec fn external_boost(
    creation_time: u32,
    current_time: i32,
    handling: LowScoreMemberHandling,
) -> ExternalBoost {
    let age = comment_age(creation_time, current_time);
    if current_time > 0 && age < TIME_TO_KEEP_NEW_COMMENTS_AT_TOP as int {
        ExternalBoost::NewComment { age: age as i32, current_time }
    } else {
        match handling {
            LowScoreMemberHandling::Ignore => ExternalBoost::NoBoost,
            _ => ExternalBoost::Lottery { handling },
        }
    }
}

/// How the sorting score of a comment is obtained.
///
/// With `use_true_score` every method but `New` ranks by true quality.  A
/// positive `current_time` means the list is sorted for viewing, and only
/// then may a comment be lifted; `New` never is.  A young comment is lifted
/// by its age ratio only where that ratio is above zero (a positive age over
/// a positive time); otherwise it gets its base score.
pub open spec fn sorting_score_plan(
    method: CommentListSortingMethod,
    creation_time: u32,
    current_time: i32,
    handling: LowScoreMemberHandling,
    use_true_score: bool,
) -> SortingScorePlan {
    if use_true_score && method != CommentListSortingMethod::New {
        SortingScorePlan::TrueQuality
    } else if method != CommentListSortingMethod::New && current_time > 0 {
        match external_boost(creation_time, current_time, handling) {
            ExternalBoost::NewComment { age, current_time } => if age > 0 {
                SortingScorePlan::NewCommentBoost { age, current_time }
            } else {
                SortingScorePlan::Base
            },
            ExternalBoost::Lottery { handling } => SortingScorePlan::LowScoreLottery { handling },
            ExternalBoost::NoBoost => SortingScorePlan::Base,
        }
    } else {
        SortingScorePlan::Base
    }
}

/// Whether working out the plan computes the comment's age.
pub open spec fn plan_reads_age(
    method: CommentListSortingMethod,
    current_time: i32,
    use_true_score: bool,
) -> bool {
    !(use_true_score && method != CommentListSortingMethod::New) && method
        != CommentListSortingMethod::New && current_time > 0
}

/// The base sorting score of a comment with votes `tally`, made at
/// `creation_time`.
pub open spec fn base_sorting_score(
    method: CommentListSortingMethod,
    scoring: CommentScoringMethod,
    creation_time: u32,
    tally: VoteTally,
) -> BaseSortingScore {
    match method {
        CommentListSortingMethod::Top | CommentListSortingMethod::Hot => {
            BaseSortingScore::NetPositiveVotes { net: (tally.positive - tally.negative) as u32 }
        },
        CommentListSortingMethod::New => BaseSortingScore::CreationTime { time: creation_time },
        CommentListSortingMethod::Best => BaseSortingScore::WilsonLowerBound {
            positive: tally.positive,
            negative: tally.negative,
            use_score_totals: scoring == CommentScoringMethod::RawScore,
        },
        CommentListSortingMethod::Controversial => BaseSortingScore::Controversy {
            difference: ((tally.positive as i32) - (tally.negative as i32)) as i32,
            total: (tally.positive + tally.negative) as u32,
        },
    }
}

/// The inputs on which the base sorting score is defined without overflow.
pub open spec fn base_score_fits(method: CommentListSortingMethod, tally: VoteTally) -> bool {
    &&& (method == CommentListSortingMethod::Top || method == CommentListSortingMethod::Hot)
        ==> tally.negative <= tally.positive
    &&& method == CommentListSortingMethod::Controversial ==> {
        &&& tally.positive + tally.negative <= u32::MAX
        &&& i32::MIN <= (tally.positive as i32) - (tally.negative as i32) <= i32::MAX
    }
}

/// Decides what, besides its votes, lifts a comment made at `creation_time`
/// when the list is sorted at `current_time`.
pub fn check_for_external_reason_to_boost_comment(
    creation_time: u32,
    current_time: i32,
    handling: LowScoreMemberHandling,
) -> (boost: ExternalBoost)
    requires
        age_fits(creation_time, current_time),
    ensures
        boost == external_boost(creation_time, current_time, handling),
        current_time > 0 && current_time - (creation_time as i32) < TIME_TO_KEEP_NEW_COMMENTS_AT_TOP
            ==> boost == (ExternalBoost::NewComment {
            age: (current_time - (creation_time as i32)) as i32,
            current_time,
        }),
        !(current_time > 0 && current_time - (creation_time as i32)
            < TIME_TO_KEEP_NEW_COMMENTS_AT_TOP) ==> boost == if handling
            == LowScoreMemberHandling::Ignore {
            ExternalBoost::NoBoost
        } else {
            ExternalBoost::Lottery { handling }
        },
{
    let age: i32 = current_time - (creation_time as i32);
    if current_time > 0 && age < TIME_TO_KEEP_NEW_COMMENTS_AT_TOP as i32 {
        return ExternalBoost::NewComment { age, current_time };
    }
    match handling {
        LowScoreMemberHandling::Ignore => ExternalBoost::NoBoost,
        LowScoreMemberHandling::Flat_Percent_Chance => ExternalBoost::Lottery { handling },
        LowScoreMemberHandling::Proportional_To_Score_Chance => ExternalBoost::Lottery { handling },
    }
}

/// Decides how the sorting score of a comment made at `creation_time` is
/// obtained when the list is sorted at `current_time` under `method`.
///
/// A `current_time` above zero means the list is sorted for viewing; at zero
/// or below it is sorted to evaluate a ranking, and then nothing is left to
/// chance.
pub fn calculate_sorting_score_for_one_comment(
    method: CommentListSortingMethod,
    creation_time: u32,
    current_time: i32,
    handling: LowScoreMemberHandling,
    use_true_score: bool,
) -> (plan: SortingScorePlan)
    requires
        plan_reads_age(method, current_time, use_true_score) ==> age_fits(
            creation_time,
            current_time,
        ),
    ensures
        plan == sorting_score_plan(method, creation_time, current_time, handling, use_true_score),
        use_true_score && method != CommentListSortingMethod::New ==> plan
            == SortingScorePlan::TrueQuality,
        method == CommentListSortingMethod::New ==> plan == SortingScorePlan::Base,
        !use_true_score && current_time <= 0 ==> plan == SortingScorePlan::Base,
        !use_true_score && method != CommentListSortingMethod::New && current_time > 0 ==> {
            let age = current_time - (creation_time as i32);
            &&& 0 < age < TIME_TO_KEEP_NEW_COMMENTS_AT_TOP ==> plan == (
            SortingScorePlan::NewCommentBoost { age: age as i32, current_time })
            &&& age <= 0 ==> plan == SortingScorePlan::Base
            &&& age >= TIME_TO_KEEP_NEW_COMMENTS_AT_TOP ==> plan == if handling
                == LowScoreMemberHandling::Ignore {
                SortingScorePlan::Base
            } else {
                SortingScorePlan::LowScoreLottery { handling }
            }
        },
{
    if use_true_score && method != CommentListSortingMethod::New {
        return SortingScorePlan::TrueQuality;
    }
    if method != CommentListSortingMethod::New && current_time > 0 {
        let boost = check_for_external_reason_to_boost_comment(
            creation_time,
            current_time,
            handling,
        );
        return match boost {
            ExternalBoost::NewComment { age, current_time } => if age > 0 {
                SortingScorePlan::NewCommentBoost { age, current_time }
            } else {
                SortingScorePlan::Base
            },
            ExternalBoost::Lottery { handling } => SortingScorePlan::LowScoreLottery { handling },
            ExternalBoost::NoBoost => SortingScorePlan::Base,
        };
    }
    SortingScorePlan::Base
}

/// The score `method` gives a comment from its votes `tally` and its
/// creation time.
pub fn base_sorting_score_for_one_comment(
    method: CommentListSortingMethod,
    scoring: CommentScoringMethod,
    creation_time: u32,
    tally: VoteTally,
) -> (score: BaseSortingScore)
    requires
        base_score_fits(method, tally),
    ensures
        score == base_sorting_score(method, scoring, creation_time, tally),
        (method == CommentListSortingMethod::Top || method == CommentListSortingMethod::Hot)
            ==> (score matches BaseSortingScore::NetPositiveVotes { net } && net == tally.positive
            - tally.negative),
        method == CommentListSortingMethod::New ==> score == (BaseSortingScore::CreationTime {
            time: creation_time,
        }),
        method == CommentListSortingMethod::Best ==> (score matches BaseSortingScore::WilsonLowerBound {
            positive,
            negative,
            use_score_totals,
        } && positive == tally.positive && negative == tally.negative && (use_score_totals
            <==> scoring == CommentScoringMethod::RawScore)),
        method == CommentListSortingMethod::Controversial ==> (score matches BaseSortingScore::Controversy {
            difference,
            total,
        } && total == tally.positive + tally.negative && (tally.positive <= i32::MAX
            && tally.negative <= i32::MAX ==> difference == tally.positive - tally.negative)),
{
    match method {
        CommentListSortingMethod::Top | CommentListSortingMethod::Hot => {
            BaseSortingScore::NetPositiveVotes { net: tally.positive - tally.negative }
        },
        CommentListSortingMethod::New => BaseSortingScore::CreationTime { time: creation_time },
        CommentListSortingMethod::Best => {
            let use_score_totals = match scoring {
                CommentScoringMethod::RawScore => true,
                _ => false,
            };
            BaseSortingScore::WilsonLowerBound {
                positive: tally.positive,
                negative: tally.negative,
                use_score_totals,
            }
        },
        CommentListSortingMethod::Controversial => {
            let difference: i32 = (tally.positive as i32) - (tally.negative as i32);
            BaseSortingScore::Controversy { difference, total: tally.positive + tally.negative }
        },
    }
}

/// Ranking by true score ranks every method but `New` by true quality,
/// whatever the time and the handling of old comments.
pub proof fn lemma_true_score_ranks_by_quality(
    method: CommentListSortingMethod,
    creation_time: u32,
    current_time: i32,
    handling: LowScoreMemberHandling,
)
    requires
        method != CommentListSortingMethod::New,
    ensures
        sorting_score_plan(method, creation_time, current_time, handling, true)
            == SortingScorePlan::TrueQuality,
{
}

/// `New` ranks by creation time, whether or not the true score is asked for,
/// and never lifts a comment.
pub proof fn lemma_new_ranks_by_creation_time(
    scoring: CommentScoringMethod,
    creation_time: u32,
    current_time: i32,
    handling: LowScoreMemberHandling,
    use_true_score: bool,
    tally: VoteTally,
)
    ensures
        sorting_score_plan(
            CommentListSortingMethod::New,
            creation_time,
            current_time,
            handling,
            use_true_score,
        ) == SortingScorePlan::Base,
        base_sorting_score(CommentListSortingMethod::New, scoring, creation_time, tally)
            == (BaseSortingScore::CreationTime { time: creation_time }),
{
}

/// A list sorted to evaluate a ranking (at a time of zero or below) leaves
/// nothing to chance and lifts no comment.
pub proof fn lemma_evaluation_sort_is_deterministic(
    method: CommentListSortingMethod,
    creation_time: u32,
    current_time: i32,
    handling: LowScoreMemberHandling,
    use_true_score: bool,
)
    requires
        current_time <= 0,
    ensures
        ({
            let plan = sorting_score_plan(
                method,
                creation_time,
                current_time,
                handling,
                use_true_score,
            );
            plan == SortingScorePlan::TrueQuality || plan == SortingScorePlan::Base
        }),
{
}

/// In a list sorted for viewing, a comment younger than
/// `TIME_TO_KEEP_NEW_COMMENTS_AT_TOP` (but not made at this very
/// interaction) is lifted by its age, by every method but `New`.
pub proof fn lemma_young_comments_are_lifted(
    method: CommentListSortingMethod,
    creation_time: u32,
    current_time: i32,
    handling: LowScoreMemberHandling,
)
    requires
        method != CommentListSortingMethod::New,
        current_time > 0,
        age_fits(creation_time, current_time),
        0 < comment_age(creation_time, current_time) < TIME_TO_KEEP_NEW_COMMENTS_AT_TOP,
    ensures
        sorting_score_plan(method, creation_time, current_time, handling, false) == (
        SortingScorePlan::NewCommentBoost {
            age: comment_age(creation_time, current_time) as i32,
            current_time,
        }),
{
}

/// Where old comments are ignored, no comment's score is left to chance.
pub proof fn lemma_ignored_old_comments_are_never_drawn(
    method: CommentListSortingMethod,
    creation_time: u32,
    current_time: i32,
    use_true_score: bool,
)
    ensures
        !(sorting_score_plan(
            method,
            creation_time,
            current_time,
            LowScoreMemberHandling::Ignore,
            use_true_score,
        ) is LowScoreLottery),
{
}

/// A lottery is held only for a comment at least
/// `TIME_TO_KEEP_NEW_COMMENTS_AT_TOP` old, in a list sorted for viewing.
pub proof fn lemma_lottery_only_for_old_comments(
    method: CommentListSortingMethod,
    creation_time: u32,
    current_time: i32,
    handling: LowScoreMemberHandling,
    use_true_score: bool,
)
    requires
        sorting_score_plan(method, creation_time, current_time, handling, use_true_score) is LowScoreLottery,
    ensures
        current_time > 0,
        comment_age(creation_time, current_time) >= TIME_TO_KEEP_NEW_COMMENTS_AT_TOP,
        handling != LowScoreMemberHandling::Ignore,
{
}

/// A young comment (at a positive time) is judged by its age ratio alone,
/// whatever the handling of old comments: no random draw is made for it.
pub proof fn lemma_young_comments_are_never_drawn(
    creation_time: u32,
    current_time: i32,
    handling: LowScoreMemberHandling,
)
    requires
        current_time > 0,
        age_fits(creation_time, current_time),
        comment_age(creation_time, current_time) < TIME_TO_KEEP_NEW_COMMENTS_AT_TOP,
    ensures
        external_boost(creation_time, current_time, handling) == (ExternalBoost::NewComment {
            age: comment_age(creation_time, current_time) as i32,
            current_time,
        }),
{
}

/// A young comment, at a positive time, is judged by its age ratio; any
/// other comment goes to the lottery under every handling but `Ignore`, and
/// to nothing under `Ignore`, whatever its age.
pub proof fn lemma_external_boost_by_age(
    creation_time: u32,
    current_time: i32,
    handling: LowScoreMemberHandling,
)
    requires
        age_fits(creation_time, current_time),
    ensures
        ({
            let age = current_time - (creation_time as i32);
            let boost = external_boost(creation_time, current_time, handling);
            &&& current_time > 0 && age < 5 ==> boost == (ExternalBoost::NewComment {
                age: age as i32,
                current_time,
            })
            &&& !(current_time > 0 && age < 5) && handling != LowScoreMemberHandling::Ignore
                ==> boost == (ExternalBoost::Lottery { handling })
            &&& !(current_time > 0 && age < 5) && handling == LowScoreMemberHandling::Ignore
                ==> boost == ExternalBoost::NoBoost
        }),
{
}

/// Without the true score, a list sorted to evaluate a ranking (at a time
/// of zero or below) scores every comment by its method's base score.
pub proof fn lemma_evaluation_sort_uses_base_scores(
    method: CommentListSortingMethod,
    creation_time: u32,
    current_time: i32,
    handling: LowScoreMemberHandling,
)
    requires
        current_time <= 0,
    ensures
        sorting_score_plan(method, creation_time, current_time, handling, false)
            == SortingScorePlan::Base,
{
}

/// Without the true score, in a list sorted for viewing, every method but
/// `New` lifts a comment of age 1 to 4 by its age, scores a comment of age
/// zero or below by its base score, and holds a lottery for a comment of age
/// 5 or more unless old comments are ignored (then the base score).
pub proof fn lemma_viewing_sort_by_age(
    method: CommentListSortingMethod,
    creation_time: u32,
    current_time: i32,
    handling: LowScoreMemberHandling,
)
    requires
        method != CommentListSortingMethod::New,
        current_time > 0,
        age_fits(creation_time, current_time),
    ensures
        ({
            let age = current_time - (creation_time as i32);
            let plan = sorting_score_plan(method, creation_time, current_time, handling, false);
            &&& 0 < age < 5 ==> plan == (SortingScorePlan::NewCommentBoost {
                age: age as i32,
                current_time,
            })
            &&& age <= 0 ==> plan == SortingScorePlan::Base
            &&& age >= 5 && handling == LowScoreMemberHandling::Ignore ==> plan
                == SortingScorePlan::Base
            &&& age >= 5 && handling != LowScoreMemberHandling::Ignore ==> plan == (
            SortingScorePlan::LowScoreLottery { handling })
        }),
{
}

/// The base score of each method, over the vote counts: `Top` and `Hot`
/// score positive less negative votes; `New` the creation time; `Best` the
/// Wilson bound over the counts, on the score totals only for `RawScore`;
/// `Controversial` the difference and the total of the counts.
pub proof fn lemma_base_score_by_method(
    scoring: CommentScoringMethod,
    creation_time: u32,
    tally: VoteTally,
)
    requires
        tally.positive <= i32::MAX,
        tally.negative <= i32::MAX,
    ensures
        tally.negative <= tally.positive ==> base_sorting_score(
            CommentListSortingMethod::Top,
            scoring,
            creation_time,
            tally,
        ) == (BaseSortingScore::NetPositiveVotes { net: (tally.positive - tally.negative) as u32 }),
        tally.negative <= tally.positive ==> base_sorting_score(
            CommentListSortingMethod::Hot,
            scoring,
            creation_time,
            tally,
        ) == (BaseSortingScore::NetPositiveVotes { net: (tally.positive - tally.negative) as u32 }),
        base_sorting_score(CommentListSortingMethod::New, scoring, creation_time, tally) == (
        BaseSortingScore::CreationTime { time: creation_time }),
        base_sorting_score(CommentListSortingMethod::Best, scoring, creation_time, tally) == (
        BaseSortingScore::WilsonLowerBound {
            positive: tally.positive,
            negative: tally.negative,
            use_score_totals: scoring is RawScore,
        }),
        base_sorting_score(
            CommentListSortingMethod::Controversial,
            scoring,
            creation_time,
            tally,
        ) == (BaseSortingScore::Controversy {
            difference: (tally.positive - tally.negative) as i32,
            total: (tally.positive + tally.negative) as u32,
        }),
{
}

/// `Best` works on the score totals for `RawScore` and on the vote counts
/// for `ThumbsUpDown` and `ZeroToTen`.
pub proof fn lemma_best_uses_totals_only_for_raw_scores(creation_time: u32, tally: VoteTally)
    ensures
        base_sorting_score(
            CommentListSortingMethod::Best,
            CommentScoringMethod::RawScore,
            creation_time,
            tally,
        ) matches BaseSortingScore::WilsonLowerBound { use_score_totals, .. } && use_score_totals,
        base_sorting_score(
            CommentListSortingMethod::Best,
            CommentScoringMethod::ThumbsUpDown,
            creation_time,
            tally,
        ) matches BaseSortingScore::WilsonLowerBound { use_score_totals, .. } && !use_score_totals,
        base_sorting_score(
            CommentListSortingMethod::Best,
            CommentScoringMethod::ZeroToTen,
            creation_time,
            tally,
        ) matches BaseSortingScore::WilsonLowerBound { use_score_totals, .. } && !use_score_totals,
{
}

} // verus!
