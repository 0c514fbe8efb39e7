use vstd::prelude::*;

use rand::seq::SliceRandom;

verus! {

/// The interactions, among the first `upto`, after which the ranking of a
/// topic is measured: every positive multiple of `interval`.
pub open spec fn checkpoint_schedule(upto: nat, interval: nat) -> Seq<int>
    decreases upto,
{
    if upto == 0 {
        Seq::empty()
    } else {
        let j = (upto - 1) as nat;
        let earlier = checkpoint_schedule(j, interval);
        if interval != 0 && j % interval == 0 && j > 0 {
            earlier.push(j as int)
        } else {
            earlier
        }
    }
}

/// Whether an interaction leaves a new comment: only while the topic has
/// room for more comments, and then where chance says so or no comment has
/// been made yet.
pub open spec fn makes_comment(comments_made: nat, number_of_comments: nat, chance_says_make_comment: bool) -> bool {
    comments_made < number_of_comments && (chance_says_make_comment || comments_made < 1)
}

/// Whether the ranking is measured after interaction `interaction`.
pub open spec fn records_checkpoint(interaction: nat, interval: nat) -> bool {
    interaction % interval == 0 && interaction > 0
}

/// The control state of one simulated topic.
pub struct TopicState {
    pub number_of_comments: nat,
    pub number_of_user_interactions: nat,
    pub checkpoint_interval: nat,
    /// The interaction about to take place (all of them have once it equals
    /// `number_of_user_interactions`).
    pub current_interaction: nat,
    pub comments_made: nat,
    /// The interactions after which the ranking has been measured so far.
    pub checkpoints: Seq<int>,
}

/// What one interaction of a topic does.
#[derive(Clone, Copy, Debug, PartialEq, Eq, Structural)]
pub struct InteractionStep {
    /// The number of the interaction.
    pub interaction: u32,
    /// Whether the interacting user adds a comment.
    pub make_comment: bool,
    /// Whether the ranking is measured after the interaction.
    pub record_checkpoint: bool,
}

/// The progress of one simulated topic: which interaction comes next, how
/// many comments the topic holds, and when its ranking is measured.  Users
/// are known by number, `0` up to the number of interactions.
pub struct TopicSimulation {
    number_of_comments: u32,
    number_of_user_interactions: u32,
    checkpoint_interval: u32,
    user_ids: Vec<u32>,
    current_interaction: u32,
    comments_made: u32,
    checkpoints: Ghost<Seq<int>>,
}

/// Picks one of `ids` at random; `None` where there is none.
///
/// Calls `rand::seq::SliceRandom::choose` with the thread-local generator.
/// Its contract claims only what that function documents: `None` exactly for
/// an empty slice, and otherwise one of the slice's elements.
#[verifier::external_body]
fn choose_user_id(ids: &Vec<u32>) -> (chosen: Option<u32>)
    ensures
        chosen is None <==> ids@.len() == 0,
        chosen matches Some(id) ==> ids@.contains(id),
{
    ids.as_slice().choose(&mut rand::thread_rng()).copied()
}

impl View for TopicSimulation {
    type V = TopicState;

    closed spec fn view(&self) -> TopicState {
        TopicState {
            number_of_comments: self.number_of_comments as nat,
            number_of_user_interactions: self.number_of_user_interactions as nat,
            checkpoint_interval: self.checkpoint_interval as nat,
            current_interaction: self.current_interaction as nat,
            comments_made: self.comments_made as nat,
            checkpoints: self.checkpoints@,
        }
    }
}

impl TopicSimulation {
    /// The state is consistent: never more comments than planned, never past
    /// the last interaction, users numbered by position, and the measurements
    /// taken exactly those the schedule asks for so far.
    pub closed spec fn well_formed(self) -> bool {
        &&& self.checkpoint_interval > 0
        &&& self.current_interaction <= self.number_of_user_interactions
        &&& self.comments_made <= self.number_of_comments
        &&& self.user_ids@.len() == self.number_of_user_interactions
        &&& forall|i: int| 0 <= i < self.user_ids@.len() ==> #[trigger] self.user_ids@[i] == i
        &&& self.checkpoints@ == checkpoint_schedule(
            self.current_interaction as nat,
            self.checkpoint_interval as nat,
        )
    }

    /// The state of a topic is always consistent: never more comments than
    /// planned, never past the last interaction, and the measurements taken
    /// are exactly those the schedule asks for so far.
    pub proof fn lemma_state_is_consistent(topic: TopicSimulation)
        requires
            topic.well_formed(),
        ensures
            topic@.checkpoint_interval > 0,
            topic@.current_interaction <= topic@.number_of_user_interactions,
            topic@.comments_made <= topic@.number_of_comments,
            topic@.checkpoints == checkpoint_schedule(
                topic@.current_interaction,
                topic@.checkpoint_interval,
            ),
    {
    }

    /// Starts a topic that is to collect `number_of_comments` comments over
    /// `number_of_user_interactions` interactions, measuring its ranking every
    /// `checkpoint_progress_interaction_count` interactions.  One user is
    /// created per interaction.  An interval of zero is no input: the number
    /// of measurements is the number of interactions divided by it.
    pub fn new(
        number_of_comments: u32,
        number_of_user_interactions: u32,
        checkpoint_progress_interaction_count: u32,
    ) -> (topic: Self)
        requires
            checkpoint_progress_interaction_count > 0,
        ensures
            topic.well_formed(),
            topic@ == (TopicState {
                number_of_comments: number_of_comments as nat,
                number_of_user_interactions: number_of_user_interactions as nat,
                checkpoint_interval: checkpoint_progress_interaction_count as nat,
                current_interaction: 0,
                comments_made: 0,
                checkpoints: Seq::empty(),
            }),
    {
        let mut user_ids: Vec<u32> = Vec::new();
        let mut user_index: u32 = 0;
        while user_index < number_of_user_interactions
            invariant
                user_index <= number_of_user_interactions,
                user_ids@.len() == user_index,
                forall|i: int| 0 <= i < user_ids@.len() ==> #[trigger] user_ids@[i] == i,
            decreases number_of_user_interactions - user_index,
        {
            user_ids.push(user_index);
            user_index = user_index + 1;
        }
        TopicSimulation {
            number_of_comments,
            number_of_user_interactions,
            checkpoint_interval: checkpoint_progress_interaction_count,
            user_ids,
            current_interaction: 0,
            comments_made: 0,
            checkpoints: Ghost(Seq::empty()),
        }
    }

    /// Whether every interaction has taken place.
    pub fn is_finished(&self) -> (finished: bool)
        ensures
            finished == (self@.current_interaction >= self@.number_of_user_interactions),
    {
        self.current_interaction >= self.number_of_user_interactions
    }

    /// The interaction about to take place.
    pub fn current_interaction(&self) -> (interaction: u32)
        ensures
            interaction == self@.current_interaction,
    {
        self.current_interaction
    }

    /// The number of comments made so far.
    pub fn comments_made(&self) -> (made: u32)
        ensures
            made == self@.comments_made,
    {
        self.comments_made
    }

    /// Picks, at random, the user of the coming interaction.
    pub fn choose_user(&self) -> (user: u32)
        requires
            self.well_formed(),
            self@.current_interaction < self@.number_of_user_interactions,
        ensures
            user < self@.number_of_user_interactions,
    {
        let chosen = choose_user_id(&self.user_ids);
        let user = chosen.unwrap();
        proof {
            let i = choose|i: int| 0 <= i < self.user_ids@.len() && self.user_ids@[i] == user;
            assert(self.user_ids@[i] == i);
        }
        user
    }

    /// The two terms of the even chance of commenting at the coming
    /// interaction: the comments still to be made and the interactions still
    /// to come (this one included).
    pub fn comment_chance_terms(&self) -> (terms: (u32, u32))
        requires
            self.well_formed(),
            self@.current_interaction < self@.number_of_user_interactions,
        ensures
            terms.0 == self@.number_of_comments - self@.comments_made,
            terms.1 == self@.number_of_user_interactions - self@.current_interaction,
            terms.1 > 0,
    {
        (
            self.number_of_comments - self.comments_made,
            self.number_of_user_interactions - self.current_interaction,
        )
    }

    /// Takes the coming interaction: decides whether its user adds a comment
    /// (`chance_says_make_comment` is the outcome of the random draw) and
    /// whether the ranking is measured after it.
    pub fn advance(&mut self, chance_says_make_comment: bool) -> (step: InteractionStep)
        requires
            old(self).well_formed(),
            old(self)@.current_interaction < old(self)@.number_of_user_interactions,
        ensures
            final(self).well_formed(),
            step.interaction == old(self)@.current_interaction,
            step.make_comment == makes_comment(
                old(self)@.comments_made,
                old(self)@.number_of_comments,
                chance_says_make_comment,
            ),
            old(self)@.comments_made < old(self)@.number_of_comments && chance_says_make_comment
                ==> step.make_comment,
            old(self)@.comments_made == 0 && old(self)@.number_of_comments > 0
                ==> step.make_comment,
            old(self)@.comments_made >= old(self)@.number_of_comments ==> !step.make_comment,
            old(self)@.comments_made > 0 && !chance_says_make_comment ==> !step.make_comment,
            step.record_checkpoint <==> (old(self)@.current_interaction > 0
                && old(self)@.current_interaction % old(self)@.checkpoint_interval == 0),
            step.record_checkpoint == records_checkpoint(
                old(self)@.current_interaction,
                old(self)@.checkpoint_interval,
            ),
            final(self)@ == (TopicState {
                current_interaction: old(self)@.current_interaction + 1,
                comments_made: old(self)@.comments_made + if step.make_comment {
                    1nat
                } else {
                    0nat
                },
                checkpoints: if step.record_checkpoint {
                    old(self)@.checkpoints.push(old(self)@.current_interaction as int)
                } else {
                    old(self)@.checkpoints
                },
                ..old(self)@
            }),
    {
        let interaction = self.current_interaction;
        let make_comment = self.comments_made < self.number_of_comments && (
        chance_says_make_comment || self.comments_made < 1);
        let record_checkpoint = interaction % self.checkpoint_interval == 0 && interaction > 0;
        let ghost new_checkpoints = if record_checkpoint {
            self.checkpoints@.push(interaction as int)
        } else {
            self.checkpoints@
        };
        if make_comment {
            self.comments_made = self.comments_made + 1;
        }
        self.current_interaction = interaction + 1;
        self.checkpoints = Ghost(new_checkpoints);
        InteractionStep { interaction, make_comment, record_checkpoint }
    }
}

/// The first interaction of a topic that is to hold any comment always
/// leaves one, whatever chance says.
pub proof fn lemma_first_interaction_leaves_a_comment(
    number_of_comments: nat,
    chance_says_make_comment: bool,
)
    requires
        number_of_comments >= 1,
    ensures
        makes_comment(0, number_of_comments, chance_says_make_comment),
{
}

/// A topic never holds more comments than planned: an interaction adds a
/// comment only while there is room for it.
pub proof fn lemma_comments_never_exceed_plan(
    comments_made: nat,
    number_of_comments: nat,
    chance_says_make_comment: bool,
)
    requires
        comments_made <= number_of_comments,
    ensures
        comments_made + (if makes_comment(comments_made, number_of_comments, chance_says_make_comment) {
            1int
        } else {
            0int
        }) <= number_of_comments,
{
}

proof fn lemma_count_of_multiples_step(j: int, k: int)
    requires
        j >= 1,
        k >= 1,
    ensures
        j / k == (j - 1) / k + if j % k == 0 {
            1int
        } else {
            0int
        },
        j % k == 0 ==> j == k * (j / k),
{
    let q = (j - 1) / k;
    let r = (j - 1) % k;
    vstd::arithmetic::div_mod::lemma_fundamental_div_mod(j - 1, k);
    assert(0 <= r < k);
    assert(j - 1 == q * k + r) by (nonlinear_arith)
        requires
            j - 1 == k * q + r,
    ;
    if r == k - 1 {
        assert(j == (q + 1) * k + 0) by (nonlinear_arith)
            requires
                j - 1 == q * k + r,
                r == k - 1,
        ;
        vstd::arithmetic::div_mod::lemma_fundamental_div_mod_converse_div(j, k, q + 1, 0);
        vstd::arithmetic::div_mod::lemma_fundamental_div_mod_converse_mod(j, k, q + 1, 0);
        assert(j == k * (q + 1)) by (nonlinear_arith)
            requires
                j == (q + 1) * k + 0,
        ;
    } else {
        assert(j == q * k + (r + 1));
        vstd::arithmetic::div_mod::lemma_fundamental_div_mod_converse_div(j, k, q, r + 1);
        vstd::arithmetic::div_mod::lemma_fundamental_div_mod_converse_mod(j, k, q, r + 1);
    }
}

/// The ranking of a topic is measured after interactions `interval`,
/// `2 * interval`, ... and no others: among the first `upto` interactions
/// that is `(upto - 1) / interval` measurements, the `m`-th after
/// interaction `(m + 1) * interval`.
pub proof fn lemma_checkpoint_schedule(upto: nat, interval: nat)
    requires
        interval > 0,
    ensures
        checkpoint_schedule(upto, interval).len() == if upto == 0 {
            0int
        } else {
            (upto - 1) / (interval as int)
        },
        forall|m: int|
            0 <= m < checkpoint_schedule(upto, interval).len() ==> #[trigger] checkpoint_schedule(
                upto,
                interval,
            )[m] == (m + 1) * interval,
    decreases upto,
{
    if upto > 0 {
        let j = (upto - 1) as nat;
        lemma_checkpoint_schedule(j, interval);
        let earlier = checkpoint_schedule(j, interval);
        if j > 0 {
            lemma_count_of_multiples_step(j as int, interval as int);
            if j % interval == 0 {
                let m = earlier.len() as int;
                assert(m == (j as int) / (interval as int) - 1);
                assert(j as int == (m + 1) * interval) by (nonlinear_arith)
                    requires
                        j as int == interval * ((j as int) / (interval as int)),
                        m == (j as int) / (interval as int) - 1,
                ;
            }
        }
    }
}

/// Once every interaction of a topic with at least one interaction has taken
/// place, its ranking has been measured `(interactions - 1) / interval`
/// times, the `m`-th time after interaction `(m + 1) * interval`.
pub proof fn lemma_finished_topic_measurements(topic: TopicSimulation)
    requires
        topic.well_formed(),
        topic@.current_interaction == topic@.number_of_user_interactions,
        topic@.number_of_user_interactions >= 1,
    ensures
        topic@.checkpoints.len() == (topic@.number_of_user_interactions - 1) / (
        topic@.checkpoint_interval as int),
        forall|m: int|
            0 <= m < topic@.checkpoints.len() ==> #[trigger] topic@.checkpoints[m] == (m + 1)
                * topic@.checkpoint_interval,
{
    TopicSimulation::lemma_state_is_consistent(topic);
    lemma_checkpoint_schedule(topic@.current_interaction, topic@.checkpoint_interval);
}

/// An interaction leaves a comment exactly where the topic has room for one
/// and either chance says so or no comment has been made yet: with room and
/// chance it always does, whatever the number already made; without room it
/// never does; after the first comment it never does against chance.
pub proof fn lemma_comment_decision(
    comments_made: nat,
    number_of_comments: nat,
    chance_says_make_comment: bool,
)
    ensures
        comments_made < number_of_comments && chance_says_make_comment ==> makes_comment(
            comments_made,
            number_of_comments,
            chance_says_make_comment,
        ),
        comments_made >= number_of_comments ==> !makes_comment(
            comments_made,
            number_of_comments,
            chance_says_make_comment,
        ),
        comments_made > 0 && !chance_says_make_comment ==> !makes_comment(
            comments_made,
            number_of_comments,
            chance_says_make_comment,
        ),
{
}

/// A topic whose chance draw always says yes gets a comment at each of its
/// first `number_of_comments` interactions: after `k` such interactions it
/// holds `min(k, number_of_comments)` comments.
pub proof fn lemma_willing_users_fill_the_topic(number_of_comments: nat, k: nat)
    ensures
        comments_after_willing_interactions(number_of_comments, k) == if k < number_of_comments {
            k
        } else {
            number_of_comments
        },
    decreases k,
{
    if k > 0 {
        lemma_willing_users_fill_the_topic(number_of_comments, (k - 1) as nat);
    }
}

/// The comments a topic holds after `k` interactions whose chance draw says
/// yes, each decided by `makes_comment`.
pub open spec fn comments_after_willing_interactions(number_of_comments: nat, k: nat) -> nat
    decreases k,
{
    if k == 0 {
        0
    } else {
        let before = comments_after_willing_interactions(number_of_comments, (k - 1) as nat);
        if makes_comment(before, number_of_comments, true) {
            before + 1
        } else {
            before
        }
    }
}

} // verus!
