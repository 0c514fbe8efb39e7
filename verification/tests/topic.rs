use comment_ranking::topic::TopicSimulation;

#[test]
fn first_interaction_leaves_a_comment_whatever_chance_says() {
    let mut topic = TopicSimulation::new(3, 10, 4);
    let step = topic.advance(false);
    assert!(step.make_comment);
    assert_eq!(step.interaction, 0);
    assert!(!step.record_checkpoint);
    assert_eq!(topic.comments_made(), 1);
    let step = topic.advance(false);
    assert!(!step.make_comment);
    assert_eq!(topic.comments_made(), 1);
}

#[test]
fn comments_stop_at_the_planned_number() {
    let mut topic = TopicSimulation::new(2, 10, 3);
    let mut made = 0;
    while !topic.is_finished() {
        if topic.advance(true).make_comment {
            made += 1;
        }
    }
    assert_eq!(made, 2);
    assert_eq!(topic.comments_made(), 2);
}

#[test]
fn topic_without_comments_never_gets_one() {
    let mut topic = TopicSimulation::new(0, 5, 1);
    while !topic.is_finished() {
        assert!(!topic.advance(true).make_comment);
    }
}

#[test]
fn checkpoints_fall_on_positive_multiples_of_the_interval() {
    let mut topic = TopicSimulation::new(5, 10, 3);
    let mut checkpoints = Vec::new();
    while !topic.is_finished() {
        let step = topic.advance(false);
        if step.record_checkpoint {
            checkpoints.push(step.interaction);
        }
    }
    assert_eq!(checkpoints, vec![3, 6, 9]);
    assert_eq!(topic.current_interaction(), 10);
}

#[test]
fn chance_terms_count_what_is_left() {
    let mut topic = TopicSimulation::new(4, 10, 5);
    assert_eq!(topic.comment_chance_terms(), (4, 10));
    topic.advance(false);
    assert_eq!(topic.comment_chance_terms(), (3, 9));
    topic.advance(true);
    assert_eq!(topic.comment_chance_terms(), (2, 8));
    topic.advance(false);
    assert_eq!(topic.comment_chance_terms(), (2, 7));
}

#[test]
fn chosen_users_are_among_the_topic_users() {
    let topic = TopicSimulation::new(1, 6, 2);
    let mut seen = [false; 6];
    for _ in 0..600 {
        let user = topic.choose_user();
        assert!(user < 6);
        seen[user as usize] = true;
    }
    assert!(seen.iter().filter(|s| **s).count() > 1);
}

#[test]
fn single_user_is_always_chosen() {
    let topic = TopicSimulation::new(1, 1, 1);
    for _ in 0..20 {
        assert_eq!(topic.choose_user(), 0);
    }
}
