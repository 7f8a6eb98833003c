use anki_classroom::scheduling::{
    check_flag, check_rating, elapsed_days, next_step, review_counts, reviewed_count, schedulable,
    CardState, StepOutcome,
};

const NOW: i64 = 1_700_000_000;

fn step(state: CardState, rating: i32, idx: i64, interval_days: i64) -> StepOutcome {
    next_step(state, rating, idx, &[60, 600], &[600], NOW, interval_days)
}

#[test]
fn new_card_good_enters_learning_second_step() {
    let o = step(CardState::New, 3, 0, 3);
    assert_eq!(o, StepOutcome { state: CardState::Learning, step_index: 1, due_at: NOW + 600 });
}

#[test]
fn new_card_easy_graduates() {
    let o = step(CardState::New, 4, 0, 3);
    assert_eq!(o, StepOutcome { state: CardState::Review, step_index: 0, due_at: NOW + 3 * 86400 });
}

#[test]
fn new_card_hard_starts_learning() {
    let o = step(CardState::New, 2, 0, 3);
    assert_eq!(o, StepOutcome { state: CardState::Learning, step_index: 0, due_at: NOW + 60 });
}

#[test]
fn again_relearns_at_once() {
    for state in [CardState::New, CardState::Learning, CardState::Review, CardState::Relearning] {
        let o = step(state, 1, 1, 3);
        assert_eq!(o, StepOutcome { state: CardState::Relearning, step_index: 0, due_at: NOW });
    }
    let o = step(CardState::Other, 1, 4, 3);
    assert_eq!(o, StepOutcome { state: CardState::Other, step_index: 4, due_at: NOW });
    let e = next_step(CardState::New, 1, 0, &[], &[], NOW, 1);
    assert_eq!(e, StepOutcome { state: CardState::Relearning, step_index: 0, due_at: NOW });
}

#[test]
fn learning_last_step_graduates() {
    let o = step(CardState::Learning, 3, 1, 2);
    assert_eq!(o, StepOutcome { state: CardState::Review, step_index: 0, due_at: NOW + 2 * 86400 });
    let h = step(CardState::Learning, 2, 0, 2);
    assert_eq!(h, StepOutcome { state: CardState::Learning, step_index: 1, due_at: NOW + 600 });
}

#[test]
fn review_again_lapses_to_relearning() {
    let o = step(CardState::Review, 1, 0, 5);
    assert_eq!(o, StepOutcome { state: CardState::Relearning, step_index: 0, due_at: NOW });
    let g = step(CardState::Review, 3, 0, 5);
    assert_eq!(g, StepOutcome { state: CardState::Review, step_index: 0, due_at: NOW + 5 * 86400 });
}

#[test]
fn relearning_good_with_one_step_graduates() {
    let o = step(CardState::Relearning, 3, 0, 1);
    assert_eq!(o, StepOutcome { state: CardState::Review, step_index: 0, due_at: NOW + 86400 });
    let a = step(CardState::Relearning, 1, 0, 1);
    assert_eq!(a, StepOutcome { state: CardState::Relearning, step_index: 0, due_at: NOW });
}

#[test]
fn unknown_state_is_kept() {
    let o = step(CardState::Other, 2, 4, 1);
    assert_eq!(o, StepOutcome { state: CardState::Other, step_index: 4, due_at: NOW + 86400 });
}

#[test]
fn review_with_empty_learning_steps_does_not_need_them() {
    let o = next_step(CardState::Review, 3, 0, &[], &[600], NOW, 1);
    assert_eq!(o.state, CardState::Review);
}

#[test]
fn state_names() {
    assert_eq!(CardState::from_db("new"), CardState::New);
    assert_eq!(CardState::from_db("relearning"), CardState::Relearning);
    assert_eq!(CardState::from_db("suspended"), CardState::Other);
    assert_eq!(CardState::Review.to_db(), Some("review".to_string()));
    assert_eq!(CardState::Other.to_db(), None);
}

#[test]
fn ratings_and_flags() {
    assert!(check_rating(1).is_ok());
    assert!(check_rating(4).is_ok());
    assert_eq!(check_rating(0), Err("Rating must be between 1 and 4"));
    assert_eq!(check_rating(5), Err("Rating must be between 1 and 4"));
    assert!(check_flag(0).is_ok());
    assert!(check_flag(7).is_ok());
    assert_eq!(check_flag(8), Err("Flag must be between 0 and 7"));
    assert_eq!(check_flag(-1), Err("Flag must be between 0 and 7"));
}

#[test]
fn counts_after_review() {
    assert_eq!(review_counts(3, 1, 1), (4, 2));
    assert_eq!(review_counts(3, 1, 3), (4, 1));
}

#[test]
fn counts_reviewed_cards() {
    assert_eq!(reviewed_count(&[0, 3, 0, 1]), 2);
    assert_eq!(reviewed_count(&[]), 0);
}

#[test]
fn every_review_is_due_now_or_later() {
    let states = [
        CardState::New,
        CardState::Learning,
        CardState::Review,
        CardState::Relearning,
        CardState::Other,
    ];
    for state in states {
        for rating in 1..=4 {
            for idx in 0..2 {
                let o = next_step(state, rating, idx, &[60, 600], &[600], NOW, 1);
                if rating == 1 {
                    assert_eq!(o.due_at, NOW);
                } else {
                    assert!(o.due_at > NOW);
                }
            }
        }
    }
}

#[test]
fn elapsed_whole_days() {
    assert_eq!(elapsed_days(NOW, None), 0);
    assert_eq!(elapsed_days(NOW, Some(NOW + 5)), 0);
    assert_eq!(elapsed_days(NOW, Some(NOW)), 0);
    assert_eq!(elapsed_days(NOW, Some(NOW - 86399)), 0);
    assert_eq!(elapsed_days(NOW, Some(NOW - 3 * 86400 - 5)), 3);
    assert_eq!(elapsed_days(i64::MAX, Some(0)), u32::MAX);
    for (now, since) in [(NOW, NOW - 12_345_678), (86_400 * 7, 0), (i64::MAX, 1), (5, -(1 << 52))] {
        let float_days = ((now - since).max(0) as f64 / 86400.0) as u32;
        assert_eq!(elapsed_days(now, Some(since)), float_days);
    }
}

#[test]
fn schedulable_inputs() {
    assert!(schedulable(CardState::New, 1, 0, &[], &[], NOW, 1));
    assert!(!schedulable(CardState::New, 2, 0, &[], &[], NOW, 1));
    assert!(schedulable(CardState::New, 2, 0, &[60], &[], NOW, 1));
    assert!(!schedulable(CardState::Review, 0, 0, &[60], &[600], NOW, 1));
    assert!(!schedulable(CardState::Review, 3, 0, &[60], &[600], NOW, i64::MAX));
    assert!(!schedulable(CardState::Learning, 3, -5, &[60, 600], &[600], NOW, 1));
    assert!(schedulable(CardState::Learning, 3, 1, &[60, 600], &[600], NOW, 1));
    assert!(!schedulable(CardState::Review, 3, 0, &[], &[], i64::MAX - 10, 1));
}
