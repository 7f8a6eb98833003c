//! Review scheduling: how a rating moves a card between the learning,
//! review and relearning states, following Anki's step model.
//!
//! The memory model (stability, difficulty and the interval in days) comes
//! from the FSRS scheduler, which works in floating point; this module takes
//! the rounded interval as an integer and decides the card's next state,
//! step and due time.

use vstd::prelude::*;

use crate::text::{chars_equal, chars_of};

verus! {

/// The seconds in one day.
pub const SECONDS_PER_DAY: i64 = 86400;

/// The scheduling state of a card for one student.
#[derive(PartialEq, Eq, Structural, Clone, Copy, Debug)]
pub enum CardState {
    New,
    Learning,
    Review,
    Relearning,
    /// Any other stored value; such a card keeps its stored state.
    Other,
}

/// The state named by a stored state string.
pub open spec fn state_named(s: Seq<char>) -> CardState {
    if s == "new"@ {
        CardState::New
    } else if s == "learning"@ {
        CardState::Learning
    } else if s == "review"@ {
        CardState::Review
    } else if s == "relearning"@ {
        CardState::Relearning
    } else {
        CardState::Other
    }
}

/// The stored name of a state (empty for `Other`, which keeps its own).
pub open spec fn state_name(k: CardState) -> Seq<char> {
    match k {
        CardState::New => "new"@,
        CardState::Learning => "learning"@,
        CardState::Review => "review"@,
        CardState::Relearning => "relearning"@,
        CardState::Other => Seq::empty(),
    }
}

impl CardState {
    /// Reads a stored state string.
    pub fn from_db(s: &str) -> (r: CardState)
        ensures
            r == state_named(s@),
    {
        let v = chars_of(s);
        if chars_equal(&v, &chars_of("new")) {
            CardState::New
        } else if chars_equal(&v, &chars_of("learning")) {
            CardState::Learning
        } else if chars_equal(&v, &chars_of("review")) {
            CardState::Review
        } else if chars_equal(&v, &chars_of("relearning")) {
            CardState::Relearning
        } else {
            CardState::Other
        }
    }

    /// The string stored for this state; `None` for `Other`, whose stored
    /// string is kept as it was.
    pub fn to_db(&self) -> (r: Option<String>)
        ensures
            match r {
                Some(s) => *self != CardState::Other && s@ == state_name(*self) && state_named(s@)
                    == *self,
                None => *self == CardState::Other,
            },
    {
        proof {
            if *self != CardState::Other {
                law_state_names_roundtrip(*self);
            }
        }
        match self {
            CardState::New => Some(String::from_str("new")),
            CardState::Learning => Some(String::from_str("learning")),
            CardState::Review => Some(String::from_str("review")),
            CardState::Relearning => Some(String::from_str("relearning")),
            CardState::Other => None,
        }
    }
}

/// Where a rating leaves a card.
#[derive(PartialEq, Eq, Structural, Clone, Copy, Debug)]
pub struct StepOutcome {
    pub state: CardState,
    pub step_index: i64,
    pub due_at: i64,
}

/// Moving one step on along `steps` from `step`: the next step, or
/// graduation to review when `step` was the last one.
pub open spec fn advance(steps: Seq<i64>, step: int, stay: CardState, now: int, interval_secs: int) -> (CardState, int, int) {
    if step + 1 >= steps.len() {
        (CardState::Review, 0, now + interval_secs)
    } else {
        (stay, step + 1, now + steps[step + 1])
    }
}

/// The state, step and due time after a review with `rating`
/// (1 Again, 2 Hard, 3 Good, 4 Easy).
///
/// - Again puts a new, learning, review or relearning card in relearning on
///   its first step, due at once (`now`); a card with any other stored state
///   keeps it and is also due at once.
/// - Easy graduates a new, learning or relearning card to review at once.
/// - Good (and Hard, except for new cards) advances one step; passing the
///   last step graduates the card.
/// - A review card stays in review on Hard, Good or Easy.
/// - Graduated and review cards are due after the FSRS interval.
pub open spec fn schedule(
    state: CardState,
    rating: int,
    step: int,
    learning: Seq<i64>,
    relearning: Seq<i64>,
    now: int,
    interval_secs: int,
) -> (CardState, int, int) {
    if rating == 1 {
        match state {
            CardState::Other => (CardState::Other, step, now),
            _ => (CardState::Relearning, 0, now),
        }
    } else {
        match state {
            CardState::New => if rating == 4 {
                (CardState::Review, 0, now + interval_secs)
            } else if rating == 3 {
                advance(learning, step, CardState::Learning, now, interval_secs)
            } else {
                (CardState::Learning, 0, now + learning[0])
            },
            CardState::Learning => if rating == 2 || rating == 3 {
                advance(learning, step, CardState::Learning, now, interval_secs)
            } else {
                (CardState::Review, 0, now + interval_secs)
            },
            CardState::Review => (CardState::Review, step, now + interval_secs),
            CardState::Relearning => if rating == 2 || rating == 3 {
                advance(relearning, step, CardState::Relearning, now, interval_secs)
            } else {
                (CardState::Review, 0, now + interval_secs)
            },
            CardState::Other => (CardState::Other, step, now + interval_secs),
        }
    }
}

/// Whether a value fits in an `i64`.
pub open spec fn fits_i64(x: int) -> bool {
    i64::MIN <= x <= i64::MAX
}

/// Moving one step on is defined: the next index and the sum fit.
pub open spec fn advance_defined(steps: Seq<i64>, step: int, now: int, interval_secs: int) -> bool {
    &&& steps.len() <= i64::MAX
    &&& step + 1 <= i64::MAX
    &&& step + 1 >= 0
    &&& if step + 1 >= steps.len() {
        fits_i64(now + interval_secs)
    } else {
        fits_i64(now + steps[step + 1])
    }
}

/// The first step of `steps` exists and its due time fits.
pub open spec fn first_step_defined(steps: Seq<i64>, now: int) -> bool {
    steps.len() > 0 && fits_i64(now + steps[0])
}

/// The inputs on which [`schedule`] is computed without an index out of
/// range or an arithmetic overflow.
pub open spec fn schedule_defined(
    state: CardState,
    rating: int,
    step: int,
    learning: Seq<i64>,
    relearning: Seq<i64>,
    now: int,
    interval_days: int,
) -> bool {
    let interval_secs = interval_days * 86400;
    &&& 1 <= rating <= 4
    &&& fits_i64(interval_secs)
    &&& if rating == 1 {
        true
    } else {
        match state {
            CardState::New => if rating == 4 {
                fits_i64(now + interval_secs)
            } else if rating == 3 {
                advance_defined(learning, step, now, interval_secs)
            } else {
                first_step_defined(learning, now)
            },
            CardState::Learning => if rating == 2 || rating == 3 {
                advance_defined(learning, step, now, interval_secs)
            } else {
                fits_i64(now + interval_secs)
            },
            CardState::Review => fits_i64(now + interval_secs),
            CardState::Relearning => if rating == 2 || rating == 3 {
                advance_defined(relearning, step, now, interval_secs)
            } else {
                fits_i64(now + interval_secs)
            },
            CardState::Other => fits_i64(now + interval_secs),
        }
    }
}

/// The outcome as a triple.
pub open spec fn outcome_triple(o: StepOutcome) -> (CardState, int, int) {
    (o.state, o.step_index as int, o.due_at as int)
}

fn advance_exec(steps: &[i64], step: i64, stay: CardState, now: i64, interval_secs: i64) -> (r: StepOutcome)
    requires
        advance_defined(steps@, step as int, now as int, interval_secs as int),
    ensures
        outcome_triple(r) == advance(steps@, step as int, stay, now as int, interval_secs as int),
{
    let next = step + 1;
    if next >= steps.len() as i64 {
        StepOutcome { state: CardState::Review, step_index: 0, due_at: now + interval_secs }
    } else {
        StepOutcome { state: stay, step_index: next, due_at: now + steps[next as usize] }
    }
}

/// The state, step and due time of a card after a review.
///
/// `interval_days` is the FSRS interval for the given rating, already
/// rounded to whole days (at least one).
pub fn next_step(
    state: CardState,
    rating: i32,
    step_index: i64,
    learning_steps: &[i64],
    relearning_steps: &[i64],
    now: i64,
    interval_days: i64,
) -> (r: StepOutcome)
    requires
        schedule_defined(
            state,
            rating as int,
            step_index as int,
            learning_steps@,
            relearning_steps@,
            now as int,
            interval_days as int,
        ),
    ensures
        outcome_triple(r) == schedule(
            state,
            rating as int,
            step_index as int,
            learning_steps@,
            relearning_steps@,
            now as int,
            interval_days * 86400,
        ),
{
    let interval_secs = interval_days * SECONDS_PER_DAY;
    if rating == 1 {
        return match state {
            CardState::Other => StepOutcome { state: CardState::Other, step_index: step_index, due_at: now },
            _ => StepOutcome { state: CardState::Relearning, step_index: 0, due_at: now },
        };
    }
    match state {
        CardState::New => {
            if rating == 4 {
                StepOutcome { state: CardState::Review, step_index: 0, due_at: now + interval_secs }
            } else if rating == 3 {
                advance_exec(learning_steps, step_index, CardState::Learning, now, interval_secs)
            } else {
                StepOutcome {
                    state: CardState::Learning,
                    step_index: 0,
                    due_at: now + learning_steps[0],
                }
            }
        },
        CardState::Learning => {
            if rating == 2 || rating == 3 {
                advance_exec(learning_steps, step_index, CardState::Learning, now, interval_secs)
            } else {
                StepOutcome { state: CardState::Review, step_index: 0, due_at: now + interval_secs }
            }
        },
        CardState::Review => {
            StepOutcome { state: CardState::Review, step_index: step_index, due_at: now + interval_secs }
        },
        CardState::Relearning => {
            if rating == 2 || rating == 3 {
                advance_exec(
                    relearning_steps,
                    step_index,
                    CardState::Relearning,
                    now,
                    interval_secs,
                )
            } else {
                StepOutcome { state: CardState::Review, step_index: 0, due_at: now + interval_secs }
            }
        },
        CardState::Other => {
            StepOutcome { state: CardState::Other, step_index: step_index, due_at: now + interval_secs }
        },
    }
}

/// Whether a review with these inputs can be scheduled without an index
/// out of range or an arithmetic overflow: exactly the inputs that
/// [`next_step`] accepts.
pub fn schedulable(
    state: CardState,
    rating: i32,
    step_index: i64,
    learning_steps: &[i64],
    relearning_steps: &[i64],
    now: i64,
    interval_days: i64,
) -> (r: bool)
    ensures
        r == schedule_defined(
            state,
            rating as int,
            step_index as int,
            learning_steps@,
            relearning_steps@,
            now as int,
            interval_days as int,
        ),
{
    if rating < 1 || rating > 4 {
        return false;
    }
    let interval_secs = match interval_days.checked_mul(SECONDS_PER_DAY) {
        Some(v) => v,
        None => return false,
    };
    if rating == 1 {
        return true;
    }
    match state {
        CardState::New => {
            if rating == 4 {
                now.checked_add(interval_secs).is_some()
            } else if rating == 3 {
                advance_ok(learning_steps, step_index, now, interval_secs)
            } else {
                learning_steps.len() > 0 && now.checked_add(learning_steps[0]).is_some()
            }
        },
        CardState::Learning => {
            if rating == 2 || rating == 3 {
                advance_ok(learning_steps, step_index, now, interval_secs)
            } else {
                now.checked_add(interval_secs).is_some()
            }
        },
        CardState::Relearning => {
            if rating == 2 || rating == 3 {
                advance_ok(relearning_steps, step_index, now, interval_secs)
            } else {
                now.checked_add(interval_secs).is_some()
            }
        },
        _ => now.checked_add(interval_secs).is_some(),
    }
}

fn advance_ok(steps: &[i64], step: i64, now: i64, interval_secs: i64) -> (r: bool)
    ensures
        r == advance_defined(steps@, step as int, now as int, interval_secs as int),
{
    if steps.len() as u64 > 0x7fff_ffff_ffff_ffffu64 {
        return false;
    }
    let next = match step.checked_add(1) {
        Some(v) => v,
        None => return false,
    };
    if next < 0 {
        return false;
    }
    if next >= steps.len() as i64 {
        now.checked_add(interval_secs).is_some()
    } else {
        now.checked_add(steps[next as usize]).is_some()
    }
}

} // verus!

verus! {

/// Whole days from `since` to `now` (none when `since` is absent or later
/// than `now`), at most `u32::MAX`: the elapsed time that the FSRS
/// scheduler is given.
pub fn elapsed_days(now: i64, since: Option<i64>) -> (r: u32)
    requires
        since matches Some(t) ==> i64::MIN <= now - t <= i64::MAX,
    ensures
        r == match since {
            Some(t) => if now - t <= 0 {
                0
            } else if (now - t) / 86400 > u32::MAX {
                u32::MAX as int
            } else {
                (now - t) / 86400
            },
            None => 0,
        },
{
    match since {
        Some(t) => {
            let d = now - t;
            if d <= 0 {
                0
            } else if d / 86400 > 0xffff_ffff {
                0xffff_ffff
            } else {
                (d / 86400) as u32
            }
        },
        None => 0,
    }
}

/// Checks that a rating is one of 1 (Again), 2 (Hard), 3 (Good), 4 (Easy).
pub fn check_rating(rating: i32) -> (r: Result<(), &'static str>)
    ensures
        r is Ok <==> 1 <= rating <= 4,
        r matches Err(m) ==> m@ == "Rating must be between 1 and 4"@,
{
    if 1 <= rating && rating <= 4 {
        Ok(())
    } else {
        Err("Rating must be between 1 and 4")
    }
}

/// Checks that a card flag is between 0 (no flag) and 7.
pub fn check_flag(flag: i32) -> (r: Result<(), &'static str>)
    ensures
        r is Ok <==> 0 <= flag <= 7,
        r matches Err(m) ==> m@ == "Flag must be between 0 and 7"@,
{
    if 0 <= flag && flag <= 7 {
        Ok(())
    } else {
        Err("Flag must be between 0 and 7")
    }
}

/// The review and lapse counts after a review: every review counts, and
/// an Again is also a lapse.
pub fn review_counts(reps: i64, lapses: i64, rating: i32) -> (r: (i64, i64))
    requires
        reps < i64::MAX,
        rating == 1 ==> lapses < i64::MAX,
    ensures
        r.0 == reps + 1,
        r.1 == if rating == 1 {
            lapses + 1
        } else {
            lapses as int
        },
{
    let new_lapses = if rating == 1 {
        lapses + 1
    } else {
        lapses
    };
    (reps + 1, new_lapses)
}

/// Every state that a review leads to is consistent: a learning card sits
/// on an existing learning step and is due after that step; a relearning
/// card either was just failed (first step, due at once) or sits on an
/// existing relearning step and is due after that step; a card in review
/// is due after the FSRS interval.
pub proof fn law_schedule_lands_on_a_step(
    state: CardState,
    rating: int,
    step: int,
    learning: Seq<i64>,
    relearning: Seq<i64>,
    now: int,
    interval_days: int,
)
    requires
        schedule_defined(state, rating, step, learning, relearning, now, interval_days),
    ensures
        ({
            let (k, s, d) = schedule(
                state,
                rating,
                step,
                learning,
                relearning,
                now,
                interval_days * 86400,
            );
            &&& k == CardState::Learning ==> 0 <= s < learning.len() && d == now + learning[s]
            &&& k == CardState::Relearning ==> (rating == 1 && s == 0 && d == now) || (0 <= s
                < relearning.len() && d == now + relearning[s])
            &&& k == CardState::Review ==> d == now + interval_days * 86400
            &&& k == CardState::Other ==> state == CardState::Other
        }),
{
}

/// Again makes a card due at once; with positive steps (as every parsed
/// step list has) and an interval of at least one day, any other rating
/// makes it due later than the review.
pub proof fn law_due_after_review(
    state: CardState,
    rating: int,
    step: int,
    learning: Seq<i64>,
    relearning: Seq<i64>,
    now: int,
    interval_days: int,
)
    requires
        schedule_defined(state, rating, step, learning, relearning, now, interval_days),
        forall|i: int| 0 <= i < learning.len() ==> learning[i] > 0,
        forall|i: int| 0 <= i < relearning.len() ==> relearning[i] > 0,
        interval_days >= 1,
    ensures
        rating == 1 ==> schedule(state, rating, step, learning, relearning, now, interval_days
            * 86400).2 == now,
        rating != 1 ==> schedule(state, rating, step, learning, relearning, now, interval_days
            * 86400).2 > now,
{
    assert(interval_days * 86400 >= 86400) by (nonlinear_arith)
        requires
            interval_days >= 1,
    ;
}

/// Again puts every new, learning, review or relearning card in relearning
/// on its first step, due at once; a card in any other state keeps its
/// state and step and is due at once too.
pub proof fn law_again_due_now(
    state: CardState,
    step: int,
    learning: Seq<i64>,
    relearning: Seq<i64>,
    now: int,
    interval_secs: int,
)
    ensures
        state != CardState::Other ==> schedule(
            state,
            1,
            step,
            learning,
            relearning,
            now,
            interval_secs,
        ) == (CardState::Relearning, 0int, now),
        state == CardState::Other ==> schedule(
            state,
            1,
            step,
            learning,
            relearning,
            now,
            interval_secs,
        ) == (CardState::Other, step, now),
{
}

/// Easy puts every card with a known state in review, due after the FSRS
/// interval; a new, learning or relearning card starts there at step 0,
/// and a review card keeps its step.
pub proof fn law_easy_graduates(
    state: CardState,
    step: int,
    learning: Seq<i64>,
    relearning: Seq<i64>,
    now: int,
    interval_secs: int,
)
    requires
        state != CardState::Other,
    ensures
        ({
            let (k, s, d) = schedule(state, 4, step, learning, relearning, now, interval_secs);
            k == CardState::Review && d == now + interval_secs
        }),
        state != CardState::Review ==> schedule(
            state,
            4,
            step,
            learning,
            relearning,
            now,
            interval_secs,
        ) == (CardState::Review, 0int, now + interval_secs),
{
}

/// With a single relearning step, a relearning card returns to review on
/// any rating other than Again.
pub proof fn law_single_relearning_step_graduates(
    rating: int,
    step: int,
    learning: Seq<i64>,
    relearning: Seq<i64>,
    now: int,
    interval_secs: int,
)
    requires
        relearning.len() == 1,
        0 <= step,
        2 <= rating <= 4,
    ensures
        schedule(CardState::Relearning, rating, step, learning, relearning, now, interval_secs).0
            == CardState::Review,
{
}

/// Hard and Good move a learning card exactly one step on, due after that
/// step, or graduate it to review at step 0, due after the FSRS interval,
/// when it was on the last step.
pub proof fn law_learning_advances_one_step(
    rating: int,
    step: int,
    learning: Seq<i64>,
    relearning: Seq<i64>,
    now: int,
    interval_secs: int,
)
    requires
        rating == 2 || rating == 3,
    ensures
        ({
            let (k, s, d) = schedule(
                CardState::Learning,
                rating,
                step,
                learning,
                relearning,
                now,
                interval_secs,
            );
            if step + 1 < learning.len() {
                k == CardState::Learning && s == step + 1
            } else {
                k == CardState::Review && s == 0
            }
        }),
        0 <= step ==> schedule(
            CardState::Learning,
            rating,
            step,
            learning,
            relearning,
            now,
            interval_secs,
        ) == if step + 1 < learning.len() {
            (CardState::Learning, step + 1, now + learning[step + 1])
        } else {
            (CardState::Review, 0int, now + interval_secs)
        },
{
}

/// Hard and Good move a relearning card exactly one relearning step on,
/// due after that step, or return it to review at step 0, due after the
/// FSRS interval, when it was on the last relearning step.
pub proof fn law_relearning_advances_one_step(
    rating: int,
    step: int,
    learning: Seq<i64>,
    relearning: Seq<i64>,
    now: int,
    interval_secs: int,
)
    requires
        rating == 2 || rating == 3,
        0 <= step,
    ensures
        schedule(CardState::Relearning, rating, step, learning, relearning, now, interval_secs)
            == if step + 1 < relearning.len() {
            (CardState::Relearning, step + 1, now + relearning[step + 1])
        } else {
            (CardState::Review, 0int, now + interval_secs)
        },
{
}

/// A new card rated Hard starts learning on the first step; rated Good it
/// moves one learning step on from its step (graduating past the last).
pub proof fn law_new_card_starts_learning(
    step: int,
    learning: Seq<i64>,
    relearning: Seq<i64>,
    now: int,
    interval_secs: int,
)
    requires
        0 <= step,
    ensures
        schedule(CardState::New, 2, step, learning, relearning, now, interval_secs) == (
            CardState::Learning,
            0int,
            now + learning[0],
        ),
        schedule(CardState::New, 3, step, learning, relearning, now, interval_secs) == if step + 1
            < learning.len() {
            (CardState::Learning, step + 1, now + learning[step + 1])
        } else {
            (CardState::Review, 0int, now + interval_secs)
        },
{
}

/// A review card rated Hard, Good or Easy stays in review on its step, due
/// after the FSRS interval.
pub proof fn law_review_stays_in_review(
    rating: int,
    step: int,
    learning: Seq<i64>,
    relearning: Seq<i64>,
    now: int,
    interval_secs: int,
)
    requires
        2 <= rating <= 4,
    ensures
        schedule(CardState::Review, rating, step, learning, relearning, now, interval_secs) == (
            CardState::Review,
            step,
            now + interval_secs,
        ),
{
}

/// Storing a known state and reading it back gives the state, so the four
/// stored names are distinct and none is empty.
pub proof fn law_state_names_roundtrip(k: CardState)
    requires
        k != CardState::Other,
    ensures
        state_named(state_name(k)) == k,
        state_name(k).len() > 0,
{
    reveal_strlit("new");
    reveal_strlit("learning");
    reveal_strlit("review");
    reveal_strlit("relearning");
}

/// Only the four stored names are read as known states: any other text is
/// read as `Other`.
pub proof fn law_only_stored_names_are_known(s: Seq<char>)
    ensures
        state_named(s) != CardState::Other ==> s == state_name(state_named(s)),
{
}

/// A card with any other stored state keeps its state and step on Hard,
/// Good or Easy and is due after the FSRS interval.
pub proof fn law_unknown_state_kept(
    rating: int,
    step: int,
    learning: Seq<i64>,
    relearning: Seq<i64>,
    now: int,
    interval_secs: int,
)
    requires
        2 <= rating <= 4,
    ensures
        schedule(CardState::Other, rating, step, learning, relearning, now, interval_secs) == (
            CardState::Other,
            step,
            now + interval_secs,
        ),
{
}

/// Two known states are stored under different names.
pub proof fn law_state_names_distinct(a: CardState, b: CardState)
    requires
        a != CardState::Other,
        b != CardState::Other,
        a != b,
    ensures
        state_name(a) != state_name(b),
{
    law_state_names_roundtrip(a);
    law_state_names_roundtrip(b);
}

} // verus!

verus! {

/// A review submitted by a student.
pub struct SubmitReview {
    pub card_id: i64,
    pub rating: i32,
    pub response_time_ms: Option<i64>,
}

/// A flag change.
pub struct SetFlag {
    /// 0 clears the flag; 1 to 7 are the colours.
    pub flag: i32,
}

/// A card's flag after a change.
pub struct FlagResponse {
    pub card_id: i64,
    pub flag: i64,
}

} // verus!

verus! {

/// How many of the given review counts are positive.
pub open spec fn count_positive(reps: Seq<i64>, k: int) -> int
    decreases k,
{
    if k <= 0 {
        0
    } else {
        count_positive(reps, k - 1) + if reps[k - 1] > 0 {
            1int
        } else {
            0int
        }
    }
}

/// Counting starts from none and each further card adds one exactly when
/// its review count is positive.
pub proof fn law_count_positive_steps(reps: Seq<i64>, k: int)
    requires
        0 <= k < reps.len(),
    ensures
        count_positive(reps, 0) == 0,
        reps[k] > 0 ==> count_positive(reps, k + 1) == count_positive(reps, k) + 1,
        reps[k] <= 0 ==> count_positive(reps, k + 1) == count_positive(reps, k),
{
}

/// The count of the first `k` cards is the number of them, in order, whose
/// review count is positive: the length of those cards kept by a filter.
pub proof fn law_count_positive_is_filter(reps: Seq<i64>, k: int)
    requires
        0 <= k <= reps.len(),
    ensures
        count_positive(reps, k) == reps.take(k).filter(|x: i64| x > 0).len(),
        0 <= count_positive(reps, k) <= k,
        (forall|i: int| 0 <= i < k ==> reps[i] > 0) ==> count_positive(reps, k) == k,
        (forall|i: int| 0 <= i < k ==> reps[i] <= 0) ==> count_positive(reps, k) == 0,
    decreases k,
{
    reveal(Seq::filter);
    if k > 0 {
        law_count_positive_is_filter(reps, k - 1);
        assert(reps.take(k).drop_last() =~= reps.take(k - 1));
        assert(reps.take(k).last() == reps[k - 1]);
    } else {
        assert(reps.take(0) =~= Seq::<i64>::empty());
    }
}

/// The number of cards of a study session that were reviewed before.
pub fn reviewed_count(reps: &[i64]) -> (r: i64)
    requires
        reps.len() <= i64::MAX,
    ensures
        r == count_positive(reps@, reps.len() as int),
        r == reps@.filter(|x: i64| x > 0).len(),
{
    proof {
        law_count_positive_is_filter(reps@, reps.len() as int);
        assert(reps@.take(reps.len() as int) =~= reps@);
    }
    let mut n: i64 = 0;
    let mut i: usize = 0;
    while i < reps.len()
        invariant
            i <= reps.len() <= i64::MAX,
            n == count_positive(reps@, i as int),
            0 <= n <= i,
        decreases reps.len() - i,
    {
        if reps[i] > 0 {
            n = n + 1;
        }
        i = i + 1;
    }
    n
}

} // verus!
