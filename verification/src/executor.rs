//! Running one service operation to its end.
//!
//! The operation itself runs outside. This module decides what is announced
//! around it: the switch to processing mode, asked for before anything else,
//! and the progress ticker at the start; at the end how the operation went, the end of the ticker and the
//! refreshes of the unit list that let the unit's state settle.

use tokio_util::sync::CancellationToken;
use vstd::prelude::*;
use vstd::string::StringExecFns;
use crate::action::{Action, ActionView, Mode};
use crate::text::{contains, occurs_in};

verus! {

/// The time between two ticks of the progress ticker, in milliseconds.
pub const TICK_MILLIS: u64 = 200;

/// The time before each later refresh of the unit list, in milliseconds.
pub const SETTLE_MILLIS: u64 = 1000;

/// One thing for the runner of an operation to do.
#[derive(Debug, PartialEq, Eq)]
pub enum Step {
    /// Start emitting a `SpinnerTick` action at this interval, in milliseconds.
    StartTicker(u64),
    /// Stop the ticker.
    StopTicker,
    /// Put the action on the queue.
    Emit(Action),
    /// Let this many milliseconds pass.
    Wait(u64),
}

/// The mathematical value of a [`Step`].
pub ghost enum StepView {
    StartTicker(u64),
    StopTicker,
    Emit(ActionView),
    Wait(u64),
}

impl View for Step {
    type V = StepView;

    open spec fn view(&self) -> StepView {
        match *self {
            Step::StartTicker(millis) => StepView::StartTicker(millis),
            Step::StopTicker => StepView::StopTicker,
            Step::Emit(action) => StepView::Emit(action@),
            Step::Wait(millis) => StepView::Wait(millis),
        }
    }
}

/// The values of a list of steps.
pub open spec fn step_views(steps: Seq<Step>) -> Seq<StepView> {
    steps.map_values(|s: Step| s@)
}

/// The error text of an outcome, if it is a failure.
pub open spec fn error_of(outcome: Result<(), String>) -> Option<Seq<char>> {
    match outcome {
        Ok(_) => None,
        Err(text) => Some(text@),
    }
}

/// The word by which a failure shows that permission was denied.
pub open spec fn denial_mark() -> Seq<char> {
    "AccessDenied"@
}

/// The advice added to a failure for want of permission.
pub open spec fn denial_hint() -> Seq<char> {
    "\n\nTry running this tool with sudo."@
}

/// The message shown for a failure: the error text, with the advice to raise
/// privileges where permission was denied.
pub open spec fn failure_text(error: Seq<char>) -> Seq<char> {
    if occurs_in(denial_mark(), error) {
        error + denial_hint()
    } else {
        error
    }
}

/// What is done when an operation starts: processing mode is asked for at
/// once, and only then the ticker starts, so that no tick comes before the
/// mode.
pub open spec fn opening_script() -> Seq<StepView> {
    seq![
        StepView::Emit(ActionView::EnterMode(Mode::Processing)),
        StepView::StartTicker(TICK_MILLIS),
    ]
}

/// What is announced of an operation that ended: back to normal mode on success, an error on
/// failure, and nothing on a failure that came after the stop signal.
pub open spec fn announcement(error: Option<Seq<char>>, cancelled: bool) -> Seq<StepView> {
    match error {
        None => seq![StepView::Emit(ActionView::EnterMode(Mode::Normal))],
        Some(text) => {
            if cancelled {
                seq![]
            } else {
                seq![StepView::Emit(ActionView::EnterError { err: failure_text(text) })]
            }
        },
    }
}

/// What follows every announcement: the ticker stops, the unit list is refreshed
/// at once and three more times, a delay before each.
pub open spec fn settling() -> Seq<StepView> {
    seq![
        StepView::StopTicker,
        StepView::Emit(ActionView::RefreshServices),
        StepView::Wait(SETTLE_MILLIS),
        StepView::Emit(ActionView::RefreshServices),
        StepView::Wait(SETTLE_MILLIS),
        StepView::Emit(ActionView::RefreshServices),
        StepView::Wait(SETTLE_MILLIS),
        StepView::Emit(ActionView::RefreshServices),
    ]
}

/// What is done when an operation ends.
pub open spec fn completion_script(error: Option<Seq<char>>, cancelled: bool) -> Seq<StepView> {
    announcement(error, cancelled) + settling()
}

/// The number of steps of `steps` that emit a refresh of the unit list.
pub open spec fn refreshes(steps: Seq<StepView>) -> nat
    decreases steps.len(),
{
    if steps.len() == 0 {
        0
    } else {
        refreshes(steps.drop_last()) + if steps.last() == StepView::Emit(
            ActionView::RefreshServices,
        ) {
            1nat
        } else {
            0nat
        }
    }
}

/// Whether a step emits an error.
pub open spec fn emits_error(step: StepView) -> bool {
    step matches StepView::Emit(ActionView::EnterError { .. })
}

/// The steps that start an operation: the switch to processing mode, then the
/// progress ticker.
pub fn opening() -> (steps: Vec<Step>)
    ensures
        step_views(steps@) == opening_script(),
{
    let mut steps: Vec<Step> = Vec::new();
    steps.push(Step::Emit(Action::EnterMode(Mode::Processing)));
    steps.push(Step::StartTicker(TICK_MILLIS));
    assert(step_views(steps@) =~= opening_script());
    steps
}

/// The message shown for a failure with the given error text.
pub fn failure_message(error: String) -> (message: String)
    ensures
        message@ == failure_text(error@),
{
    if contains(error.as_str(), "AccessDenied") {
        error.concat("\n\nTry running this tool with sudo.")
    } else {
        error
    }
}

/// The steps that end an operation whose outcome is `outcome`, where
/// `cancelled` tells whether the stop signal had been given by then.
pub fn completion(outcome: Result<(), String>, cancelled: bool) -> (steps: Vec<Step>)
    ensures
        step_views(steps@) == completion_script(error_of(outcome), cancelled),
{
    let mut steps: Vec<Step> = Vec::new();
    match outcome {
        Ok(_) => {
            steps.push(Step::Emit(Action::EnterMode(Mode::Normal)));
        },
        Err(error) => {
            if !cancelled {
                let err = failure_message(error);
                steps.push(Step::Emit(Action::EnterError { err }));
            }
        },
    }
    assert(step_views(steps@) =~= announcement(error_of(outcome), cancelled));
    steps.push(Step::StopTicker);
    steps.push(Step::Emit(Action::RefreshServices));
    let mut round: u8 = 0;
    while round < 3
        invariant
            round <= 3,
            step_views(steps@) == announcement(error_of(outcome), cancelled) + settling().take(
                2 + 2 * round,
            ),
        decreases 3 - round,
    {
        let ghost before = step_views(steps@);
        steps.push(Step::Wait(SETTLE_MILLIS));
        steps.push(Step::Emit(Action::RefreshServices));
        assert(step_views(steps@) =~= before.push(StepView::Wait(SETTLE_MILLIS)).push(
            StepView::Emit(ActionView::RefreshServices),
        ));
        assert(step_views(steps@) =~= announcement(error_of(outcome), cancelled) + settling().take(
            2 + 2 * (round + 1),
        ));
        round = round + 1;
    }
    assert(settling().take(8) =~= settling());
    steps
}

/// The steps that end an operation whose outcome is `outcome` and whose stop
/// signal is `token`. A failure is reported unless the signal has been given.
pub fn finish(token: &CancellationToken, outcome: Result<(), String>) -> (steps: Vec<Step>)
    ensures
        outcome is Ok ==> step_views(steps@) == completion_script(None, false),
        outcome is Err ==> step_views(steps@) == completion_script(error_of(outcome), true)
            || step_views(steps@) == completion_script(error_of(outcome), false),
{
    let cancelled = match &outcome {
        Ok(_) => false,
        Err(_) => token.is_cancelled(),
    };
    completion(outcome, cancelled)
}

/// Processing mode is the first thing an operation asks for: nothing is
/// emitted and no ticker runs before it.
pub proof fn lemma_processing_mode_comes_first()
    ensures
        opening_script()[0] == StepView::Emit(ActionView::EnterMode(Mode::Processing)),
        forall|i: int|
            1 <= i < opening_script().len() ==> (#[trigger] opening_script()[i]) is StartTicker,
{
}

/// A failure that comes after the stop signal shows no error: the steps that
/// end the operation are the settling steps alone, and none of them emits an
/// error.
pub proof fn lemma_cancelled_failure_is_silent(error: Seq<char>)
    ensures
        completion_script(Some(error), true) == settling(),
        forall|i: int|
            0 <= i < completion_script(Some(error), true).len() ==> !emits_error(
                #[trigger] completion_script(Some(error), true)[i],
            ),
{
    assert(completion_script(Some(error), true) =~= settling());
}

/// A failure that was not asked for shows exactly one error, first of all,
/// with the message for its error text.
pub proof fn lemma_failure_is_shown(error: Seq<char>)
    ensures
        completion_script(Some(error), false)[0] == StepView::Emit(
            ActionView::EnterError { err: failure_text(error) },
        ),
        forall|i: int|
            1 <= i < completion_script(Some(error), false).len() ==> !emits_error(
                #[trigger] completion_script(Some(error), false)[i],
            ),
{
}

/// Every operation ends with four refreshes of the unit list, whatever its
/// outcome, and the ticker stops before the first of them.
pub proof fn lemma_four_refreshes(error: Option<Seq<char>>, cancelled: bool)
    ensures
        refreshes(completion_script(error, cancelled)) == 4,
        completion_script(error, cancelled)[announcement(error, cancelled).len() as int]
            == StepView::StopTicker,
        forall|i: int|
            0 <= i < announcement(error, cancelled).len() ==> #[trigger] completion_script(
                error,
                cancelled,
            )[i] != StepView::Emit(ActionView::RefreshServices),
{
    let script = completion_script(error, cancelled);
    let head = announcement(error, cancelled);
    assert(refreshes(head) == 0) by {
        reveal_with_fuel(refreshes, 3);
    }
    lemma_refreshes_concat(head, settling(), 8);
    assert(head + settling().take(8) =~= script);
}

/// Counting refreshes over a script that ends with the first `n` settling
/// steps: the refreshes of the head, and one for each refresh among those
/// steps.
proof fn lemma_refreshes_concat(head: Seq<StepView>, tail: Seq<StepView>, n: int)
    requires
        tail == settling(),
        0 <= n <= 8,
    ensures
        refreshes(head + tail.take(n)) == refreshes(head) + n / 2,
    decreases n,
{
    if n == 0 {
        assert(head + tail.take(0) =~= head);
    } else {
        lemma_refreshes_concat(head, tail, n - 1);
        assert((head + tail.take(n)).drop_last() =~= head + tail.take(n - 1));
        assert((head + tail.take(n)).last() == tail[n - 1]);
    }
}

} // verus!
