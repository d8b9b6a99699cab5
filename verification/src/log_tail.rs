//! Deciding whose logs are followed.
//!
//! Requests to follow a unit may arrive faster than they can be served. The
//! supervisor serves the newest request of each batch and drops the others;
//! it stops the follower that runs before it fetches anything for the next
//! unit, so that at most one follower runs at a time.

use vstd::prelude::*;
use crate::action::{action_views, Action, ActionView};
use crate::text::{pieces, split_lines, views};

verus! {

/// The number of recent lines fetched before following a unit.
pub const BATCH_LINES: usize = 500;

/// One thing for the runner of the supervisor to do.
#[derive(Debug, PartialEq, Eq)]
pub enum TailStep {
    /// Stop the follower that runs.
    StopFollower,
    /// Fetch this many recent lines of the named unit and deliver them.
    FetchBatch { unit_name: String, lines: usize },
    /// Start a follower for the named unit.
    StartFollower(String),
}

/// The mathematical value of a [`TailStep`].
pub ghost enum TailStepView {
    StopFollower,
    FetchBatch { unit_name: Seq<char>, lines: usize },
    StartFollower(Seq<char>),
}

impl View for TailStep {
    type V = TailStepView;

    open spec fn view(&self) -> TailStepView {
        match *self {
            TailStep::StopFollower => TailStepView::StopFollower,
            TailStep::FetchBatch { unit_name, lines } => TailStepView::FetchBatch {
                unit_name: unit_name@,
                lines,
            },
            TailStep::StartFollower(unit_name) => TailStepView::StartFollower(unit_name@),
        }
    }
}

/// The values of a list of steps.
pub open spec fn tail_step_views(steps: Seq<TailStep>) -> Seq<TailStepView> {
    steps.map_values(|s: TailStep| s@)
}

/// The request that is served out of a batch: the newest one.
pub open spec fn newest(first: Seq<char>, rest: Seq<Seq<char>>) -> Seq<char> {
    if rest.len() == 0 {
        first
    } else {
        rest.last()
    }
}

/// The steps that serve a request for `unit_name`, given whether a follower
/// runs: the follower is stopped first, then the recent lines are fetched, then
/// the new follower starts.
pub open spec fn plan(following: bool, unit_name: Seq<char>) -> Seq<TailStepView> {
    let serve = seq![
        TailStepView::FetchBatch { unit_name, lines: BATCH_LINES },
        TailStepView::StartFollower(unit_name),
    ];
    if following {
        seq![TailStepView::StopFollower] + serve
    } else {
        serve
    }
}

/// Whether a step names the unit.
pub open spec fn step_names(step: TailStepView, unit_name: Seq<char>) -> bool {
    match step {
        TailStepView::StopFollower => false,
        TailStepView::FetchBatch { unit_name: named, .. } => named == unit_name,
        TailStepView::StartFollower(named) => named == unit_name,
    }
}

/// The supervisor: the unit whose follower runs, if one does.
pub struct LogTail {
    following: Option<String>,
}

impl LogTail {
    /// The name of the unit whose follower runs.
    pub closed spec fn following(&self) -> Option<Seq<char>> {
        match self.following {
            Some(name) => Some(name@),
            None => None,
        }
    }

    /// A supervisor with no follower.
    pub fn new() -> (tail: LogTail)
        ensures
            tail.following() is None,
    {
        LogTail { following: None }
    }

    /// The name of the unit whose follower runs.
    pub fn current(&self) -> (unit_name: Option<&String>)
        ensures
            match self.following() {
                Some(name) => unit_name matches Some(found) && found@ == name,
                None => unit_name is None,
            },
    {
        self.following.as_ref()
    }

    /// Serves a batch of requests: `first` and, in the order they arrived, the
    /// requests `rest` that were waiting behind it. Only the newest is served.
    pub fn supersede(&mut self, first: String, rest: Vec<String>) -> (steps: Vec<TailStep>)
        ensures
            tail_step_views(steps@) == plan(
                old(self).following() is Some,
                newest(first@, views(rest@)),
            ),
            final(self).following() == Some(newest(first@, views(rest@))),
    {
        let ghost served = newest(first@, views(rest@));
        let mut unit_name = first;
        let mut waiting = rest;
        if let Some(last) = waiting.pop() {
            unit_name = last;
        }
        assert(unit_name@ == served);
        let mut steps: Vec<TailStep> = Vec::new();
        if self.following.is_some() {
            steps.push(TailStep::StopFollower);
        }
        steps.push(TailStep::FetchBatch { unit_name: unit_name.clone(), lines: BATCH_LINES });
        steps.push(TailStep::StartFollower(unit_name.clone()));
        self.following = Some(unit_name);
        assert(tail_step_views(steps@) =~= plan(old(self).following() is Some, served));
        steps
    }
}

/// The lines of a fetched batch, as the log buffer takes them.
pub open spec fn batch_lines(output: Seq<char>) -> Seq<Seq<char>> {
    pieces(output, '\n')
}

/// The actions that deliver a fetched batch: the lines replace the log buffer
/// of the unit, then the interface is rendered. A batch that could not be
/// fetched delivers nothing.
pub open spec fn batch_script(unit_name: Seq<char>, output: Option<Seq<char>>) -> Seq<ActionView> {
    match output {
        Some(text) => seq![
            ActionView::SetLogs { unit_name, logs: batch_lines(text) },
            ActionView::Render,
        ],
        None => seq![],
    }
}

/// The actions that deliver one followed line: the line is appended to the log
/// buffer of the unit, then a render is asked for.
pub open spec fn line_script(unit_name: Seq<char>, line: Seq<char>) -> Seq<ActionView> {
    seq![ActionView::AppendLogLine { unit_name, line }, ActionView::Render]
}

/// The actions that deliver the output of a batch fetch for the named unit;
/// `output` is `None` where the fetch failed.
pub fn batch_actions(unit_name: &str, output: Option<&str>) -> (actions: Vec<Action>)
    ensures
        action_views(actions@) == batch_script(
            unit_name@,
            match output {
                Some(text) => Some(text@),
                None => None,
            },
        ),
{
    let mut actions: Vec<Action> = Vec::new();
    match output {
        Some(text) => {
            let logs = split_lines(text);
            actions.push(Action::SetLogs { unit_name: unit_name.to_owned(), logs });
            actions.push(Action::Render);
            assert(action_views(actions@) =~= batch_script(unit_name@, Some(text@)));
        },
        None => {
            assert(action_views(actions@) =~= batch_script(unit_name@, None));
        },
    }
    actions
}

/// The actions that deliver one followed line of the named unit.
pub fn line_actions(unit_name: &str, line: String) -> (actions: Vec<Action>)
    ensures
        action_views(actions@) == line_script(unit_name@, line@),
{
    let mut actions: Vec<Action> = Vec::new();
    actions.push(Action::AppendLogLine { unit_name: unit_name.to_owned(), line });
    actions.push(Action::Render);
    assert(action_views(actions@) =~= line_script(unit_name@, line@));
    actions
}

/// A batch of requests is served by its newest request alone: no step of the
/// plan names a unit that was asked for earlier in the batch under another
/// name.
pub proof fn lemma_only_newest_is_served(
    following: bool,
    first: Seq<char>,
    rest: Seq<Seq<char>>,
    earlier: Seq<char>,
)
    requires
        earlier != newest(first, rest),
    ensures
        forall|i: int|
            0 <= i < plan(following, newest(first, rest)).len() ==> !step_names(
                #[trigger] plan(following, newest(first, rest))[i],
                earlier,
            ),
{
}

/// A follower never runs beside another: where one runs, the plan for the next
/// request stops it before anything is fetched or started, and where none
/// runs, nothing is stopped. Either way a single follower is started, last of
/// all.
pub proof fn lemma_previous_follower_stops_first(following: bool, unit_name: Seq<char>)
    ensures
        following ==> plan(following, unit_name)[0] == TailStepView::StopFollower,
        forall|i: int|
            1 <= i < plan(following, unit_name).len() ==> #[trigger] plan(following, unit_name)[i]
                != TailStepView::StopFollower,
        !following ==> plan(following, unit_name)[0] != TailStepView::StopFollower,
        plan(following, unit_name).last() == TailStepView::StartFollower(unit_name),
        forall|i: int|
            0 <= i < plan(following, unit_name).len() - 1 ==> !(#[trigger] plan(
                following,
                unit_name,
            )[i] is StartFollower),
{
}

} // verus!
