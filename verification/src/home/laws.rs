//! What holds of every transition of the interface state.

use vstd::prelude::*;
use crossterm::event::KeyEvent;
use tokio_util::sync::CancellationToken;
use crate::action::{ActionView, Mode};
use crate::input::{edited, typed, Key};
use crate::home::model::first_named;
use crate::home::{filter_units, valid, EffectView, HomeView, Operation};
use crate::list::cursor_fits;
use crate::unit::UnitView;

verus! {

/// `first_named` finds the first unit of the given name at or after `start`:
/// the position it gives holds such a unit, and no position before it does;
/// where it gives the length of the list, no unit from `start` on has the name.
pub proof fn lemma_first_named(units: Seq<UnitView>, name: Seq<char>, start: int)
    requires
        0 <= start <= units.len(),
    ensures
        start <= first_named(units, name, start) <= units.len(),
        first_named(units, name, start) < units.len() ==> units[first_named(
            units,
            name,
            start,
        )].name == name,
        forall|j: int| start <= j < first_named(units, name, start) ==> units[j].name != name,
    decreases units.len() - start,
{
    if start < units.len() && units[start].name != name {
        lemma_first_named(units, name, start + 1);
    }
}

/// The units that match a search are no more than the units searched.
pub proof fn lemma_filter_is_shorter(units: Seq<UnitView>, search: Seq<char>)
    ensures
        filter_units(units, search).len() <= units.len(),
{
    units.lemma_filter_len(|unit: UnitView| crate::home::matches_search(search, unit));
}

/// A log update that names another unit than the selected one is discarded:
/// neither a full replacement nor an appended line changes the state, and no
/// action follows.
pub proof fn lemma_stale_logs_discarded(
    v: HomeView,
    unit_name: Seq<char>,
    logs: Seq<Seq<char>>,
    line: Seq<char>,
    token: CancellationToken,
)
    requires
        v.selected_name() != Some(unit_name),
    ensures
        v.dispatched(ActionView::SetLogs { unit_name, logs }, token) == (v, None::<ActionView>),
        v.dispatched(ActionView::AppendLogLine { unit_name, line }, token) == (v, None::<ActionView>),
{
}

/// A log update that names the selected unit reaches the log buffer: a full
/// replacement becomes the buffer, an appended line becomes its last line.
pub proof fn lemma_current_logs_applied(
    v: HomeView,
    unit_name: Seq<char>,
    logs: Seq<Seq<char>>,
    line: Seq<char>,
    token: CancellationToken,
)
    requires
        v.selected_name() == Some(unit_name),
    ensures
        v.dispatched(ActionView::SetLogs { unit_name, logs }, token).0.logs == logs,
        v.dispatched(ActionView::AppendLogLine { unit_name, line }, token).0.logs == v.logs.push(line),
{
}

/// Replacing the unit set keeps the selection by name. If a unit with the
/// name of the selected one matches the search in the new set, that unit is
/// selected afterwards and the log buffer is untouched. Otherwise the first
/// match is selected, and with no match the cursor is cleared.
pub proof fn lemma_selection_follows_name(v: HomeView, units: Seq<UnitView>)
    requires
        valid(v),
        units.len() <= usize::MAX,
    ensures
        ({
            let after = v.with_units(units);
            let filtered = filter_units(units, v.search());
            &&& after.all_units == units
            &&& after.filtered == filtered
            &&& valid(after)
            &&& match v.selected_name() {
                Some(name) if (exists|i: int| 0 <= i < filtered.len() && filtered[i].name == name) => {
                    &&& after.selected_name() == Some(name)
                    &&& after.logs == v.logs
                    &&& after.effects == v.effects
                },
                _ => {
                    if filtered.len() > 0 {
                        after.selected() == Some(filtered[0])
                    } else {
                        after.cursor is None
                    }
                },
            }
        }),
{
    let filtered = filter_units(units, v.search());
    lemma_filter_is_shorter(units, v.search());
    match v.selected_name() {
        Some(name) => {
            lemma_first_named(filtered, name, 0);
        },
        None => {},
    }
}

/// Scrolling up never goes past the top: the offset drops by the number of
/// lines asked for, and to zero where fewer are left.
pub proof fn lemma_scroll_up_saturates(v: HomeView, lines: u16, token: CancellationToken)
    ensures
        v.dispatched(ActionView::ScrollUp(lines), token).0.scroll == if v.scroll >= lines {
            v.scroll - lines
        } else {
            0
        },
        v.dispatched(ActionView::ScrollUp(lines), token).0.scroll <= v.scroll,
{
}

/// Every action keeps the invariant of the state.
pub proof fn lemma_dispatch_keeps_valid(
    v: HomeView,
    action: ActionView,
    token: CancellationToken,
)
    requires
        valid(v),
        action matches ActionView::SetServices(units) ==> units.len() <= usize::MAX,
    ensures
        valid(v.dispatched(action, token).0),
{
    match action {
        ActionView::SetServices(units) => {
            lemma_selection_follows_name(v, units);
        },
        _ => {},
    }
}

/// Cancelling returns to normal mode, whatever the state was. A stop signal
/// that is kept is handed out to be given, last of the work asked for, and is
/// kept no longer; where none is kept, no work is added.
pub proof fn lemma_cancel_returns_to_normal(v: HomeView, token: CancellationToken)
    ensures
        v.dispatched(ActionView::CancelTask, token).0.mode == Mode::Normal,
        v.dispatched(ActionView::CancelTask, token).0.cancel_token is None,
        v.dispatched(ActionView::CancelTask, token).1 == Some(ActionView::Render),
        v.cancel_token matches Some(kept) ==> v.dispatched(
            ActionView::CancelTask,
            token,
        ).0.effects == v.effects.push(EffectView::Cancel(kept)),
        v.cancel_token is None ==> v.dispatched(ActionView::CancelTask, token).0.effects
            == v.effects,
{
}

/// The stop signal that is given is the one under which the operation started
/// last runs: cancelling right after a service operation was started hands
/// out the token that went out with the request to run it.
pub proof fn lemma_cancel_reaches_the_operation(
    v: HomeView,
    name: Seq<char>,
    operation: Operation,
    token: CancellationToken,
    other: CancellationToken,
)
    ensures
        v.running(name, operation, token).dispatched(ActionView::CancelTask, other).0.effects
            == v.effects.push(EffectView::RunService { name, operation, token }).push(
            EffectView::Cancel(token),
        ),
{
}

/// An error is shown at once: the message is stored and the mode is error mode
/// right after the action, from whatever mode, and nothing else changes.
pub proof fn lemma_error_forces_error_mode(v: HomeView, err: Seq<char>, token: CancellationToken)
    ensures
        v.dispatched(ActionView::EnterError { err }, token) == (
            HomeView { error_message: err, mode: Mode::Error, ..v },
            Some(ActionView::Render),
        ),
{
}

/// The log buffer belongs to the selected unit: an action after which another
/// unit is selected, or none, leaves the buffer empty.
pub proof fn lemma_new_selection_has_no_logs(
    v: HomeView,
    action: ActionView,
    token: CancellationToken,
)
    requires
        valid(v),
        action matches ActionView::SetServices(units) ==> units.len() <= usize::MAX,
    ensures
        v.dispatched(action, token).0.selected_name() != v.selected_name() ==> v.dispatched(
            action,
            token,
        ).0.logs.len() == 0,
{
    match action {
        ActionView::SetServices(units) => {
            lemma_selection_follows_name(v, units);
            match v.selected_name() {
                Some(name) => {
                    lemma_first_named(filter_units(units, v.search()), name, 0);
                },
                None => {},
            }
        },
        _ => {},
    }
}

/// The same holds of key presses: one after which another unit is selected,
/// or none, leaves the log buffer empty.
pub proof fn lemma_key_to_new_selection_has_no_logs(
    v: HomeView,
    ctrl: bool,
    key: Key,
    raw: KeyEvent,
)
    requires
        valid(v),
        v.all_units.len() <= usize::MAX,
    ensures
        v.keyed(ctrl, key, raw).0.selected_name() != v.selected_name() ==> v.keyed(
            ctrl,
            key,
            raw,
        ).0.logs.len() == 0,
{
    let input = edited(v.input, raw);
    lemma_filter_is_shorter(v.all_units, typed(input));
    match v.selected_name() {
        Some(name) => {
            lemma_first_named(filter_units(v.all_units, typed(input)), name, 0);
        },
        None => {},
    }
}

/// A service operation runs under the stop signal that the state keeps: the
/// token kept after the operation was started is the token that went out with
/// the request to run it, and it has replaced whatever was kept before.
pub proof fn lemma_operation_shares_its_signal(
    v: HomeView,
    name: Seq<char>,
    operation: Operation,
    token: CancellationToken,
)
    ensures
        v.running(name, operation, token).cancel_token == Some(token),
        v.running(name, operation, token).effects.last() == (EffectView::RunService {
            name,
            operation,
            token,
        }),
        v.running(name, operation, token).effects.drop_last() == v.effects,
        v.dispatched(ActionView::StartService(name), token).0 == v.running(
            name,
            Operation::Start,
            token,
        ),
        v.dispatched(ActionView::StopService(name), token).0 == v.running(
            name,
            Operation::Stop,
            token,
        ),
        v.dispatched(ActionView::RestartService(name), token).0 == v.running(
            name,
            Operation::Restart,
            token,
        ),
{
    assert(v.running(name, operation, token).effects.drop_last() =~= v.effects);
}

/// A cursor that points at a unit or at nothing keeps doing so: after every
/// action and every key press it is none or a position in the filtered list.
pub proof fn lemma_cursor_points_at_a_unit(
    v: HomeView,
    action: ActionView,
    token: CancellationToken,
    ctrl: bool,
    key: Key,
    raw: KeyEvent,
)
    requires
        valid(v),
        cursor_fits(v.cursor, v.filtered.len()),
        v.all_units.len() <= usize::MAX,
        action matches ActionView::SetServices(units) ==> units.len() <= usize::MAX,
    ensures
        cursor_fits(
            v.dispatched(action, token).0.cursor,
            v.dispatched(action, token).0.filtered.len(),
        ),
        cursor_fits(v.keyed(ctrl, key, raw).0.cursor, v.keyed(ctrl, key, raw).0.filtered.len()),
{
    match action {
        ActionView::SetServices(units) => {
            lemma_filter_is_shorter(units, v.search());
            match v.selected_name() {
                Some(name) => {
                    lemma_first_named(filter_units(units, v.search()), name, 0);
                },
                None => {},
            }
        },
        _ => {},
    }
    let input = edited(v.input, raw);
    lemma_filter_is_shorter(v.all_units, typed(input));
    match v.selected_name() {
        Some(name) => {
            lemma_first_named(filter_units(v.all_units, typed(input)), name, 0);
        },
        None => {},
    }
}

} // verus!
