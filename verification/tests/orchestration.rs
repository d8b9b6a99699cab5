use crossterm::event::{KeyCode, KeyEvent, KeyModifiers};
use systemctl_tui::action::{Action, Mode};
use systemctl_tui::app::{App, Command};
use systemctl_tui::debounce::{Debouncer, DEBOUNCE_MILLIS};
use systemctl_tui::executor::{
    completion, failure_message, finish, opening, Step, SETTLE_MILLIS, TICK_MILLIS,
};
use systemctl_tui::home::{Effect, Operation};
use systemctl_tui::log_tail::{batch_actions, line_actions, LogTail, TailStep, BATCH_LINES};
use systemctl_tui::refresh::listing_actions;
use systemctl_tui::unit::UnitStatus;
use tokio_util::sync::CancellationToken;

fn settling() -> Vec<Step> {
    vec![
        Step::StopTicker,
        Step::Emit(Action::RefreshServices),
        Step::Wait(1000),
        Step::Emit(Action::RefreshServices),
        Step::Wait(1000),
        Step::Emit(Action::RefreshServices),
        Step::Wait(1000),
        Step::Emit(Action::RefreshServices),
    ]
}

fn units(names: &[&str]) -> Vec<UnitStatus> {
    names.iter().map(|name| UnitStatus::named(name)).collect()
}

fn enqueued(commands: &[Command]) -> Vec<Action> {
    let mut actions = Vec::new();
    for command in commands {
        if let Command::Enqueue(action) = command {
            actions.push(action.clone());
        }
    }
    actions
}

fn refreshes(steps: &[Step]) -> usize {
    steps.iter().filter(|step| **step == Step::Emit(Action::RefreshServices)).count()
}

#[test]
fn burst_of_requests_starts_one_timer() {
    let mut debouncer = Debouncer::new();
    assert!(debouncer.request());
    for _ in 0..50 {
        assert!(!debouncer.request());
    }
    assert!(debouncer.is_scheduled());
    assert_eq!(debouncer.expire(), Action::Render);
    assert!(!debouncer.is_scheduled());
    assert!(debouncer.request());
}

#[test]
fn request_burst_counts_the_timers() {
    let mut debouncer = Debouncer::new();
    assert_eq!(debouncer.request_burst(0), 0);
    assert!(!debouncer.is_scheduled());
    assert_eq!(debouncer.request_burst(17), 1);
    assert!(debouncer.is_scheduled());
    assert_eq!(debouncer.request_burst(5), 0);
    debouncer.expire();
    assert_eq!(debouncer.request_burst(1), 1);
}

#[test]
fn constants_of_the_timing() {
    assert_eq!(DEBOUNCE_MILLIS, 0);
    assert_eq!(TICK_MILLIS, 200);
    assert_eq!(SETTLE_MILLIS, 1000);
    assert_eq!(BATCH_LINES, 500);
}

#[test]
fn operation_opens_with_ticker_and_processing_mode() {
    assert_eq!(
        opening(),
        vec![Step::Emit(Action::EnterMode(Mode::Processing)), Step::StartTicker(200)]
    );
}

#[test]
fn success_returns_to_normal_and_refreshes_four_times() {
    let steps = completion(Ok(()), false);
    let mut expected = vec![Step::Emit(Action::EnterMode(Mode::Normal))];
    expected.extend(settling());
    assert_eq!(steps, expected);
    assert_eq!(refreshes(&steps), 4);
    assert_eq!(completion(Ok(()), true), expected);
}

#[test]
fn failure_shows_the_error() {
    let steps = completion(Err("unit not found".to_owned()), false);
    let mut expected = vec![Step::Emit(Action::EnterError { err: "unit not found".to_owned() })];
    expected.extend(settling());
    assert_eq!(steps, expected);
    assert_eq!(refreshes(&steps), 4);
}

#[test]
fn cancelled_failure_shows_no_error() {
    let steps = completion(Err("interrupted".to_owned()), true);
    assert_eq!(steps, settling());
    assert!(steps.iter().all(|step| !matches!(step, Step::Emit(Action::EnterError { .. }))));
    assert_eq!(refreshes(&steps), 4);
}

#[test]
fn permission_failure_gets_a_hint() {
    assert_eq!(
        failure_message("org.freedesktop.DBus.Error.AccessDenied: no".to_owned()),
        "org.freedesktop.DBus.Error.AccessDenied: no\n\nTry running this tool with sudo."
    );
    assert_eq!(failure_message("accessdenied".to_owned()), "accessdenied");
    assert_eq!(failure_message(String::new()), "");
    assert_eq!(
        failure_message("AccessDenied".to_owned()),
        "AccessDenied\n\nTry running this tool with sudo."
    );
}

#[test]
fn finish_reads_the_stop_signal() {
    let token = CancellationToken::new();
    let steps = finish(&token, Err("failed".to_owned()));
    assert_eq!(steps[0], Step::Emit(Action::EnterError { err: "failed".to_owned() }));
    token.cancel();
    assert_eq!(finish(&token, Err("failed".to_owned())), settling());
    assert_eq!(finish(&token, Ok(()))[0], Step::Emit(Action::EnterMode(Mode::Normal)));
}

#[test]
fn first_request_fetches_then_follows() {
    let mut tail = LogTail::new();
    assert_eq!(tail.current(), None);
    let steps = tail.supersede("nginx.service".to_owned(), Vec::new());
    assert_eq!(
        steps,
        vec![
            TailStep::FetchBatch { unit_name: "nginx.service".to_owned(), lines: 500 },
            TailStep::StartFollower("nginx.service".to_owned()),
        ]
    );
    assert_eq!(tail.current(), Some(&"nginx.service".to_owned()));
}

#[test]
fn newer_request_stops_the_follower_first() {
    let mut tail = LogTail::new();
    tail.supersede("a.service".to_owned(), Vec::new());
    let steps = tail.supersede("b.service".to_owned(), Vec::new());
    assert_eq!(
        steps,
        vec![
            TailStep::StopFollower,
            TailStep::FetchBatch { unit_name: "b.service".to_owned(), lines: 500 },
            TailStep::StartFollower("b.service".to_owned()),
        ]
    );
    assert_eq!(tail.current(), Some(&"b.service".to_owned()));
}

#[test]
fn only_the_newest_of_a_batch_is_served() {
    let mut tail = LogTail::new();
    let steps = tail.supersede(
        "a.service".to_owned(),
        vec!["b.service".to_owned(), "c.service".to_owned()],
    );
    assert_eq!(
        steps,
        vec![
            TailStep::FetchBatch { unit_name: "c.service".to_owned(), lines: 500 },
            TailStep::StartFollower("c.service".to_owned()),
        ]
    );
    assert_eq!(tail.current(), Some(&"c.service".to_owned()));
}

#[test]
fn the_same_unit_is_followed_afresh() {
    let mut tail = LogTail::new();
    tail.supersede("a.service".to_owned(), Vec::new());
    let steps = tail.supersede("a.service".to_owned(), Vec::new());
    assert_eq!(steps[0], TailStep::StopFollower);
    assert_eq!(steps.len(), 3);
}

#[test]
fn batch_is_split_into_lines() {
    assert_eq!(
        batch_actions("a.service", Some("one\ntwo\n")),
        vec![
            Action::SetLogs {
                unit_name: "a.service".to_owned(),
                logs: vec!["one".to_owned(), "two".to_owned(), String::new()],
            },
            Action::Render,
        ]
    );
    assert_eq!(
        batch_actions("a.service", Some("")),
        vec![
            Action::SetLogs { unit_name: "a.service".to_owned(), logs: vec![String::new()] },
            Action::Render,
        ]
    );
    assert_eq!(batch_actions("a.service", None), vec![]);
}

#[test]
fn followed_line_is_appended_and_rendered() {
    assert_eq!(
        line_actions("a.service", "hello".to_owned()),
        vec![
            Action::AppendLogLine { unit_name: "a.service".to_owned(), line: "hello".to_owned() },
            Action::Render,
        ]
    );
}

#[test]
fn lines_of_a_superseded_unit_do_not_reach_the_buffer() {
    let mut app = App::new();
    app.step(Action::SetServices(units(&["a.service", "b.service"])));
    let mut tail = LogTail::new();
    tail.supersede("a.service".to_owned(), Vec::new());
    app.step(Action::AppendLogLine { unit_name: "a.service".to_owned(), line: "a1".to_owned() });
    let commands = app.key_pressed(KeyEvent::new(KeyCode::Down, KeyModifiers::NONE));
    let request = match &commands[0] {
        Command::Perform(Effect::FollowLogs(name)) => name.clone(),
        other => panic!("unexpected command {:?}", other),
    };
    let steps = tail.supersede(request, Vec::new());
    assert_eq!(steps[0], TailStep::StopFollower);
    for action in line_actions("a.service", "a2".to_owned()) {
        app.step(action);
    }
    assert!(app.home().logs().is_empty());
    for action in batch_actions("b.service", Some("b1\nb2")) {
        app.step(action);
    }
    assert_eq!(app.home().logs(), &vec!["b1".to_owned(), "b2".to_owned()]);
}

#[test]
fn new_app_is_at_its_start() {
    let app = App::new();
    assert!(!app.should_quit());
    assert!(!app.should_suspend());
    let home = app.home();
    assert_eq!(home.mode(), Mode::Normal);
    assert!(home.all_units().is_empty());
    assert!(home.units().is_empty());
    assert_eq!(home.selected_index(), None);
    assert!(home.logs().is_empty());
    assert_eq!(home.logs_scroll_offset(), 0);
    assert_eq!(home.search(), "");
    assert!(home.menu().is_empty());
    assert_eq!(home.menu_selected_index(), None);
    assert!(!home.show_logger());
    assert!(!home.is_cancellable());
    assert_eq!(home.spinner_tick(), 0);
    assert_eq!(home.error_message(), "");
}

#[test]
fn render_and_resize_draw() {
    let mut app = App::new();
    assert!(matches!(app.step(Action::Render)[..], [Command::Draw]));
    assert!(matches!(app.step(Action::Resize(80, 24))[..], [Command::Draw]));
    assert!(app.step(Action::Noop).is_empty());
}

#[test]
fn debounced_renders_coalesce_in_the_loop() {
    let mut app = App::new();
    let mut timers = 0;
    for _ in 0..25 {
        for command in app.step(Action::DebouncedRender) {
            match command {
                Command::StartRenderTimer(millis) => {
                    assert_eq!(millis, 0);
                    timers += 1;
                },
                other => panic!("unexpected command {:?}", other),
            }
        }
    }
    assert_eq!(timers, 1);
    assert_eq!(app.render_due(), Action::Render);
    assert!(matches!(app.step(Action::DebouncedRender)[..], [Command::StartRenderTimer(0)]));
}

#[test]
fn quit_shuts_down() {
    let mut app = App::new();
    assert!(!app.should_quit());
    assert!(matches!(app.step(Action::Quit)[..], [Command::Shutdown]));
    assert!(app.should_quit());
}

#[test]
fn suspend_restarts_the_drivers_and_resumes() {
    let mut app = App::new();
    let commands = app.step(Action::Suspend);
    assert!(matches!(commands[0], Command::Suspend));
    assert_eq!(enqueued(&commands), vec![Action::Resume, Action::Render]);
    assert_eq!(commands.len(), 3);
    assert!(app.should_suspend());
    assert!(app.step(Action::Resume).is_empty());
    assert!(!app.should_suspend());
}

#[test]
fn one_suspension_for_each_suspend() {
    let mut app = App::new();
    assert_eq!(app.step(Action::Suspend).len(), 3);
    assert!(app.step(Action::Noop).is_empty());
    assert!(app.step(Action::ToggleHelp).is_empty());
    assert!(matches!(app.step(Action::Render)[..], [Command::Draw]));
    assert!(app.should_suspend());
    assert!(app.step(Action::Resume).is_empty());
    assert!(matches!(app.step(Action::Render)[..], [Command::Draw]));
    let commands = app.step(Action::Suspend);
    assert!(matches!(commands[0], Command::Suspend));
    assert_eq!(commands.len(), 3);
}

#[test]
fn quit_while_suspended_shuts_down() {
    let mut app = App::new();
    app.step(Action::Suspend);
    assert!(matches!(app.step(Action::Quit)[..], [Command::Shutdown]));
    assert!(app.should_quit());
}

#[test]
fn render_timer_runs_the_time_asked_for() {
    let mut app = App::with_debounce(25);
    assert!(matches!(app.step(Action::DebouncedRender)[..], [Command::StartRenderTimer(25)]));
    assert!(app.step(Action::DebouncedRender).is_empty());
    app.render_due();
    assert!(matches!(app.step(Action::DebouncedRender)[..], [Command::StartRenderTimer(25)]));
    assert_eq!(Debouncer::with_delay(40).delay_millis(), 40);
    assert_eq!(Debouncer::new().delay_millis(), 0);
}

#[test]
fn listing_replaces_the_units_and_a_failed_listing_changes_nothing() {
    assert_eq!(
        listing_actions(Some(units(&["a.service"]))),
        vec![Action::SetServices(units(&["a.service"]))]
    );
    assert_eq!(listing_actions(Some(Vec::new())), vec![Action::SetServices(Vec::new())]);
    assert_eq!(listing_actions(None), vec![]);
}

#[test]
fn the_operation_runs_under_the_kept_signal() {
    let mut app = App::new();
    let commands = app.step(Action::StartService("a.service".to_owned()));
    let first = match &commands[0] {
        Command::Perform(Effect::RunService { token, .. }) => token.clone(),
        other => panic!("unexpected command {:?}", other),
    };
    let commands = app.step(Action::StopService("a.service".to_owned()));
    let second = match &commands[0] {
        Command::Perform(Effect::RunService { token, .. }) => token.clone(),
        other => panic!("unexpected command {:?}", other),
    };
    let commands = app.step(Action::CancelTask);
    assert!(!second.is_cancelled());
    match &commands[0] {
        Command::Perform(Effect::Cancel(token)) => token.cancel(),
        other => panic!("unexpected command {:?}", other),
    }
    assert_eq!(enqueued(&commands), vec![Action::Render]);
    assert_eq!(commands.len(), 2);
    assert!(!first.is_cancelled());
    assert!(second.is_cancelled());
    assert!(!app.home().is_cancellable());
}

#[test]
fn other_actions_go_to_the_state_and_follow_ups_are_enqueued() {
    let mut app = App::new();
    let commands = app.step(Action::SetServices(units(&["nginx.service", "redis.service"])));
    assert_eq!(commands.len(), 2);
    match &commands[0] {
        Command::Perform(Effect::FollowLogs(name)) => assert_eq!(name, "nginx.service"),
        other => panic!("unexpected command {:?}", other),
    }
    assert_eq!(enqueued(&commands), vec![Action::Render]);
    assert!(app.step(Action::ToggleHelp).is_empty());
    assert_eq!(app.home().mode(), Mode::Help);
    let commands = app.step(Action::EnterError { err: "bad".to_owned() });
    assert_eq!(enqueued(&commands), vec![Action::Render]);
    assert_eq!(app.home().mode(), Mode::Error);
}

#[test]
fn key_presses_give_effects_then_actions() {
    let mut app = App::new();
    app.step(Action::SetServices(units(&["a.service", "b.service"])));
    let commands = app.key_pressed(KeyEvent::new(KeyCode::Down, KeyModifiers::NONE));
    assert_eq!(commands.len(), 2);
    match &commands[0] {
        Command::Perform(Effect::FollowLogs(name)) => assert_eq!(name, "b.service"),
        other => panic!("unexpected command {:?}", other),
    }
    assert_eq!(enqueued(&commands), vec![Action::Render]);
    let commands = app.key_pressed(KeyEvent::new(KeyCode::Char('?'), KeyModifiers::NONE));
    assert_eq!(enqueued(&commands), vec![Action::ToggleHelp, Action::Render]);
    assert_eq!(commands.len(), 2);
}

#[test]
fn stopping_a_service_end_to_end() {
    let mut app = App::new();
    let mut queue: Vec<Action> = Vec::new();
    let mut follow_requests: Vec<String> = Vec::new();
    let mut runs: Vec<(String, Operation, CancellationToken)> = Vec::new();
    let mut modes: Vec<Mode> = Vec::new();
    let mut refresh_requests = 0;

    queue.push(Action::SetServices(units(&["nginx", "redis"])));
    queue.push(Action::StopService("nginx".to_owned()));
    let mut completed = false;
    while !queue.is_empty() {
        let action = queue.remove(0);
        let before = app.home().mode();
        for command in app.step(action) {
            match command {
                Command::Enqueue(next) => queue.push(next),
                Command::Perform(Effect::FollowLogs(name)) => follow_requests.push(name),
                Command::Perform(Effect::RunService { name, operation, token }) => {
                    for step in opening() {
                        if let Step::Emit(emitted) = step {
                            queue.push(emitted);
                        }
                    }
                    runs.push((name, operation, token));
                },
                Command::Perform(Effect::RefreshServices) => refresh_requests += 1,
                Command::Draw | Command::StartRenderTimer(_) => {},
                other => panic!("unexpected command {:?}", other),
            }
        }
        if app.home().mode() != before {
            modes.push(app.home().mode());
        }
        if queue.is_empty() && !completed {
            completed = true;
            let (_, _, token) = &runs[0];
            for step in finish(token, Ok(())) {
                if let Step::Emit(emitted) = step {
                    queue.push(emitted);
                }
            }
        }
    }
    assert_eq!(follow_requests, vec!["nginx".to_owned()]);
    assert_eq!(runs.len(), 1);
    assert_eq!(runs[0].0, "nginx");
    assert_eq!(runs[0].1, Operation::Stop);
    assert_eq!(modes, vec![Mode::Processing, Mode::Normal]);
    assert_eq!(refresh_requests, 4);
}

#[test]
fn cancelling_a_running_operation_shows_no_error() {
    let mut app = App::new();
    app.step(Action::SetServices(units(&["nginx.service"])));
    let commands = app.step(Action::RestartService("nginx.service".to_owned()));
    let token = match &commands[0] {
        Command::Perform(Effect::RunService { token, .. }) => token.clone(),
        other => panic!("unexpected command {:?}", other),
    };
    app.step(Action::EnterMode(Mode::Processing));
    let commands = app.key_pressed(KeyEvent::new(KeyCode::Esc, KeyModifiers::NONE));
    assert_eq!(enqueued(&commands), vec![Action::CancelTask]);
    for command in app.step(Action::CancelTask) {
        if let Command::Perform(Effect::Cancel(signal)) = command {
            signal.cancel();
        }
    }
    assert!(token.is_cancelled());
    assert_eq!(app.home().mode(), Mode::Normal);
    let steps = finish(&token, Err("operation was interrupted".to_owned()));
    assert!(steps.iter().all(|step| !matches!(step, Step::Emit(Action::EnterError { .. }))));
    for step in steps {
        if let Step::Emit(action) = step {
            app.step(action);
        }
    }
    assert_eq!(app.home().mode(), Mode::Normal);
    assert_eq!(app.home().error_message(), "");
}
