use crossterm::event::{KeyCode, KeyEvent, KeyModifiers};
use systemctl_tui::action::{Action, Mode};
use systemctl_tui::home::select::keep_matching;
use systemctl_tui::home::{Effect, Home};
use systemctl_tui::input::Key;
use systemctl_tui::unit::UnitStatus;
use tui_input::Input;

fn plain(code: KeyCode) -> KeyEvent {
    KeyEvent::new(code, KeyModifiers::NONE)
}

fn ctrl(c: char) -> KeyEvent {
    KeyEvent::new(KeyCode::Char(c), KeyModifiers::CONTROL)
}

fn home_with(names: &[&str]) -> Home {
    let mut home = Home::new();
    home.set_units(names.iter().map(|name| UnitStatus::named(name)).collect());
    home.take_effects();
    home
}

fn shown(home: &Home) -> Vec<String> {
    home.units().iter().map(|unit| unit.name.clone()).collect()
}

fn type_text(home: &mut Home, text: &str) {
    for c in text.chars() {
        assert_eq!(home.handle_key_events(plain(KeyCode::Char(c))), vec![Action::Render]);
    }
}

#[test]
fn control_shortcuts_work_in_every_mode() {
    for mode in [Mode::Normal, Mode::Search, Mode::Help, Mode::Processing, Mode::Error] {
        let mut home = home_with(&["a.service"]);
        home.dispatch(Action::EnterMode(mode));
        assert_eq!(home.handle_key_events(ctrl('c')), vec![Action::Quit]);
        assert_eq!(home.handle_key_events(ctrl('d')), vec![Action::Quit]);
        assert_eq!(home.handle_key_events(ctrl('q')), vec![Action::Quit]);
        assert_eq!(home.handle_key_events(ctrl('z')), vec![Action::Suspend]);
        assert_eq!(home.handle_key_events(ctrl('f')), vec![Action::EnterMode(Mode::Search)]);
        assert_eq!(home.handle_key_events(ctrl('l')), vec![Action::ToggleShowLogger]);
        assert_eq!(home.mode(), mode);
    }
}

#[test]
fn help_keys_toggle_help() {
    let mut home = Home::new();
    let expected = vec![Action::ToggleHelp, Action::Render];
    assert_eq!(home.handle_key_events(plain(KeyCode::Char('?'))), expected);
    assert_eq!(home.handle_key_events(plain(KeyCode::F(1))), expected);
    assert_eq!(home.handle_key_events(plain(KeyCode::F(2))), vec![]);
}

#[test]
fn scroll_keys_ask_for_scrolling() {
    let mut home = Home::new();
    assert_eq!(
        home.handle_key_events(plain(KeyCode::PageDown)),
        vec![Action::ScrollDown(1), Action::Render]
    );
    assert_eq!(
        home.handle_key_events(plain(KeyCode::PageUp)),
        vec![Action::ScrollUp(1), Action::Render]
    );
    assert_eq!(
        home.handle_key_events(plain(KeyCode::Home)),
        vec![Action::ScrollToTop, Action::Render]
    );
    assert_eq!(
        home.handle_key_events(plain(KeyCode::End)),
        vec![Action::ScrollToBottom, Action::Render]
    );
}

#[test]
fn normal_mode_keys() {
    let mut home = home_with(&["a.service", "b.service"]);
    assert_eq!(home.handle_key_events(plain(KeyCode::Char('q'))), vec![Action::Quit]);
    assert_eq!(
        home.handle_key_events(plain(KeyCode::Char('/'))),
        vec![Action::EnterMode(Mode::Search)]
    );
    assert_eq!(
        home.handle_key_events(plain(KeyCode::Enter)),
        vec![Action::EnterMode(Mode::ActionMenu)]
    );
    assert_eq!(
        home.handle_key_events(plain(KeyCode::Char(' '))),
        vec![Action::EnterMode(Mode::ActionMenu)]
    );
    assert_eq!(home.handle_key_events(plain(KeyCode::Char('x'))), vec![]);
    assert_eq!(home.handle_key_events(plain(KeyCode::Backspace)), vec![]);
    assert_eq!(home.selected_index(), Some(0));
    assert!(home.take_effects().is_empty());
}

#[test]
fn normal_mode_navigation() {
    let mut home = home_with(&["a.service", "b.service", "c.service"]);
    assert_eq!(
        home.handle_key_events(plain(KeyCode::Up)),
        vec![Action::EnterMode(Mode::Search)]
    );
    assert_eq!(home.selected_index(), Some(0));
    assert_eq!(home.handle_key_events(plain(KeyCode::Down)), vec![Action::Render]);
    assert_eq!(home.selected_index(), Some(1));
    assert_eq!(home.handle_key_events(plain(KeyCode::Down)), vec![Action::Render]);
    assert_eq!(home.handle_key_events(plain(KeyCode::Up)), vec![Action::Render]);
    assert_eq!(home.selected_index(), Some(1));
    let effects = home.take_effects();
    assert_eq!(effects.len(), 3);
    match &effects[2] {
        Effect::FollowLogs(name) => assert_eq!(name, "b.service"),
        other => panic!("unexpected effect {:?}", other),
    }
}

#[test]
fn help_and_error_modes_are_dismissed() {
    for mode in [Mode::Help, Mode::Error] {
        let mut home = Home::new();
        home.dispatch(Action::EnterMode(mode));
        let dismissed = vec![Action::EnterMode(Mode::Normal)];
        assert_eq!(home.handle_key_events(plain(KeyCode::Esc)), dismissed);
        assert_eq!(home.handle_key_events(plain(KeyCode::Enter)), dismissed);
        assert_eq!(home.handle_key_events(plain(KeyCode::Char('q'))), vec![]);
    }
}

#[test]
fn processing_mode_can_only_be_cancelled() {
    let mut home = Home::new();
    home.dispatch(Action::EnterMode(Mode::Processing));
    assert_eq!(home.handle_key_events(plain(KeyCode::Esc)), vec![Action::CancelTask]);
    assert_eq!(home.handle_key_events(plain(KeyCode::Enter)), vec![]);
    assert_eq!(home.handle_key_events(plain(KeyCode::Char('q'))), vec![]);
}

#[test]
fn search_mode_keys() {
    let mut home = home_with(&["a.service", "b.service"]);
    home.dispatch(Action::EnterMode(Mode::Search));
    assert_eq!(
        home.handle_key_events(plain(KeyCode::Esc)),
        vec![Action::EnterMode(Mode::Normal)]
    );
    assert_eq!(
        home.handle_key_events(plain(KeyCode::Enter)),
        vec![Action::EnterMode(Mode::ActionMenu)]
    );
    assert_eq!(
        home.handle_key_events(plain(KeyCode::Down)),
        vec![Action::EnterMode(Mode::Normal)]
    );
    assert_eq!(home.selected_index(), Some(1));
    assert_eq!(
        home.handle_key_events(plain(KeyCode::Tab)),
        vec![Action::EnterMode(Mode::Normal)]
    );
    assert_eq!(home.selected_index(), Some(0));
    assert_eq!(
        home.handle_key_events(plain(KeyCode::Up)),
        vec![Action::EnterMode(Mode::Normal)]
    );
    assert_eq!(home.selected_index(), Some(1));
    assert_eq!(home.mode(), Mode::Search);
}

#[test]
fn typing_filters_the_units() {
    let mut home = home_with(&["nginx.service", "redis.service", "sshd.service"]);
    home.dispatch(Action::EnterMode(Mode::Search));
    type_text(&mut home, "s");
    assert_eq!(home.search(), "s");
    assert_eq!(shown(&home), vec!["redis.service".to_owned(), "sshd.service".to_owned()]);
    assert_eq!(home.selected_service(), Some("redis.service".to_owned()));
    type_text(&mut home, "s");
    assert_eq!(shown(&home), vec!["sshd.service".to_owned()]);
    assert_eq!(home.handle_key_events(plain(KeyCode::Backspace)), vec![Action::Render]);
    assert_eq!(home.handle_key_events(plain(KeyCode::Backspace)), vec![Action::Render]);
    assert_eq!(home.search(), "");
    assert_eq!(home.units().len(), 3);
}

#[test]
fn the_search_ignores_case() {
    let mut home = home_with(&["NGINX.service", "Redis.service"]);
    home.dispatch(Action::EnterMode(Mode::Search));
    type_text(&mut home, "ngi");
    assert_eq!(shown(&home), vec!["NGINX.service".to_owned()]);
    let mut home = home_with(&["nginx.service", "redis.service"]);
    home.dispatch(Action::EnterMode(Mode::Search));
    assert_eq!(
        home.handle_key_events(KeyEvent::new(KeyCode::Char('R'), KeyModifiers::SHIFT)),
        vec![Action::Render]
    );
    assert_eq!(home.search(), "R");
    assert_eq!(shown(&home), vec!["redis.service".to_owned()]);
}

#[test]
fn the_search_looks_at_the_short_name() {
    let mut home = home_with(&["nginx.service", "dbus.socket"]);
    home.set_input(Input::new("service".to_owned()));
    assert!(home.units().is_empty());
    home.set_input(Input::new("socket".to_owned()));
    assert_eq!(shown(&home), vec!["dbus.socket".to_owned()]);
}

#[test]
fn typing_keeps_the_selected_unit_when_it_still_matches() {
    let mut home = home_with(&["alpha.service", "beta.service", "gamma.service"]);
    home.next();
    home.next();
    home.dispatch(Action::SetLogs {
        unit_name: "gamma.service".to_owned(),
        logs: vec!["line".to_owned()],
    });
    home.take_effects();
    home.dispatch(Action::EnterMode(Mode::Search));
    type_text(&mut home, "mm");
    assert_eq!(home.selected_service(), Some("gamma.service".to_owned()));
    assert_eq!(home.selected_index(), Some(0));
    assert_eq!(home.logs(), &vec!["line".to_owned()]);
    assert!(home.take_effects().is_empty());
}

#[test]
fn a_search_without_a_match_selects_nothing() {
    let mut home = home_with(&["alpha.service"]);
    home.dispatch(Action::EnterMode(Mode::Search));
    type_text(&mut home, "z");
    assert!(home.units().is_empty());
    assert_eq!(home.selected_service(), None);
    assert_eq!(home.selected_index(), None);
    assert_eq!(
        home.handle_key_events(plain(KeyCode::Up)),
        vec![Action::EnterMode(Mode::Normal)]
    );
    assert_eq!(home.selected_index(), None);
    assert_eq!(
        home.handle_key_events(plain(KeyCode::Down)),
        vec![Action::EnterMode(Mode::Normal)]
    );
    assert_eq!(home.selected_index(), None);
    assert_eq!(home.selected_service(), None);
    assert_eq!(home.handle_key_events(plain(KeyCode::Backspace)), vec![Action::Render]);
    assert_eq!(home.selected_service(), Some("alpha.service".to_owned()));
    assert_eq!(home.selected_index(), Some(0));
}

#[test]
fn keep_matching_takes_the_lowercase_names() {
    let units: Vec<UnitStatus> =
        ["Nginx.service", "redis.service", "sshd.service"].iter().map(|n| UnitStatus::named(n)).collect();
    let names = vec!["nginx".to_owned(), "redis".to_owned(), "sshd".to_owned()];
    let kept = keep_matching(&units, &names, "s");
    let kept: Vec<&str> = kept.iter().map(|unit| unit.name.as_str()).collect();
    assert_eq!(kept, vec!["redis.service", "sshd.service"]);
    assert_eq!(keep_matching(&units, &names, "").len(), 3);
    assert_eq!(keep_matching(&units, &names, "N").len(), 0);
    assert_eq!(keep_matching(&units, &names[..1].to_vec(), "").len(), 1);
    assert_eq!(keep_matching(&units, &Vec::new(), "").len(), 0);
    assert_eq!(keep_matching(&Vec::new(), &names, "").len(), 0);
}

#[test]
fn keys_that_do_not_edit_leave_the_filter_alone() {
    let mut home = home_with(&["alpha.service", "beta.service"]);
    home.dispatch(Action::EnterMode(Mode::Search));
    type_text(&mut home, "a");
    home.take_effects();
    assert_eq!(home.handle_key_events(plain(KeyCode::Left)), vec![Action::Render]);
    assert_eq!(home.search(), "a");
    assert_eq!(home.units().len(), 2);
    assert!(home.take_effects().is_empty());
}

#[test]
fn set_input_with_the_same_text_changes_nothing() {
    let mut home = home_with(&["alpha.service", "beta.service"]);
    home.next();
    home.take_effects();
    home.set_input(Input::new(String::new()));
    assert_eq!(home.selected_index(), Some(1));
    assert!(home.take_effects().is_empty());
}

#[test]
fn action_menu_keys() {
    let mut home = home_with(&["nginx.service"]);
    home.dispatch(Action::EnterMode(Mode::ActionMenu));
    assert_eq!(
        home.handle_key_events(plain(KeyCode::Enter)),
        vec![Action::StartService("nginx.service".to_owned())]
    );
    assert_eq!(home.handle_key_events(plain(KeyCode::Down)), vec![Action::Render]);
    assert_eq!(home.menu_selected_index(), Some(1));
    assert_eq!(
        home.handle_key_events(plain(KeyCode::Char(' '))),
        vec![Action::StopService("nginx.service".to_owned())]
    );
    assert_eq!(home.handle_key_events(plain(KeyCode::Down)), vec![Action::Render]);
    assert_eq!(
        home.handle_key_events(plain(KeyCode::Enter)),
        vec![Action::RestartService("nginx.service".to_owned())]
    );
    assert_eq!(home.handle_key_events(plain(KeyCode::Down)), vec![Action::Render]);
    assert_eq!(home.menu_selected_index(), Some(0));
    assert_eq!(home.handle_key_events(plain(KeyCode::Up)), vec![Action::Render]);
    assert_eq!(home.menu_selected_index(), Some(2));
    assert_eq!(
        home.handle_key_events(plain(KeyCode::Esc)),
        vec![Action::EnterMode(Mode::Normal)]
    );
    assert_eq!(home.handle_key_events(plain(KeyCode::Char('x'))), vec![]);
    assert_eq!(home.mode(), Mode::ActionMenu);
}

#[test]
fn on_key_takes_the_key_as_read() {
    let mut home = home_with(&["a.service", "b.service"]);
    let raw = plain(KeyCode::Null);
    assert_eq!(home.on_key(true, Key::Char('c'), &raw), vec![Action::Quit]);
    assert_eq!(home.on_key(false, Key::Char('c'), &raw), vec![]);
    assert_eq!(home.on_key(false, Key::Down, &raw), vec![Action::Render]);
    assert_eq!(home.selected_index(), Some(1));
    assert_eq!(home.on_key(true, Key::PageDown, &raw), vec![Action::ScrollDown(1), Action::Render]);
    assert_eq!(home.on_key(false, Key::Other, &raw), vec![]);
}

#[test]
fn control_without_a_shortcut_falls_through_to_the_mode() {
    let mut home = home_with(&["a.service", "b.service"]);
    assert_eq!(
        home.handle_key_events(KeyEvent::new(KeyCode::Down, KeyModifiers::CONTROL)),
        vec![Action::Render]
    );
    assert_eq!(home.selected_index(), Some(1));
    assert_eq!(home.handle_key_events(ctrl('x')), vec![]);
}
