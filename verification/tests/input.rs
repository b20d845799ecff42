use ittybitty::action::Action;
use ittybitty::engine::TorrentDetails;
use ittybitty::input::{Event, KeyCode, KeyEvent, KeyEventKind};
use ittybitty::modes::{FocusPanel, View};
use ittybitty::rows::SessionStats;
use ittybitty::state::App;

fn press(code: KeyCode) -> KeyEvent {
    KeyEvent { code, kind: KeyEventKind::Press }
}

fn repeat(code: KeyCode) -> KeyEvent {
    KeyEvent { code, kind: KeyEventKind::Repeat }
}

fn ch(c: char) -> KeyEvent {
    press(KeyCode::Char(c))
}

fn app() -> App {
    App::new("/downloads".to_string())
}

fn one_torrent(app: &mut App) {
    app.refresh(
        SessionStats {
            fetched_bytes: 0,
            uploaded_bytes: 0,
            download_bps: 0,
            upload_bps: 0,
            uptime_seconds: 0,
        },
        vec![TorrentDetails {
            id: Some(1),
            info_hash: "h".to_string(),
            name: None,
            output_folder: "/d".to_string(),
            files: None,
            stats: None,
        }],
    );
}

#[test]
fn two_equal_keys_fifty_milliseconds_apart_yield_one() {
    let mut app = app();
    assert_eq!(app.actions_from_key(ch('f'), 10_000), vec![Action::ViewSet(View::Torrents)]);
    assert_eq!(app.actions_from_key(ch('f'), 10_050), vec![]);
    assert_eq!(app.status(), "Paste ignored");
}

#[test]
fn two_equal_keys_five_hundred_milliseconds_apart_yield_two() {
    let mut app = app();
    assert_eq!(app.actions_from_key(ch('v'), 10_000), vec![Action::ViewSet(View::Peers)]);
    assert_eq!(app.actions_from_key(ch('v'), 10_500), vec![Action::ViewSet(View::Peers)]);
    assert_eq!(app.status(), "Ready");
}

#[test]
fn the_gap_is_two_hundred_milliseconds_inclusive() {
    let mut app = app();
    assert_eq!(app.actions_from_key(ch('r'), 1_000).len(), 1);
    assert_eq!(app.actions_from_key(ch('r'), 1_200).len(), 0);
    assert_eq!(app.actions_from_key(ch('r'), 1_401).len(), 1);
    assert_eq!(app.actions_from_key(ch('i'), 1_601).len(), 0);
    assert_eq!(app.actions_from_key(ch('i'), 1_802).len(), 1);
}

#[test]
fn a_dropped_key_refreshes_the_time() {
    let mut app = app();
    assert_eq!(app.actions_from_key(ch('r'), 1_000).len(), 1);
    assert_eq!(app.actions_from_key(ch('r'), 1_150).len(), 0);
    assert_eq!(app.actions_from_key(ch('r'), 1_300).len(), 0);
    assert_eq!(app.actions_from_key(ch('r'), 1_450).len(), 0);
    assert_eq!(app.actions_from_key(ch('r'), 1_651).len(), 1);
}

#[test]
fn another_key_rearms_the_paste_check() {
    let mut app = app();
    assert_eq!(app.actions_from_key(ch('r'), 1_000).len(), 1);
    assert_eq!(app.actions_from_key(press(KeyCode::Other), 1_010), vec![]);
    assert_eq!(app.actions_from_key(ch('r'), 1_020), vec![Action::Refresh]);
}

#[test]
fn navigation_letters_are_never_dropped() {
    let mut app = app();
    assert_eq!(app.actions_from_key(ch('j'), 1_000), vec![Action::MoveSelection(1)]);
    assert_eq!(app.actions_from_key(ch('j'), 1_001), vec![Action::MoveSelection(1)]);
    assert_eq!(app.actions_from_key(ch('k'), 1_002), vec![Action::MoveSelection(-1)]);
    assert_eq!(app.actions_from_key(ch('h'), 1_003), vec![]);
    assert_eq!(app.actions_from_key(ch('l'), 1_004), vec![]);
    assert_eq!(app.actions_from_key(ch('r'), 1_005), vec![Action::Refresh]);
}

#[test]
fn typing_in_a_text_mode_is_never_dropped() {
    let mut app = app();
    assert_eq!(app.actions_from_key(ch('a'), 1_000), vec![Action::StartAdd]);
    assert!(app.dispatch(Action::StartAdd, 1_000) == ittybitty::flow::Outcome::Done(false));
    assert_eq!(app.actions_from_key(ch('m'), 1_001), vec![Action::InputChar('m')]);
    assert_eq!(app.actions_from_key(ch('m'), 1_002), vec![Action::InputChar('m')]);
}

#[test]
fn releases_mean_nothing() {
    let mut app = app();
    let key = KeyEvent { code: KeyCode::Char('q'), kind: KeyEventKind::Release };
    assert_eq!(app.actions_from_key(key, 1_000), vec![]);
    assert_eq!(app.actions_from_key(ch('q'), 1_001), vec![Action::ConfirmQuitOpen]);
}

#[test]
fn repeats_count_for_arrows_only_in_normal_mode() {
    let mut app = app();
    assert_eq!(app.actions_from_key(repeat(KeyCode::Down), 1_000), vec![Action::MoveSelection(1)]);
    assert_eq!(app.actions_from_key(repeat(KeyCode::Up), 1_001), vec![Action::MoveSelection(-1)]);
    assert_eq!(app.actions_from_key(repeat(KeyCode::Left), 1_002), vec![]);
    assert_eq!(app.actions_from_key(repeat(KeyCode::Char('r')), 5_000), vec![]);
    assert_eq!(app.actions_from_key(repeat(KeyCode::Tab), 6_000), vec![]);
    assert_eq!(app.actions_from_key(repeat(KeyCode::Enter), 7_000), vec![]);
}

#[test]
fn repeats_count_for_characters_while_text_is_entered() {
    let mut app = app();
    app.dispatch(Action::StartAdd, 0);
    assert_eq!(
        app.actions_from_key(repeat(KeyCode::Char('x')), 1_000),
        vec![Action::InputChar('x')]
    );
    assert_eq!(app.actions_from_key(repeat(KeyCode::Left), 1_001), vec![Action::InputLeft]);
    assert_eq!(app.actions_from_key(repeat(KeyCode::Backspace), 1_002), vec![]);
    assert_eq!(app.actions_from_key(repeat(KeyCode::Enter), 1_003), vec![]);
}

#[test]
fn normal_mode_keys() {
    let cases = [
        ('f', Action::ViewSet(View::Torrents)),
        ('i', Action::ViewSet(View::Info)),
        ('v', Action::ViewSet(View::Peers)),
        ('\t', Action::FocusToggle),
        ('?', Action::HelpOpen),
        ('t', Action::FocusSet(FocusPanel::Torrents)),
        ('g', Action::FocusSet(FocusPanel::Filters)),
        ('p', Action::TogglePause),
        ('a', Action::StartAdd),
        ('d', Action::ConfirmDeleteOpen),
        ('q', Action::ConfirmQuitOpen),
        ('1', Action::SetFilter(0)),
        ('2', Action::SetFilter(1)),
        ('3', Action::SetFilter(2)),
        ('4', Action::SetFilter(3)),
        ('5', Action::SetFilter(4)),
        ('6', Action::SetFilter(5)),
        ('r', Action::Refresh),
        ('j', Action::MoveSelection(1)),
        ('k', Action::MoveSelection(-1)),
    ];
    let mut now = 0;
    for (c, action) in cases {
        let mut app = app();
        now += 1_000;
        assert_eq!(app.actions_from_key(ch(c), now), vec![action]);
    }
    let mut app = app();
    assert_eq!(app.actions_from_key(press(KeyCode::Tab), 1), vec![Action::FocusToggle]);
    assert_eq!(app.actions_from_key(press(KeyCode::BackTab), 2), vec![Action::FocusToggle]);
    assert_eq!(app.actions_from_key(press(KeyCode::Down), 3), vec![Action::MoveSelection(1)]);
    assert_eq!(app.actions_from_key(press(KeyCode::Up), 4), vec![Action::MoveSelection(-1)]);
    assert_eq!(app.actions_from_key(press(KeyCode::Enter), 5), vec![]);
    assert_eq!(app.actions_from_key(press(KeyCode::Esc), 6), vec![]);
    assert_eq!(app.actions_from_key(ch('z'), 1_000), vec![]);
    assert_eq!(app.actions_from_key(ch('7'), 2_000), vec![]);
}

#[test]
fn directions_go_to_the_focused_panel() {
    let mut app = app();
    app.set_focus(FocusPanel::Filters);
    assert_eq!(app.actions_from_key(press(KeyCode::Down), 1), vec![Action::MoveFilter(1)]);
    assert_eq!(app.actions_from_key(press(KeyCode::Up), 2), vec![Action::MoveFilter(-1)]);
    assert_eq!(app.actions_from_key(ch('j'), 3), vec![Action::MoveFilter(1)]);
    assert_eq!(app.actions_from_key(ch('k'), 4), vec![Action::MoveFilter(-1)]);
    app.set_focus(FocusPanel::Torrents);
    assert_eq!(app.actions_from_key(ch('j'), 5), vec![Action::MoveSelection(1)]);
}

#[test]
fn the_help_takes_every_key() {
    let mut app = app();
    app.open_help();
    assert_eq!(app.actions_from_key(ch('?'), 1), vec![Action::HelpClose]);
    assert_eq!(app.actions_from_key(ch('x'), 2), vec![Action::HelpClose]);
    assert_eq!(app.actions_from_key(press(KeyCode::Esc), 3), vec![Action::HelpClose]);
    assert_eq!(app.actions_from_key(press(KeyCode::Up), 4), vec![Action::HelpScroll(-1)]);
    assert_eq!(app.actions_from_key(ch('k'), 5), vec![Action::HelpScroll(-1)]);
    assert_eq!(app.actions_from_key(press(KeyCode::Down), 6), vec![Action::HelpScroll(1)]);
    assert_eq!(app.actions_from_key(ch('j'), 7), vec![Action::HelpScroll(1)]);
    assert_eq!(app.actions_from_key(ch('q'), 8), vec![]);
    assert_eq!(app.actions_from_key(ch('a'), 9), vec![]);
    assert_eq!(app.actions_from_key(press(KeyCode::Enter), 10), vec![]);
}

#[test]
fn an_error_takes_every_key() {
    let mut app = app();
    app.set_error("boom");
    assert_eq!(app.actions_from_key(ch('q'), 1), vec![]);
    assert_eq!(app.actions_from_key(press(KeyCode::Enter), 2), vec![]);
    assert_eq!(app.actions_from_key(ch('x'), 3), vec![Action::ErrorClear]);
    assert_eq!(app.actions_from_key(press(KeyCode::Esc), 4), vec![Action::ErrorClear]);
}

#[test]
fn the_help_comes_before_an_error() {
    let mut app = app();
    app.set_error("boom");
    app.open_help();
    assert_eq!(app.actions_from_key(ch('x'), 1), vec![Action::HelpClose]);
}

#[test]
fn the_delete_confirmation_takes_every_key() {
    let mut app = app();
    one_torrent(&mut app);
    app.open_confirm_delete();
    assert!(app.confirm_delete());
    for (key, action) in [
        (press(KeyCode::Left), Action::ConfirmDeleteSelect(true)),
        (ch('h'), Action::ConfirmDeleteSelect(true)),
        (ch('y'), Action::ConfirmDeleteSelect(true)),
        (ch('Y'), Action::ConfirmDeleteSelect(true)),
        (press(KeyCode::Right), Action::ConfirmDeleteSelect(false)),
        (ch('l'), Action::ConfirmDeleteSelect(false)),
        (ch('n'), Action::ConfirmDeleteSelect(false)),
        (ch('N'), Action::ConfirmDeleteSelect(false)),
        (press(KeyCode::Esc), Action::ConfirmDeleteCancel),
        (press(KeyCode::Enter), Action::ConfirmDeleteConfirm),
    ] {
        assert_eq!(app.actions_from_key(key, 1), vec![action]);
    }
    assert_eq!(app.actions_from_key(ch('q'), 2), vec![]);
    assert_eq!(app.actions_from_key(press(KeyCode::Up), 3), vec![]);
}

#[test]
fn the_quit_confirmation_takes_every_key() {
    let mut app = app();
    app.open_confirm_quit();
    for (key, action) in [
        (press(KeyCode::Left), Action::ConfirmQuitSelect(true)),
        (ch('h'), Action::ConfirmQuitSelect(true)),
        (ch('y'), Action::ConfirmQuitSelect(true)),
        (ch('Y'), Action::ConfirmQuitSelect(true)),
        (press(KeyCode::Right), Action::ConfirmQuitSelect(false)),
        (ch('l'), Action::ConfirmQuitSelect(false)),
        (ch('n'), Action::ConfirmQuitSelect(false)),
        (ch('N'), Action::ConfirmQuitSelect(false)),
        (press(KeyCode::Esc), Action::ConfirmQuitCancel),
        (press(KeyCode::Enter), Action::ConfirmQuitConfirm),
    ] {
        assert_eq!(app.actions_from_key(key, 1), vec![action]);
    }
    assert_eq!(app.actions_from_key(ch('a'), 2), vec![]);
}

#[test]
fn text_entry_keys() {
    let mut app = app();
    app.dispatch(Action::StartAdd, 0);
    for (key, action) in [
        (press(KeyCode::Esc), Action::InputCancel),
        (press(KeyCode::Enter), Action::InputEnter),
        (press(KeyCode::Backspace), Action::InputBackspace),
        (press(KeyCode::Delete), Action::InputDelete),
        (press(KeyCode::Left), Action::InputLeft),
        (press(KeyCode::Right), Action::InputRight),
        (press(KeyCode::Home), Action::InputHome),
        (press(KeyCode::End), Action::InputEnd),
        (ch('q'), Action::InputChar('q')),
        (ch('?'), Action::InputChar('?')),
        (ch('é'), Action::InputChar('é')),
    ] {
        assert_eq!(app.actions_from_key(key, 1), vec![action]);
    }
    assert_eq!(app.actions_from_key(press(KeyCode::Up), 2), vec![]);
    assert_eq!(app.actions_from_key(press(KeyCode::Tab), 3), vec![]);
}

#[test]
fn pasted_text_is_one_action_in_any_state() {
    let mut app = app();
    assert_eq!(
        app.actions_from_event(Event::Paste("magnet:?x".to_string()), 1),
        vec![Action::Paste("magnet:?x".to_string())]
    );
    app.open_help();
    assert_eq!(
        app.actions_from_event(Event::Paste("".to_string()), 2),
        vec![Action::Paste("".to_string())]
    );
}

#[test]
fn other_events_mean_nothing() {
    let mut app = app();
    assert_eq!(app.actions_from_event(Event::Resize(80, 24), 1), vec![]);
    assert_eq!(app.actions_from_event(Event::Other, 2), vec![]);
    assert_eq!(
        app.actions_from_event(Event::Key(ch('q')), 3),
        vec![Action::ConfirmQuitOpen]
    );
}
