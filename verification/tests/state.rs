use ittybitty::engine::TorrentDetails;
use ittybitty::modes::{Dialog, FilterKind, FocusPanel, Mode, TorrentState, View};
use ittybitty::rows::{SessionStats, TorrentRow, TorrentStats};
use ittybitty::state::App;

fn session() -> SessionStats {
    SessionStats {
        fetched_bytes: 1,
        uploaded_bytes: 2,
        download_bps: 3,
        upload_bps: 4,
        uptime_seconds: 5,
    }
}

fn stats(state: TorrentState, finished: bool, progress: u64, total: u64) -> Option<TorrentStats> {
    Some(TorrentStats {
        state,
        finished,
        progress_bytes: progress,
        uploaded_bytes: 0,
        total_bytes: total,
        live: None,
    })
}

fn listed(id: Option<usize>, hash: &str, stats: Option<TorrentStats>) -> TorrentDetails {
    TorrentDetails {
        id,
        info_hash: hash.to_string(),
        name: Some(format!("name-{hash}")),
        output_folder: format!("/d/{hash}"),
        files: None,
        stats,
    }
}

fn app_with(rows: Vec<TorrentDetails>) -> App {
    let mut app = App::new("/downloads".to_string());
    app.refresh(session(), rows);
    app
}

fn mixed() -> Vec<TorrentDetails> {
    vec![
        listed(Some(10), "a", stats(TorrentState::Paused, false, 1, 10)),
        listed(Some(11), "b", stats(TorrentState::Live, false, 5, 10)),
        listed(Some(12), "c", stats(TorrentState::Live, true, 10, 10)),
        listed(Some(13), "d", stats(TorrentState::Error, false, 0, 10)),
        listed(Some(14), "e", None),
        listed(Some(15), "f", stats(TorrentState::Live, false, 7, 10)),
    ]
}

fn selected_passes(app: &App) -> bool {
    match app.selected_torrent() {
        Some(row) => app.filter_match(row),
        None => false,
    }
}

#[test]
fn a_new_app_is_idle() {
    let app = App::new("/downloads".to_string());
    assert_eq!(app.mode(), Mode::Normal);
    assert_eq!(app.dialog(), Dialog::Closed);
    assert_eq!(app.view(), View::Torrents);
    assert_eq!(app.focus(), FocusPanel::Torrents);
    assert_eq!(app.selected_filter(), FilterKind::All);
    assert_eq!(app.status(), "Ready");
    assert_eq!(app.download_dir(), "/downloads");
    assert_eq!(app.input(), "");
    assert_eq!(app.input_cursor(), 0);
    assert_eq!(app.selected_index(), 0);
    assert_eq!(app.help_scroll(), 0);
    assert!(app.torrents().is_empty());
    assert!(app.selected_torrent().is_none());
    assert!(app.file_picker().is_none());
    assert!(app.session_stats().is_none());
    assert!(app.last_error().is_none());
    assert!(!app.confirm_delete());
    assert!(!app.delete_choice());
    assert!(!app.confirm_quit());
    assert!(!app.quit_choice());
    assert!(!app.show_help());
    assert!(app.filtered_indices().is_empty());
}

#[test]
fn set_error_raises_the_error_dialog_and_resets_the_rest() {
    let mut app = app_with(mixed());
    app.set_input("half typed".to_string());
    app.open_help();
    app.scroll_help(4);
    app.open_confirm_quit();
    app.choose_quit(true);
    app.open_confirm_delete();
    app.choose_delete(true);
    app.set_error("boom");
    assert_eq!(app.last_error(), Some("boom"));
    assert_eq!(app.status(), "Error");
    assert_eq!(app.dialog(), Dialog::Error);
    assert_eq!(app.mode(), Mode::Normal);
    assert_eq!(app.input(), "");
    assert_eq!(app.input_cursor(), 0);
    assert_eq!(app.help_scroll(), 0);
    assert!(!app.show_help());
    assert!(!app.confirm_delete());
    assert!(!app.delete_choice());
    assert!(!app.confirm_quit());
    assert!(!app.quit_choice());
    assert!(app.file_picker().is_none());
    assert_eq!(app.torrents().len(), 6);
}

#[test]
fn clear_error_returns_to_ready() {
    let mut app = App::new("/downloads".to_string());
    app.set_error("boom");
    app.clear_error();
    assert_eq!(app.last_error(), None);
    assert_eq!(app.status(), "Ready");
    assert_eq!(app.dialog(), Dialog::Closed);
    assert_eq!(app.mode(), Mode::Normal);
}

#[test]
fn characters_are_inserted_at_the_cursor() {
    let mut app = App::new("/d".to_string());
    app.insert_char('a');
    app.insert_char('c');
    app.move_cursor_left();
    app.insert_char('é');
    assert_eq!(app.input(), "aéc");
    assert_eq!(app.input_cursor(), 2);
    app.move_cursor_home();
    app.insert_char('😀');
    assert_eq!(app.input(), "😀aéc");
    assert_eq!(app.input_cursor(), 1);
    app.move_cursor_end();
    app.insert_char('!');
    assert_eq!(app.input(), "😀aéc!");
    assert_eq!(app.input_cursor(), 5);
}

#[test]
fn text_is_inserted_at_the_cursor() {
    let mut app = App::new("/d".to_string());
    app.set_input("héo".to_string());
    app.move_cursor_left();
    app.insert_text("ll");
    assert_eq!(app.input(), "héllo");
    assert_eq!(app.input_cursor(), 4);
    app.insert_text("");
    assert_eq!(app.input(), "héllo");
    assert_eq!(app.input_cursor(), 4);
}

#[test]
fn backspace_removes_the_character_before_the_cursor() {
    let mut app = App::new("/d".to_string());
    app.set_input("aé€".to_string());
    app.backspace();
    assert_eq!(app.input(), "aé");
    assert_eq!(app.input_cursor(), 2);
    app.move_cursor_left();
    app.backspace();
    assert_eq!(app.input(), "é");
    assert_eq!(app.input_cursor(), 0);
    app.backspace();
    assert_eq!(app.input(), "é");
    assert_eq!(app.input_cursor(), 0);
}

#[test]
fn delete_removes_the_character_at_the_cursor() {
    let mut app = App::new("/d".to_string());
    app.set_input("aé€".to_string());
    app.delete();
    assert_eq!(app.input(), "aé€");
    assert_eq!(app.input_cursor(), 3);
    app.move_cursor_home();
    app.move_cursor_right();
    app.delete();
    assert_eq!(app.input(), "a€");
    assert_eq!(app.input_cursor(), 1);
    app.delete();
    assert_eq!(app.input(), "a");
    app.delete();
    assert_eq!(app.input(), "a");
    assert_eq!(app.input_cursor(), 1);
}

#[test]
fn the_cursor_stays_within_the_input() {
    let mut app = App::new("/d".to_string());
    app.set_input("éé".to_string());
    assert_eq!(app.input_cursor(), 2);
    app.move_cursor_right();
    assert_eq!(app.input_cursor(), 2);
    app.move_cursor_left();
    app.move_cursor_left();
    app.move_cursor_left();
    assert_eq!(app.input_cursor(), 0);
    app.move_cursor_right();
    assert_eq!(app.input_cursor(), 1);
    app.clear_input();
    assert_eq!(app.input(), "");
    assert_eq!(app.input_cursor(), 0);
}

#[test]
fn refresh_rebuilds_the_cache_and_skips_torrents_without_identity() {
    let mut rows = mixed();
    rows.insert(2, listed(None, "x", None));
    let app = app_with(rows);
    let ids: Vec<usize> = app.torrents().iter().map(|r| r.id).collect();
    assert_eq!(ids, vec![10, 11, 12, 13, 14, 15]);
    assert_eq!(app.session_stats(), Some(&session()));
    assert_eq!(
        app.torrents()[0],
        TorrentRow {
            id: 10,
            name: "name-a".to_string(),
            info_hash: Some("a".to_string()),
            output_folder: "/d/a".to_string(),
            stats: stats(TorrentState::Paused, false, 1, 10),
        }
    );
}

#[test]
fn refresh_follows_the_selected_torrent() {
    let mut app = app_with(mixed());
    app.move_selection(3);
    assert_eq!(app.selected_torrent().unwrap().id, 13);
    let mut rows = mixed();
    rows.remove(0);
    rows.reverse();
    app.refresh(session(), rows);
    assert_eq!(app.selected_torrent().unwrap().id, 13);
    assert_eq!(app.selected_index(), 2);
}

#[test]
fn refresh_clamps_the_selection_when_the_torrent_is_gone() {
    let mut app = app_with(mixed());
    app.move_selection(5);
    assert_eq!(app.selected_index(), 5);
    let mut rows = mixed();
    rows.truncate(3);
    app.refresh(session(), rows);
    assert_eq!(app.selected_index(), 2);
    app.refresh(session(), vec![]);
    assert_eq!(app.selected_index(), 0);
    assert!(app.selected_torrent().is_none());
}

#[test]
fn each_filter_passes_its_rows() {
    let mut app = app_with(mixed());
    assert_eq!(app.filtered_indices(), vec![0, 1, 2, 3, 4, 5]);
    app.set_filter(1);
    assert_eq!(app.selected_filter(), FilterKind::Downloading);
    assert_eq!(app.filtered_indices(), vec![1, 5]);
    app.set_filter(2);
    assert_eq!(app.selected_filter(), FilterKind::Seeding);
    assert_eq!(app.filtered_indices(), vec![2]);
    app.set_filter(3);
    assert_eq!(app.selected_filter(), FilterKind::Paused);
    assert_eq!(app.filtered_indices(), vec![0]);
    app.set_filter(4);
    assert_eq!(app.selected_filter(), FilterKind::Stopped);
    assert_eq!(app.filtered_indices(), vec![4]);
    app.set_filter(5);
    assert_eq!(app.selected_filter(), FilterKind::Error);
    assert_eq!(app.filtered_indices(), vec![3]);
    app.set_filter(0);
    assert_eq!(app.selected_filter(), FilterKind::All);
}

#[test]
fn a_live_torrent_with_all_bytes_is_seeding() {
    let mut app = app_with(vec![
        listed(Some(1), "a", stats(TorrentState::Live, false, 10, 10)),
        listed(Some(2), "b", stats(TorrentState::Live, false, 0, 0)),
        listed(Some(3), "c", stats(TorrentState::Paused, true, 10, 10)),
        listed(Some(4), "d", stats(TorrentState::Paused, false, 10, 10)),
    ]);
    app.set_filter(2);
    assert_eq!(app.filtered_indices(), vec![0, 2]);
    app.set_filter(1);
    assert_eq!(app.filtered_indices(), vec![0, 1]);
}

#[test]
fn the_selected_row_passes_the_filter_after_every_filter_change() {
    for start in 0..6isize {
        for filter in 0..6usize {
            let mut app = app_with(mixed());
            app.move_selection(start);
            app.set_filter(filter);
            assert!(selected_passes(&app), "start {start} filter {filter}");
            app.ensure_selection_for_filter();
            assert!(selected_passes(&app));
        }
    }
}

#[test]
fn the_selection_is_kept_where_it_passes_and_else_the_first_that_passes() {
    let mut app = app_with(mixed());
    app.move_selection(5);
    app.set_filter(1);
    assert_eq!(app.selected_index(), 5);
    app.set_filter(2);
    assert_eq!(app.selected_index(), 2);
    app.set_filter(1);
    assert_eq!(app.selected_index(), 1);
}

#[test]
fn the_selection_is_zero_where_no_row_passes() {
    let mut app = app_with(vec![
        listed(Some(1), "a", stats(TorrentState::Live, false, 1, 10)),
        listed(Some(2), "b", stats(TorrentState::Live, false, 2, 10)),
    ]);
    app.move_selection(1);
    assert_eq!(app.selected_index(), 1);
    app.set_filter(3);
    assert_eq!(app.selected_index(), 0);
    assert!(app.filtered_indices().is_empty());
    let mut empty = App::new("/d".to_string());
    empty.set_filter(5);
    empty.ensure_selection_for_filter();
    assert_eq!(empty.selected_index(), 0);
}

#[test]
fn the_selection_moves_among_the_rows_that_pass() {
    let mut app = app_with(mixed());
    app.set_filter(1);
    assert_eq!(app.selected_index(), 1);
    app.move_selection(1);
    assert_eq!(app.selected_index(), 5);
    app.move_selection(1);
    assert_eq!(app.selected_index(), 5);
    app.move_selection(-1);
    assert_eq!(app.selected_index(), 1);
    app.move_selection(-1);
    assert_eq!(app.selected_index(), 1);
    app.move_selection(isize::MAX);
    assert_eq!(app.selected_index(), 5);
    app.move_selection(isize::MIN);
    assert_eq!(app.selected_index(), 1);
    app.move_selection(0);
    assert_eq!(app.selected_index(), 1);
}

#[test]
fn the_selection_does_not_move_where_nothing_passes() {
    let mut app = app_with(vec![listed(Some(1), "a", stats(TorrentState::Live, false, 1, 10))]);
    app.set_filter(5);
    app.move_selection(1);
    assert_eq!(app.selected_index(), 0);
    let mut empty = App::new("/d".to_string());
    empty.move_selection(3);
    assert_eq!(empty.selected_index(), 0);
}

#[test]
fn the_filter_moves_within_the_filters() {
    let mut app = app_with(mixed());
    app.move_filter(2);
    assert_eq!(app.selected_filter(), FilterKind::Seeding);
    app.move_filter(9);
    assert_eq!(app.selected_filter(), FilterKind::Error);
    app.move_filter(isize::MAX);
    assert_eq!(app.selected_filter(), FilterKind::Error);
    app.move_filter(-1);
    assert_eq!(app.selected_filter(), FilterKind::Stopped);
    app.move_filter(isize::MIN);
    assert_eq!(app.selected_filter(), FilterKind::All);
    app.set_filter(usize::MAX);
    assert_eq!(app.selected_filter(), FilterKind::Error);
}

#[test]
fn has_same_destination_needs_hash_and_folder() {
    let app = app_with(mixed());
    assert!(app.has_same_destination("a", "/d/a"));
    assert!(app.has_same_destination("f", "/d/f"));
    assert!(!app.has_same_destination("a", "/d/b"));
    assert!(!app.has_same_destination("z", "/d/a"));
    assert!(!App::new("/d".to_string()).has_same_destination("a", "/d/a"));
}

#[test]
fn the_paste_check_drops_keys_within_the_gap() {
    let mut app = App::new("/d".to_string());
    assert!(!app.should_ignore_paste_char(1_000));
    assert!(app.should_ignore_paste_char(1_200));
    assert_eq!(app.status(), "Paste ignored");
    assert!(!app.should_ignore_paste_char(1_401));
    assert!(app.should_ignore_paste_char(1_401));
    assert!(app.should_ignore_paste_char(1_000));
}

#[test]
fn the_paste_check_is_off_while_a_dialog_is_open() {
    let mut app = App::new("/d".to_string());
    assert!(!app.should_ignore_paste_char(1_000));
    app.open_help();
    assert!(!app.should_ignore_paste_char(1_001));
    app.close_help();
    assert!(app.should_ignore_paste_char(1_100));
}
