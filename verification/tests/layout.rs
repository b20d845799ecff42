use ittybitty::engine::TorrentDetails;
use ittybitty::layout::{
    col_offset, count_rows, counts, filter_counts, fit_text, fit_text_padded, repeated,
    segment_fill, status_label, table_column_widths, visible_input, Counts, StatusLabel,
};
use ittybitty::rows::SessionStats;
use ittybitty::state::App;
use ittybitty::modes::TorrentState;
use ittybitty::rows::{TorrentRow, TorrentStats};

fn row(id: usize, stats: Option<TorrentStats>) -> TorrentRow {
    TorrentRow {
        id,
        name: format!("t{id}"),
        info_hash: None,
        output_folder: "/d".to_string(),
        stats,
    }
}

fn stats(state: TorrentState, finished: bool, progress: u64, total: u64) -> Option<TorrentStats> {
    Some(TorrentStats {
        state,
        finished,
        progress_bytes: progress,
        uploaded_bytes: 0,
        total_bytes: total,
        live: None,
    })
}

#[test]
fn first_column_takes_what_the_others_leave() {
    assert_eq!(table_column_widths(120, 8), vec![21, 14, 12, 17, 17, 13, 14, 12]);
    assert_eq!(table_column_widths(100, 8), vec![1, 14, 12, 17, 17, 13, 14, 12]);
    assert_eq!(table_column_widths(u16::MAX, 0), vec![65436, 14, 12, 17, 17, 13, 14, 12]);
}

#[test]
fn first_column_is_empty_in_a_narrow_area() {
    assert_eq!(table_column_widths(99, 8), vec![0, 14, 12, 17, 17, 13, 14, 12]);
    assert_eq!(table_column_widths(0, 8), vec![0, 14, 12, 17, 17, 13, 14, 12]);
}

#[test]
fn column_offset_sums_the_columns_before() {
    let widths = [21usize, 14, 12, 17];
    assert_eq!(col_offset(&widths, 0, 0), 0);
    assert_eq!(col_offset(&widths, 1, 0), 21);
    assert_eq!(col_offset(&widths, 3, 0), 47);
    assert_eq!(col_offset(&widths, 3, 2), 53);
    assert_eq!(col_offset(&widths, 9, 0), 64);
    assert_eq!(col_offset(&widths, 9, 1), 73);
    assert_eq!(col_offset(&[], 4, 3), 12);
}

#[test]
fn repeated_repeats() {
    assert_eq!(repeated('.', 3), "...");
    assert_eq!(repeated('é', 2), "éé");
    assert_eq!(repeated('x', 0), "");
}

#[test]
fn text_that_fits_is_kept() {
    assert_eq!(fit_text("hello", 5), "hello");
    assert_eq!(fit_text("hello", 9), "hello");
    assert_eq!(fit_text("", 4), "");
    assert_eq!(fit_text("héllo", 5), "héllo");
}

#[test]
fn text_that_does_not_fit_is_cut_with_dots() {
    assert_eq!(fit_text("hello world", 8), "hello...");
    assert_eq!(fit_text("hello", 4), "h...");
    assert_eq!(fit_text("ééééé", 4), "é...");
}

#[test]
fn text_in_a_tiny_width_is_dots() {
    assert_eq!(fit_text("hello", 3), "...");
    assert_eq!(fit_text("hello", 2), "..");
    assert_eq!(fit_text("hello", 1), ".");
    assert_eq!(fit_text("hello", 0), "");
    assert_eq!(fit_text("", 0), "");
}

#[test]
fn padded_text_keeps_the_width() {
    assert_eq!(fit_text_padded("  Down", 14, 1), "   Down");
    assert_eq!(fit_text_padded("hello world", 8, 1), " hell...");
    assert_eq!(fit_text_padded("hello", 4, 1), " ...");
    assert_eq!(fit_text_padded("hello", 3, 5), "   ");
    assert_eq!(fit_text_padded("hello", 1, 1), " ");
    assert_eq!(fit_text_padded("hello", 0, 1), "");
    assert_eq!(fit_text_padded("hello", 5, 0), "hello");
}

#[test]
fn visible_input_of_an_area_without_width_is_nothing() {
    assert_eq!(visible_input("abc", 1, 0), (String::new(), None));
}

#[test]
fn visible_input_shows_the_start_while_the_cursor_fits() {
    assert_eq!(visible_input("hello", 0, 10), ("hello".to_string(), Some(1)));
    assert_eq!(visible_input("hello", 5, 10), ("hello".to_string(), Some(6)));
    assert_eq!(visible_input("hello", 3, 3), ("hel".to_string(), Some(4)));
    assert_eq!(visible_input("", 0, 3), (String::new(), Some(1)));
}

#[test]
fn visible_input_scrolls_with_the_cursor() {
    assert_eq!(visible_input("hello world", 11, 5), ("world".to_string(), Some(6)));
    assert_eq!(visible_input("hello world", 6, 5), ("ello ".to_string(), Some(6)));
    assert_eq!(visible_input("héllo wörld", 11, 5), ("wörld".to_string(), Some(6)));
    assert_eq!(visible_input("hello world", 8, 5), ("lo wo".to_string(), Some(6)));
}

#[test]
fn visible_input_in_the_widest_area() {
    assert_eq!(visible_input("hello", 5, u16::MAX), ("hello".to_string(), Some(6)));
    assert_eq!(visible_input("", 0, u16::MAX), (String::new(), Some(1)));
    let long = "x".repeat(70_000);
    let (shown, column) = visible_input(&long, 65_534, u16::MAX);
    assert_eq!(shown.len(), 65_535);
    assert_eq!(column, Some(65_535));
    let (shown, column) = visible_input(&long, 70_000, u16::MAX - 1);
    assert_eq!(shown.len(), 65_534);
    assert_eq!(column, Some(65_535));
}

#[test]
fn segment_cells_follow_the_fill() {
    assert_eq!(segment_fill(0, 0, 5), (0, 5));
    assert_eq!(segment_fill(3, 0, 5), (3, 2));
    assert_eq!(segment_fill(9, 0, 5), (5, 0));
    assert_eq!(segment_fill(9, 7, 5), (2, 3));
    assert_eq!(segment_fill(7, 7, 5), (0, 5));
    assert_eq!(segment_fill(3, 7, 5), (0, 5));
    assert_eq!(segment_fill(3, 0, 0), (0, 0));
}

fn mixed() -> Vec<TorrentRow> {
    vec![
        row(1, stats(TorrentState::Live, false, 5, 10)),
        row(2, stats(TorrentState::Live, true, 10, 10)),
        row(3, stats(TorrentState::Live, false, 10, 10)),
        row(4, stats(TorrentState::Initializing, false, 0, 10)),
        row(5, stats(TorrentState::Initializing, true, 10, 10)),
        row(6, stats(TorrentState::Paused, false, 1, 10)),
        row(7, stats(TorrentState::Paused, true, 10, 10)),
        row(8, stats(TorrentState::Error, false, 1, 10)),
        row(9, None),
        row(10, stats(TorrentState::Live, false, 0, 0)),
    ]
}

fn app_with(rows: Vec<TorrentRow>) -> App {
    let mut app = App::new("/d".to_string());
    app.refresh(
        SessionStats {
            fetched_bytes: 0,
            uploaded_bytes: 0,
            download_bps: 0,
            upload_bps: 0,
            uptime_seconds: 0,
        },
        rows.into_iter()
            .map(|r| TorrentDetails {
                id: Some(r.id),
                info_hash: format!("h{}", r.id),
                name: Some(r.name),
                output_folder: r.output_folder,
                files: None,
                stats: r.stats,
            })
            .collect(),
    );
    app
}

#[test]
fn rows_are_counted_by_what_they_do() {
    assert_eq!(
        count_rows(&mixed()),
        Counts { downloading: 3, seeding: 3, paused: 2, errors: 1, total: 10 }
    );
    let app = app_with(mixed());
    assert_eq!(filter_counts(&app), (3, 3, 2, 1, 10));
    assert_eq!(counts(&app), (6, 3, 10));
}

#[test]
fn no_rows_count_as_nothing() {
    assert_eq!(
        count_rows(&[]),
        Counts { downloading: 0, seeding: 0, paused: 0, errors: 0, total: 0 }
    );
    let app = app_with(vec![]);
    assert_eq!(filter_counts(&app), (0, 0, 0, 0, 0));
    assert_eq!(counts(&app), (0, 0, 0));
}

#[test]
fn the_status_follows_state_and_completion() {
    assert_eq!(status_label(&None), StatusLabel::Unknown);
    assert_eq!(status_label(&stats(TorrentState::Live, true, 10, 10)), StatusLabel::Seed);
    assert_eq!(status_label(&stats(TorrentState::Live, false, 10, 10)), StatusLabel::Down);
    assert_eq!(status_label(&stats(TorrentState::Initializing, true, 0, 10)), StatusLabel::Init);
    assert_eq!(status_label(&stats(TorrentState::Paused, true, 0, 10)), StatusLabel::Pause);
    assert_eq!(status_label(&stats(TorrentState::Error, false, 0, 10)), StatusLabel::Error);
}
