use ittybitty::action::Action;
use ittybitty::effects::selection_honored;
use ittybitty::engine::{AddResponse, Reply, Request, Source, TorrentDetails};
use ittybitty::flow::{Outcome, Suspended, Wait};
use ittybitty::input::{Event, KeyCode, KeyEvent, KeyEventKind};
use ittybitty::modes::{Dialog, Mode, TorrentState};
use ittybitty::rows::{FileEntry, SessionStats, TorrentStats};
use ittybitty::state::App;
use std::collections::VecDeque;
use std::path::Path;

const MAGNET: &str = "magnet:?xt=urn:btih:0123456789abcdef";
const HASH: &str = "0123456789abcdef";

/// An engine and a file system that live in memory.
struct Stub {
    name: Option<String>,
    files: Vec<(String, u64)>,
    paths: Vec<String>,
    readable: Vec<(String, Vec<u8>)>,
    held: Vec<TorrentDetails>,
    failing_probes: usize,
    included_instead: Option<Vec<usize>>,
    refuse: Vec<&'static str>,
    next_id: usize,
    log: Vec<Request>,
}

fn stub() -> Stub {
    Stub {
        name: Some("MyShow".to_string()),
        files: vec![("a.mkv".to_string(), 10), ("b.nfo".to_string(), 2), ("c.srt".to_string(), 3)],
        paths: vec![],
        readable: vec![],
        held: vec![],
        failing_probes: 0,
        included_instead: None,
        refuse: vec![],
        next_id: 7,
        log: vec![],
    }
}

impl Stub {
    fn details(&self, id: Option<usize>, folder: &str, included: &dyn Fn(usize) -> bool) -> TorrentDetails {
        TorrentDetails {
            id,
            info_hash: HASH.to_string(),
            name: self.name.clone(),
            output_folder: folder.to_string(),
            files: Some(
                self.files
                    .iter()
                    .enumerate()
                    .map(|(i, (name, length))| FileEntry {
                        name: name.clone(),
                        length: *length,
                        included: included(i),
                    })
                    .collect(),
            ),
            stats: Some(TorrentStats {
                state: TorrentState::Paused,
                finished: false,
                progress_bytes: 0,
                uploaded_bytes: 0,
                total_bytes: 15,
                live: None,
            }),
        }
    }

    fn refuses(&self, what: &str) -> bool {
        self.refuse.iter().any(|r| *r == what)
    }

    fn set_state(&mut self, id: usize, state: TorrentState) {
        for t in self.held.iter_mut() {
            if t.id == Some(id) {
                if let Some(stats) = t.stats.as_mut() {
                    stats.state = state;
                }
            }
        }
    }

    fn perform(&mut self, request: Request) -> Reply {
        self.log.push(request.clone());
        match request {
            Request::SessionStats => Reply::Stats(SessionStats {
                fetched_bytes: 1,
                uploaded_bytes: 2,
                download_bps: 3,
                upload_bps: 4,
                uptime_seconds: 5,
            }),
            Request::ListTorrents { with_stats } => Reply::Listing(
                self.held
                    .iter()
                    .map(|t| {
                        let mut t = t.clone();
                        if !with_stats {
                            t.stats = None;
                        }
                        t
                    })
                    .collect(),
            ),
            Request::AddTorrent { options, .. } => {
                if options.list_only {
                    if self.failing_probes > 0 {
                        self.failing_probes -= 1;
                        return Reply::Failed("no peers".to_string());
                    }
                    return Reply::Added(AddResponse {
                        id: None,
                        details: self.details(None, &options.output_folder, &|_| true),
                    });
                }
                if self.refuses("add") {
                    return Reply::Failed("refused".to_string());
                }
                let wanted = self.included_instead.clone().or(options.only_files.clone());
                let id = self.next_id;
                self.next_id += 1;
                let details = self.details(Some(id), &options.output_folder, &|i| match &wanted {
                    Some(only) => only.contains(&i),
                    None => true,
                });
                self.held.push(details.clone());
                Reply::Added(AddResponse { id: Some(id), details })
            }
            Request::TorrentDetails { id } => {
                if self.refuses("details") {
                    return Reply::Failed("refused".to_string());
                }
                match self.held.iter().find(|t| t.id == Some(id)) {
                    Some(t) => Reply::Details(t.clone()),
                    None => Reply::Failed("not found".to_string()),
                }
            }
            Request::Pause { id } => {
                if self.refuses("pause") {
                    return Reply::Failed("refused".to_string());
                }
                self.set_state(id, TorrentState::Paused);
                Reply::Done
            }
            Request::Start { id } => {
                if self.refuses("start") {
                    return Reply::Failed("refused".to_string());
                }
                self.set_state(id, TorrentState::Live);
                Reply::Done
            }
            Request::Forget { id } | Request::Delete { id } => {
                if self.refuses("remove") {
                    return Reply::Failed("refused".to_string());
                }
                self.held.retain(|t| t.id != Some(id));
                Reply::Done
            }
            Request::PathExists { path } => Reply::Exists(
                self.paths.contains(&path) || self.readable.iter().any(|(p, _)| *p == path),
            ),
            Request::ReadFile { path } => match self.readable.iter().find(|(p, _)| *p == path) {
                Some((_, bytes)) => Reply::Bytes(bytes.clone()),
                None => Reply::Failed("unreadable".to_string()),
            },
            Request::CreateDir { path } => {
                if self.refuses("mkdir") {
                    return Reply::Failed("refused".to_string());
                }
                self.paths.push(path);
                Reply::Done
            }
            Request::Sleep { .. } => Reply::Done,
        }
    }
}

fn run(app: &mut App, stub: &mut Stub, mut outcome: Outcome) -> bool {
    loop {
        match outcome {
            Outcome::Done(quit) => return quit,
            Outcome::Call(request, suspended) => {
                let reply = stub.perform(request);
                outcome = app.resume(suspended, reply);
            }
        }
    }
}

fn act(app: &mut App, stub: &mut Stub, action: Action) {
    let outcome = app.dispatch(action, 0);
    assert!(!run(app, stub, outcome));
}

fn key(app: &mut App, stub: &mut Stub, code: KeyCode, now: u64) {
    let event = Event::Key(KeyEvent { code, kind: KeyEventKind::Press });
    let outcome = app.handle_event(event, now);
    assert!(!run(app, stub, outcome));
}

fn paste(app: &mut App, stub: &mut Stub, text: &str) {
    let outcome = app.handle_event(Event::Paste(text.to_string()), 0);
    assert!(!run(app, stub, outcome));
}

fn joined(base: &str, leaf: &str) -> String {
    Path::new(base).join(leaf).to_string_lossy().into_owned()
}

fn app() -> App {
    App::new("/downloads".to_string())
}

fn to_destination_step(app: &mut App, stub: &mut Stub) {
    key(app, stub, KeyCode::Char('a'), 1_000);
    paste(app, stub, MAGNET);
    key(app, stub, KeyCode::Enter, 2_000);
}

fn to_picker(app: &mut App, stub: &mut Stub, destination: &str) {
    to_destination_step(app, stub);
    let mut now = 2_100;
    while !app.input().is_empty() {
        key(app, stub, KeyCode::Backspace, now);
        now += 1;
    }
    paste(app, stub, destination);
    key(app, stub, KeyCode::Enter, 3_000);
}

fn kinds(log: &[Request]) -> Vec<&'static str> {
    log.iter()
        .map(|r| match r {
            Request::SessionStats => "stats",
            Request::ListTorrents { .. } => "list",
            Request::AddTorrent { options, .. } => {
                if options.list_only {
                    "probe"
                } else {
                    "add"
                }
            }
            Request::TorrentDetails { .. } => "details",
            Request::Pause { .. } => "pause",
            Request::Start { .. } => "start",
            Request::Forget { .. } => "forget",
            Request::Delete { .. } => "delete",
            Request::PathExists { .. } => "exists",
            Request::ReadFile { .. } => "read",
            Request::CreateDir { .. } => "mkdir",
            Request::Sleep { .. } => "sleep",
        })
        .collect()
}

#[test]
fn a_submitted_magnet_leads_to_the_destination_step() {
    let mut app = app();
    let mut stub = stub();
    to_destination_step(&mut app, &mut stub);
    assert_eq!(app.mode(), Mode::EnterTorrentDir);
    assert_eq!(app.dialog(), Dialog::AddTorrent);
    assert_eq!(app.input(), "/downloads");
    assert_eq!(app.input_cursor(), 10);
    assert_eq!(app.status(), "Set download dir for this torrent");
    assert_eq!(app.last_error(), None);
    assert_eq!(kinds(&stub.log), vec!["probe", "list"]);
    match &stub.log[0] {
        Request::AddTorrent { source, options } => {
            assert_eq!(*source, Source::Url(MAGNET.to_string()));
            assert!(options.list_only);
            assert_eq!(options.output_folder, "/downloads");
        }
        other => panic!("{other:?}"),
    }
    assert_eq!(stub.log[1], Request::ListTorrents { with_stats: false });
    assert!(stub.held.is_empty());
}

#[test]
fn a_magnet_that_is_held_already_is_refused_before_the_destination_step() {
    let mut app = app();
    let mut stub = stub();
    let held = stub.details(Some(1), "/elsewhere/MyShow", &|_| true);
    stub.held.push(held);
    to_destination_step(&mut app, &mut stub);
    assert_eq!(
        app.last_error(),
        Some("Torrent already added; duplicate locations are not supported")
    );
    assert_eq!(app.dialog(), Dialog::Error);
    assert_eq!(app.mode(), Mode::Normal);
    assert_eq!(app.input(), "");
    assert_eq!(kinds(&stub.log), vec!["probe", "list"]);
}

#[test]
fn a_failed_preflight_probe_is_an_error_without_retry() {
    let mut app = app();
    let mut stub = stub();
    stub.failing_probes = 1;
    to_destination_step(&mut app, &mut stub);
    assert_eq!(app.last_error(), Some("error listing files"));
    assert_eq!(kinds(&stub.log), vec!["probe"]);
}

#[test]
fn text_that_names_nothing_is_an_error() {
    let mut app = app();
    let mut stub = stub();
    key(&mut app, &mut stub, KeyCode::Char('a'), 1_000);
    paste(&mut app, &mut stub, "  /no/such/file.torrent ");
    key(&mut app, &mut stub, KeyCode::Enter, 2_000);
    assert_eq!(
        app.last_error(),
        Some("Input must be a magnet, URL, or an existing .torrent file path")
    );
    assert_eq!(app.dialog(), Dialog::Error);
    assert_eq!(app.mode(), Mode::Normal);
    assert_eq!(
        stub.log,
        vec![Request::PathExists { path: "/no/such/file.torrent".to_string() }]
    );
}

#[test]
fn a_torrent_file_is_read_each_time_it_is_added_from() {
    let mut app = app();
    let mut stub = stub();
    stub.readable.push(("/t/show.torrent".to_string(), vec![1, 2, 3]));
    key(&mut app, &mut stub, KeyCode::Char('a'), 1_000);
    paste(&mut app, &mut stub, "/t/show.torrent");
    key(&mut app, &mut stub, KeyCode::Enter, 2_000);
    assert_eq!(app.mode(), Mode::EnterTorrentDir);
    assert_eq!(kinds(&stub.log), vec!["exists", "read", "exists", "read", "probe", "list"]);
    match &stub.log[4] {
        Request::AddTorrent { source, .. } => {
            assert_eq!(*source, Source::FileBytes(vec![1, 2, 3]));
        }
        other => panic!("{other:?}"),
    }
}

#[test]
fn a_torrent_file_that_cannot_be_read_is_an_error() {
    let mut app = app();
    let mut stub = stub();
    stub.paths.push("/t/show.torrent".to_string());
    key(&mut app, &mut stub, KeyCode::Char('a'), 1_000);
    paste(&mut app, &mut stub, "/t/show.torrent");
    key(&mut app, &mut stub, KeyCode::Enter, 2_000);
    assert_eq!(app.last_error(), Some("failed to read .torrent file"));
    assert_eq!(kinds(&stub.log), vec!["exists", "read"]);
}

#[test]
fn the_picker_opens_on_a_new_folder_named_after_the_torrent() {
    let mut app = app();
    let mut stub = stub();
    to_picker(&mut app, &mut stub, "/media");
    let folder = joined("/media", "MyShow");
    assert_eq!(app.mode(), Mode::FilePicker);
    assert_eq!(app.dialog(), Dialog::FilePicker);
    assert_eq!(app.status(), "Select files and press Enter");
    let picker = app.file_picker().unwrap();
    assert_eq!(picker.magnet, MAGNET);
    assert_eq!(picker.output_folder, folder);
    assert_eq!(picker.cursor, 0);
    assert_eq!(picker.files.len(), 3);
    assert!(picker.files.iter().all(|f| f.included));
    assert_eq!(picker.files[1].name, "b.nfo");
    assert_eq!(kinds(&stub.log), vec!["probe", "list", "probe", "exists", "mkdir"]);
    assert_eq!(stub.log[3], Request::PathExists { path: folder.clone() });
    assert_eq!(stub.log[4], Request::CreateDir { path: folder.clone() });
    assert_eq!(stub.paths, vec![folder]);
}

#[test]
fn the_folder_name_is_a_single_component() {
    let mut app = app();
    let mut stub = stub();
    stub.name = Some("  Season 1/Episode\\2 ".to_string());
    to_picker(&mut app, &mut stub, "/media");
    assert_eq!(
        app.file_picker().unwrap().output_folder,
        joined("/media", "Season 1-Episode-2")
    );
}

#[test]
fn an_unnamed_torrent_is_named_after_its_first_file() {
    let mut app = app();
    let mut stub = stub();
    stub.name = None;
    to_picker(&mut app, &mut stub, "/media");
    assert_eq!(app.file_picker().unwrap().output_folder, joined("/media", "a.mkv"));
}

#[test]
fn an_existing_folder_is_not_reused() {
    let mut app = app();
    let mut stub = stub();
    let taken = joined("/media", "MyShow");
    let alternate = joined("/media", "MyShow-01234567");
    stub.paths.push(taken.clone());
    to_picker(&mut app, &mut stub, "/media");
    assert_eq!(app.mode(), Mode::FilePicker);
    assert_eq!(app.file_picker().unwrap().output_folder, alternate);
    assert_ne!(app.file_picker().unwrap().output_folder, taken);
    assert_eq!(kinds(&stub.log), vec!["probe", "list", "probe", "exists", "exists", "mkdir"]);
    assert_eq!(stub.log[3], Request::PathExists { path: taken.clone() });
    assert_eq!(stub.log[4], Request::PathExists { path: alternate.clone() });
    assert_eq!(stub.log[5], Request::CreateDir { path: alternate.clone() });
    assert_eq!(stub.paths, vec![taken, alternate]);
}

#[test]
fn the_wizard_fails_where_the_alternate_folder_exists_too() {
    let mut app = app();
    let mut stub = stub();
    stub.paths.push(joined("/media", "MyShow"));
    stub.paths.push(joined("/media", "MyShow-01234567"));
    to_picker(&mut app, &mut stub, "/media");
    assert_eq!(app.last_error(), Some("Destination folder already exists"));
    assert_eq!(app.dialog(), Dialog::Error);
    assert_eq!(app.mode(), Mode::Normal);
    assert!(app.file_picker().is_none());
    assert_eq!(kinds(&stub.log), vec!["probe", "list", "probe", "exists", "exists"]);
    assert_eq!(stub.paths.len(), 2);
}

#[test]
fn a_torrent_held_with_the_same_destination_is_refused() {
    let mut app = app();
    let mut stub = stub();
    let folder = joined("/media", "MyShow");
    let held = stub.details(Some(1), &folder, &|_| true);
    app.refresh(
        SessionStats {
            fetched_bytes: 0,
            uploaded_bytes: 0,
            download_bps: 0,
            upload_bps: 0,
            uptime_seconds: 0,
        },
        vec![held],
    );
    to_picker(&mut app, &mut stub, "/media");
    assert_eq!(app.last_error(), Some("Torrent already added for this download directory"));
    assert_eq!(kinds(&stub.log), vec!["probe", "list", "probe"]);
    assert!(stub.paths.is_empty());
}

#[test]
fn a_folder_that_cannot_be_created_is_an_error() {
    let mut app = app();
    let mut stub = stub();
    stub.refuse.push("mkdir");
    to_picker(&mut app, &mut stub, "/media");
    assert_eq!(app.last_error(), Some("failed to create download folder"));
    assert!(app.file_picker().is_none());
}

#[test]
fn the_probe_for_the_picker_is_tried_three_times() {
    let mut app = app();
    let mut stub = stub();
    to_destination_step(&mut app, &mut stub);
    stub.log.clear();
    stub.failing_probes = 2;
    key(&mut app, &mut stub, KeyCode::Enter, 3_000);
    assert_eq!(app.mode(), Mode::FilePicker);
    assert_eq!(
        kinds(&stub.log),
        vec!["probe", "sleep", "probe", "sleep", "probe", "exists", "mkdir"]
    );
    assert_eq!(stub.log[1], Request::Sleep { millis: 500 });
}

#[test]
fn the_probe_for_the_picker_fails_after_the_third_attempt() {
    let mut app = app();
    let mut stub = stub();
    to_destination_step(&mut app, &mut stub);
    stub.log.clear();
    stub.failing_probes = 3;
    key(&mut app, &mut stub, KeyCode::Enter, 3_000);
    assert_eq!(app.last_error(), Some("error listing files: no peers"));
    assert_eq!(app.dialog(), Dialog::Error);
    assert_eq!(app.mode(), Mode::Normal);
    assert_eq!(kinds(&stub.log), vec!["probe", "sleep", "probe", "sleep", "probe"]);
}

#[test]
fn a_download_that_is_honored_starts() {
    let mut app = app();
    let mut stub = stub();
    to_picker(&mut app, &mut stub, "/media");
    stub.log.clear();
    key(&mut app, &mut stub, KeyCode::Down, 4_000);
    key(&mut app, &mut stub, KeyCode::Char(' '), 4_001);
    key(&mut app, &mut stub, KeyCode::Enter, 4_002);
    assert_eq!(app.status(), "Torrent added");
    assert_eq!(app.mode(), Mode::Normal);
    assert_eq!(app.dialog(), Dialog::Closed);
    assert_eq!(app.last_error(), None);
    assert!(app.file_picker().is_none());
    assert_eq!(kinds(&stub.log), vec!["add", "details", "start"]);
    match &stub.log[0] {
        Request::AddTorrent { source, options } => {
            assert_eq!(*source, Source::Url(MAGNET.to_string()));
            assert!(options.paused);
            assert!(options.overwrite);
            assert!(!options.list_only);
            assert_eq!(options.only_files, Some(vec![0, 2]));
            assert_eq!(options.output_folder, joined("/media", "MyShow"));
        }
        other => panic!("{other:?}"),
    }
    assert_eq!(stub.log[1], Request::TorrentDetails { id: 7 });
    assert_eq!(stub.log[2], Request::Start { id: 7 });
    assert_eq!(stub.held.len(), 1);
    assert_eq!(stub.held[0].stats.unwrap().state, TorrentState::Live);
}

#[test]
fn a_download_that_is_not_honored_is_removed_again() {
    let mut app = app();
    let mut stub = stub();
    to_picker(&mut app, &mut stub, "/media");
    stub.log.clear();
    stub.included_instead = Some(vec![0]);
    key(&mut app, &mut stub, KeyCode::Down, 4_000);
    key(&mut app, &mut stub, KeyCode::Char(' '), 4_001);
    key(&mut app, &mut stub, KeyCode::Enter, 4_002);
    assert_eq!(
        app.last_error(),
        Some("File selection was not honored; torrent was removed")
    );
    assert_eq!(app.dialog(), Dialog::Error);
    assert_eq!(app.mode(), Mode::Normal);
    assert!(app.file_picker().is_none());
    assert_eq!(kinds(&stub.log), vec!["add", "details", "delete"]);
    match &stub.log[0] {
        Request::AddTorrent { options, .. } => {
            assert_eq!(options.only_files, Some(vec![0, 2]));
        }
        other => panic!("{other:?}"),
    }
    assert_eq!(stub.log[2], Request::Delete { id: 7 });
    assert!(stub.held.is_empty());
    assert!(app.torrents().iter().all(|t| t.id != 7));
    key(&mut app, &mut stub, KeyCode::Char('x'), 9_000);
    key(&mut app, &mut stub, KeyCode::Char('r'), 10_000);
    assert!(app.torrents().is_empty());
    assert_eq!(app.mode(), Mode::Normal);
    assert_eq!(app.dialog(), Dialog::Closed);
}

#[test]
fn a_failing_removal_still_reports_the_mismatch() {
    let mut app = app();
    let mut stub = stub();
    to_picker(&mut app, &mut stub, "/media");
    stub.included_instead = Some(vec![0, 1, 2]);
    stub.refuse.push("remove");
    key(&mut app, &mut stub, KeyCode::Char(' '), 4_001);
    key(&mut app, &mut stub, KeyCode::Enter, 4_002);
    assert_eq!(
        app.last_error(),
        Some("File selection was not honored; torrent was removed")
    );
}

#[test]
fn the_selection_is_honored_only_where_the_sets_are_equal() {
    let files = |flags: &[bool]| -> Vec<FileEntry> {
        flags
            .iter()
            .map(|f| FileEntry { name: "f".to_string(), length: 1, included: *f })
            .collect()
    };
    assert!(selection_honored(&vec![0, 2], &files(&[true, false, true])));
    assert!(selection_honored(&vec![2, 0, 2], &files(&[true, false, true])));
    assert!(!selection_honored(&vec![0, 2], &files(&[true, false, false])));
    assert!(!selection_honored(&vec![0], &files(&[true, false, true])));
    assert!(!selection_honored(&vec![0, 3], &files(&[true, false, true])));
    assert!(!selection_honored(&vec![0, 2], &files(&[true])));
    assert!(selection_honored(&vec![], &files(&[false, false])));
    assert!(selection_honored(&vec![], &files(&[])));
    assert!(!selection_honored(&vec![0], &files(&[])));
}

#[test]
fn download_failures_have_their_words() {
    for (refused, words) in [
        ("add", "error adding torrent"),
        ("details", "error verifying file selection"),
        ("start", "error starting torrent"),
    ] {
        let mut app = app();
        let mut stub = stub();
        to_picker(&mut app, &mut stub, "/media");
        stub.refuse.push(refused);
        key(&mut app, &mut stub, KeyCode::Enter, 4_002);
        assert_eq!(app.last_error(), Some(words));
        assert_eq!(app.dialog(), Dialog::Error);
        assert!(app.file_picker().is_none());
    }
}

#[test]
fn an_added_torrent_without_identity_or_files_is_a_failure() {
    let mut app = app();
    let mut queue = VecDeque::new();
    let mut response = AddResponse { id: None, details: stub().details(None, "/d", &|_| true) };
    let flow = app.on_reply(
        Wait::DownloadAdd { only_files: vec![0] },
        Reply::Added(response.clone()),
        &mut queue,
    );
    assert_eq!(flow, ittybitty::flow::Flow::Failed("torrent was not added".to_string()));
    response.details.files = None;
    let flow = app.on_reply(
        Wait::DownloadVerify { id: 1, only_files: vec![0] },
        Reply::Details(response.details),
        &mut queue,
    );
    assert_eq!(flow, ittybitty::flow::Flow::Failed("torrent details missing files".to_string()));
}

#[test]
fn refresh_lists_what_the_engine_holds() {
    let mut app = app();
    let mut stub = stub();
    let first = stub.details(Some(1), "/d/1", &|_| true);
    stub.held.push(first);
    key(&mut app, &mut stub, KeyCode::Char('r'), 1_000);
    assert_eq!(kinds(&stub.log), vec!["stats", "list"]);
    assert_eq!(stub.log[1], Request::ListTorrents { with_stats: true });
    assert_eq!(app.torrents().len(), 1);
    assert_eq!(app.torrents()[0].id, 1);
    assert_eq!(app.torrents()[0].name, "MyShow");
    assert_eq!(app.session_stats().unwrap().uptime_seconds, 5);
    act(&mut app, &mut stub, Action::Refresh);
    assert_eq!(app.torrents().len(), 1);
}

#[test]
fn pause_toggles_by_the_cached_state() {
    let mut app = app();
    let mut stub = stub();
    let first = stub.details(Some(1), "/d/1", &|_| true);
    stub.held.push(first);
    act(&mut app, &mut stub, Action::Refresh);
    stub.log.clear();
    key(&mut app, &mut stub, KeyCode::Char('p'), 1_000);
    assert_eq!(stub.log, vec![Request::Start { id: 1 }]);
    assert_eq!(app.status(), "Resumed");
    act(&mut app, &mut stub, Action::Refresh);
    stub.log.clear();
    key(&mut app, &mut stub, KeyCode::Char('p'), 2_000);
    assert_eq!(stub.log, vec![Request::Pause { id: 1 }]);
    assert_eq!(app.status(), "Paused");
    stub.set_state(1, TorrentState::Initializing);
    act(&mut app, &mut stub, Action::Refresh);
    stub.log.clear();
    key(&mut app, &mut stub, KeyCode::Char('p'), 3_000);
    assert_eq!(stub.log, vec![Request::Pause { id: 1 }]);
}

#[test]
fn a_torrent_in_error_is_not_paused() {
    let mut app = app();
    let mut stub = stub();
    let first = stub.details(Some(1), "/d/1", &|_| true);
    stub.held.push(first);
    stub.set_state(1, TorrentState::Error);
    act(&mut app, &mut stub, Action::Refresh);
    stub.log.clear();
    key(&mut app, &mut stub, KeyCode::Char('p'), 1_000);
    assert!(stub.log.is_empty());
    assert_eq!(app.status(), "Cannot pause: torrent error");
    assert_eq!(app.last_error(), None);
}

#[test]
fn commands_without_a_selected_torrent_do_nothing() {
    let mut app = app();
    let mut stub = stub();
    act(&mut app, &mut stub, Action::TogglePause);
    act(&mut app, &mut stub, Action::RunEffect(ittybitty::effect::Effect::StopSelected));
    act(&mut app, &mut stub, Action::RunEffect(ittybitty::effect::Effect::DeleteSelectedFiles));
    assert!(stub.log.is_empty());
    assert_eq!(app.status(), "Ready");
    let mut listed = stub.details(Some(1), "/d/1", &|_| true);
    listed.stats = None;
    stub.held.push(listed);
    act(&mut app, &mut stub, Action::Refresh);
    stub.log.clear();
    act(&mut app, &mut stub, Action::TogglePause);
    assert!(stub.log.is_empty());
}

#[test]
fn command_failures_have_their_words() {
    for (state, code, refused, words) in [
        (TorrentState::Paused, 'p', "start", "error resuming torrent"),
        (TorrentState::Live, 'p', "pause", "error pausing torrent"),
    ] {
        let mut app = app();
        let mut stub = stub();
        let first = stub.details(Some(1), "/d/1", &|_| true);
        stub.held.push(first);
        stub.set_state(1, state);
        act(&mut app, &mut stub, Action::Refresh);
        stub.refuse.push(refused);
        key(&mut app, &mut stub, KeyCode::Char(code), 1_000);
        assert_eq!(app.last_error(), Some(words));
    }
    for (choice, words) in [
        (true, "error deleting torrent and files"),
        (false, "error stopping torrent"),
    ] {
        let mut app = app();
        let mut stub = stub();
        let first = stub.details(Some(1), "/d/1", &|_| true);
        stub.held.push(first);
        act(&mut app, &mut stub, Action::Refresh);
        stub.refuse.push("remove");
        act(&mut app, &mut stub, Action::ConfirmDeleteOpen);
        act(&mut app, &mut stub, Action::ConfirmDeleteSelect(choice));
        act(&mut app, &mut stub, Action::ConfirmDeleteConfirm);
        assert_eq!(app.last_error(), Some(words));
    }
}

#[test]
fn deleting_through_the_dialog_removes_the_torrent() {
    let mut app = app();
    let mut stub = stub();
    let first = stub.details(Some(1), "/d/1", &|_| true);
    stub.held.push(first);
    act(&mut app, &mut stub, Action::Refresh);
    stub.log.clear();
    key(&mut app, &mut stub, KeyCode::Char('d'), 1_000);
    key(&mut app, &mut stub, KeyCode::Char('y'), 1_001);
    key(&mut app, &mut stub, KeyCode::Enter, 1_002);
    assert_eq!(stub.log, vec![Request::Delete { id: 1 }]);
    assert_eq!(app.status(), "Deleted torrent and files");
    assert!(stub.held.is_empty());
    act(&mut app, &mut stub, Action::Refresh);
    assert!(app.torrents().is_empty());
    assert_eq!(app.selected_index(), 0);
}

#[test]
fn a_reply_of_the_wrong_kind_is_a_failure() {
    let mut app = app();
    let suspended = match app.dispatch(Action::Refresh, 0) {
        Outcome::Call(Request::SessionStats, suspended) => suspended,
        other => panic!("{other:?}"),
    };
    assert_eq!(app.resume(suspended, Reply::Exists(true)), Outcome::Done(false));
    assert_eq!(app.last_error(), Some("unexpected reply to a request"));
    assert_eq!(app.dialog(), Dialog::Error);
    let waiting = Suspended { wait: Wait::DownloadStart, queue: VecDeque::new(), now: 0 };
    assert_eq!(app.resume(waiting, Reply::Bytes(vec![])), Outcome::Done(false));
    assert_eq!(app.last_error(), Some("unexpected reply to a request"));
}

#[test]
fn a_dismissed_error_leaves_nothing_of_the_wizard() {
    let mut app = app();
    let mut stub = stub();
    stub.paths.push(joined("/media", "MyShow"));
    stub.paths.push(joined("/media", "MyShow-01234567"));
    to_picker(&mut app, &mut stub, "/media");
    assert_eq!(app.dialog(), Dialog::Error);
    key(&mut app, &mut stub, KeyCode::Esc, 9_000);
    assert_eq!(app.dialog(), Dialog::Closed);
    assert_eq!(app.mode(), Mode::Normal);
    assert_eq!(app.input(), "");
    assert_eq!(app.input_cursor(), 0);
    assert!(app.file_picker().is_none());
    assert_eq!(app.last_error(), None);
    assert_eq!(app.status(), "Ready");
    key(&mut app, &mut stub, KeyCode::Enter, 10_000);
    assert_eq!(app.last_error(), None);
    assert_eq!(app.mode(), Mode::Normal);
}

fn agrees(app: &App) -> bool {
    let text = matches!(app.mode(), Mode::EnterMagnet | Mode::EnterTorrentDir);
    app.show_help() == (app.dialog() == Dialog::Help)
        && app.last_error().is_some() == (app.dialog() == Dialog::Error)
        && app.confirm_delete() == (app.dialog() == Dialog::ConfirmDelete)
        && app.confirm_quit() == (app.dialog() == Dialog::ConfirmQuit)
        && text == (app.dialog() == Dialog::AddTorrent)
        && (app.mode() == Mode::FilePicker) == (app.dialog() == Dialog::FilePicker)
        && (app.mode() != Mode::FilePicker || app.file_picker().is_some())
}

fn selection_fits(app: &App) -> bool {
    match app.selected_torrent() {
        Some(row) if app.filter_match(row) => true,
        _ => app.selected_index() == 0 && app.filtered_indices().is_empty(),
    }
}

#[test]
fn mode_dialog_and_flags_agree_through_a_long_session() {
    let codes = [
        KeyCode::Char('a'),
        KeyCode::Char('?'),
        KeyCode::Char('d'),
        KeyCode::Char('q'),
        KeyCode::Char('x'),
        KeyCode::Char('y'),
        KeyCode::Char('n'),
        KeyCode::Char('j'),
        KeyCode::Char('k'),
        KeyCode::Char('p'),
        KeyCode::Char('r'),
        KeyCode::Char(' '),
        KeyCode::Char('1'),
        KeyCode::Char('2'),
        KeyCode::Char('3'),
        KeyCode::Char('4'),
        KeyCode::Char('5'),
        KeyCode::Char('6'),
        KeyCode::Char('g'),
        KeyCode::Char('t'),
        KeyCode::Enter,
        KeyCode::Enter,
        KeyCode::Esc,
        KeyCode::Up,
        KeyCode::Down,
        KeyCode::Left,
        KeyCode::Right,
        KeyCode::Tab,
        KeyCode::Backspace,
        KeyCode::Delete,
        KeyCode::Home,
        KeyCode::End,
        KeyCode::Other,
    ];
    let pastes = [MAGNET, "/t/show.torrent", "/no/such/file", "", "  ", "/media", "http://x/y"];
    let mut app = app();
    let mut stub = stub();
    stub.readable.push(("/t/show.torrent".to_string(), vec![1, 2, 3]));
    let mut seed: u64 = 0x2545_f491_4f6c_dd1d;
    let mut now: u64 = 0;
    for round in 0..4000u64 {
        seed = seed.wrapping_mul(6364136223846793005).wrapping_add(1442695040888963407);
        let pick = (seed >> 33) as usize;
        now += 150 + (pick % 200) as u64;
        stub.failing_probes = pick % 4;
        stub.included_instead = if pick % 7 == 0 { Some(vec![0]) } else { None };
        stub.paths.clear();
        if pick % 5 == 0 {
            stub.paths.push(joined("/media", "MyShow"));
        }
        if pick % 10 == 0 {
            stub.paths.push(joined("/media", "MyShow-01234567"));
        }
        let event = if pick % 9 == 0 {
            Event::Paste(pastes[(pick / 9) % pastes.len()].to_string())
        } else if pick % 31 == 0 {
            Event::Resize(80, 24)
        } else {
            let kind = match pick % 13 {
                0 => KeyEventKind::Repeat,
                1 => KeyEventKind::Release,
                _ => KeyEventKind::Press,
            };
            Event::Key(KeyEvent { code: codes[(pick / 13) % codes.len()], kind })
        };
        let shown = format!("{event:?}");
        let mut outcome = app.handle_event(event, now);
        let quit = loop {
            match outcome {
                Outcome::Done(quit) => break quit,
                Outcome::Call(request, suspended) => {
                    assert!(suspended.queue.is_empty(), "round {round}: {shown}");
                    let reply = stub.perform(request);
                    outcome = app.resume(suspended, reply);
                }
            }
        };
        assert!(agrees(&app), "round {round}: {shown}");
        assert!(selection_fits(&app), "round {round}: {shown}");
        assert!(app.input_cursor() <= app.input().chars().count(), "round {round}: {shown}");
        if quit {
            assert!(app.confirm_quit() && app.quit_choice());
            act(&mut app, &mut stub, Action::ConfirmQuitCancel);
        }
        if round % 50 == 0 {
            act(&mut app, &mut stub, Action::Refresh);
            assert!(agrees(&app), "round {round}: refresh");
            assert!(selection_fits(&app), "round {round}: refresh");
        }
    }
    assert!(stub.log.len() > 100);
}
