//! The effect runner: what each effect asks of the engine and the file
//! system, step by step, and what it does with each reply.

use crate::action::{Action, ActionModel};
use crate::effect::{Effect, EffectModel};
use crate::engine::{
    AddOptions, AddOptionsModel, AddResponse, AddResponseModel, DetailsModel, Reply, ReplyModel,
    Request, RequestModel, Source, SourceModel, TorrentDetails,
};
use crate::error::{message_with_cause, with_cause, Failure};
use crate::flow::{Flow, FlowModel, Lifecycle, Purpose, PurposeModel, Wait, WaitModel};
use crate::indices::{first_marked, first_marked_from};
use crate::model::AppModel;
use crate::modes::{Dialog, Mode, TorrentState};
use crate::rows::{FileEntry, FileModel, RowModel, SessionStats, TorrentRow};
use crate::state::App;
use crate::text::text_eq;
use crate::util::{
    add_input, alternate_folder_name, alternate_name, build_add_torrent, build_picker,
    derive_folder_suffix, folder_suffix, join_path, joined_path, picker_for, row_for,
    sanitize_path_component, sanitized, to_row, AddInput, AddInputModel,
};
use std::collections::HashSet;
use std::collections::VecDeque;
use vstd::prelude::*;
use vstd::string::*;

verus! {

/// How long the probe for the picker waits before it tries again, in milliseconds.
pub const RETRY_DELAY_MS: u64 = 500;

/// How often the probe for the picker is tried.
pub const PROBE_ATTEMPTS: u8 = 3;

/// The result of one step: the state after it, the action that it appends
/// to the queue, and how the reducer goes on.
pub struct Stepped {
    pub state: AppModel,
    pub pushed: Option<ActionModel>,
    pub flow: FlowModel,
}

impl Stepped {
    /// `queue` with the appended action, if there is one.
    pub open spec fn queue_after(self, queue: Seq<ActionModel>) -> Seq<ActionModel> {
        match self.pushed {
            Some(action) => queue.push(action),
            None => queue,
        }
    }
}

/// The options of a probe: the metadata only, for `output_folder`.
pub open spec fn probe_options(output_folder: Seq<char>) -> AddOptionsModel {
    AddOptionsModel {
        list_only: true,
        paused: false,
        overwrite: false,
        output_folder,
        only_files: None,
    }
}

/// The options of a commit: added paused into `output_folder`, whatever it
/// holds, with the files `only_files`.
pub open spec fn commit_options(output_folder: Seq<char>, only_files: Seq<usize>) -> AddOptionsModel {
    AddOptionsModel {
        list_only: false,
        paused: true,
        overwrite: true,
        output_folder,
        only_files: Some(only_files),
    }
}

/// Whether the files that the engine includes are exactly those asked for.
pub open spec fn honored(only_files: Seq<usize>, files: Seq<FileModel>) -> bool {
    forall|i: usize| #[trigger]
        only_files.contains(i) <==> (i < files.len() && files[i as int].included)
}

/// Whether a listed torrent has the identity hash `info_hash`.
pub open spec fn is_listed(list: Seq<DetailsModel>, info_hash: Seq<char>) -> bool {
    exists|i: int| 0 <= i < list.len() && (#[trigger] list[i]).info_hash == info_hash
}

/// The rows for the first `n` listed torrents, without those that have no identity.
pub open spec fn rows_upto(list: Seq<DetailsModel>, n: nat) -> Seq<RowModel>
    decreases n,
{
    if n == 0 {
        Seq::empty()
    } else {
        let before = rows_upto(list, (n - 1) as nat);
        if list[n - 1].id is Some {
            before.push(row_for(list[n - 1]))
        } else {
            before
        }
    }
}

/// The rows for the listed torrents, without those that have no identity.
pub open spec fn rows_for(list: Seq<DetailsModel>) -> Seq<RowModel> {
    rows_upto(list, list.len())
}

/// For each row, whether its identity is `id`.
pub open spec fn id_flags(rows: Seq<RowModel>, id: usize) -> Seq<bool> {
    Seq::new(rows.len(), |i: int| rows[i].id == id)
}

impl AppModel {
    /// The step that changes the state and nothing else.
    pub open spec fn go(self) -> Stepped {
        Stepped { state: self, pushed: None, flow: FlowModel::Continue }
    }

    /// The step that appends `action` to the queue.
    pub open spec fn push(self, action: ActionModel) -> Stepped {
        Stepped { state: self, pushed: Some(action), flow: FlowModel::Continue }
    }

    /// The step that fails.
    pub open spec fn fail(self, failure: Failure) -> Stepped {
        Stepped { state: self, pushed: None, flow: FlowModel::Failed(failure.text()) }
    }

    /// The step that hands `request` to the caller.
    pub open spec fn call(self, request: RequestModel, wait: WaitModel) -> Stepped {
        Stepped { state: self, pushed: None, flow: FlowModel::Call(request, wait) }
    }

    /// A source cannot be had. While the entered text is checked, that goes
    /// to the error funnel at once and the queue goes on; an effect fails.
    pub open spec fn source_failed(self, purpose: PurposeModel, failure: Failure) -> Stepped {
        if purpose is Validate {
            self.failed(failure.text()).go()
        } else {
            self.fail(failure)
        }
    }

    /// The source for `purpose` is looked up: an address is one; for a path,
    /// the caller is asked whether it exists.
    pub open spec fn resolve(self, purpose: PurposeModel) -> Stepped {
        match add_input(purpose.input()) {
            AddInputModel::Url(url) => self.resolved(purpose, SourceModel::Url(url)),
            AddInputModel::Path(path) => self.call(
                RequestModel::PathExists { path },
                WaitModel::SourceExists { purpose, path },
            ),
        }
    }

    /// The source for `purpose` is `source`: what it was looked up for begins.
    pub open spec fn resolved(self, purpose: PurposeModel, source: SourceModel) -> Stepped {
        match purpose {
            PurposeModel::Validate { value } => AppModel {
                status: "Checking torrent..."@,
                dialog: Dialog::Closed,
                mode: Mode::Normal,
                ..self
            }.push(ActionModel::RunEffect(EffectModel::PreflightAdd { magnet: value })),
            PurposeModel::Preflight { magnet } => self.call(
                RequestModel::AddTorrent { source, options: probe_options(self.download_dir) },
                WaitModel::PreflightProbe { magnet },
            ),
            PurposeModel::Picker { magnet, output_folder, attempt } => self.call(
                RequestModel::AddTorrent { source, options: probe_options(output_folder) },
                WaitModel::PickerProbe { magnet, output_folder, attempt },
            ),
            PurposeModel::Download { magnet, output_folder, only_files } => self.call(
                RequestModel::AddTorrent {
                    source,
                    options: commit_options(output_folder, only_files),
                },
                WaitModel::DownloadAdd { only_files },
            ),
        }
    }

    /// A command on the selected torrent begins; nothing happens where
    /// nothing is selected.
    pub open spec fn command(self, command: Lifecycle) -> Stepped {
        match self.selected_row() {
            None => self.go(),
            Some(row) => self.call(
                match command {
                    Lifecycle::Resume => RequestModel::Start { id: row.id },
                    Lifecycle::Pause => RequestModel::Pause { id: row.id },
                    Lifecycle::Forget => RequestModel::Forget { id: row.id },
                    Lifecycle::Delete => RequestModel::Delete { id: row.id },
                },
                WaitModel::Command(command),
            ),
        }
    }

    /// Pause or resume of the selected torrent begins: a paused one is
    /// resumed, a live or initializing one is paused, one in error is left
    /// alone with a word on the status line. Nothing happens where nothing is
    /// selected or the selected torrent has no statistics.
    pub open spec fn pause_toggled(self) -> Stepped {
        match self.selected_row() {
            None => self.go(),
            Some(row) => match row.stats {
                None => self.go(),
                Some(stats) => match stats.state {
                    TorrentState::Paused => self.command(Lifecycle::Resume),
                    TorrentState::Live | TorrentState::Initializing => self.command(
                        Lifecycle::Pause,
                    ),
                    TorrentState::Error => AppModel {
                        status: "Cannot pause: torrent error"@,
                        ..self
                    }.go(),
                },
            },
        }
    }

    /// The download of the chosen files begins; where none is chosen it fails
    /// at once, and the state stays as it is.
    pub open spec fn download_started(
        self,
        magnet: Seq<char>,
        output_folder: Seq<char>,
        only_files: Seq<usize>,
    ) -> Stepped {
        if only_files.len() == 0 {
            self.fail(Failure::NoFilesSelected)
        } else {
            self.resolve(PurposeModel::Download { magnet, output_folder, only_files })
        }
    }

    /// The download is announced on the status line, and an earlier error is
    /// forgotten.
    pub open spec fn download_announced(self) -> AppModel {
        AppModel { status: "Starting download..."@, last_error: None, ..self }
    }

    /// `effect` begins.
    pub open spec fn begun(self, effect: EffectModel) -> Stepped {
        match effect {
            EffectModel::Refresh => self.call(RequestModel::SessionStats, WaitModel::RefreshStats),
            EffectModel::TogglePause => self.pause_toggled(),
            EffectModel::StopSelected => self.command(Lifecycle::Forget),
            EffectModel::DeleteSelectedFiles => self.command(Lifecycle::Delete),
            EffectModel::PreflightAdd { magnet } => self.resolve(
                PurposeModel::Preflight { magnet },
            ),
            EffectModel::StartFilePicker { magnet, output_folder } => self.resolve(
                PurposeModel::Picker { magnet, output_folder, attempt: 0 },
            ),
            EffectModel::StartDownload { magnet, output_folder, only_files } => {
                self.download_announced().download_started(magnet, output_folder, only_files)
            },
        }
    }

    /// The cache is rebuilt from a fresh listing. The selection follows the
    /// torrent that was selected, where it is still listed; else it stays,
    /// or moves to the last row where it is past it.
    pub open spec fn relisted(self, stats: SessionStats, list: Seq<DetailsModel>) -> AppModel {
        let rows = rows_for(list);
        let clamped = if rows.len() == 0 {
            0
        } else if self.selected < rows.len() {
            self.selected
        } else {
            (rows.len() - 1) as usize
        };
        let selected = match self.selected_row() {
            Some(row) => match first_marked(id_flags(rows, row.id)) {
                Some(i) => i,
                None => clamped,
            },
            None => clamped,
        };
        AppModel { torrents: rows, selected, session_stats: Some(stats), ..self }
    }

    /// The cache is rebuilt from a fresh listing, and the selection is
    /// settled for the active filter.
    pub open spec fn refreshed(self, stats: SessionStats, list: Seq<DetailsModel>) -> AppModel {
        self.relisted(stats, list).selection_settled()
    }

    /// The probe for the picker has answered, and `path` is where the
    /// destination folder would be: the torrent must not be tracked with it
    /// already; then the caller is asked whether it exists.
    pub open spec fn located(
        self,
        magnet: Seq<char>,
        base: Seq<char>,
        response: AddResponseModel,
        path: Seq<char>,
    ) -> Stepped {
        if self.has_same_destination(response.details.info_hash, path) {
            self.fail(Failure::SameDestination)
        } else {
            self.call(
                RequestModel::PathExists { path },
                WaitModel::PickerFirst {
                    magnet,
                    base,
                    folder_name: sanitized(folder_suffix(response.details)),
                    path,
                    response,
                },
            )
        }
    }

    /// The destination folder is there: the picker opens.
    pub open spec fn picker_opened(
        self,
        magnet: Seq<char>,
        path: Seq<char>,
        response: AddResponseModel,
    ) -> AppModel {
        AppModel {
            file_picker: Some(picker_for(magnet, path, response)),
            mode: Mode::FilePicker,
            status: "Select files and press Enter"@,
            dialog: Dialog::FilePicker,
            ..self
        }
    }

    /// The added torrent runs: the wizard is over.
    pub open spec fn download_running(self) -> AppModel {
        AppModel {
            status: "Torrent added"@,
            file_picker: None,
            mode: Mode::Normal,
            dialog: Dialog::Closed,
            ..self
        }
    }

    /// The caller has answered `reply` to the request that `wait` stands for.
    ///
    /// After the probe for the picker, the destination folder is the path
    /// that the platform makes of the chosen destination and the folder name
    /// derived from the answer; where that folder exists, the alternate is
    /// the path that it makes of the destination and the alternate folder
    /// name.
    pub open spec fn replied(self, wait: WaitModel, reply: ReplyModel) -> Stepped {
        match wait {
            WaitModel::SourceExists { purpose, path } => match reply {
                ReplyModel::Exists(true) => self.call(
                    RequestModel::ReadFile { path },
                    WaitModel::SourceRead { purpose },
                ),
                ReplyModel::Exists(false) => self.source_failed(purpose, Failure::InvalidSource),
                _ => self.source_failed(purpose, Failure::UnexpectedReply),
            },
            WaitModel::SourceRead { purpose } => match reply {
                ReplyModel::Bytes(bytes) => self.resolved(purpose, SourceModel::FileBytes(bytes)),
                ReplyModel::Failed(_) => self.source_failed(purpose, Failure::ReadTorrentFile),
                _ => self.source_failed(purpose, Failure::UnexpectedReply),
            },
            WaitModel::PreflightProbe { magnet } => match reply {
                ReplyModel::Added(response) => self.call(
                    RequestModel::ListTorrents { with_stats: false },
                    WaitModel::PreflightList { magnet, info_hash: response.details.info_hash },
                ),
                ReplyModel::Failed(_) => self.fail(Failure::ListingFiles),
                _ => self.fail(Failure::UnexpectedReply),
            },
            WaitModel::PreflightList { magnet, info_hash } => match reply {
                ReplyModel::Listing(list) => if is_listed(list, info_hash) {
                    self.fail(Failure::AlreadyAdded)
                } else {
                    self.push(ActionModel::PreflightAddResult { magnet })
                },
                _ => self.fail(Failure::UnexpectedReply),
            },
            WaitModel::PickerProbe { magnet, output_folder, attempt } => match reply {
                ReplyModel::Added(response) => self.located(
                    magnet,
                    output_folder,
                    response,
                    joined_path(output_folder, sanitized(folder_suffix(response.details))),
                ),
                ReplyModel::Failed(cause) => if attempt + 1 < PROBE_ATTEMPTS {
                    self.call(
                        RequestModel::Sleep { millis: RETRY_DELAY_MS },
                        WaitModel::PickerRetry { magnet, output_folder, attempt },
                    )
                } else {
                    Stepped {
                        state: self,
                        pushed: None,
                        flow: FlowModel::Failed(with_cause(Failure::ListingFiles, cause)),
                    }
                },
                _ => self.fail(Failure::UnexpectedReply),
            },
            WaitModel::PickerRetry { magnet, output_folder, attempt } => match reply {
                ReplyModel::Done => self.resolve(
                    PurposeModel::Picker {
                        magnet,
                        output_folder,
                        attempt: if attempt < u8::MAX {
                            (attempt + 1) as u8
                        } else {
                            attempt
                        },
                    },
                ),
                _ => self.fail(Failure::UnexpectedReply),
            },
            WaitModel::PickerFirst { magnet, base, folder_name, path, response } => match reply {
                ReplyModel::Exists(false) => self.call(
                    RequestModel::CreateDir { path },
                    WaitModel::PickerCreate { magnet, path, response },
                ),
                ReplyModel::Exists(true) => self.call(
                    RequestModel::PathExists {
                        path: joined_path(
                            base,
                            alternate_name(folder_name, response.details.info_hash),
                        ),
                    },
                    WaitModel::PickerSecond {
                        magnet,
                        folder_name: alternate_name(folder_name, response.details.info_hash),
                        path: joined_path(
                            base,
                            alternate_name(folder_name, response.details.info_hash),
                        ),
                        response,
                    },
                ),
                _ => self.fail(Failure::UnexpectedReply),
            },
            WaitModel::PickerSecond { magnet, folder_name, path, response } => match reply {
                ReplyModel::Exists(false) => self.call(
                    RequestModel::CreateDir { path },
                    WaitModel::PickerCreate { magnet, path, response },
                ),
                ReplyModel::Exists(true) => self.fail(Failure::DestinationExists),
                _ => self.fail(Failure::UnexpectedReply),
            },
            WaitModel::PickerCreate { magnet, path, response } => match reply {
                ReplyModel::Done => self.picker_opened(magnet, path, response).go(),
                ReplyModel::Failed(_) => self.fail(Failure::CreateFolder),
                _ => self.fail(Failure::UnexpectedReply),
            },
            WaitModel::DownloadAdd { only_files } => match reply {
                ReplyModel::Added(response) => match response.id {
                    Some(id) => self.call(
                        RequestModel::TorrentDetails { id },
                        WaitModel::DownloadVerify { id, only_files },
                    ),
                    None => self.fail(Failure::NotAdded),
                },
                ReplyModel::Failed(_) => self.fail(Failure::AddTorrent),
                _ => self.fail(Failure::UnexpectedReply),
            },
            WaitModel::DownloadVerify { id, only_files } => match reply {
                ReplyModel::Details(details) => match details.files {
                    Some(files) => if honored(only_files, files) {
                        self.call(RequestModel::Start { id }, WaitModel::DownloadStart)
                    } else {
                        self.call(RequestModel::Delete { id }, WaitModel::DownloadRollback)
                    },
                    None => self.fail(Failure::MissingFiles),
                },
                ReplyModel::Failed(_) => self.fail(Failure::VerifySelection),
                _ => self.fail(Failure::UnexpectedReply),
            },
            WaitModel::DownloadRollback => self.fail(Failure::SelectionNotHonored),
            WaitModel::DownloadStart => match reply {
                ReplyModel::Done => self.download_running().go(),
                ReplyModel::Failed(_) => self.fail(Failure::StartTorrent),
                _ => self.fail(Failure::UnexpectedReply),
            },
            WaitModel::Command(command) => match reply {
                ReplyModel::Done => AppModel { status: command.done_text(), ..self }.go(),
                ReplyModel::Failed(_) => self.fail(command.failure()),
                _ => self.fail(Failure::UnexpectedReply),
            },
            WaitModel::RefreshStats => match reply {
                ReplyModel::Stats(stats) => self.call(
                    RequestModel::ListTorrents { with_stats: true },
                    WaitModel::RefreshList { stats },
                ),
                _ => self.fail(Failure::UnexpectedReply),
            },
            WaitModel::RefreshList { stats } => match reply {
                ReplyModel::Listing(list) => self.refreshed(stats, list).go(),
                _ => self.fail(Failure::UnexpectedReply),
            },
        }
    }
}

/// Appends `action` to `queue`.
pub fn enqueue(queue: &mut VecDeque<Action>, action: Action)
    ensures
        final(queue).deep_view() == old(queue).deep_view().push(action.deep_view()),
{
    queue.push_back(action);
    assert(queue.deep_view() =~= old(queue).deep_view().push(action.deep_view()));
}

/// Whether a listed torrent has the identity hash `info_hash`.
pub fn listed(list: &Vec<TorrentDetails>, info_hash: &str) -> (found: bool)
    ensures
        found == is_listed(list.deep_view(), info_hash@),
{
    let mut i: usize = 0;
    while i < list.len()
        invariant
            i <= list.len(),
            forall|j: int| 0 <= j < i ==> (#[trigger] list.deep_view()[j]).info_hash != info_hash@,
        decreases list.len() - i,
    {
        assert(list.deep_view()[i as int] == list[i as int].deep_view());
        if text_eq(list[i].info_hash.as_str(), info_hash) {
            return true;
        }
        i = i + 1;
    }
    false
}

/// The set of the positions that `items` holds.
fn position_set(items: &Vec<usize>) -> (set: HashSet<usize>)
    ensures
        set@.finite(),
        forall|x: usize| #[trigger] set@.contains(x) <==> items@.contains(x),
{
    let mut set: HashSet<usize> = HashSet::new();
    let mut k: usize = 0;
    while k < items.len()
        invariant
            k <= items.len(),
            set@.finite(),
            forall|x: usize| #[trigger]
                set@.contains(x) <==> exists|j: int| 0 <= j < k && items@[j] == x,
        decreases items.len() - k,
    {
        set.insert(items[k]);
        k = k + 1;
    }
    set
}

/// The set of the positions of the included files.
fn included_set(files: &Vec<FileEntry>) -> (set: HashSet<usize>)
    ensures
        set@.finite(),
        forall|x: usize| #[trigger]
            set@.contains(x) <==> (x < files.len() && files.deep_view()[x as int].included),
{
    let ghost model = files.deep_view();
    let mut set: HashSet<usize> = HashSet::new();
    let mut i: usize = 0;
    while i < files.len()
        invariant
            i <= files.len(),
            model == files.deep_view(),
            set@.finite(),
            forall|x: usize| #[trigger] set@.contains(x) <==> (x < i && model[x as int].included),
        decreases files.len() - i,
    {
        assert(model[i as int] == files[i as int].deep_view());
        if files[i].included {
            set.insert(i);
        }
        i = i + 1;
    }
    set
}

/// Whether the files that the engine includes are exactly those asked for:
/// whether the two sets of positions are equal.
pub fn selection_honored(only_files: &Vec<usize>, files: &Vec<FileEntry>) -> (ok: bool)
    ensures
        ok == honored(only_files@, files.deep_view()),
{
    let ghost model = files.deep_view();
    let expected = position_set(only_files);
    let actual = included_set(files);
    if actual.len() != expected.len() {
        proof {
            if honored(only_files@, model) {
                assert(actual@ =~= expected@);
            }
        }
        return false;
    }
    let mut i: usize = 0;
    while i < files.len()
        invariant
            i <= files.len(),
            model == files.deep_view(),
            forall|x: usize| #[trigger] expected@.contains(x) <==> only_files@.contains(x),
            forall|j: int| 0 <= j < i && model[j].included ==> expected@.contains(j as usize),
        decreases files.len() - i,
    {
        assert(model[i as int] == files[i as int].deep_view());
        if files[i].included && !expected.contains(&i) {
            assert(!only_files@.contains(i));
            return false;
        }
        i = i + 1;
    }
    proof {
        assert(actual@.subset_of(expected@));
        vstd::set_lib::lemma_subset_equality(actual@, expected@);
        assert forall|x: usize| #[trigger]
            only_files@.contains(x) <==> (x < model.len() && model[x as int].included) by {
            assert(expected@.contains(x) <==> only_files@.contains(x));
            assert(actual@.contains(x) <==> expected@.contains(x));
        }
    }
    true
}

/// The rows for the listed torrents, without those that have no identity.
pub fn build_rows(list: Vec<TorrentDetails>) -> (rows: Vec<TorrentRow>)
    ensures
        rows.deep_view() == rows_for(list.deep_view()),
{
    let mut rows: Vec<TorrentRow> = Vec::new();
    let ghost model = list.deep_view();
    assert(rows.deep_view() =~= rows_upto(model, 0));
    for details in it: list
        invariant
            it.seq() == list@,
            model == list.deep_view(),
            rows.deep_view() == rows_upto(model, it.index() as nat),
    {
        let ghost before = rows.deep_view();
        let ghost i = it.index() as int;
        assert(model[i] == details.deep_view());
        match to_row(details) {
            Ok(row) => {
                rows.push(row);
                assert(rows.deep_view() =~= before.push(row_for(model[i])));
            },
            Err(_) => {},
        }
    }
    rows
}

/// The first row of `rows` whose identity is `id`, if there is one.
pub fn position_by_id(rows: &Vec<TorrentRow>, id: usize) -> (found: Option<usize>)
    ensures
        found == first_marked(id_flags(rows.deep_view(), id)),
{
    let ghost flags = id_flags(rows.deep_view(), id);
    let mut i: usize = 0;
    while i < rows.len()
        invariant
            i <= rows.len(),
            flags == id_flags(rows.deep_view(), id),
            flags.len() == rows.len(),
            first_marked(flags) == first_marked_from(flags, i as nat),
        decreases rows.len() - i,
    {
        assert(rows.deep_view()[i as int] == rows[i as int].deep_view());
        if rows[i].id == id {
            return Some(i);
        }
        i = i + 1;
    }
    None
}

/// Whether `flow`, `state` and `queue` are what the step `stepped` gives
/// from a queue that was `before`.
pub open spec fn realizes(
    stepped: Stepped,
    state: AppModel,
    flow: FlowModel,
    queue: Seq<ActionModel>,
    before: Seq<ActionModel>,
) -> bool {
    &&& state == stepped.state
    &&& flow == stepped.flow
    &&& queue == stepped.queue_after(before)
}

impl App {
    /// Rebuilds the cache from a fresh listing and keeps the session
    /// statistics `stats`.
    pub fn refresh(&mut self, stats: SessionStats, list: Vec<TorrentDetails>)
        ensures
            final(self).model() == old(self).model().refreshed(stats, list.deep_view()),
            final(self).model().selection_fits(),
    {
        proof {
            use_type_invariant(&*self);
        }
        let selected_id = match self.selected_torrent() {
            Some(row) => Some(row.id),
            None => None,
        };
        let rows = build_rows(list);
        let count = rows.len();
        let clamped = if count == 0 {
            0
        } else if self.selected < count {
            self.selected
        } else {
            count - 1
        };
        let selected = match selected_id {
            Some(id) => match position_by_id(&rows, id) {
                Some(i) => i,
                None => clamped,
            },
            None => clamped,
        };
        self.session_stats = Some(stats);
        self.torrents = rows;
        self.selected = selected;
        self.ensure_selection_for_filter();
    }

    /// Reports that a source cannot be had.
    pub fn source_failed(&mut self, purpose: &Purpose, failure: Failure) -> (flow: Flow)
        ensures
            final(self).model() == old(self).model().source_failed(
                purpose.deep_view(),
                failure,
            ).state,
            flow.deep_view() == old(self).model().source_failed(purpose.deep_view(), failure).flow,
            old(self).model().source_failed(purpose.deep_view(), failure).pushed is None,
    {
        let words = failure.message();
        match purpose {
            Purpose::Validate { .. } => {
                self.set_error(words.as_str());
                Flow::Continue
            },
            _ => Flow::Failed(words),
        }
    }

    /// Looks up the source for `purpose`, and begins what it is for where no
    /// file has to be read.
    pub fn resolve_source(&mut self, purpose: Purpose, queue: &mut VecDeque<Action>) -> (flow:
        Flow)
        ensures
            realizes(
                old(self).model().resolve(purpose.deep_view()),
                final(self).model(),
                flow.deep_view(),
                final(queue).deep_view(),
                old(queue).deep_view(),
            ),
    {
        let kind = match &purpose {
            Purpose::Validate { value } => build_add_torrent(value.as_str()),
            Purpose::Preflight { magnet } => build_add_torrent(magnet.as_str()),
            Purpose::Picker { magnet, .. } => build_add_torrent(magnet.as_str()),
            Purpose::Download { magnet, .. } => build_add_torrent(magnet.as_str()),
        };
        match kind {
            AddInput::Url(url) => self.source_resolved(purpose, Source::Url(url), queue),
            AddInput::Path(path) => Flow::Call(
                Request::PathExists { path: path.clone() },
                Wait::SourceExists { purpose, path },
            ),
        }
    }

    /// Begins what `source` was looked up for.
    pub fn source_resolved(
        &mut self,
        purpose: Purpose,
        source: Source,
        queue: &mut VecDeque<Action>,
    ) -> (flow: Flow)
        ensures
            realizes(
                old(self).model().resolved(purpose.deep_view(), source.deep_view()),
                final(self).model(),
                flow.deep_view(),
                final(queue).deep_view(),
                old(queue).deep_view(),
            ),
    {
        proof {
            use_type_invariant(&*self);
        }
        match purpose {
            Purpose::Validate { value } => {
                self.status = "Checking torrent...".to_owned();
                self.dialog = Dialog::Closed;
                self.mode = Mode::Normal;
                enqueue(queue, Action::RunEffect(Effect::PreflightAdd { magnet: value }));
                Flow::Continue
            },
            Purpose::Preflight { magnet } => Flow::Call(
                Request::AddTorrent {
                    source,
                    options: AddOptions {
                        list_only: true,
                        paused: false,
                        overwrite: false,
                        output_folder: self.download_dir.clone(),
                        only_files: None,
                    },
                },
                Wait::PreflightProbe { magnet },
            ),
            Purpose::Picker { magnet, output_folder, attempt } => Flow::Call(
                Request::AddTorrent {
                    source,
                    options: AddOptions {
                        list_only: true,
                        paused: false,
                        overwrite: false,
                        output_folder: output_folder.clone(),
                        only_files: None,
                    },
                },
                Wait::PickerProbe { magnet, output_folder, attempt },
            ),
            Purpose::Download { magnet, output_folder, only_files } => Flow::Call(
                Request::AddTorrent {
                    source,
                    options: AddOptions {
                        list_only: false,
                        paused: true,
                        overwrite: true,
                        output_folder,
                        only_files: Some(only_files.clone()),
                    },
                },
                Wait::DownloadAdd { only_files },
            ),
        }
    }

    /// Begins a command on the selected torrent.
    pub fn command(&self, command: Lifecycle) -> (flow: Flow)
        ensures
            flow.deep_view() == self.model().command(command).flow,
            self.model().command(command).state == self.model(),
            self.model().command(command).pushed is None,
    {
        match self.selected_torrent() {
            None => Flow::Continue,
            Some(row) => {
                let id = row.id;
                let request = match command {
                    Lifecycle::Resume => Request::Start { id },
                    Lifecycle::Pause => Request::Pause { id },
                    Lifecycle::Forget => Request::Forget { id },
                    Lifecycle::Delete => Request::Delete { id },
                };
                Flow::Call(request, Wait::Command(command))
            },
        }
    }

    /// Begins to pause or to resume the selected torrent.
    pub fn toggle_pause(&mut self) -> (flow: Flow)
        ensures
            final(self).model() == old(self).model().pause_toggled().state,
            flow.deep_view() == old(self).model().pause_toggled().flow,
            old(self).model().pause_toggled().pushed is None,
    {
        proof {
            use_type_invariant(&*self);
        }
        let state = match self.selected_torrent() {
            None => {
                return Flow::Continue;
            },
            Some(row) => match row.stats {
                None => {
                    return Flow::Continue;
                },
                Some(stats) => stats.state,
            },
        };
        match state {
            TorrentState::Paused => self.command(Lifecycle::Resume),
            TorrentState::Live | TorrentState::Initializing => self.command(Lifecycle::Pause),
            TorrentState::Error => {
                self.status = "Cannot pause: torrent error".to_owned();
                Flow::Continue
            },
        }
    }

    /// Begins to forget the selected torrent; its files stay.
    pub fn stop_selected(&self) -> (flow: Flow)
        ensures
            flow.deep_view() == self.model().command(Lifecycle::Forget).flow,
    {
        self.command(Lifecycle::Forget)
    }

    /// Begins to forget the selected torrent and to delete its files.
    pub fn delete_selected_files(&self) -> (flow: Flow)
        ensures
            flow.deep_view() == self.model().command(Lifecycle::Delete).flow,
    {
        self.command(Lifecycle::Delete)
    }

    /// Begins the probe that tells whether the torrent is tracked already.
    pub fn preflight_add(&mut self, magnet: String, queue: &mut VecDeque<Action>) -> (flow: Flow)
        ensures
            realizes(
                old(self).model().resolve(PurposeModel::Preflight { magnet: magnet@ }),
                final(self).model(),
                flow.deep_view(),
                final(queue).deep_view(),
                old(queue).deep_view(),
            ),
    {
        self.resolve_source(Purpose::Preflight { magnet }, queue)
    }

    /// Begins the probe that lists the files for the picker, with
    /// `output_folder` as the destination.
    pub fn start_file_picker_with_dir(
        &mut self,
        magnet: String,
        output_folder: String,
        queue: &mut VecDeque<Action>,
    ) -> (flow: Flow)
        ensures
            realizes(
                old(self).model().resolve(
                    PurposeModel::Picker { magnet: magnet@, output_folder: output_folder@, attempt: 0 },
                ),
                final(self).model(),
                flow.deep_view(),
                final(queue).deep_view(),
                old(queue).deep_view(),
            ),
    {
        self.resolve_source(Purpose::Picker { magnet, output_folder, attempt: 0 }, queue)
    }

    /// Begins the download of the files `only_files`. Where there is none,
    /// it fails with `Failure::NoFilesSelected`; nothing is asked of the
    /// caller, and state and queue stay as they are.
    pub fn start_download(
        &mut self,
        magnet: String,
        output_folder: String,
        only_files: Vec<usize>,
        queue: &mut VecDeque<Action>,
    ) -> (flow: Flow)
        ensures
            realizes(
                old(self).model().download_started(magnet@, output_folder@, only_files@),
                final(self).model(),
                flow.deep_view(),
                final(queue).deep_view(),
                old(queue).deep_view(),
            ),
    {
        if only_files.len() == 0 {
            return Flow::Failed(Failure::NoFilesSelected.message());
        }
        self.resolve_source(Purpose::Download { magnet, output_folder, only_files }, queue)
    }

    /// Announces the download on the status line and forgets an earlier error.
    pub fn announce_download(&mut self)
        ensures
            final(self).model() == old(self).model().download_announced(),
    {
        proof {
            use_type_invariant(&*self);
        }
        self.status = "Starting download...".to_owned();
        self.last_error = None;
    }

    /// Begins `effect`. A download is announced before it begins.
    pub fn run_effect(&mut self, effect: Effect, queue: &mut VecDeque<Action>) -> (flow: Flow)
        ensures
            realizes(
                old(self).model().begun(effect.deep_view()),
                final(self).model(),
                flow.deep_view(),
                final(queue).deep_view(),
                old(queue).deep_view(),
            ),
    {
        match effect {
            Effect::Refresh => Flow::Call(Request::SessionStats, Wait::RefreshStats),
            Effect::TogglePause => self.toggle_pause(),
            Effect::StopSelected => self.stop_selected(),
            Effect::DeleteSelectedFiles => self.delete_selected_files(),
            Effect::PreflightAdd { magnet } => self.preflight_add(magnet, queue),
            Effect::StartFilePicker { magnet, output_folder } => self.start_file_picker_with_dir(
                magnet,
                output_folder,
                queue,
            ),
            Effect::StartDownload { magnet, output_folder, only_files } => {
                self.announce_download();
                self.start_download(magnet, output_folder, only_files, queue)
            },
        }
    }
}

impl App {
    /// The caller has said whether the path of a torrent file exists.
    fn source_exists_replied(&mut self, purpose: Purpose, path: String, reply: Reply, queue: &mut VecDeque<Action>) -> (flow: Flow)
        ensures
            realizes(
                old(self).model().replied(WaitModel::SourceExists { purpose: purpose.deep_view(), path: path@ }, reply.deep_view()),
                final(self).model(),
                flow.deep_view(),
                final(queue).deep_view(),
                old(queue).deep_view(),
            ),
    {
        proof {
            use_type_invariant(&*self);
        }
        let flow = match reply {
            Reply::Exists(true) => Flow::Call(
                Request::ReadFile { path },
                Wait::SourceRead { purpose },
            ),
            Reply::Exists(false) => self.source_failed(&purpose, Failure::InvalidSource),
            _ => self.source_failed(&purpose, Failure::UnexpectedReply),
        };
        flow
    }

    /// The caller has read a torrent file, or has failed to.
    fn source_read_replied(&mut self, purpose: Purpose, reply: Reply, queue: &mut VecDeque<Action>) -> (flow: Flow)
        ensures
            realizes(
                old(self).model().replied(WaitModel::SourceRead { purpose: purpose.deep_view() }, reply.deep_view()),
                final(self).model(),
                flow.deep_view(),
                final(queue).deep_view(),
                old(queue).deep_view(),
            ),
    {
        proof {
            use_type_invariant(&*self);
        }
        let flow = match reply {
            Reply::Bytes(bytes) => self.source_resolved(purpose, Source::FileBytes(bytes), queue),
            Reply::Failed(_) => self.source_failed(&purpose, Failure::ReadTorrentFile),
            _ => self.source_failed(&purpose, Failure::UnexpectedReply),
        };
        flow
    }

    /// The engine has answered the probe that tells the identity hash.
    fn preflight_probe_replied(&mut self, magnet: String, reply: Reply, queue: &mut VecDeque<Action>) -> (flow: Flow)
        ensures
            realizes(
                old(self).model().replied(WaitModel::PreflightProbe { magnet: magnet@ }, reply.deep_view()),
                final(self).model(),
                flow.deep_view(),
                final(queue).deep_view(),
                old(queue).deep_view(),
            ),
    {
        proof {
            use_type_invariant(&*self);
        }
        let flow = match reply {
            Reply::Added(response) => Flow::Call(
                Request::ListTorrents { with_stats: false },
                Wait::PreflightList { magnet, info_hash: response.details.info_hash },
            ),
            Reply::Failed(_) => Flow::Failed(Failure::ListingFiles.message()),
            _ => Flow::Failed(Failure::UnexpectedReply.message()),
        };
        flow
    }

    /// The engine has listed its torrents: the probed one must not be among them.
    fn preflight_list_replied(&mut self, magnet: String, info_hash: String, reply: Reply, queue: &mut VecDeque<Action>) -> (flow: Flow)
        ensures
            realizes(
                old(self).model().replied(WaitModel::PreflightList { magnet: magnet@, info_hash: info_hash@ }, reply.deep_view()),
                final(self).model(),
                flow.deep_view(),
                final(queue).deep_view(),
                old(queue).deep_view(),
            ),
    {
        proof {
            use_type_invariant(&*self);
        }
        let flow = match reply {
            Reply::Listing(list) => {
                if listed(&list, info_hash.as_str()) {
                    Flow::Failed(Failure::AlreadyAdded.message())
                } else {
                    enqueue(queue, Action::PreflightAddResult { magnet });
                    Flow::Continue
                }
            },
            _ => Flow::Failed(Failure::UnexpectedReply.message()),
        };
        flow
    }

    /// The engine has answered the probe for the picker, or has failed to.
    fn picker_probe_replied(&mut self, magnet: String, output_folder: String, attempt: u8, reply: Reply, queue: &mut VecDeque<Action>) -> (flow: Flow)
        ensures
            realizes(
                old(self).model().replied(WaitModel::PickerProbe { magnet: magnet@, output_folder: output_folder@, attempt }, reply.deep_view()),
                final(self).model(),
                flow.deep_view(),
                final(queue).deep_view(),
                old(queue).deep_view(),
            ),
    {
        proof {
            use_type_invariant(&*self);
        }
        let flow = match reply {
            Reply::Added(response) => {
                let suffix = derive_folder_suffix(&response);
                let folder_name = sanitize_path_component(suffix.as_str());
                let path = join_path(output_folder.as_str(), folder_name.as_str());
                if self.has_same_destination(response.details.info_hash.as_str(), path.as_str()) {
                    Flow::Failed(Failure::SameDestination.message())
                } else {
                    Flow::Call(
                        Request::PathExists { path: path.clone() },
                        Wait::PickerFirst {
                            magnet,
                            base: output_folder,
                            folder_name,
                            path,
                            response,
                        },
                    )
                }
            },
            Reply::Failed(cause) => {
                if attempt < PROBE_ATTEMPTS - 1 {
                    Flow::Call(
                        Request::Sleep { millis: RETRY_DELAY_MS },
                        Wait::PickerRetry { magnet, output_folder, attempt },
                    )
                } else {
                    Flow::Failed(message_with_cause(Failure::ListingFiles, cause.as_str()))
                }
            },
            _ => Flow::Failed(Failure::UnexpectedReply.message()),
        };
        flow
    }

    /// The pause before the next attempt is over.
    fn picker_retry_replied(&mut self, magnet: String, output_folder: String, attempt: u8, reply: Reply, queue: &mut VecDeque<Action>) -> (flow: Flow)
        ensures
            realizes(
                old(self).model().replied(WaitModel::PickerRetry { magnet: magnet@, output_folder: output_folder@, attempt }, reply.deep_view()),
                final(self).model(),
                flow.deep_view(),
                final(queue).deep_view(),
                old(queue).deep_view(),
            ),
    {
        proof {
            use_type_invariant(&*self);
        }
        let flow = match reply {
            Reply::Done => {
                let next = if attempt < u8::MAX {
                    attempt + 1
                } else {
                    attempt
                };
                self.resolve_source(Purpose::Picker { magnet, output_folder, attempt: next }, queue)
            },
            _ => Flow::Failed(Failure::UnexpectedReply.message()),
        };
        flow
    }

    /// The caller has said whether the destination folder exists.
    fn picker_first_replied(&mut self, magnet: String, base: String, folder_name: String, path: String, response: AddResponse, reply: Reply, queue: &mut VecDeque<Action>) -> (flow: Flow)
        ensures
            realizes(
                old(self).model().replied(WaitModel::PickerFirst {
                        magnet: magnet@,
                        base: base@,
                        folder_name: folder_name@,
                        path: path@,
                        response: response.deep_view(),
                    }, reply.deep_view()),
                final(self).model(),
                flow.deep_view(),
                final(queue).deep_view(),
                old(queue).deep_view(),
            ),
    {
        proof {
            use_type_invariant(&*self);
        }
        let flow = match reply {
            Reply::Exists(false) => Flow::Call(
                Request::CreateDir { path: path.clone() },
                Wait::PickerCreate { magnet, path, response },
            ),
            Reply::Exists(true) => {
                let alternate = alternate_folder_name(
                    folder_name.as_str(),
                    response.details.info_hash.as_str(),
                );
                let second = join_path(base.as_str(), alternate.as_str());
                Flow::Call(
                    Request::PathExists { path: second.clone() },
                    Wait::PickerSecond { magnet, folder_name: alternate, path: second, response },
                )
            },
            _ => Flow::Failed(Failure::UnexpectedReply.message()),
        };
        flow
    }

    /// The caller has said whether the alternate destination folder exists.
    fn picker_second_replied(&mut self, magnet: String, folder_name: String, path: String, response: AddResponse, reply: Reply, queue: &mut VecDeque<Action>) -> (flow: Flow)
        ensures
            realizes(
                old(self).model().replied(WaitModel::PickerSecond {
                        magnet: magnet@,
                        folder_name: folder_name@,
                        path: path@,
                        response: response.deep_view(),
                    }, reply.deep_view()),
                final(self).model(),
                flow.deep_view(),
                final(queue).deep_view(),
                old(queue).deep_view(),
            ),
    {
        proof {
            use_type_invariant(&*self);
        }
        let flow = match reply {
            Reply::Exists(false) => Flow::Call(
                Request::CreateDir { path: path.clone() },
                Wait::PickerCreate { magnet, path, response },
            ),
            Reply::Exists(true) => Flow::Failed(Failure::DestinationExists.message()),
            _ => Flow::Failed(Failure::UnexpectedReply.message()),
        };
        flow
    }

    /// The caller has created the destination folder, or has failed to.
    fn picker_create_replied(&mut self, magnet: String, path: String, response: AddResponse, reply: Reply, queue: &mut VecDeque<Action>) -> (flow: Flow)
        ensures
            realizes(
                old(self).model().replied(WaitModel::PickerCreate { magnet: magnet@, path: path@, response: response.deep_view() }, reply.deep_view()),
                final(self).model(),
                flow.deep_view(),
                final(queue).deep_view(),
                old(queue).deep_view(),
            ),
    {
        proof {
            use_type_invariant(&*self);
        }
        let flow = match reply {
            Reply::Done => {
                match build_picker(magnet, path, response) {
                    Ok(picker) => {
                        self.file_picker = Some(picker);
                        self.mode = Mode::FilePicker;
                        self.status = "Select files and press Enter".to_owned();
                        self.dialog = Dialog::FilePicker;
                        Flow::Continue
                    },
                    Err(failure) => Flow::Failed(failure.message()),
                }
            },
            Reply::Failed(_) => Flow::Failed(Failure::CreateFolder.message()),
            _ => Flow::Failed(Failure::UnexpectedReply.message()),
        };
        flow
    }

    /// The engine has added the torrent, or has failed to.
    fn download_add_replied(&mut self, only_files: Vec<usize>, reply: Reply, queue: &mut VecDeque<Action>) -> (flow: Flow)
        ensures
            realizes(
                old(self).model().replied(WaitModel::DownloadAdd { only_files: only_files@ }, reply.deep_view()),
                final(self).model(),
                flow.deep_view(),
                final(queue).deep_view(),
                old(queue).deep_view(),
            ),
    {
        proof {
            use_type_invariant(&*self);
        }
        let flow = match reply {
            Reply::Added(response) => match response.id {
                Some(id) => Flow::Call(
                    Request::TorrentDetails { id },
                    Wait::DownloadVerify { id, only_files },
                ),
                None => Flow::Failed(Failure::NotAdded.message()),
            },
            Reply::Failed(_) => Flow::Failed(Failure::AddTorrent.message()),
            _ => Flow::Failed(Failure::UnexpectedReply.message()),
        };
        flow
    }

    /// The engine has reported the files of the added torrent: where they are not those asked for, the torrent is removed again.
    fn download_verify_replied(&mut self, id: usize, only_files: Vec<usize>, reply: Reply, queue: &mut VecDeque<Action>) -> (flow: Flow)
        ensures
            realizes(
                old(self).model().replied(WaitModel::DownloadVerify { id, only_files: only_files@ }, reply.deep_view()),
                final(self).model(),
                flow.deep_view(),
                final(queue).deep_view(),
                old(queue).deep_view(),
            ),
    {
        proof {
            use_type_invariant(&*self);
        }
        let flow = match reply {
            Reply::Details(details) => match details.files {
                Some(files) => {
                    if selection_honored(&only_files, &files) {
                        Flow::Call(Request::Start { id }, Wait::DownloadStart)
                    } else {
                        Flow::Call(Request::Delete { id }, Wait::DownloadRollback)
                    }
                },
                None => Flow::Failed(Failure::MissingFiles.message()),
            },
            Reply::Failed(_) => Flow::Failed(Failure::VerifySelection.message()),
            _ => Flow::Failed(Failure::UnexpectedReply.message()),
        };
        flow
    }

    /// The engine has started the added torrent, or has failed to.
    fn download_start_replied(&mut self, reply: Reply, queue: &mut VecDeque<Action>) -> (flow: Flow)
        ensures
            realizes(
                old(self).model().replied(WaitModel::DownloadStart, reply.deep_view()),
                final(self).model(),
                flow.deep_view(),
                final(queue).deep_view(),
                old(queue).deep_view(),
            ),
    {
        proof {
            use_type_invariant(&*self);
        }
        let flow = match reply {
            Reply::Done => {
                self.status = "Torrent added".to_owned();
                self.file_picker = None;
                self.mode = Mode::Normal;
                self.dialog = Dialog::Closed;
                Flow::Continue
            },
            Reply::Failed(_) => Flow::Failed(Failure::StartTorrent.message()),
            _ => Flow::Failed(Failure::UnexpectedReply.message()),
        };
        flow
    }

    /// The engine has carried out a command on the selected torrent, or has failed to.
    fn command_replied(&mut self, command: Lifecycle, reply: Reply, queue: &mut VecDeque<Action>) -> (flow: Flow)
        ensures
            realizes(
                old(self).model().replied(WaitModel::Command(command), reply.deep_view()),
                final(self).model(),
                flow.deep_view(),
                final(queue).deep_view(),
                old(queue).deep_view(),
            ),
    {
        proof {
            use_type_invariant(&*self);
        }
        let flow = match reply {
            Reply::Done => {
                self.status = match command {
                    Lifecycle::Resume => "Resumed".to_owned(),
                    Lifecycle::Pause => "Paused".to_owned(),
                    Lifecycle::Forget => "Stopped (forgotten)".to_owned(),
                    Lifecycle::Delete => "Deleted torrent and files".to_owned(),
                };
                Flow::Continue
            },
            Reply::Failed(_) => {
                let failure = match command {
                    Lifecycle::Resume => Failure::ResumeTorrent,
                    Lifecycle::Pause => Failure::PauseTorrent,
                    Lifecycle::Forget => Failure::StopTorrent,
                    Lifecycle::Delete => Failure::DeleteTorrent,
                };
                Flow::Failed(failure.message())
            },
            _ => Flow::Failed(Failure::UnexpectedReply.message()),
        };
        flow
    }

    /// The engine has reported the session statistics, or the list that goes with them.
    fn refresh_replied(&mut self, stats: Option<SessionStats>, reply: Reply, queue: &mut VecDeque<Action>) -> (flow: Flow)
        ensures
            realizes(
                old(self).model().replied(match stats {
                        Some(stats) => WaitModel::RefreshList { stats },
                        None => WaitModel::RefreshStats,
                    }, reply.deep_view()),
                final(self).model(),
                flow.deep_view(),
                final(queue).deep_view(),
                old(queue).deep_view(),
            ),
    {
        proof {
            use_type_invariant(&*self);
        }
        let flow = match stats {
            None => match reply {
                Reply::Stats(stats) => Flow::Call(
                    Request::ListTorrents { with_stats: true },
                    Wait::RefreshList { stats },
                ),
                _ => Flow::Failed(Failure::UnexpectedReply.message()),
            },
            Some(stats) => match reply {
                Reply::Listing(list) => {
                    self.refresh(stats, list);
                    Flow::Continue
                },
                _ => Flow::Failed(Failure::UnexpectedReply.message()),
            },
        };
        flow
    }

    /// Goes on with the reply to the request that `wait` stands for.
    pub fn on_reply(&mut self, wait: Wait, reply: Reply, queue: &mut VecDeque<Action>) -> (flow:
        Flow)
        ensures
            realizes(
                old(self).model().replied(wait.deep_view(), reply.deep_view()),
                final(self).model(),
                flow.deep_view(),
                final(queue).deep_view(),
                old(queue).deep_view(),
            ),
    {
        match wait {
            Wait::SourceExists { purpose, path } => self.source_exists_replied(
                purpose,
                path,
                reply,
                queue,
            ),
            Wait::SourceRead { purpose } => self.source_read_replied(purpose, reply, queue),
            Wait::PreflightProbe { magnet } => self.preflight_probe_replied(magnet, reply, queue),
            Wait::PreflightList { magnet, info_hash } => self.preflight_list_replied(
                magnet,
                info_hash,
                reply,
                queue,
            ),
            Wait::PickerProbe { magnet, output_folder, attempt } => self.picker_probe_replied(
                magnet,
                output_folder,
                attempt,
                reply,
                queue,
            ),
            Wait::PickerRetry { magnet, output_folder, attempt } => self.picker_retry_replied(
                magnet,
                output_folder,
                attempt,
                reply,
                queue,
            ),
            Wait::PickerFirst { magnet, base, folder_name, path, response } => {
                self.picker_first_replied(magnet, base, folder_name, path, response, reply, queue)
            },
            Wait::PickerSecond { magnet, folder_name, path, response } => {
                self.picker_second_replied(magnet, folder_name, path, response, reply, queue)
            },
            Wait::PickerCreate { magnet, path, response } => self.picker_create_replied(
                magnet,
                path,
                response,
                reply,
                queue,
            ),
            Wait::DownloadAdd { only_files } => self.download_add_replied(only_files, reply, queue),
            Wait::DownloadVerify { id, only_files } => self.download_verify_replied(
                id,
                only_files,
                reply,
                queue,
            ),
            Wait::DownloadRollback => Flow::Failed(Failure::SelectionNotHonored.message()),
            Wait::DownloadStart => self.download_start_replied(reply, queue),
            Wait::Command(command) => self.command_replied(command, reply, queue),
            Wait::RefreshStats => self.refresh_replied(None, reply, queue),
            Wait::RefreshList { stats } => self.refresh_replied(Some(stats), reply, queue),
        }
    }
}

/// There are at most as many rows as listed torrents.
pub proof fn lemma_rows_upto_len(list: Seq<DetailsModel>, n: nat)
    ensures
        rows_upto(list, n).len() <= n,
    decreases n,
{
    if n > 0 {
        lemma_rows_upto_len(list, (n - 1) as nat);
    }
}

impl AppModel {
    /// A refresh establishes the filter invariant.
    pub proof fn lemma_refreshed_fits(self, stats: SessionStats, list: Seq<DetailsModel>)
        requires
            list.len() <= usize::MAX,
        ensures
            self.refreshed(stats, list).selection_fits(),
    {
        lemma_rows_upto_len(list, list.len());
        self.relisted(stats, list).lemma_settled_selection_fits();
    }
}

} // verus!
