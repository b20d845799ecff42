//! The plain records that the state holds: torrent rows with their statistics,
//! and the file entries of the picker.

use crate::indices::{first_marked, first_marked_from, marked, marked_upto};
use crate::modes::{FilterKind, TorrentState};
use vstd::prelude::*;

verus! {

/// Transfer speeds, in bytes per second, and peer counts of a torrent that
/// is running.
#[derive(Debug, Clone, Copy, PartialEq, Eq, Structural)]
pub struct LiveStats {
    pub download_bps: u64,
    pub upload_bps: u64,
    pub queued_peers: usize,
    pub connecting_peers: usize,
    pub live_peers: usize,
    pub seen_peers: usize,
    pub dead_peers: usize,
}

/// One torrent's statistics as the engine last reported them.
#[derive(Debug, Clone, Copy, PartialEq, Eq, Structural)]
pub struct TorrentStats {
    pub state: TorrentState,
    pub finished: bool,
    pub progress_bytes: u64,
    pub uploaded_bytes: u64,
    pub total_bytes: u64,
    pub live: Option<LiveStats>,
}

/// Session-wide statistics as the engine last reported them; the speeds are
/// in bytes per second.
#[derive(Debug, Clone, Copy, PartialEq, Eq, Structural)]
pub struct SessionStats {
    pub fetched_bytes: u64,
    pub uploaded_bytes: u64,
    pub download_bps: u64,
    pub upload_bps: u64,
    pub uptime_seconds: u64,
}

/// One torrent of the cache.
#[derive(Debug, Clone, PartialEq, Eq)]
pub struct TorrentRow {
    pub id: usize,
    pub name: String,
    pub info_hash: Option<String>,
    pub output_folder: String,
    pub stats: Option<TorrentStats>,
}

/// What a `TorrentRow` holds, as mathematical values.
pub struct RowModel {
    pub id: usize,
    pub name: Seq<char>,
    pub info_hash: Option<Seq<char>>,
    pub output_folder: Seq<char>,
    pub stats: Option<TorrentStats>,
}

impl DeepView for TorrentRow {
    type V = RowModel;

    open spec fn deep_view(&self) -> RowModel {
        RowModel {
            id: self.id,
            name: self.name@,
            info_hash: self.info_hash.deep_view(),
            output_folder: self.output_folder@,
            stats: self.stats,
        }
    }
}

/// One file of a torrent, with the flag that says whether it will be downloaded.
#[derive(Debug, Clone, PartialEq, Eq)]
pub struct FileEntry {
    pub name: String,
    pub length: u64,
    pub included: bool,
}

/// What a `FileEntry` holds, as mathematical values.
pub struct FileModel {
    pub name: Seq<char>,
    pub length: u64,
    pub included: bool,
}

impl DeepView for FileEntry {
    type V = FileModel;

    open spec fn deep_view(&self) -> FileModel {
        FileModel { name: self.name@, length: self.length, included: self.included }
    }
}

/// The staging area of the file picker.
#[derive(Debug, Clone, PartialEq, Eq)]
pub struct FilePickerState {
    pub magnet: String,
    pub output_folder: String,
    pub files: Vec<FileEntry>,
    pub cursor: usize,
}

/// What a `FilePickerState` holds, as mathematical values.
pub struct PickerModel {
    pub magnet: Seq<char>,
    pub output_folder: Seq<char>,
    pub files: Seq<FileModel>,
    pub cursor: usize,
}

impl DeepView for FilePickerState {
    type V = PickerModel;

    open spec fn deep_view(&self) -> PickerModel {
        PickerModel {
            magnet: self.magnet@,
            output_folder: self.output_folder@,
            files: self.files.deep_view(),
            cursor: self.cursor,
        }
    }
}

/// Whether a torrent with statistics `stats` passes `filter`.
///
/// A torrent without statistics counts as stopped. A torrent is seeding when
/// it is finished, or live with all of a non-empty payload present.
pub open spec fn passes(filter: FilterKind, stats: Option<TorrentStats>) -> bool {
    match stats {
        None => filter == FilterKind::All || filter == FilterKind::Stopped,
        Some(s) => match filter {
            FilterKind::All => true,
            FilterKind::Downloading => s.state == TorrentState::Live && !s.finished,
            FilterKind::Seeding => s.finished || (s.total_bytes > 0 && s.progress_bytes
                >= s.total_bytes && s.state == TorrentState::Live),
            FilterKind::Paused => s.state == TorrentState::Paused,
            FilterKind::Stopped => false,
            FilterKind::Error => s.state == TorrentState::Error,
        },
    }
}

/// Whether a torrent with statistics `stats` passes `filter`.
pub fn filter_passes(filter: FilterKind, stats: &Option<TorrentStats>) -> (r: bool)
    ensures
        r == passes(filter, *stats),
{
    match stats {
        None => matches!(filter, FilterKind::All | FilterKind::Stopped),
        Some(s) => {
            let live = matches!(s.state, TorrentState::Live);
            match filter {
                FilterKind::All => true,
                FilterKind::Downloading => live && !s.finished,
                FilterKind::Seeding => s.finished || (s.total_bytes > 0 && s.progress_bytes
                    >= s.total_bytes && live),
                FilterKind::Paused => matches!(s.state, TorrentState::Paused),
                FilterKind::Stopped => false,
                FilterKind::Error => matches!(s.state, TorrentState::Error),
            }
        },
    }
}

/// For each row, whether it passes `filter`.
pub open spec fn pass_flags(rows: Seq<RowModel>, filter: FilterKind) -> Seq<bool> {
    Seq::new(rows.len(), |i: int| passes(filter, rows[i].stats))
}

/// For each file, whether it is included.
pub open spec fn included_flags(files: Seq<FileModel>) -> Seq<bool> {
    Seq::new(files.len(), |i: int| files[i].included)
}

/// The positions of the rows that pass `filter`, in increasing order.
pub open spec fn filtered(rows: Seq<RowModel>, filter: FilterKind) -> Seq<usize> {
    marked(pass_flags(rows, filter))
}

/// The positions of the included files, in increasing order.
pub open spec fn included_indices(files: Seq<FileModel>) -> Seq<usize> {
    marked(included_flags(files))
}

/// `files` with every inclusion flag set to `flag`.
pub open spec fn with_all_included(files: Seq<FileModel>, flag: bool) -> Seq<FileModel> {
    Seq::new(files.len(), |i: int| FileModel { included: flag, ..files[i] })
}

/// `files` with the inclusion flag at `at` inverted; unchanged where `at` is past the end.
pub open spec fn with_toggled(files: Seq<FileModel>, at: int) -> Seq<FileModel> {
    if 0 <= at < files.len() {
        files.update(at, FileModel { included: !files[at].included, ..files[at] })
    } else {
        files
    }
}

/// The positions of the rows of `rows` that pass `filter`, in increasing order.
pub fn filtered_rows(rows: &Vec<TorrentRow>, filter: FilterKind) -> (out: Vec<usize>)
    ensures
        out@ == filtered(rows.deep_view(), filter),
{
    let mut out: Vec<usize> = Vec::new();
    let mut i: usize = 0;
    let ghost flags = pass_flags(rows.deep_view(), filter);
    while i < rows.len()
        invariant
            i <= rows.len(),
            flags == pass_flags(rows.deep_view(), filter),
            flags.len() == rows.len(),
            out@ == marked_upto(flags, i as nat),
        decreases rows.len() - i,
    {
        if filter_passes(filter, &rows[i].stats) {
            out.push(i);
        }
        i = i + 1;
    }
    out
}

/// The positions of the included files of `files`, in increasing order.
pub fn included_files(files: &Vec<FileEntry>) -> (out: Vec<usize>)
    ensures
        out@ == included_indices(files.deep_view()),
{
    let mut out: Vec<usize> = Vec::new();
    let mut i: usize = 0;
    let ghost flags = included_flags(files.deep_view());
    while i < files.len()
        invariant
            i <= files.len(),
            flags == included_flags(files.deep_view()),
            flags.len() == files.len(),
            out@ == marked_upto(flags, i as nat),
        decreases files.len() - i,
    {
        if files[i].included {
            out.push(i);
        }
        i = i + 1;
    }
    out
}

/// The first row of `rows` that passes `filter`, if one does.
pub fn first_passing(rows: &Vec<TorrentRow>, filter: FilterKind) -> (found: Option<usize>)
    ensures
        found == first_marked(pass_flags(rows.deep_view(), filter)),
{
    let ghost flags = pass_flags(rows.deep_view(), filter);
    let mut i: usize = 0;
    while i < rows.len()
        invariant
            i <= rows.len(),
            flags == pass_flags(rows.deep_view(), filter),
            flags.len() == rows.len(),
            first_marked(flags) == first_marked_from(flags, i as nat),
        decreases rows.len() - i,
    {
        if filter_passes(filter, &rows[i].stats) {
            return Some(i);
        }
        i = i + 1;
    }
    None
}

impl PickerModel {
    /// The cursor moves up one file, unless it is on the first.
    pub open spec fn moved_up(self) -> PickerModel {
        PickerModel {
            cursor: if self.cursor == 0 {
                0
            } else {
                (self.cursor - 1) as usize
            },
            ..self
        }
    }

    /// The cursor moves down one file, and not past the last.
    pub open spec fn moved_down(self) -> PickerModel {
        if self.files.len() == 0 {
            self
        } else {
            PickerModel {
                cursor: if self.cursor + 1 < self.files.len() {
                    (self.cursor + 1) as usize
                } else {
                    (self.files.len() - 1) as usize
                },
                ..self
            }
        }
    }

    /// The file under the cursor changes sides.
    pub open spec fn toggled(self) -> PickerModel {
        PickerModel { files: with_toggled(self.files, self.cursor as int), ..self }
    }

    /// Every file is included, or none is.
    pub open spec fn all_set(self, flag: bool) -> PickerModel {
        PickerModel { files: with_all_included(self.files, flag), ..self }
    }
}

impl FilePickerState {
    /// Moves the cursor up one file, unless it is on the first.
    pub fn move_up(&mut self)
        ensures
            final(self).deep_view() == old(self).deep_view().moved_up(),
    {
        if self.cursor > 0 {
            self.cursor = self.cursor - 1;
        }
    }

    /// Moves the cursor down one file, and not past the last.
    pub fn move_down(&mut self)
        ensures
            final(self).deep_view() == old(self).deep_view().moved_down(),
    {
        let count = self.files.len();
        if count > 0 {
            if self.cursor < count - 1 {
                self.cursor = self.cursor + 1;
            } else {
                self.cursor = count - 1;
            }
        }
    }

    /// Includes the file under the cursor where it was excluded, and excludes
    /// it where it was included.
    pub fn toggle(&mut self)
        ensures
            final(self).deep_view() == old(self).deep_view().toggled(),
    {
        let at = self.cursor;
        if at < self.files.len() {
            let flag = !self.files[at].included;
            self.files[at].included = flag;
            assert(self.files.deep_view() =~= with_toggled(old(self).files.deep_view(), at as int));
        }
    }

    /// Includes every file, or excludes every file.
    pub fn set_all(&mut self, flag: bool)
        ensures
            final(self).deep_view() == old(self).deep_view().all_set(flag),
    {
        let ghost before = self.files.deep_view();
        let mut i: usize = 0;
        while i < self.files.len()
            invariant
                i <= self.files.len(),
                self.files.len() == before.len(),
                self.magnet == old(self).magnet,
                self.output_folder == old(self).output_folder,
                self.cursor == old(self).cursor,
                forall|j: int|
                    0 <= j < i ==> (#[trigger] self.files[j]).deep_view() == (FileModel {
                        included: flag,
                        ..before[j]
                    }),
                forall|j: int|
                    i <= j < before.len() ==> (#[trigger] self.files[j]).deep_view() == before[j],
            decreases self.files.len() - i,
        {
            self.files[i].included = flag;
            i = i + 1;
        }
        assert(self.files.deep_view() =~= with_all_included(before, flag));
    }
}

/// Once every file is included, the included positions are all positions.
pub proof fn lemma_all_included(files: Seq<FileModel>)
    requires
        files.len() <= usize::MAX,
    ensures
        included_indices(with_all_included(files, true)) == Seq::new(
            files.len(),
            |i: int| i as usize,
        ),
        included_indices(with_all_included(files, false)) == Seq::<usize>::empty(),
{
    let on = included_flags(with_all_included(files, true));
    crate::indices::lemma_marked_all(on, on.len());
    let off = included_flags(with_all_included(files, false));
    crate::indices::lemma_marked_none(off, off.len());
}

} // verus!
