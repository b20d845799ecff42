//! The boundary to the engine, the file system and the clock: what the
//! library asks its caller to do, and what the caller reports back.

use crate::rows::{FileEntry, FileModel, SessionStats, TorrentStats};
use vstd::prelude::*;

verus! {

/// What a torrent is added from.
#[derive(Debug, Clone, PartialEq, Eq)]
pub enum Source {
    /// A magnet link or an http(s) address.
    Url(String),
    /// The bytes of a torrent file.
    FileBytes(Vec<u8>),
}

/// What a `Source` holds, as mathematical values.
pub enum SourceModel {
    Url(Seq<char>),
    FileBytes(Seq<u8>),
}

impl DeepView for Source {
    type V = SourceModel;

    open spec fn deep_view(&self) -> SourceModel {
        match self {
            Source::Url(url) => SourceModel::Url(url@),
            Source::FileBytes(bytes) => SourceModel::FileBytes(bytes@),
        }
    }
}

/// How a torrent is added.
#[derive(Debug, Clone, PartialEq, Eq)]
pub struct AddOptions {
    /// Fetch the metadata only; nothing is tracked or transferred.
    pub list_only: bool,
    /// Add the torrent without starting it.
    pub paused: bool,
    /// Write into the destination even where it holds files already.
    pub overwrite: bool,
    pub output_folder: String,
    /// The files to download, by position; all of them where absent.
    pub only_files: Option<Vec<usize>>,
}

/// What `AddOptions` hold, as mathematical values.
pub struct AddOptionsModel {
    pub list_only: bool,
    pub paused: bool,
    pub overwrite: bool,
    pub output_folder: Seq<char>,
    pub only_files: Option<Seq<usize>>,
}

impl DeepView for AddOptions {
    type V = AddOptionsModel;

    open spec fn deep_view(&self) -> AddOptionsModel {
        AddOptionsModel {
            list_only: self.list_only,
            paused: self.paused,
            overwrite: self.overwrite,
            output_folder: self.output_folder@,
            only_files: match self.only_files {
                Some(files) => Some(files@),
                None => None,
            },
        }
    }
}

/// One operation that the caller performs for the library.
#[derive(Debug, Clone, PartialEq, Eq)]
pub enum Request {
    /// The session-wide statistics. Answered by `Reply::Stats`.
    SessionStats,
    /// The list of tracked torrents. Answered by `Reply::Listing`.
    ListTorrents { with_stats: bool },
    /// Add a torrent. Answered by `Reply::Added` or `Reply::Failed`.
    AddTorrent { source: Source, options: AddOptions },
    /// One torrent's details. Answered by `Reply::Details` or `Reply::Failed`.
    TorrentDetails { id: usize },
    /// Pause a torrent. Answered by `Reply::Done` or `Reply::Failed`.
    Pause { id: usize },
    /// Start or resume a torrent. Answered by `Reply::Done` or `Reply::Failed`.
    Start { id: usize },
    /// Stop tracking a torrent and keep its files. Answered by `Reply::Done` or `Reply::Failed`.
    Forget { id: usize },
    /// Stop tracking a torrent and remove its files. Answered by `Reply::Done` or `Reply::Failed`.
    Delete { id: usize },
    /// Whether a path exists. Answered by `Reply::Exists`.
    PathExists { path: String },
    /// The bytes of a file. Answered by `Reply::Bytes` or `Reply::Failed`.
    ReadFile { path: String },
    /// Create a directory and its missing parents. Answered by `Reply::Done` or `Reply::Failed`.
    CreateDir { path: String },
    /// Wait. Answered by `Reply::Done`.
    Sleep { millis: u64 },
}

/// What a `Request` holds, as mathematical values.
pub enum RequestModel {
    SessionStats,
    ListTorrents { with_stats: bool },
    AddTorrent { source: SourceModel, options: AddOptionsModel },
    TorrentDetails { id: usize },
    Pause { id: usize },
    Start { id: usize },
    Forget { id: usize },
    Delete { id: usize },
    PathExists { path: Seq<char> },
    ReadFile { path: Seq<char> },
    CreateDir { path: Seq<char> },
    Sleep { millis: u64 },
}

impl DeepView for Request {
    type V = RequestModel;

    open spec fn deep_view(&self) -> RequestModel {
        match self {
            Request::SessionStats => RequestModel::SessionStats,
            Request::ListTorrents { with_stats } => RequestModel::ListTorrents {
                with_stats: *with_stats,
            },
            Request::AddTorrent { source, options } => RequestModel::AddTorrent {
                source: source.deep_view(),
                options: options.deep_view(),
            },
            Request::TorrentDetails { id } => RequestModel::TorrentDetails { id: *id },
            Request::Pause { id } => RequestModel::Pause { id: *id },
            Request::Start { id } => RequestModel::Start { id: *id },
            Request::Forget { id } => RequestModel::Forget { id: *id },
            Request::Delete { id } => RequestModel::Delete { id: *id },
            Request::PathExists { path } => RequestModel::PathExists { path: path@ },
            Request::ReadFile { path } => RequestModel::ReadFile { path: path@ },
            Request::CreateDir { path } => RequestModel::CreateDir { path: path@ },
            Request::Sleep { millis } => RequestModel::Sleep { millis: *millis },
        }
    }
}

/// What the engine knows of one torrent.
#[derive(Debug, Clone, PartialEq, Eq)]
pub struct TorrentDetails {
    pub id: Option<usize>,
    pub info_hash: String,
    pub name: Option<String>,
    pub output_folder: String,
    pub files: Option<Vec<FileEntry>>,
    pub stats: Option<TorrentStats>,
}

/// What `TorrentDetails` hold, as mathematical values.
pub struct DetailsModel {
    pub id: Option<usize>,
    pub info_hash: Seq<char>,
    pub name: Option<Seq<char>>,
    pub output_folder: Seq<char>,
    pub files: Option<Seq<FileModel>>,
    pub stats: Option<TorrentStats>,
}

impl DeepView for TorrentDetails {
    type V = DetailsModel;

    open spec fn deep_view(&self) -> DetailsModel {
        DetailsModel {
            id: self.id,
            info_hash: self.info_hash@,
            name: self.name.deep_view(),
            output_folder: self.output_folder@,
            files: self.files.deep_view(),
            stats: self.stats,
        }
    }
}

/// What the engine answers when a torrent is added.
#[derive(Debug, Clone, PartialEq, Eq)]
pub struct AddResponse {
    /// The identity of the torrent; absent where it was only listed.
    pub id: Option<usize>,
    pub details: TorrentDetails,
}

/// What an `AddResponse` holds, as mathematical values.
pub struct AddResponseModel {
    pub id: Option<usize>,
    pub details: DetailsModel,
}

impl DeepView for AddResponse {
    type V = AddResponseModel;

    open spec fn deep_view(&self) -> AddResponseModel {
        AddResponseModel { id: self.id, details: self.details.deep_view() }
    }
}

/// What the caller reports back for a request.
#[derive(Debug, Clone, PartialEq, Eq)]
pub enum Reply {
    /// The operation succeeded and has nothing to report.
    Done,
    /// The operation failed, with the reason in words.
    Failed(String),
    Exists(bool),
    Bytes(Vec<u8>),
    Stats(SessionStats),
    Listing(Vec<TorrentDetails>),
    Added(AddResponse),
    Details(TorrentDetails),
}

/// What a `Reply` holds, as mathematical values.
pub enum ReplyModel {
    Done,
    Failed(Seq<char>),
    Exists(bool),
    Bytes(Seq<u8>),
    Stats(SessionStats),
    Listing(Seq<DetailsModel>),
    Added(AddResponseModel),
    Details(DetailsModel),
}

impl DeepView for Reply {
    type V = ReplyModel;

    open spec fn deep_view(&self) -> ReplyModel {
        match self {
            Reply::Done => ReplyModel::Done,
            Reply::Failed(reason) => ReplyModel::Failed(reason@),
            Reply::Exists(exists) => ReplyModel::Exists(*exists),
            Reply::Bytes(bytes) => ReplyModel::Bytes(bytes@),
            Reply::Stats(stats) => ReplyModel::Stats(*stats),
            Reply::Listing(torrents) => ReplyModel::Listing(torrents.deep_view()),
            Reply::Added(response) => ReplyModel::Added(response.deep_view()),
            Reply::Details(details) => ReplyModel::Details(details.deep_view()),
        }
    }
}

} // verus!
