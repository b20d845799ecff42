//! Where the reducer stands while it waits for its caller: the request that
//! is out, and what the reply will be used for.

use crate::action::{Action, ActionModel};
use crate::engine::{AddResponse, AddResponseModel, Request, RequestModel};
use crate::error::Failure;
use crate::rows::SessionStats;
use std::collections::VecDeque;
use vstd::prelude::*;

verus! {

/// A command on the selected torrent.
#[derive(Debug, Clone, Copy, PartialEq, Eq, Structural)]
pub enum Lifecycle {
    Resume,
    Pause,
    Forget,
    Delete,
}

impl Lifecycle {
    /// The status line when the command has succeeded.
    pub open spec fn done_text(self) -> Seq<char> {
        match self {
            Lifecycle::Resume => "Resumed"@,
            Lifecycle::Pause => "Paused"@,
            Lifecycle::Forget => "Stopped (forgotten)"@,
            Lifecycle::Delete => "Deleted torrent and files"@,
        }
    }

    /// The failure when the command has not succeeded.
    pub open spec fn failure(self) -> Failure {
        match self {
            Lifecycle::Resume => Failure::ResumeTorrent,
            Lifecycle::Pause => Failure::PauseTorrent,
            Lifecycle::Forget => Failure::StopTorrent,
            Lifecycle::Delete => Failure::DeleteTorrent,
        }
    }
}

/// What a source is being looked up for.
#[derive(Debug, Clone, PartialEq, Eq)]
pub enum Purpose {
    /// To check that the entered text names something that can be added.
    Validate { value: String },
    /// To learn the identity hash before a destination is asked for.
    Preflight { magnet: String },
    /// To list the files for the picker; `attempt` counts from 0.
    Picker { magnet: String, output_folder: String, attempt: u8 },
    /// To add the torrent with the chosen files.
    Download { magnet: String, output_folder: String, only_files: Vec<usize> },
}

/// What a `Purpose` holds, as mathematical values.
pub enum PurposeModel {
    Validate { value: Seq<char> },
    Preflight { magnet: Seq<char> },
    Picker { magnet: Seq<char>, output_folder: Seq<char>, attempt: u8 },
    Download { magnet: Seq<char>, output_folder: Seq<char>, only_files: Seq<usize> },
}

impl DeepView for Purpose {
    type V = PurposeModel;

    open spec fn deep_view(&self) -> PurposeModel {
        match self {
            Purpose::Validate { value } => PurposeModel::Validate { value: value@ },
            Purpose::Preflight { magnet } => PurposeModel::Preflight { magnet: magnet@ },
            Purpose::Picker { magnet, output_folder, attempt } => PurposeModel::Picker {
                magnet: magnet@,
                output_folder: output_folder@,
                attempt: *attempt,
            },
            Purpose::Download { magnet, output_folder, only_files } => PurposeModel::Download {
                magnet: magnet@,
                output_folder: output_folder@,
                only_files: only_files@,
            },
        }
    }
}

impl PurposeModel {
    /// The text that names the source.
    pub open spec fn input(self) -> Seq<char> {
        match self {
            PurposeModel::Validate { value } => value,
            PurposeModel::Preflight { magnet } => magnet,
            PurposeModel::Picker { magnet, .. } => magnet,
            PurposeModel::Download { magnet, .. } => magnet,
        }
    }
}

/// The request that is out, with what the reply will need.
#[derive(Debug, Clone, PartialEq, Eq)]
pub enum Wait {
    /// Whether the path of a torrent file exists.
    SourceExists { purpose: Purpose, path: String },
    /// The bytes of a torrent file.
    SourceRead { purpose: Purpose },
    /// The probe that tells the identity hash.
    PreflightProbe { magnet: String },
    /// The list of tracked torrents, to look for `info_hash` in.
    PreflightList { magnet: String, info_hash: String },
    /// The probe that lists the files, at the chosen destination.
    PickerProbe { magnet: String, output_folder: String, attempt: u8 },
    /// The pause before the probe is tried again.
    PickerRetry { magnet: String, output_folder: String, attempt: u8 },
    /// Whether `path` exists: the folder `folder_name` in the destination `base`.
    PickerFirst {
        magnet: String,
        base: String,
        folder_name: String,
        path: String,
        response: AddResponse,
    },
    /// Whether `path` exists: the alternate folder `folder_name` in the destination.
    PickerSecond { magnet: String, folder_name: String, path: String, response: AddResponse },
    /// The creation of the destination folder `path`.
    PickerCreate { magnet: String, path: String, response: AddResponse },
    /// The addition of the torrent, paused, with the files `only_files`.
    DownloadAdd { only_files: Vec<usize> },
    /// The files of the added torrent as the engine has them.
    DownloadVerify { id: usize, only_files: Vec<usize> },
    /// The removal of an added torrent whose files are not those asked for.
    DownloadRollback,
    /// The start of the added torrent.
    DownloadStart,
    /// A command on the selected torrent.
    Command(Lifecycle),
    /// The session-wide statistics.
    RefreshStats,
    /// The list of tracked torrents with their statistics, to go with `stats`.
    RefreshList { stats: SessionStats },
}

/// What a `Wait` holds, as mathematical values.
pub enum WaitModel {
    SourceExists { purpose: PurposeModel, path: Seq<char> },
    SourceRead { purpose: PurposeModel },
    PreflightProbe { magnet: Seq<char> },
    PreflightList { magnet: Seq<char>, info_hash: Seq<char> },
    PickerProbe { magnet: Seq<char>, output_folder: Seq<char>, attempt: u8 },
    PickerRetry { magnet: Seq<char>, output_folder: Seq<char>, attempt: u8 },
    PickerFirst {
        magnet: Seq<char>,
        base: Seq<char>,
        folder_name: Seq<char>,
        path: Seq<char>,
        response: AddResponseModel,
    },
    PickerSecond {
        magnet: Seq<char>,
        folder_name: Seq<char>,
        path: Seq<char>,
        response: AddResponseModel,
    },
    PickerCreate { magnet: Seq<char>, path: Seq<char>, response: AddResponseModel },
    DownloadAdd { only_files: Seq<usize> },
    DownloadVerify { id: usize, only_files: Seq<usize> },
    DownloadRollback,
    DownloadStart,
    Command(Lifecycle),
    RefreshStats,
    RefreshList { stats: SessionStats },
}

impl DeepView for Wait {
    type V = WaitModel;

    open spec fn deep_view(&self) -> WaitModel {
        match self {
            Wait::SourceExists { purpose, path } => WaitModel::SourceExists {
                purpose: purpose.deep_view(),
                path: path@,
            },
            Wait::SourceRead { purpose } => WaitModel::SourceRead { purpose: purpose.deep_view() },
            Wait::PreflightProbe { magnet } => WaitModel::PreflightProbe { magnet: magnet@ },
            Wait::PreflightList { magnet, info_hash } => WaitModel::PreflightList {
                magnet: magnet@,
                info_hash: info_hash@,
            },
            Wait::PickerProbe { magnet, output_folder, attempt } => WaitModel::PickerProbe {
                magnet: magnet@,
                output_folder: output_folder@,
                attempt: *attempt,
            },
            Wait::PickerRetry { magnet, output_folder, attempt } => WaitModel::PickerRetry {
                magnet: magnet@,
                output_folder: output_folder@,
                attempt: *attempt,
            },
            Wait::PickerFirst { magnet, base, folder_name, path, response } => {
                WaitModel::PickerFirst {
                    magnet: magnet@,
                    base: base@,
                    folder_name: folder_name@,
                    path: path@,
                    response: response.deep_view(),
                }
            },
            Wait::PickerSecond { magnet, folder_name, path, response } => WaitModel::PickerSecond {
                magnet: magnet@,
                folder_name: folder_name@,
                path: path@,
                response: response.deep_view(),
            },
            Wait::PickerCreate { magnet, path, response } => WaitModel::PickerCreate {
                magnet: magnet@,
                path: path@,
                response: response.deep_view(),
            },
            Wait::DownloadAdd { only_files } => WaitModel::DownloadAdd { only_files: only_files@ },
            Wait::DownloadVerify { id, only_files } => WaitModel::DownloadVerify {
                id: *id,
                only_files: only_files@,
            },
            Wait::DownloadRollback => WaitModel::DownloadRollback,
            Wait::DownloadStart => WaitModel::DownloadStart,
            Wait::Command(command) => WaitModel::Command(*command),
            Wait::RefreshStats => WaitModel::RefreshStats,
            Wait::RefreshList { stats } => WaitModel::RefreshList { stats: *stats },
        }
    }
}

/// How the reducer goes on after one action or one reply.
#[derive(Debug, Clone, PartialEq, Eq)]
pub enum Flow {
    /// With the next action of the queue.
    Continue,
    /// Not at all: the operator has confirmed to quit.
    Quit,
    /// With the error dialog, which shows these words.
    Failed(String),
    /// When the caller has performed the request.
    Call(Request, Wait),
}

/// What a `Flow` holds, as mathematical values.
pub enum FlowModel {
    Continue,
    Quit,
    Failed(Seq<char>),
    Call(RequestModel, WaitModel),
}

impl DeepView for Flow {
    type V = FlowModel;

    open spec fn deep_view(&self) -> FlowModel {
        match self {
            Flow::Continue => FlowModel::Continue,
            Flow::Quit => FlowModel::Quit,
            Flow::Failed(words) => FlowModel::Failed(words@),
            Flow::Call(request, wait) => FlowModel::Call(request.deep_view(), wait.deep_view()),
        }
    }
}

/// A reducer that waits for a reply: what is out, the actions still queued,
/// and the arrival time of the event that is being handled.
#[derive(Debug, Clone, PartialEq, Eq)]
pub struct Suspended {
    pub wait: Wait,
    pub queue: VecDeque<Action>,
    pub now: u64,
}

/// What a `Suspended` holds, as mathematical values.
pub struct SuspendedModel {
    pub wait: WaitModel,
    pub queue: Seq<ActionModel>,
    pub now: u64,
}

impl DeepView for Suspended {
    type V = SuspendedModel;

    open spec fn deep_view(&self) -> SuspendedModel {
        SuspendedModel {
            wait: self.wait.deep_view(),
            queue: self.queue.deep_view(),
            now: self.now,
        }
    }
}

/// How the handling of an event ends, or why it has not ended yet.
#[derive(Debug, Clone, PartialEq, Eq)]
pub enum Outcome {
    /// The queue is drained; `true` where the operator has confirmed to quit.
    Done(bool),
    /// The caller performs the request and resumes with the reply.
    Call(Request, Suspended),
}

/// What an `Outcome` holds, as mathematical values.
pub enum OutcomeModel {
    Done(bool),
    Call(RequestModel, SuspendedModel),
}

impl DeepView for Outcome {
    type V = OutcomeModel;

    open spec fn deep_view(&self) -> OutcomeModel {
        match self {
            Outcome::Done(quit) => OutcomeModel::Done(*quit),
            Outcome::Call(request, suspended) => OutcomeModel::Call(
                request.deep_view(),
                suspended.deep_view(),
            ),
        }
    }
}

} // verus!
