//! The units of work against the engine that the reducer dispatches.

use vstd::prelude::*;

verus! {

/// One unit of work against the engine or the file system.
#[derive(Debug, Clone, PartialEq, Eq)]
pub enum Effect {
    Refresh,
    TogglePause,
    StopSelected,
    DeleteSelectedFiles,
    PreflightAdd { magnet: String },
    StartFilePicker { magnet: String, output_folder: String },
    StartDownload { magnet: String, output_folder: String, only_files: Vec<usize> },
}

/// What an `Effect` holds, as mathematical values.
pub enum EffectModel {
    Refresh,
    TogglePause,
    StopSelected,
    DeleteSelectedFiles,
    PreflightAdd { magnet: Seq<char> },
    StartFilePicker { magnet: Seq<char>, output_folder: Seq<char> },
    StartDownload { magnet: Seq<char>, output_folder: Seq<char>, only_files: Seq<usize> },
}

impl DeepView for Effect {
    type V = EffectModel;

    open spec fn deep_view(&self) -> EffectModel {
        match self {
            Effect::Refresh => EffectModel::Refresh,
            Effect::TogglePause => EffectModel::TogglePause,
            Effect::StopSelected => EffectModel::StopSelected,
            Effect::DeleteSelectedFiles => EffectModel::DeleteSelectedFiles,
            Effect::PreflightAdd { magnet } => EffectModel::PreflightAdd { magnet: magnet@ },
            Effect::StartFilePicker { magnet, output_folder } => EffectModel::StartFilePicker {
                magnet: magnet@,
                output_folder: output_folder@,
            },
            Effect::StartDownload { magnet, output_folder, only_files } => {
                EffectModel::StartDownload {
                    magnet: magnet@,
                    output_folder: output_folder@,
                    only_files: only_files@,
                }
            },
        }
    }
}

} // verus!
