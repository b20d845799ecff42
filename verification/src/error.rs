//! What can go wrong, and the words in which the error dialog says so.

use vstd::prelude::*;

verus! {

/// A reason for which a step of the wizard or a command fails.
#[derive(Debug, Clone, Copy, PartialEq, Eq, Structural)]
pub enum Failure {
    /// Nothing was entered where a magnet, address or path was asked for.
    EmptyMagnet,
    /// The input is no magnet, no address and no path of an existing file.
    InvalidSource,
    /// The torrent file exists and could not be read.
    ReadTorrentFile,
    /// The engine could not fetch the metadata.
    ListingFiles,
    /// The torrent is tracked already.
    AlreadyAdded,
    /// The torrent is tracked already with the same destination.
    SameDestination,
    /// The destination folder and its alternate both exist.
    DestinationExists,
    /// The destination folder could not be created.
    CreateFolder,
    /// A download was asked for with no file selected.
    NoFilesSelected,
    /// The engine could not add the torrent.
    AddTorrent,
    /// The engine added the torrent and gave it no identity.
    NotAdded,
    /// The engine could not report the added torrent's files.
    VerifySelection,
    /// The engine reported the added torrent without a file list.
    MissingFiles,
    /// The engine included other files than those asked for.
    SelectionNotHonored,
    /// The engine could not start the added torrent.
    StartTorrent,
    /// The engine could not resume the selected torrent.
    ResumeTorrent,
    /// The engine could not pause the selected torrent.
    PauseTorrent,
    /// The engine could not forget the selected torrent.
    StopTorrent,
    /// The engine could not delete the selected torrent.
    DeleteTorrent,
    /// The destination step was reached without a source.
    MissingPendingInput,
    /// A listed torrent has no identity.
    MissingTorrentId,
    /// The caller answered a request with a reply of the wrong kind.
    UnexpectedReply,
}

impl Failure {
    /// The words in which the failure is reported.
    pub open spec fn text(self) -> Seq<char> {
        match self {
            Failure::EmptyMagnet => "Magnet cannot be empty"@,
            Failure::InvalidSource => "Input must be a magnet, URL, or an existing .torrent file path"@,
            Failure::ReadTorrentFile => "failed to read .torrent file"@,
            Failure::ListingFiles => "error listing files"@,
            Failure::AlreadyAdded => "Torrent already added; duplicate locations are not supported"@,
            Failure::SameDestination => "Torrent already added for this download directory"@,
            Failure::DestinationExists => "Destination folder already exists"@,
            Failure::CreateFolder => "failed to create download folder"@,
            Failure::NoFilesSelected => "No files selected"@,
            Failure::AddTorrent => "error adding torrent"@,
            Failure::NotAdded => "torrent was not added"@,
            Failure::VerifySelection => "error verifying file selection"@,
            Failure::MissingFiles => "torrent details missing files"@,
            Failure::SelectionNotHonored => "File selection was not honored; torrent was removed"@,
            Failure::StartTorrent => "error starting torrent"@,
            Failure::ResumeTorrent => "error resuming torrent"@,
            Failure::PauseTorrent => "error pausing torrent"@,
            Failure::StopTorrent => "error stopping torrent"@,
            Failure::DeleteTorrent => "error deleting torrent and files"@,
            Failure::MissingPendingInput => "missing pending torrent input"@,
            Failure::MissingTorrentId => "missing torrent id"@,
            Failure::UnexpectedReply => "unexpected reply to a request"@,
        }
    }

    /// The words in which the failure is reported.
    pub fn message(self) -> (words: String)
        ensures
            words@ == self.text(),
    {
        let words: &str = match self {
            Failure::EmptyMagnet => "Magnet cannot be empty",
            Failure::InvalidSource => "Input must be a magnet, URL, or an existing .torrent file path",
            Failure::ReadTorrentFile => "failed to read .torrent file",
            Failure::ListingFiles => "error listing files",
            Failure::AlreadyAdded => "Torrent already added; duplicate locations are not supported",
            Failure::SameDestination => "Torrent already added for this download directory",
            Failure::DestinationExists => "Destination folder already exists",
            Failure::CreateFolder => "failed to create download folder",
            Failure::NoFilesSelected => "No files selected",
            Failure::AddTorrent => "error adding torrent",
            Failure::NotAdded => "torrent was not added",
            Failure::VerifySelection => "error verifying file selection",
            Failure::MissingFiles => "torrent details missing files",
            Failure::SelectionNotHonored => "File selection was not honored; torrent was removed",
            Failure::StartTorrent => "error starting torrent",
            Failure::ResumeTorrent => "error resuming torrent",
            Failure::PauseTorrent => "error pausing torrent",
            Failure::StopTorrent => "error stopping torrent",
            Failure::DeleteTorrent => "error deleting torrent and files",
            Failure::MissingPendingInput => "missing pending torrent input",
            Failure::MissingTorrentId => "missing torrent id",
            Failure::UnexpectedReply => "unexpected reply to a request",
        };
        words.to_owned()
    }
}

/// The words for a failure with its cause: the failure's, a colon, the cause's.
pub open spec fn with_cause(failure: Failure, cause: Seq<char>) -> Seq<char> {
    failure.text() + ": "@ + cause
}

/// The words for a failure with its cause.
pub fn message_with_cause(failure: Failure, cause: &str) -> (words: String)
    ensures
        words@ == with_cause(failure, cause@),
{
    let mut words = failure.message();
    words.append(": ");
    words.append(cause);
    words
}

} // verus!
