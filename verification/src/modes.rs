//! The closed sets that name where the interface is and what it shows.

use vstd::prelude::*;

verus! {

/// The interaction context; it decides which actions a key can produce.
#[derive(Debug, Clone, Copy, PartialEq, Eq, Structural)]
pub enum Mode {
    Normal,
    EnterMagnet,
    EnterTorrentDir,
    FilePicker,
}

/// The modal overlay that is shown, if any.
#[derive(Debug, Clone, Copy, PartialEq, Eq, Structural)]
pub enum Dialog {
    Closed,
    AddTorrent,
    ConfirmDelete,
    ConfirmQuit,
    Help,
    FilePicker,
    Error,
}

/// Which of the three right-hand views is shown.
#[derive(Debug, Clone, Copy, PartialEq, Eq, Structural)]
pub enum View {
    Torrents,
    Peers,
    Info,
}

/// The panel that directional keys act on.
#[derive(Debug, Clone, Copy, PartialEq, Eq, Structural)]
pub enum FocusPanel {
    Filters,
    Torrents,
}

/// A filter over the torrent list.
#[derive(Debug, Clone, Copy, PartialEq, Eq, Structural)]
pub enum FilterKind {
    All,
    Downloading,
    Seeding,
    Paused,
    Stopped,
    Error,
}

/// What the engine reports a torrent to be doing.
#[derive(Debug, Clone, Copy, PartialEq, Eq, Structural)]
pub enum TorrentState {
    Initializing,
    Paused,
    Live,
    Error,
}

/// Number of filters; a filter index is below it.
pub const FILTER_COUNT: usize = 6;

/// The filter at `index` in hot-key order, `All` for an index past the last.
pub open spec fn filter_of(index: int) -> FilterKind {
    if index == 1 {
        FilterKind::Downloading
    } else if index == 2 {
        FilterKind::Seeding
    } else if index == 3 {
        FilterKind::Paused
    } else if index == 4 {
        FilterKind::Stopped
    } else if index == 5 {
        FilterKind::Error
    } else {
        FilterKind::All
    }
}

/// The filter at `index` in hot-key order, `All` for an index past the last.
pub fn filter_at(index: usize) -> (kind: FilterKind)
    ensures
        kind == filter_of(index as int),
{
    if index == 1 {
        FilterKind::Downloading
    } else if index == 2 {
        FilterKind::Seeding
    } else if index == 3 {
        FilterKind::Paused
    } else if index == 4 {
        FilterKind::Stopped
    } else if index == 5 {
        FilterKind::Error
    } else {
        FilterKind::All
    }
}

} // verus!
