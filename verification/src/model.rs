//! The application state as a mathematical value, and the elementary
//! operations on it: the error funnel, text editing, selection.

use crate::indices::{first_marked, lemma_first_marked_from};
use crate::modes::{Dialog, FilterKind, FocusPanel, Mode, FILTER_COUNT};
use crate::modes;
use crate::rows::{filtered, pass_flags, passes, PickerModel, RowModel, SessionStats};
use vstd::prelude::*;

verus! {

/// Longest gap, in milliseconds, between two character keys in normal mode
/// at which the second still counts as part of a paste.
pub const PASTE_GAP_MS: u64 = 200;

/// What an `App` holds, as mathematical values.
pub struct AppModel {
    pub torrents: Seq<RowModel>,
    pub selected: usize,
    pub mode: Mode,
    pub input: Seq<char>,
    pub input_cursor: usize,
    pub last_char_at: Option<u64>,
    pub download_dir: Seq<char>,
    pub status: Seq<char>,
    pub last_error: Option<Seq<char>>,
    pub file_picker: Option<PickerModel>,
    pub session_stats: Option<SessionStats>,
    pub view: modes::View,
    pub confirm_delete: bool,
    pub delete_choice: bool,
    pub confirm_quit: bool,
    pub quit_choice: bool,
    pub focus: FocusPanel,
    pub filter_index: usize,
    pub pending_add_input: Option<Seq<char>>,
    pub show_help: bool,
    pub help_scroll: u16,
    pub dialog: Dialog,
}

impl AppModel {
    /// The state that every `App` is in: the cursor lies within the input, and
    /// the filter index names a filter.
    pub open spec fn valid(self) -> bool {
        &&& self.input_cursor <= self.input.len()
        &&& self.filter_index < FILTER_COUNT
    }

    /// The state of a session that has just begun.
    pub open spec fn initial(download_dir: Seq<char>) -> AppModel {
        AppModel {
            torrents: Seq::empty(),
            selected: 0,
            mode: Mode::Normal,
            input: Seq::empty(),
            input_cursor: 0,
            last_char_at: None,
            download_dir,
            status: "Ready"@,
            last_error: None,
            file_picker: None,
            session_stats: None,
            view: modes::View::Torrents,
            confirm_delete: false,
            delete_choice: false,
            confirm_quit: false,
            quit_choice: false,
            focus: FocusPanel::Torrents,
            filter_index: 0,
            pending_add_input: None,
            show_help: false,
            help_scroll: 0,
            dialog: Dialog::Closed,
        }
    }

    /// The active filter.
    pub open spec fn filter(self) -> FilterKind {
        modes::filter_of(self.filter_index as int)
    }

    /// The selected row, where the selection names one.
    pub open spec fn selected_row(self) -> Option<RowModel> {
        if self.selected < self.torrents.len() {
            Some(self.torrents[self.selected as int])
        } else {
            None
        }
    }

    /// The error funnel: every modal and transient field is reset (the mode,
    /// the picker, both confirmations with their answers, the help with its
    /// scroll position, the source that waits for a destination, the input,
    /// the arrival of the last character key), the error text is kept and
    /// the error dialog is raised.
    pub open spec fn failed(self, message: Seq<char>) -> AppModel {
        AppModel {
            last_error: Some(message),
            status: "Error"@,
            mode: Mode::Normal,
            file_picker: None,
            confirm_delete: false,
            delete_choice: false,
            confirm_quit: false,
            quit_choice: false,
            show_help: false,
            help_scroll: 0,
            pending_add_input: None,
            input: Seq::empty(),
            input_cursor: 0,
            last_char_at: None,
            dialog: Dialog::Error,
            ..self
        }
    }

    /// The error is dismissed.
    pub open spec fn error_cleared(self) -> AppModel {
        AppModel { last_error: None, status: "Ready"@, dialog: Dialog::Closed, ..self }
    }

    /// The input is emptied.
    pub open spec fn input_cleared(self) -> AppModel {
        AppModel { input: Seq::empty(), input_cursor: 0, ..self }
    }

    /// The input is replaced by `text`, with the cursor behind its last character.
    pub open spec fn input_set(self, text: Seq<char>) -> AppModel {
        AppModel { input: text, input_cursor: text.len() as usize, ..self }
    }

    /// `c` is inserted at the cursor, which moves behind it.
    pub open spec fn char_inserted(self, c: char) -> AppModel {
        AppModel {
            input: self.input.insert(self.input_cursor as int, c),
            input_cursor: (self.input_cursor + 1) as usize,
            ..self
        }
    }

    /// `text` is inserted at the cursor, which moves behind it.
    pub open spec fn text_inserted(self, text: Seq<char>) -> AppModel {
        AppModel {
            input: self.input.subrange(0, self.input_cursor as int) + text + self.input.subrange(
                self.input_cursor as int,
                self.input.len() as int,
            ),
            input_cursor: (self.input_cursor + text.len()) as usize,
            ..self
        }
    }

    /// The character before the cursor is removed, if there is one.
    pub open spec fn backspaced(self) -> AppModel {
        if self.input_cursor == 0 {
            self
        } else {
            AppModel {
                input: self.input.remove(self.input_cursor - 1),
                input_cursor: (self.input_cursor - 1) as usize,
                ..self
            }
        }
    }

    /// The character at the cursor is removed, if there is one.
    pub open spec fn deleted(self) -> AppModel {
        if self.input_cursor >= self.input.len() {
            self
        } else {
            AppModel { input: self.input.remove(self.input_cursor as int), ..self }
        }
    }

    /// The cursor moves one character to the left, unless it is at the start.
    pub open spec fn cursor_left(self) -> AppModel {
        AppModel {
            input_cursor: if self.input_cursor == 0 {
                0
            } else {
                (self.input_cursor - 1) as usize
            },
            ..self
        }
    }

    /// The cursor moves one character to the right, unless it is at the end.
    pub open spec fn cursor_right(self) -> AppModel {
        AppModel {
            input_cursor: if self.input_cursor < self.input.len() {
                (self.input_cursor + 1) as usize
            } else {
                self.input.len() as usize
            },
            ..self
        }
    }

    /// A character key arrives at `now` (milliseconds on a monotonic clock):
    /// the state after it, and whether the key is dropped as part of a paste.
    ///
    /// While a dialog is open nothing is decided or recorded. Otherwise the
    /// arrival is recorded, and the key is dropped when the previous character
    /// key arrived at most `PASTE_GAP_MS` earlier.
    pub open spec fn paste_checked(self, now: u64) -> (AppModel, bool) {
        if self.dialog != Dialog::Closed {
            (self, false)
        } else if self.last_char_at is Some && now - self.last_char_at->0 <= PASTE_GAP_MS {
            (AppModel { last_char_at: Some(now), status: "Paste ignored"@, ..self }, true)
        } else {
            (AppModel { last_char_at: Some(now), ..self }, false)
        }
    }

    /// The selection that the filter invariant asks for: the present one where
    /// its row passes the filter, else the first row that passes, else 0.
    pub open spec fn settled_selection(self) -> usize {
        if self.torrents.len() == 0 {
            0
        } else if self.selected < self.torrents.len() && passes(
            self.filter(),
            self.torrents[self.selected as int].stats,
        ) {
            self.selected
        } else {
            match first_marked(pass_flags(self.torrents, self.filter())) {
                Some(i) => i,
                None => 0,
            }
        }
    }

    /// The selection is settled for the active filter.
    pub open spec fn selection_settled(self) -> AppModel {
        AppModel { selected: self.settled_selection(), ..self }
    }

    /// The filter invariant: the selected row passes the active
    /// filter, or no row passes it and the selection is 0.
    pub open spec fn selection_fits(self) -> bool {
        ||| self.selected < self.torrents.len() && passes(
            self.filter(),
            self.torrents[self.selected as int].stats,
        )
        ||| self.selected == 0 && forall|i: int|
            0 <= i < self.torrents.len() ==> !passes(self.filter(), #[trigger] self.torrents[i].stats)
    }

    /// The selection moves by `delta` places among the rows that pass the
    /// filter, stopping at either end; a selection that does not pass it
    /// counts as the first that does.
    pub open spec fn selection_moved(self, delta: int) -> AppModel {
        let shown = filtered(self.torrents, self.filter());
        if shown.len() == 0 {
            self
        } else {
            let here = match shown.index_of_first(self.selected) {
                Some(p) => p,
                None => 0,
            };
            let there = here + delta;
            let clamped = if there < 0 {
                0
            } else if there > shown.len() - 1 {
                shown.len() - 1
            } else {
                there
            };
            AppModel { selected: shown[clamped], ..self }
        }
    }

    /// Settling the selection establishes the filter invariant.
    pub proof fn lemma_settled_selection_fits(self)
        requires
            self.torrents.len() <= usize::MAX,
        ensures
            self.selection_settled().selection_fits(),
    {
        let flags = pass_flags(self.torrents, self.filter());
        lemma_first_marked_from(flags, 0);
        let settled = self.selection_settled();
        if first_marked(flags) is None {
            assert forall|i: int| 0 <= i < self.torrents.len() implies !passes(
                self.filter(),
                #[trigger] self.torrents[i].stats,
            ) by {
                assert(!flags[i]);
            }
        } else {
            assert(flags[first_marked(flags)->0 as int]);
        }
    }

    /// Whether a row holds the identity hash `info_hash` with the destination `output_folder`.
    pub open spec fn has_same_destination(self, info_hash: Seq<char>, output_folder: Seq<char>) -> bool {
        exists|i: int|
            0 <= i < self.torrents.len() && (#[trigger] self.torrents[i]).info_hash == Some(
                info_hash,
            ) && self.torrents[i].output_folder == output_folder
    }
}

} // verus!
