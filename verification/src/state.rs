//! The application state: the single record that the reducer owns.

use crate::model::{AppModel, PASTE_GAP_MS};
use crate::modes::{filter_at, Dialog, FilterKind, FocusPanel, Mode};
use crate::modes;
use crate::rows::{
    filter_passes, filtered_rows, first_passing, FilePickerState, SessionStats, TorrentRow,
};
use crate::text::{push_char, text_eq};
use vstd::prelude::*;
use vstd::string::*;

verus! {

/// The application state. Only the reducer changes it; a renderer reads it
/// through the getters.
pub struct App {
    pub(crate) torrents: Vec<TorrentRow>,
    pub(crate) selected: usize,
    pub(crate) mode: Mode,
    pub(crate) input: String,
    pub(crate) input_cursor: usize,
    pub(crate) last_char_at: Option<u64>,
    pub(crate) download_dir: String,
    pub(crate) status: String,
    pub(crate) last_error: Option<String>,
    pub(crate) file_picker: Option<FilePickerState>,
    pub(crate) session_stats: Option<SessionStats>,
    pub(crate) view: modes::View,
    pub(crate) confirm_delete: bool,
    pub(crate) delete_choice: bool,
    pub(crate) confirm_quit: bool,
    pub(crate) quit_choice: bool,
    pub(crate) focus: FocusPanel,
    pub(crate) filter_index: usize,
    pub(crate) pending_add_input: Option<String>,
    pub(crate) show_help: bool,
    pub(crate) help_scroll: u16,
    pub(crate) dialog: Dialog,
}

impl App {
    #[verifier::type_invariant]
    pub open(crate) spec fn inv(self) -> bool {
        self.model().valid()
    }

    /// The state as a mathematical value.
    pub open(crate) spec fn model(&self) -> AppModel {
        AppModel {
            torrents: self.torrents.deep_view(),
            selected: self.selected,
            mode: self.mode,
            input: self.input@,
            input_cursor: self.input_cursor,
            last_char_at: self.last_char_at,
            download_dir: self.download_dir@,
            status: self.status@,
            last_error: self.last_error.deep_view(),
            file_picker: self.file_picker.deep_view(),
            session_stats: self.session_stats,
            view: self.view,
            confirm_delete: self.confirm_delete,
            delete_choice: self.delete_choice,
            confirm_quit: self.confirm_quit,
            quit_choice: self.quit_choice,
            focus: self.focus,
            filter_index: self.filter_index,
            pending_add_input: self.pending_add_input.deep_view(),
            show_help: self.show_help,
            help_scroll: self.help_scroll,
            dialog: self.dialog,
        }
    }

    /// The state of a session that has just begun, with `download_dir` as the
    /// default destination. Mode, dialog and flags agree in it, and the
    /// filter invariant holds.
    pub fn new(download_dir: String) -> (app: App)
        ensures
            app.model() == AppModel::initial(download_dir@),
            app.model().coherent(),
            app.model().selection_fits(),
    {
        let app = App {
            torrents: Vec::new(),
            selected: 0,
            mode: Mode::Normal,
            input: String::new(),
            input_cursor: 0,
            last_char_at: None,
            download_dir,
            status: "Ready".to_owned(),
            last_error: None,
            file_picker: None,
            session_stats: None,
            view: modes::View::Torrents,
            confirm_delete: false,
            delete_choice: false,
            confirm_quit: false,
            quit_choice: false,
            focus: FocusPanel::Torrents,
            filter_index: 0,
            pending_add_input: None,
            show_help: false,
            help_scroll: 0,
            dialog: Dialog::Closed,
        };
        assert(app.torrents.deep_view() =~= Seq::empty());
        app
    }

    pub fn mode(&self) -> (r: Mode)
        ensures
            r == self.model().mode,
    {
        self.mode
    }

    pub fn torrents(&self) -> (r: &[TorrentRow])
        ensures
            r@.len() == self.model().torrents.len(),
            forall|i: int| 0 <= i < r@.len() ==> (#[trigger] r@[i]).deep_view() == self.model().torrents[i],
    {
        self.torrents.as_slice()
    }

    pub fn selected_index(&self) -> (r: usize)
        ensures
            r == self.model().selected,
    {
        self.selected
    }

    pub fn input(&self) -> (r: &str)
        ensures
            r@ == self.model().input,
    {
        self.input.as_str()
    }

    pub fn input_cursor(&self) -> (r: usize)
        ensures
            r == self.model().input_cursor,
            r <= self.model().input.len(),
    {
        proof {
            use_type_invariant(self);
        }
        self.input_cursor
    }

    pub fn status(&self) -> (r: &str)
        ensures
            r@ == self.model().status,
    {
        self.status.as_str()
    }

    pub fn download_dir(&self) -> (r: &str)
        ensures
            r@ == self.model().download_dir,
    {
        self.download_dir.as_str()
    }

    pub fn file_picker(&self) -> (r: Option<&FilePickerState>)
        ensures
            r.deep_view() == self.model().file_picker,
    {
        match &self.file_picker {
            Some(p) => Some(p),
            None => None,
        }
    }

    /// The row that the selection names, if it names one.
    pub fn selected_torrent(&self) -> (r: Option<&TorrentRow>)
        ensures
            r.deep_view() == self.model().selected_row(),
    {
        if self.selected < self.torrents.len() {
            Some(&self.torrents[self.selected])
        } else {
            None
        }
    }

    pub fn view(&self) -> (r: modes::View)
        ensures
            r == self.model().view,
    {
        self.view
    }

    pub fn confirm_delete(&self) -> (r: bool)
        ensures
            r == self.model().confirm_delete,
    {
        self.confirm_delete
    }

    pub fn delete_choice(&self) -> (r: bool)
        ensures
            r == self.model().delete_choice,
    {
        self.delete_choice
    }

    pub fn show_help(&self) -> (r: bool)
        ensures
            r == self.model().show_help,
    {
        self.show_help
    }

    pub fn dialog(&self) -> (r: Dialog)
        ensures
            r == self.model().dialog,
    {
        self.dialog
    }

    pub fn help_scroll(&self) -> (r: u16)
        ensures
            r == self.model().help_scroll,
    {
        self.help_scroll
    }

    pub fn confirm_quit(&self) -> (r: bool)
        ensures
            r == self.model().confirm_quit,
    {
        self.confirm_quit
    }

    pub fn quit_choice(&self) -> (r: bool)
        ensures
            r == self.model().quit_choice,
    {
        self.quit_choice
    }

    pub fn focus(&self) -> (r: FocusPanel)
        ensures
            r == self.model().focus,
    {
        self.focus
    }

    /// The active filter.
    pub fn selected_filter(&self) -> (r: FilterKind)
        ensures
            r == self.model().filter(),
    {
        filter_at(self.filter_index)
    }

    /// The positions of the rows that pass the active filter, in increasing order.
    pub fn filtered_indices(&self) -> (r: Vec<usize>)
        ensures
            r@ == crate::rows::filtered(self.model().torrents, self.model().filter()),
    {
        filtered_rows(&self.torrents, filter_at(self.filter_index))
    }

    pub fn session_stats(&self) -> (r: Option<&SessionStats>)
        ensures
            match r {
                Some(s) => self.model().session_stats == Some(*s),
                None => self.model().session_stats is None,
            },
    {
        match &self.session_stats {
            Some(s) => Some(s),
            None => None,
        }
    }

    pub fn last_error(&self) -> (r: Option<&str>)
        ensures
            r.deep_view() == self.model().last_error,
    {
        match &self.last_error {
            Some(s) => Some(s.as_str()),
            None => None,
        }
    }

    /// The error funnel: keeps `message`, resets every modal and transient
    /// field and raises the error dialog.
    pub fn set_error(&mut self, message: &str)
        ensures
            final(self).model() == old(self).model().failed(message@),
    {
        proof {
            use_type_invariant(&*self);
        }
        self.last_error = Some(message.to_owned());
        self.status = "Error".to_owned();
        self.mode = Mode::Normal;
        self.file_picker = None;
        self.confirm_delete = false;
        self.delete_choice = false;
        self.confirm_quit = false;
        self.quit_choice = false;
        self.show_help = false;
        self.help_scroll = 0;
        self.pending_add_input = None;
        self.input_cursor = 0;
        self.input = String::new();
        self.last_char_at = None;
        self.dialog = Dialog::Error;
    }

    /// Dismisses the error.
    pub fn clear_error(&mut self)
        ensures
            final(self).model() == old(self).model().error_cleared(),
    {
        proof {
            use_type_invariant(&*self);
        }
        self.last_error = None;
        self.status = "Ready".to_owned();
        self.dialog = Dialog::Closed;
    }

    /// Whether a row holds the identity hash `info_hash` with the destination `output_folder`.
    pub fn has_same_destination(&self, info_hash: &str, output_folder: &str) -> (found: bool)
        ensures
            found == self.model().has_same_destination(info_hash@, output_folder@),
    {
        let mut i: usize = 0;
        while i < self.torrents.len()
            invariant
                i <= self.torrents.len(),
                forall|j: int|
                    0 <= j < i ==> !((#[trigger] self.model().torrents[j]).info_hash == Some(
                        info_hash@,
                    ) && self.model().torrents[j].output_folder == output_folder@),
            decreases self.torrents.len() - i,
        {
            let row = &self.torrents[i];
            let same_hash = match &row.info_hash {
                Some(h) => text_eq(h.as_str(), info_hash),
                None => false,
            };
            if same_hash && text_eq(row.output_folder.as_str(), output_folder) {
                assert(self.model().torrents[i as int] == row.deep_view());
                return true;
            }
            assert(self.model().torrents[i as int] == row.deep_view());
            i = i + 1;
        }
        false
    }

    /// Decides whether a character key that arrived at `now` (milliseconds on
    /// a monotonic clock) is part of a paste, and records its arrival.
    ///
    /// Nothing is decided or recorded while a dialog is open. Otherwise the
    /// key is part of a paste when the previous character key arrived at most
    /// `PASTE_GAP_MS` earlier.
    pub fn should_ignore_paste_char(&mut self, now: u64) -> (ignored: bool)
        ensures
            (final(self).model(), ignored) == old(self).model().paste_checked(now),
    {
        proof {
            use_type_invariant(&*self);
        }
        if !matches!(self.dialog, Dialog::Closed) {
            return false;
        }
        if let Some(last) = self.last_char_at {
            if now <= last || now - last <= PASTE_GAP_MS {
                self.last_char_at = Some(now);
                self.status = "Paste ignored".to_owned();
                return true;
            }
        }
        self.last_char_at = Some(now);
        false
    }

    /// Empties the input.
    pub fn clear_input(&mut self)
        ensures
            final(self).model() == old(self).model().input_cleared(),
    {
        proof {
            use_type_invariant(&*self);
        }
        self.input_cursor = 0;
        self.input = String::new();
    }

    /// Replaces the input by `text` and puts the cursor behind its last character.
    pub fn set_input(&mut self, text: String)
        ensures
            final(self).model() == old(self).model().input_set(text@),
    {
        proof {
            use_type_invariant(&*self);
        }
        let n = text.as_str().unicode_len();
        self.input_cursor = 0;
        self.input = text;
        self.input_cursor = n;
    }

    /// Puts the cursor before the first character.
    pub fn move_cursor_home(&mut self)
        ensures
            final(self).model() == (AppModel { input_cursor: 0, ..old(self).model() }),
    {
        proof {
            use_type_invariant(&*self);
        }
        self.input_cursor = 0;
    }

    /// Puts the cursor behind the last character.
    pub fn move_cursor_end(&mut self)
        ensures
            final(self).model() == (AppModel {
                input_cursor: old(self).model().input.len() as usize,
                ..old(self).model()
            }),
    {
        proof {
            use_type_invariant(&*self);
        }
        self.input_cursor = self.input.as_str().unicode_len();
    }

    /// Inserts `c` at the cursor and moves the cursor behind it.
    pub fn insert_char(&mut self, c: char)
        ensures
            final(self).model() == old(self).model().char_inserted(c),
    {
        proof {
            use_type_invariant(&*self);
        }
        let len = self.input.as_str().unicode_len();
        let at = self.input_cursor;
        let mut text = self.input.as_str().substring_char(0, at).to_owned();
        push_char(&mut text, c);
        text.append(self.input.as_str().substring_char(at, len));
        assert(text@ =~= self.input@.insert(at as int, c));
        let grown = text.as_str().unicode_len();
        self.input_cursor = 0;
        self.input = text;
        self.input_cursor = at + 1;
    }

    /// Inserts `text` at the cursor and moves the cursor behind it.
    pub fn insert_text(&mut self, text: &str)
        ensures
            final(self).model() == old(self).model().text_inserted(text@),
    {
        proof {
            use_type_invariant(&*self);
        }
        let len = self.input.as_str().unicode_len();
        let at = self.input_cursor;
        let mut joined = self.input.as_str().substring_char(0, at).to_owned();
        joined.append(text);
        joined.append(self.input.as_str().substring_char(at, len));
        assert(joined@ =~= self.input@.subrange(0, at as int) + text@ + self.input@.subrange(
            at as int,
            len as int,
        ));
        let grown = joined.as_str().unicode_len();
        let added = text.unicode_len();
        self.input_cursor = 0;
        self.input = joined;
        self.input_cursor = at + added;
    }

    /// Removes the character before the cursor, if there is one.
    pub fn backspace(&mut self)
        ensures
            final(self).model() == old(self).model().backspaced(),
    {
        proof {
            use_type_invariant(&*self);
        }
        if self.input_cursor == 0 {
            return;
        }
        let len = self.input.as_str().unicode_len();
        let at = self.input_cursor;
        let mut text = self.input.as_str().substring_char(0, at - 1).to_owned();
        text.append(self.input.as_str().substring_char(at, len));
        assert(text@ =~= self.input@.remove(at - 1));
        self.input_cursor = 0;
        self.input = text;
        self.input_cursor = at - 1;
    }

    /// Removes the character at the cursor, if there is one.
    pub fn delete(&mut self)
        ensures
            final(self).model() == old(self).model().deleted(),
    {
        proof {
            use_type_invariant(&*self);
        }
        let len = self.input.as_str().unicode_len();
        let at = self.input_cursor;
        if at >= len {
            return;
        }
        let mut text = self.input.as_str().substring_char(0, at).to_owned();
        text.append(self.input.as_str().substring_char(at + 1, len));
        assert(text@ =~= self.input@.remove(at as int));
        self.input = text;
    }

    /// Moves the cursor one character to the left, unless it is at the start.
    pub fn move_cursor_left(&mut self)
        ensures
            final(self).model() == old(self).model().cursor_left(),
    {
        proof {
            use_type_invariant(&*self);
        }
        if self.input_cursor > 0 {
            self.input_cursor = self.input_cursor - 1;
        }
    }

    /// Moves the cursor one character to the right, unless it is at the end.
    pub fn move_cursor_right(&mut self)
        ensures
            final(self).model() == old(self).model().cursor_right(),
    {
        proof {
            use_type_invariant(&*self);
        }
        let len = self.input.as_str().unicode_len();
        if self.input_cursor < len {
            self.input_cursor = self.input_cursor + 1;
        }
    }

    /// Whether `row` passes the active filter.
    pub fn filter_match(&self, row: &TorrentRow) -> (r: bool)
        ensures
            r == crate::rows::passes(self.model().filter(), row.stats),
    {
        filter_passes(filter_at(self.filter_index), &row.stats)
    }

    /// Restores the filter invariant: keeps the selection where its row passes
    /// the active filter, else selects the first row that passes, else row 0.
    pub fn ensure_selection_for_filter(&mut self)
        ensures
            final(self).model() == old(self).model().selection_settled(),
            final(self).model().selection_fits(),
    {
        proof {
            use_type_invariant(&*self);
            assert(self.torrents.deep_view().len() == self.torrents.len());
            self.model().lemma_settled_selection_fits();
        }
        if self.torrents.len() == 0 {
            self.selected = 0;
            return;
        }
        let filter = filter_at(self.filter_index);
        if self.selected < self.torrents.len() && filter_passes(
            filter,
            &self.torrents[self.selected].stats,
        ) {
            return;
        }
        match first_passing(&self.torrents, filter) {
            Some(i) => {
                self.selected = i;
            },
            None => {
                self.selected = 0;
            },
        }
    }

    /// Moves the selection by `delta` places among the rows that pass the
    /// active filter, stopping at either end.
    pub fn move_selection(&mut self, delta: isize)
        ensures
            final(self).model() == old(self).model().selection_moved(delta as int),
    {
        proof {
            use_type_invariant(&*self);
        }
        let shown = filtered_rows(&self.torrents, filter_at(self.filter_index));
        if shown.len() == 0 {
            return;
        }
        let mut here: usize = 0;
        let mut found = false;
        while here < shown.len()
            invariant_except_break
                !found,
            invariant
                here <= shown.len(),
                forall|j: int| 0 <= j < here ==> shown@[j] != self.selected,
            ensures
                found ==> here < shown.len() && shown@[here as int] == self.selected,
                !found ==> here == shown.len(),
                forall|j: int| 0 <= j < here ==> shown@[j] != self.selected,
            decreases shown.len() - here,
        {
            if shown[here] == self.selected {
                found = true;
                break;
            }
            here = here + 1;
        }
        proof {
            shown@.index_of_first_ensures(self.selected);
            if !found {
                assert(!shown@.contains(self.selected));
            }
        }
        if !found {
            here = 0;
        }
        let last = shown.len() - 1;
        let there = if delta >= 0 {
            let d = delta as usize;
            if d >= last - here {
                last
            } else {
                here + d
            }
        } else {
            let d = (-(delta + 1)) as usize + 1;
            if d >= here {
                0
            } else {
                here - d
            }
        };
        self.selected = shown[there];
    }
}

} // verus!
