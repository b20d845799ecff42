//! The reducer: applies actions to the state, one after the other, until the
//! queue is empty, the operator quits, or the caller has to act.

use crate::action::{lemma_total_rank_push, rank, total_rank, Action, ActionModel};
use crate::effect::{Effect, EffectModel};
use crate::effects::{enqueue, realizes, Stepped};
use crate::engine::{Reply, ReplyModel};
use crate::error::Failure;
use crate::input::{Event, EventModel};
use crate::laws::{lemma_drain_keeps_filter_invariant, lemma_runs_keep_filter_invariant};
use crate::lockstep::{
    ends_in_lockstep, lemma_drain_keeps_lockstep, lemma_event_keeps_lockstep,
    lemma_resumption_keeps_lockstep,
};
use crate::flow::{
    Flow, FlowModel, Outcome, OutcomeModel, Purpose, PurposeModel, Suspended, SuspendedModel,
};
use crate::model::AppModel;
use crate::modes::{Dialog, FocusPanel, Mode, FILTER_COUNT};
use crate::rows::{included_files, included_indices, FilePickerState};
use crate::state::App;
use crate::text::{trim, trimmed};
use std::collections::VecDeque;
use vstd::prelude::*;
use vstd::string::*;

verus! {

/// `value`, or the nearest of `low` and `high` where it lies outside them.
pub open spec fn clamp(value: int, low: int, high: int) -> int {
    if value < low {
        low
    } else if value > high {
        high
    } else {
        value
    }
}

impl AppModel {
    /// Whether the input takes text.
    pub open spec fn takes_text(self) -> bool {
        self.mode == Mode::EnterMagnet || self.mode == Mode::EnterTorrentDir
    }

    /// Text is pasted at `now`: where the input takes text, it is inserted at
    /// the cursor as it is, and the cursor moves behind it; elsewhere it is
    /// noted as ignored.
    pub open spec fn pasted(self, text: Seq<char>, now: u64) -> AppModel {
        if self.takes_text() {
            self.text_inserted(text)
        } else {
            AppModel { last_char_at: Some(now), status: "Paste ignored"@, ..self }
        }
    }

    /// The help scrolls by `delta` lines, within what a line number can hold.
    pub open spec fn help_scrolled(self, delta: i16) -> AppModel {
        AppModel {
            help_scroll: clamp(self.help_scroll + delta, 0, u16::MAX as int) as u16,
            ..self
        }
    }

    /// The filter moves by `delta` places, within the filters, and the
    /// selection is settled for it.
    pub open spec fn filter_moved(self, delta: isize) -> AppModel {
        AppModel {
            filter_index: clamp(self.filter_index + delta, 0, FILTER_COUNT - 1) as usize,
            ..self
        }.selection_settled()
    }

    /// The filter at `index` is chosen, the last where `index` is past it, and
    /// the selection is settled for it.
    pub open spec fn filter_set(self, index: usize) -> AppModel {
        AppModel {
            filter_index: if index < FILTER_COUNT {
                index
            } else {
                (FILTER_COUNT - 1) as usize
            },
            ..self
        }.selection_settled()
    }

    /// The delete confirmation closes, and its answer is forgotten.
    pub open spec fn delete_dialog_closed(self) -> AppModel {
        AppModel { confirm_delete: false, delete_choice: false, dialog: Dialog::Closed, ..self }
    }

    /// The quit confirmation closes without quitting.
    pub open spec fn quit_cancelled(self) -> AppModel {
        AppModel {
            confirm_quit: false,
            quit_choice: false,
            status: "Quit cancelled"@,
            dialog: Dialog::Closed,
            ..self
        }
    }

    /// The wizard's text is submitted.
    ///
    /// As a magnet: empty text is an error; other text is checked, and the
    /// preflight is queued where it names something that can be added. As
    /// a destination: the picker is queued for the source that waits, with
    /// the entered folder, or the default one where none is entered; that no
    /// source waits is a failure. The input is emptied in any case.
    pub open spec fn input_entered(self) -> Stepped {
        let value = trimmed(self.input);
        match self.mode {
            Mode::EnterMagnet => {
                let cleared = AppModel { status: "Fetching metadata..."@, ..self }.input_cleared();
                if value.len() == 0 {
                    cleared.failed(Failure::EmptyMagnet.text()).go()
                } else {
                    cleared.resolve(PurposeModel::Validate { value })
                }
            },
            Mode::EnterTorrentDir => match self.pending_add_input {
                None => self.input_cleared().fail(Failure::MissingPendingInput),
                Some(magnet) => AppModel {
                    pending_add_input: None,
                    status: "Fetching metadata..."@,
                    last_error: None,
                    ..self.input_cleared()
                }.push(
                    ActionModel::RunEffect(
                        EffectModel::StartFilePicker {
                            magnet,
                            output_folder: if value.len() == 0 {
                                self.download_dir
                            } else {
                                value
                            },
                        },
                    ),
                ),
            },
            Mode::Normal => self.input_cleared().go(),
            Mode::FilePicker => self.input_cleared().go(),
        }
    }

    /// The wizard's text is abandoned. At the destination step that means
    /// the default destination: the picker is queued for the source that
    /// waits. Elsewhere the wizard is over.
    pub open spec fn input_cancelled(self) -> Stepped {
        if self.mode == Mode::EnterTorrentDir && self.pending_add_input is Some {
            AppModel {
                pending_add_input: None,
                status: "Fetching metadata..."@,
                last_error: None,
                dialog: Dialog::AddTorrent,
                ..self.input_cleared()
            }.push(
                ActionModel::RunEffect(
                    EffectModel::StartFilePicker {
                        magnet: self.pending_add_input->0,
                        output_folder: self.download_dir,
                    },
                ),
            )
        } else {
            AppModel {
                mode: Mode::Normal,
                status: "Cancelled"@,
                dialog: Dialog::Closed,
                ..self.input_cleared()
            }.go()
        }
    }

    /// The preflight has found the torrent new: the destination step begins,
    /// with the default destination in the input.
    pub open spec fn destination_asked(self, magnet: Seq<char>) -> AppModel {
        AppModel {
            pending_add_input: Some(magnet),
            mode: Mode::EnterTorrentDir,
            status: "Set download dir for this torrent"@,
            dialog: Dialog::AddTorrent,
            ..self.input_set(self.download_dir)
        }
    }

    /// The picker is confirmed: the download of the included files is
    /// queued, and the picker leaves the screen before the download has
    /// begun. Nothing happens without a picker.
    pub open spec fn picker_confirmed(self) -> Stepped {
        match self.file_picker {
            Some(picker) => AppModel { mode: Mode::Normal, dialog: Dialog::Closed, ..self }.push(
                ActionModel::RunEffect(
                    EffectModel::StartDownload {
                        magnet: picker.magnet,
                        output_folder: picker.output_folder,
                        only_files: included_indices(picker.files),
                    },
                ),
            ),
            None => self.go(),
        }
    }

    /// The state after `action`, applied at `now`, with the action that it
    /// appends to the queue and how the reducer goes on.
    #[verifier::opaque]
    pub open spec fn applied(self, action: ActionModel, now: u64) -> Stepped {
        match action {
            ActionModel::Paste(text) => self.pasted(text, now).go(),
            ActionModel::HelpOpen => AppModel {
                show_help: true,
                help_scroll: 0,
                dialog: Dialog::Help,
                ..self
            }.go(),
            ActionModel::HelpClose => AppModel {
                show_help: false,
                help_scroll: 0,
                dialog: Dialog::Closed,
                ..self
            }.go(),
            ActionModel::HelpScroll(delta) => self.help_scrolled(delta).go(),
            ActionModel::ErrorClear => self.error_cleared().go(),
            ActionModel::ConfirmDeleteOpen => if self.selected_row() is Some {
                AppModel {
                    confirm_delete: true,
                    delete_choice: false,
                    dialog: Dialog::ConfirmDelete,
                    ..self
                }.go()
            } else {
                self.go()
            },
            ActionModel::ConfirmDeleteSelect(choice) => AppModel {
                delete_choice: choice,
                ..self
            }.go(),
            ActionModel::ConfirmDeleteConfirm => self.delete_dialog_closed().push(
                ActionModel::RunEffect(
                    if self.delete_choice {
                        EffectModel::DeleteSelectedFiles
                    } else {
                        EffectModel::StopSelected
                    },
                ),
            ),
            ActionModel::ConfirmDeleteCancel => AppModel {
                status: "Delete cancelled"@,
                ..self.delete_dialog_closed()
            }.go(),
            ActionModel::ConfirmQuitOpen => AppModel {
                confirm_quit: true,
                quit_choice: false,
                dialog: Dialog::ConfirmQuit,
                ..self
            }.go(),
            ActionModel::ConfirmQuitSelect(choice) => AppModel { quit_choice: choice, ..self }.go(),
            ActionModel::ConfirmQuitConfirm => if self.quit_choice {
                Stepped { state: self, pushed: None, flow: FlowModel::Quit }
            } else {
                self.quit_cancelled().go()
            },
            ActionModel::ConfirmQuitCancel => self.quit_cancelled().go(),
            ActionModel::ViewSet(view) => AppModel { view, ..self }.go(),
            ActionModel::FocusToggle => AppModel {
                focus: match self.focus {
                    FocusPanel::Filters => FocusPanel::Torrents,
                    FocusPanel::Torrents => FocusPanel::Filters,
                },
                ..self
            }.go(),
            ActionModel::FocusSet(panel) => AppModel { focus: panel, ..self }.go(),
            ActionModel::MoveSelection(delta) => self.selection_moved(delta as int).go(),
            ActionModel::MoveFilter(delta) => self.filter_moved(delta).go(),
            ActionModel::SetFilter(index) => self.filter_set(index).go(),
            ActionModel::TogglePause => self.push(ActionModel::RunEffect(EffectModel::TogglePause)),
            ActionModel::StartAdd => AppModel {
                mode: Mode::EnterMagnet,
                status: "Paste magnet/URL/path and press Enter"@,
                dialog: Dialog::AddTorrent,
                ..self.input_cleared()
            }.go(),
            ActionModel::InputChar(c) => self.char_inserted(c).go(),
            ActionModel::InputBackspace => self.backspaced().go(),
            ActionModel::InputDelete => self.deleted().go(),
            ActionModel::InputLeft => self.cursor_left().go(),
            ActionModel::InputRight => self.cursor_right().go(),
            ActionModel::InputHome => AppModel { input_cursor: 0, ..self }.go(),
            ActionModel::InputEnd => AppModel {
                input_cursor: self.input.len() as usize,
                ..self
            }.go(),
            ActionModel::InputEnter => self.input_entered(),
            ActionModel::InputCancel => self.input_cancelled(),
            ActionModel::FilePickerCancel => AppModel {
                mode: Mode::Normal,
                file_picker: None,
                status: "Cancelled file selection"@,
                dialog: Dialog::Closed,
                ..self
            }.go(),
            ActionModel::FilePickerUp => match self.file_picker {
                Some(picker) => AppModel { file_picker: Some(picker.moved_up()), ..self }.go(),
                None => self.go(),
            },
            ActionModel::FilePickerDown => match self.file_picker {
                Some(picker) => AppModel { file_picker: Some(picker.moved_down()), ..self }.go(),
                None => self.go(),
            },
            ActionModel::FilePickerToggle => match self.file_picker {
                Some(picker) => AppModel { file_picker: Some(picker.toggled()), ..self }.go(),
                None => self.go(),
            },
            ActionModel::FilePickerAll => match self.file_picker {
                Some(picker) => AppModel { file_picker: Some(picker.all_set(true)), ..self }.go(),
                None => self.go(),
            },
            ActionModel::FilePickerNone => match self.file_picker {
                Some(picker) => AppModel { file_picker: Some(picker.all_set(false)), ..self }.go(),
                None => self.go(),
            },
            ActionModel::FilePickerConfirm => self.picker_confirmed(),
            ActionModel::Refresh => self.push(ActionModel::RunEffect(EffectModel::Refresh)),
            ActionModel::RunEffect(effect) => self.begun(effect),
            ActionModel::PreflightAddResult { magnet } => self.destination_asked(magnet).go(),
        }
    }

    /// Whatever an action appends to the queue ranks below it.
    pub proof fn lemma_applied_rank(self, action: ActionModel, now: u64)
        ensures
            match self.applied(action, now).pushed {
                Some(pushed) => rank(pushed) < rank(action),
                None => true,
            },
    {
        reveal(AppModel::applied);
    }
}

/// The state after a queue is drained, and how that ended.
pub struct Drained {
    pub state: AppModel,
    pub outcome: OutcomeModel,
}

/// The queue is drained from `state`: its actions are applied in order, each
/// with what it appends behind the others, until none is left, the operator
/// quits, a step fails (which ends in the error funnel) or the caller has to
/// perform a request.
pub open spec fn drained(state: AppModel, queue: Seq<ActionModel>, now: u64) -> Drained
    decreases total_rank(queue),
{
    if queue.len() == 0 {
        Drained { state, outcome: OutcomeModel::Done(false) }
    } else {
        let step = state.applied(queue[0], now);
        let rest = step.queue_after(queue.drop_first());
        match step.flow {
            FlowModel::Continue => {
                proof {
                    state.lemma_applied_rank(queue[0], now);
                    if step.pushed is Some {
                        lemma_total_rank_push(queue.drop_first(), step.pushed->0);
                    }
                }
                drained(step.state, rest, now)
            },
            FlowModel::Quit => Drained { state: step.state, outcome: OutcomeModel::Done(true) },
            FlowModel::Failed(words) => Drained {
                state: step.state.failed(words),
                outcome: OutcomeModel::Done(false),
            },
            FlowModel::Call(request, wait) => Drained {
                state: step.state,
                outcome: OutcomeModel::Call(request, SuspendedModel { wait, queue: rest, now }),
            },
        }
    }
}

/// How the reducer goes on after the step `step`, with `rest` as the queue.
pub open spec fn concluded(step: Stepped, rest: Seq<ActionModel>, now: u64) -> Drained {
    match step.flow {
        FlowModel::Continue => drained(step.state, rest, now),
        FlowModel::Quit => Drained { state: step.state, outcome: OutcomeModel::Done(true) },
        FlowModel::Failed(words) => Drained {
            state: step.state.failed(words),
            outcome: OutcomeModel::Done(false),
        },
        FlowModel::Call(request, wait) => Drained {
            state: step.state,
            outcome: OutcomeModel::Call(request, SuspendedModel { wait, queue: rest, now }),
        },
    }
}

/// Draining a queue that is not empty is applying its first action and going
/// on as that says.
pub proof fn lemma_drained_unfolds(state: AppModel, queue: Seq<ActionModel>, now: u64)
    requires
        queue.len() > 0,
    ensures
        drained(state, queue, now) == concluded(
            state.applied(queue[0], now),
            state.applied(queue[0], now).queue_after(queue.drop_first()),
            now,
        ),
{
}

/// The reducer goes on with `reply`, from where `suspended` left it.
pub open spec fn resumed(state: AppModel, suspended: SuspendedModel, reply: ReplyModel) -> Drained {
    let step = state.replied(suspended.wait, reply);
    concluded(step, step.queue_after(suspended.queue), suspended.now)
}

/// The number of places that a negative `delta` stands for.
fn magnitude(delta: isize) -> (by: usize)
    requires
        delta < 0,
    ensures
        by == -delta,
{
    (-(delta + 1)) as usize + 1
}

impl App {
    /// Takes the source that waits for a destination, if one does.
    fn take_pending(&mut self) -> (pending: Option<String>)
        ensures
            pending.deep_view() == old(self).model().pending_add_input,
            final(self).model() == (AppModel { pending_add_input: None, ..old(self).model() }),
    {
        proof {
            use_type_invariant(&*self);
        }
        let mut pending: Option<String> = None;
        core::mem::swap(&mut self.pending_add_input, &mut pending);
        pending
    }

    /// Takes the picker state, if there is one.
    fn take_picker(&mut self) -> (picker: Option<FilePickerState>)
        ensures
            picker.deep_view() == old(self).model().file_picker,
            final(self).model() == (AppModel { file_picker: None, ..old(self).model() }),
    {
        proof {
            use_type_invariant(&*self);
        }
        let mut picker: Option<FilePickerState> = None;
        core::mem::swap(&mut self.file_picker, &mut picker);
        picker
    }

    /// Opens the help, at its first line.
    pub fn open_help(&mut self)
        ensures
            final(self).model() == (AppModel {
                show_help: true,
                help_scroll: 0,
                dialog: Dialog::Help,
                ..old(self).model()
            }),
    {
        proof {
            use_type_invariant(&*self);
        }
        self.show_help = true;
        self.help_scroll = 0;
        self.dialog = Dialog::Help;
    }

    /// Closes the help.
    pub fn close_help(&mut self)
        ensures
            final(self).model() == (AppModel {
                show_help: false,
                help_scroll: 0,
                dialog: Dialog::Closed,
                ..old(self).model()
            }),
    {
        proof {
            use_type_invariant(&*self);
        }
        self.show_help = false;
        self.help_scroll = 0;
        self.dialog = Dialog::Closed;
    }

    /// Scrolls the help by `delta` lines, within what a line number can hold.
    pub fn scroll_help(&mut self, delta: i16)
        ensures
            final(self).model() == old(self).model().help_scrolled(delta),
    {
        proof {
            use_type_invariant(&*self);
        }
        if delta < 0 {
            let by: u16 = if delta == i16::MIN {
                32768
            } else {
                (-delta) as u16
            };
            self.help_scroll = if self.help_scroll >= by {
                self.help_scroll - by
            } else {
                0
            };
        } else {
            let by: u16 = delta as u16;
            self.help_scroll = if u16::MAX - self.help_scroll >= by {
                self.help_scroll + by
            } else {
                u16::MAX
            };
        }
    }

    /// Asks whether the selected torrent's files are to be deleted; does nothing where no torrent is selected.
    pub fn open_confirm_delete(&mut self)
        ensures
            final(self).model() == if old(self).model().selected_row() is Some {
                AppModel {
                    confirm_delete: true,
                    delete_choice: false,
                    dialog: Dialog::ConfirmDelete,
                    ..old(self).model()
                }
            } else {
                old(self).model()
            },
    {
        proof {
            use_type_invariant(&*self);
        }
        if self.selected_torrent().is_some() {
            self.confirm_delete = true;
            self.delete_choice = false;
            self.dialog = Dialog::ConfirmDelete;
        }
    }

    /// Marks the answer of the delete confirmation.
    pub fn choose_delete(&mut self, choice: bool)
        ensures
            final(self).model() == (AppModel { delete_choice: choice, ..old(self).model() }),
    {
        proof {
            use_type_invariant(&*self);
        }
        self.delete_choice = choice;
    }

    /// Closes the delete confirmation and queues what was answered: the
    /// deletion of the files, or only the forgetting of the torrent.
    pub fn confirm_delete_choice(&mut self, queue: &mut VecDeque<Action>)
        ensures
            final(self).model() == old(self).model().delete_dialog_closed(),
            final(queue).deep_view() == old(queue).deep_view().push(
                ActionModel::RunEffect(
                    if old(self).model().delete_choice {
                        EffectModel::DeleteSelectedFiles
                    } else {
                        EffectModel::StopSelected
                    },
                ),
            ),
    {
        proof {
            use_type_invariant(&*self);
        }
        let effect = if self.delete_choice {
            Effect::DeleteSelectedFiles
        } else {
            Effect::StopSelected
        };
        self.confirm_delete = false;
        self.delete_choice = false;
        self.dialog = Dialog::Closed;
        enqueue(queue, Action::RunEffect(effect));
    }

    /// Closes the delete confirmation without an effect.
    pub fn cancel_delete(&mut self)
        ensures
            final(self).model() == (AppModel {
                status: "Delete cancelled"@,
                ..old(self).model().delete_dialog_closed()
            }),
    {
        proof {
            use_type_invariant(&*self);
        }
        self.confirm_delete = false;
        self.delete_choice = false;
        self.status = "Delete cancelled".to_owned();
        self.dialog = Dialog::Closed;
    }

    /// Asks whether to quit.
    pub fn open_confirm_quit(&mut self)
        ensures
            final(self).model() == (AppModel {
                confirm_quit: true,
                quit_choice: false,
                dialog: Dialog::ConfirmQuit,
                ..old(self).model()
            }),
    {
        proof {
            use_type_invariant(&*self);
        }
        self.confirm_quit = true;
        self.quit_choice = false;
        self.dialog = Dialog::ConfirmQuit;
    }

    /// Marks the answer of the quit confirmation.
    pub fn choose_quit(&mut self, choice: bool)
        ensures
            final(self).model() == (AppModel { quit_choice: choice, ..old(self).model() }),
    {
        proof {
            use_type_invariant(&*self);
        }
        self.quit_choice = choice;
    }

    /// Closes the quit confirmation without quitting.
    pub fn cancel_quit(&mut self)
        ensures
            final(self).model() == old(self).model().quit_cancelled(),
    {
        proof {
            use_type_invariant(&*self);
        }
        self.confirm_quit = false;
        self.quit_choice = false;
        self.status = "Quit cancelled".to_owned();
        self.dialog = Dialog::Closed;
    }

    /// Shows `view`.
    pub fn set_view(&mut self, view: crate::modes::View)
        ensures
            final(self).model() == (AppModel { view, ..old(self).model() }),
    {
        proof {
            use_type_invariant(&*self);
        }
        self.view = view;
    }

    /// Gives the focus to the other panel.
    pub fn toggle_focus(&mut self)
        ensures
            final(self).model() == (AppModel {
                focus: match old(self).model().focus {
                    FocusPanel::Filters => FocusPanel::Torrents,
                    FocusPanel::Torrents => FocusPanel::Filters,
                },
                ..old(self).model()
            }),
    {
        proof {
            use_type_invariant(&*self);
        }
        self.focus = match self.focus {
            FocusPanel::Filters => FocusPanel::Torrents,
            FocusPanel::Torrents => FocusPanel::Filters,
        };
    }

    /// Gives the focus to `panel`.
    pub fn set_focus(&mut self, panel: FocusPanel)
        ensures
            final(self).model() == (AppModel { focus: panel, ..old(self).model() }),
    {
        proof {
            use_type_invariant(&*self);
        }
        self.focus = panel;
    }

    /// Moves the filter by `delta` places, within the filters, and settles the selection for it.
    pub fn move_filter(&mut self, delta: isize)
        ensures
            final(self).model() == old(self).model().filter_moved(delta),
    {
        proof {
            use_type_invariant(&*self);
        }
        let last = FILTER_COUNT - 1;
        if delta < 0 {
            let by = magnitude(delta);
            self.filter_index = if self.filter_index >= by {
                self.filter_index - by
            } else {
                0
            };
        } else {
            let by = delta as usize;
            self.filter_index = if by >= last - self.filter_index {
                last
            } else {
                self.filter_index + by
            };
        }
        self.ensure_selection_for_filter();
    }

    /// Chooses the filter at `index`, the last where `index` is past it, and settles the selection for it.
    pub fn set_filter(&mut self, index: usize)
        ensures
            final(self).model() == old(self).model().filter_set(index),
    {
        proof {
            use_type_invariant(&*self);
        }
        self.filter_index = if index < FILTER_COUNT {
            index
        } else {
            FILTER_COUNT - 1
        };
        self.ensure_selection_for_filter();
    }

    /// Applies an action of the help, error and confirmation dialogs.
    fn apply_dialog_action(&mut self, action: Action, queue: &mut VecDeque<Action>, now: u64) -> (flow:
        Flow)
        requires
            action is HelpOpen || action is HelpClose || action is HelpScroll || action is ErrorClear
                || action is ConfirmDeleteOpen || action is ConfirmDeleteSelect
                || action is ConfirmDeleteConfirm || action is ConfirmDeleteCancel
                || action is ConfirmQuitOpen || action is ConfirmQuitSelect
                || action is ConfirmQuitConfirm || action is ConfirmQuitCancel,
        ensures
            realizes(
                old(self).model().applied(action.deep_view(), now),
                final(self).model(),
                flow.deep_view(),
                final(queue).deep_view(),
                old(queue).deep_view(),
            ),
    {
        proof {
            reveal(AppModel::applied);
        }
        match action {
            Action::HelpOpen => self.open_help(),
            Action::HelpClose => self.close_help(),
            Action::HelpScroll(delta) => self.scroll_help(delta),
            Action::ErrorClear => self.clear_error(),
            Action::ConfirmDeleteOpen => self.open_confirm_delete(),
            Action::ConfirmDeleteSelect(choice) => self.choose_delete(choice),
            Action::ConfirmDeleteConfirm => self.confirm_delete_choice(queue),
            Action::ConfirmDeleteCancel => self.cancel_delete(),
            Action::ConfirmQuitOpen => self.open_confirm_quit(),
            Action::ConfirmQuitSelect(choice) => self.choose_quit(choice),
            Action::ConfirmQuitConfirm => {
                if self.quit_choice() {
                    return Flow::Quit;
                }
                self.cancel_quit()
            },
            Action::ConfirmQuitCancel => self.cancel_quit(),
            _ => {},
        }
        Flow::Continue
    }

    /// Applies an action that changes what is shown, focused, selected or filtered.
    fn apply_view_action(&mut self, action: Action, queue: &mut VecDeque<Action>, now: u64) -> (flow:
        Flow)
        requires
            action is ViewSet || action is FocusToggle || action is FocusSet
                || action is MoveSelection || action is MoveFilter || action is SetFilter,
        ensures
            realizes(
                old(self).model().applied(action.deep_view(), now),
                final(self).model(),
                flow.deep_view(),
                final(queue).deep_view(),
                old(queue).deep_view(),
            ),
    {
        proof {
            reveal(AppModel::applied);
        }
        match action {
            Action::ViewSet(view) => self.set_view(view),
            Action::FocusToggle => self.toggle_focus(),
            Action::FocusSet(panel) => self.set_focus(panel),
            Action::MoveSelection(delta) => self.move_selection(delta),
            Action::MoveFilter(delta) => self.move_filter(delta),
            Action::SetFilter(index) => self.set_filter(index),
            _ => {},
        }
        Flow::Continue
    }

    /// Applies an action that edits the input, other than its submission and
    /// its abandonment.
    fn apply_text_action(&mut self, action: Action, queue: &mut VecDeque<Action>, now: u64) -> (flow:
        Flow)
        requires
            action is Paste || action is StartAdd || action is InputChar || action is InputBackspace
                || action is InputDelete || action is InputLeft || action is InputRight
                || action is InputHome || action is InputEnd,
        ensures
            realizes(
                old(self).model().applied(action.deep_view(), now),
                final(self).model(),
                flow.deep_view(),
                final(queue).deep_view(),
                old(queue).deep_view(),
            ),
    {
        proof {
            reveal(AppModel::applied);
        }
        proof {
            use_type_invariant(&*self);
        }
        match action {
            Action::Paste(text) => {
                if matches!(self.mode, Mode::EnterMagnet | Mode::EnterTorrentDir) {
                    self.insert_text(text.as_str());
                } else {
                    self.last_char_at = Some(now);
                    self.status = "Paste ignored".to_owned();
                }
            },
            Action::StartAdd => {
                self.mode = Mode::EnterMagnet;
                self.clear_input();
                self.status = "Paste magnet/URL/path and press Enter".to_owned();
                self.dialog = Dialog::AddTorrent;
            },
            Action::InputChar(c) => {
                self.insert_char(c);
            },
            Action::InputBackspace => {
                self.backspace();
            },
            Action::InputDelete => {
                self.delete();
            },
            Action::InputLeft => {
                self.move_cursor_left();
            },
            Action::InputRight => {
                self.move_cursor_right();
            },
            Action::InputHome => {
                self.move_cursor_home();
            },
            Action::InputEnd => {
                self.move_cursor_end();
            },
            _ => {},
        }
        Flow::Continue
    }

    /// Submits the wizard's text.
    pub fn submit_input(&mut self, queue: &mut VecDeque<Action>) -> (flow: Flow)
        ensures
            realizes(
                old(self).model().input_entered(),
                final(self).model(),
                flow.deep_view(),
                final(queue).deep_view(),
                old(queue).deep_view(),
            ),
    {
        proof {
            use_type_invariant(&*self);
        }
        let value = trim(self.input.as_str());
        let empty = value.as_str().unicode_len() == 0;
        match self.mode {
            Mode::EnterMagnet => {
                self.status = "Fetching metadata...".to_owned();
                self.clear_input();
                if empty {
                    let words = Failure::EmptyMagnet.message();
                    self.set_error(words.as_str());
                    Flow::Continue
                } else {
                    self.resolve_source(Purpose::Validate { value }, queue)
                }
            },
            Mode::EnterTorrentDir => {
                self.clear_input();
                match self.take_pending() {
                    None => Flow::Failed(Failure::MissingPendingInput.message()),
                    Some(magnet) => {
                        let output_folder = if empty {
                            self.download_dir.clone()
                        } else {
                            value
                        };
                        self.status = "Fetching metadata...".to_owned();
                        self.last_error = None;
                        enqueue(
                            queue,
                            Action::RunEffect(Effect::StartFilePicker { magnet, output_folder }),
                        );
                        Flow::Continue
                    },
                }
            },
            Mode::Normal => {
                self.clear_input();
                Flow::Continue
            },
            Mode::FilePicker => {
                self.clear_input();
                Flow::Continue
            },
        }
    }

    /// Abandons the wizard's text.
    pub fn cancel_input(&mut self, queue: &mut VecDeque<Action>) -> (flow: Flow)
        ensures
            realizes(
                old(self).model().input_cancelled(),
                final(self).model(),
                flow.deep_view(),
                final(queue).deep_view(),
                old(queue).deep_view(),
            ),
    {
        proof {
            use_type_invariant(&*self);
        }
        if matches!(self.mode, Mode::EnterTorrentDir) {
            if let Some(magnet) = self.take_pending() {
                let output_folder = self.download_dir.clone();
                self.clear_input();
                self.status = "Fetching metadata...".to_owned();
                self.last_error = None;
                self.dialog = Dialog::AddTorrent;
                enqueue(
                    queue,
                    Action::RunEffect(Effect::StartFilePicker { magnet, output_folder }),
                );
                return Flow::Continue;
            }
        }
        self.mode = Mode::Normal;
        self.clear_input();
        self.status = "Cancelled".to_owned();
        self.dialog = Dialog::Closed;
        Flow::Continue
    }

    /// Closes the picker without a download.
    pub fn cancel_picker(&mut self)
        ensures
            final(self).model() == (AppModel {
                mode: Mode::Normal,
                file_picker: None,
                status: "Cancelled file selection"@,
                dialog: Dialog::Closed,
                ..old(self).model()
            }),
    {
        proof {
            use_type_invariant(&*self);
        }
        self.mode = Mode::Normal;
        self.file_picker = None;
        self.status = "Cancelled file selection".to_owned();
        self.dialog = Dialog::Closed;
    }

    /// Moves the picker's cursor up one file.
    pub fn picker_up(&mut self)
        ensures
            final(self).model() == match old(self).model().file_picker {
                Some(picker) => AppModel { file_picker: Some(picker.moved_up()), ..old(self).model() },
                None => old(self).model(),
            },
    {
        proof {
            use_type_invariant(&*self);
        }
        let mut taken = self.take_picker();
        match &mut taken {
            Some(picker) => {
                picker.move_up();
            },
            None => {},
        }
        self.file_picker = taken;
    }

    /// Moves the picker's cursor down one file.
    pub fn picker_down(&mut self)
        ensures
            final(self).model() == match old(self).model().file_picker {
                Some(picker) => AppModel { file_picker: Some(picker.moved_down()), ..old(self).model() },
                None => old(self).model(),
            },
    {
        proof {
            use_type_invariant(&*self);
        }
        let mut taken = self.take_picker();
        match &mut taken {
            Some(picker) => {
                picker.move_down();
            },
            None => {},
        }
        self.file_picker = taken;
    }

    /// Includes or excludes the file under the picker's cursor.
    pub fn picker_toggle(&mut self)
        ensures
            final(self).model() == match old(self).model().file_picker {
                Some(picker) => AppModel { file_picker: Some(picker.toggled()), ..old(self).model() },
                None => old(self).model(),
            },
    {
        proof {
            use_type_invariant(&*self);
        }
        let mut taken = self.take_picker();
        match &mut taken {
            Some(picker) => {
                picker.toggle();
            },
            None => {},
        }
        self.file_picker = taken;
    }

    /// Includes every file of the picker, or excludes every file.
    pub fn picker_set_all(&mut self, flag: bool)
        ensures
            final(self).model() == match old(self).model().file_picker {
                Some(picker) => AppModel {
                    file_picker: Some(picker.all_set(flag)),
                    ..old(self).model()
                },
                None => old(self).model(),
            },
    {
        proof {
            use_type_invariant(&*self);
        }
        let mut taken = self.take_picker();
        match &mut taken {
            Some(picker) => {
                picker.set_all(flag);
            },
            None => {},
        }
        self.file_picker = taken;
    }

    /// Confirms the picker: queues the download of the included files and
    /// takes the picker off the screen; does nothing without a picker.
    pub fn confirm_picker(&mut self, queue: &mut VecDeque<Action>)
        ensures
            final(self).model() == old(self).model().picker_confirmed().state,
            final(queue).deep_view() == old(self).model().picker_confirmed().queue_after(
                old(queue).deep_view(),
            ),
    {
        proof {
            use_type_invariant(&*self);
        }
        match &self.file_picker {
            Some(picker) => {
                let magnet = picker.magnet.clone();
                let output_folder = picker.output_folder.clone();
                let only_files = included_files(&picker.files);
                enqueue(
                    queue,
                    Action::RunEffect(Effect::StartDownload { magnet, output_folder, only_files }),
                );
                self.mode = Mode::Normal;
                self.dialog = Dialog::Closed;
            },
            None => {},
        }
    }

    /// Applies an action of the file picker.
    fn apply_picker_action(&mut self, action: Action, queue: &mut VecDeque<Action>, now: u64) -> (flow:
        Flow)
        requires
            action is FilePickerCancel || action is FilePickerUp || action is FilePickerDown
                || action is FilePickerToggle || action is FilePickerAll
                || action is FilePickerNone || action is FilePickerConfirm,
        ensures
            realizes(
                old(self).model().applied(action.deep_view(), now),
                final(self).model(),
                flow.deep_view(),
                final(queue).deep_view(),
                old(queue).deep_view(),
            ),
    {
        proof {
            reveal(AppModel::applied);
        }
        match action {
            Action::FilePickerCancel => self.cancel_picker(),
            Action::FilePickerUp => self.picker_up(),
            Action::FilePickerDown => self.picker_down(),
            Action::FilePickerToggle => self.picker_toggle(),
            Action::FilePickerAll => self.picker_set_all(true),
            Action::FilePickerNone => self.picker_set_all(false),
            Action::FilePickerConfirm => self.confirm_picker(queue),
            _ => {},
        }
        Flow::Continue
    }

    /// Opens the destination step for the source `magnet`.
    pub fn ask_destination(&mut self, magnet: String)
        ensures
            final(self).model() == old(self).model().destination_asked(magnet@),
    {
        proof {
            use_type_invariant(&*self);
        }
        self.pending_add_input = Some(magnet);
        self.mode = Mode::EnterTorrentDir;
        let folder = self.download_dir.clone();
        self.set_input(folder);
        self.status = "Set download dir for this torrent".to_owned();
        self.dialog = Dialog::AddTorrent;
    }

    /// Applies `action` at `now` (milliseconds on a monotonic clock), and
    /// appends to `queue` what follows from it.
    pub fn apply_action(&mut self, action: Action, queue: &mut VecDeque<Action>, now: u64) -> (flow:
        Flow)
        ensures
            realizes(
                old(self).model().applied(action.deep_view(), now),
                final(self).model(),
                flow.deep_view(),
                final(queue).deep_view(),
                old(queue).deep_view(),
            ),
    {
        proof {
            reveal(AppModel::applied);
        }
        match action {
            Action::HelpOpen
            | Action::HelpClose
            | Action::HelpScroll(_)
            | Action::ErrorClear
            | Action::ConfirmDeleteOpen
            | Action::ConfirmDeleteSelect(_)
            | Action::ConfirmDeleteConfirm
            | Action::ConfirmDeleteCancel
            | Action::ConfirmQuitOpen
            | Action::ConfirmQuitSelect(_)
            | Action::ConfirmQuitConfirm
            | Action::ConfirmQuitCancel => self.apply_dialog_action(action, queue, now),
            Action::ViewSet(_)
            | Action::FocusToggle
            | Action::FocusSet(_)
            | Action::MoveSelection(_)
            | Action::MoveFilter(_)
            | Action::SetFilter(_) => self.apply_view_action(action, queue, now),
            Action::Paste(_)
            | Action::StartAdd
            | Action::InputChar(_)
            | Action::InputBackspace
            | Action::InputDelete
            | Action::InputLeft
            | Action::InputRight
            | Action::InputHome
            | Action::InputEnd => self.apply_text_action(action, queue, now),
            Action::InputEnter => self.submit_input(queue),
            Action::InputCancel => self.cancel_input(queue),
            Action::FilePickerCancel
            | Action::FilePickerUp
            | Action::FilePickerDown
            | Action::FilePickerToggle
            | Action::FilePickerAll
            | Action::FilePickerNone
            | Action::FilePickerConfirm => self.apply_picker_action(action, queue, now),
            Action::TogglePause => {
                enqueue(queue, Action::RunEffect(Effect::TogglePause));
                Flow::Continue
            },
            Action::Refresh => {
                enqueue(queue, Action::RunEffect(Effect::Refresh));
                Flow::Continue
            },
            Action::RunEffect(effect) => self.run_effect(effect, queue),
            Action::PreflightAddResult { magnet } => {
                self.ask_destination(magnet);
                Flow::Continue
            },
        }
    }
}

/// The queue that holds `actions` in their order.
pub fn to_queue(actions: Vec<Action>) -> (queue: VecDeque<Action>)
    ensures
        queue.deep_view() == actions.deep_view(),
{
    let mut queue: VecDeque<Action> = VecDeque::new();
    let ghost model = actions.deep_view();
    assert(queue.deep_view() =~= model.take(0));
    for action in it: actions
        invariant
            it.seq() == actions@,
            model == actions.deep_view(),
            queue.deep_view() == model.take(it.index() as int),
    {
        let ghost i = it.index() as int;
        assert(model[i] == action.deep_view());
        enqueue(&mut queue, action);
        assert(queue.deep_view() =~= model.take(i + 1));
    }
    assert(model.take(model.len() as int) =~= model);
    queue
}

impl App {
    /// Goes on as `flow` says: with the queue, to the error funnel, or back
    /// to the caller.
    pub fn conclude(&mut self, flow: Flow, queue: VecDeque<Action>, now: u64) -> (outcome: Outcome)
        ensures
            ({
                let step = Stepped {
                    state: old(self).model(),
                    pushed: None,
                    flow: flow.deep_view(),
                };
                let end = concluded(step, queue.deep_view(), now);
                final(self).model() == end.state && outcome.deep_view() == end.outcome
            }),
    {
        match flow {
            Flow::Continue => self.drain(queue, now),
            Flow::Quit => Outcome::Done(true),
            Flow::Failed(words) => {
                self.set_error(words.as_str());
                Outcome::Done(false)
            },
            Flow::Call(request, wait) => Outcome::Call(request, Suspended { wait, queue, now }),
        }
    }

    /// Applies `actions` in order, each at `now`, until none is left, the
    /// operator quits, a step fails or the caller has to perform a request.
    /// The filter invariant is kept.
    pub fn drain(&mut self, actions: VecDeque<Action>, now: u64) -> (outcome: Outcome)
        ensures
            final(self).model() == drained(old(self).model(), actions.deep_view(), now).state,
            outcome.deep_view() == drained(old(self).model(), actions.deep_view(), now).outcome,
            old(self).model().selection_fits() ==> final(self).model().selection_fits(),
    {
        proof {
            assert(self.model().torrents.len() <= usize::MAX) by {
                assert(self.torrents.deep_view().len() == self.torrents.len());
            }
            if self.model().selection_fits() {
                lemma_drain_keeps_filter_invariant(self.model(), actions.deep_view(), now);
            }
        }
        let mut queue = actions;
        let ghost goal = drained(self.model(), queue.deep_view(), now);
        loop
            invariant
                drained(self.model(), queue.deep_view(), now) == goal,
                goal == drained(old(self).model(), actions.deep_view(), now),
                old(self).model().selection_fits() ==> goal.state.selection_fits(),
            decreases total_rank(queue.deep_view()),
        {
            let ghost before = queue.deep_view();
            let ghost state = self.model();
            match queue.pop_front() {
                None => {
                    return Outcome::Done(false);
                },
                Some(action) => {
                    assert(before[0] == action.deep_view());
                    assert(queue.deep_view() =~= before.drop_first());
                    proof {
                        state.lemma_applied_rank(before[0], now);
                        let step = state.applied(before[0], now);
                        if step.pushed is Some {
                            lemma_total_rank_push(before.drop_first(), step.pushed->0);
                        }
                    }
                    let flow = self.apply_action(action, &mut queue, now);
                    match flow {
                        Flow::Continue => {},
                        Flow::Quit => {
                            return Outcome::Done(true);
                        },
                        Flow::Failed(words) => {
                            self.set_error(words.as_str());
                            return Outcome::Done(false);
                        },
                        Flow::Call(request, wait) => {
                            return Outcome::Call(request, Suspended { wait, queue, now });
                        },
                    }
                },
            }
        }
    }

    /// Applies `action` at `now`, and whatever follows from it. The filter
    /// invariant is kept, and so is the agreement of mode, dialog and flags
    /// where the state takes the action.
    pub fn dispatch(&mut self, action: Action, now: u64) -> (outcome: Outcome)
        ensures
            final(self).model() == drained(old(self).model(), seq![action.deep_view()], now).state,
            outcome.deep_view() == drained(
                old(self).model(),
                seq![action.deep_view()],
                now,
            ).outcome,
            old(self).model().selection_fits() ==> final(self).model().selection_fits(),
            old(self).model().coherent() && old(self).model().takes(action.deep_view())
                ==> ends_in_lockstep(drained(old(self).model(), seq![action.deep_view()], now)),
    {
        proof {
            if self.model().coherent() && self.model().takes(action.deep_view()) {
                lemma_drain_keeps_lockstep(self.model(), seq![action.deep_view()], now);
            }
        }
        let mut queue: VecDeque<Action> = VecDeque::new();
        assert(queue.deep_view() =~= Seq::<ActionModel>::empty());
        enqueue(&mut queue, action);
        assert(queue.deep_view() =~= seq![action.deep_view()]);
        self.drain(queue, now)
    }

    /// Goes on with `reply`, the answer to the request that `suspended` came
    /// with, and drains what is queued. The filter invariant is kept, and so
    /// is the agreement of mode, dialog and flags where the state awaits the
    /// reply and nothing is queued.
    pub fn resume(&mut self, suspended: Suspended, reply: Reply) -> (outcome: Outcome)
        ensures
            final(self).model() == resumed(
                old(self).model(),
                suspended.deep_view(),
                reply.deep_view(),
            ).state,
            outcome.deep_view() == resumed(
                old(self).model(),
                suspended.deep_view(),
                reply.deep_view(),
            ).outcome,
            old(self).model().coherent() && old(self).model().awaits(suspended.deep_view().wait)
                && suspended.deep_view().queue.len() == 0 ==> ends_in_lockstep(
                resumed(old(self).model(), suspended.deep_view(), reply.deep_view()),
            ),
            old(self).model().selection_fits() ==> final(self).model().selection_fits(),
    {
        let ghost before = self.model();
        proof {
            if before.coherent() && before.awaits(suspended.deep_view().wait)
                && suspended.deep_view().queue.len() == 0 {
                lemma_resumption_keeps_lockstep(before, suspended.deep_view(), reply.deep_view());
            }
            assert(before.torrents.len() <= usize::MAX) by {
                assert(self.torrents.deep_view().len() == self.torrents.len());
            }
            if before.selection_fits() {
                if reply is Listing {
                    assert(reply->Listing_0.deep_view().len() == reply->Listing_0.len());
                }
                lemma_runs_keep_filter_invariant(
                    before,
                    EventModel::Other,
                    suspended.deep_view(),
                    reply.deep_view(),
                    suspended.now,
                );
            }
        }
        let Suspended { wait, queue, now } = suspended;
        let mut queue = queue;
        let flow = self.on_reply(wait, reply, &mut queue);
        self.conclude(flow, queue, now)
    }
}

/// An input event that arrives at `now` is handled: it is translated, and
/// what it means is drained.
pub open spec fn handled(state: AppModel, event: EventModel, now: u64) -> Drained {
    let translated = state.translated(event, now);
    drained(translated.state, translated.actions, now)
}

impl App {
    /// Handles an input event that arrives at `now` (milliseconds on a
    /// monotonic clock): translates it and applies what it means, until
    /// nothing is left to do or the caller has to perform a request. The
    /// filter invariant and the agreement of mode, dialog and flags are kept.
    pub fn handle_event(&mut self, event: Event, now: u64) -> (outcome: Outcome)
        ensures
            final(self).model() == handled(old(self).model(), event.deep_view(), now).state,
            outcome.deep_view() == handled(old(self).model(), event.deep_view(), now).outcome,
            old(self).model().selection_fits() ==> final(self).model().selection_fits(),
            old(self).model().coherent() ==> ends_in_lockstep(
                handled(old(self).model(), event.deep_view(), now),
            ),
    {
        proof {
            if self.model().coherent() {
                lemma_event_keeps_lockstep(self.model(), event.deep_view(), now);
            }
        }
        let actions = self.actions_from_event(event, now);
        self.drain(to_queue(actions), now)
    }
}

} // verus!
