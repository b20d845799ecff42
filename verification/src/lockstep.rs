//! The agreement of mode, dialog and flags, and the steps that keep it.

use crate::action::ActionModel;
use crate::effect::EffectModel;
use crate::engine::ReplyModel;
use crate::action::{lemma_total_rank_push, total_rank};
use crate::flow::{FlowModel, OutcomeModel, PurposeModel, SuspendedModel, WaitModel};
use crate::reducer::{drained, handled, lemma_drained_unfolds, resumed, Drained};
use crate::input::{EventModel, KeyCode};
use crate::model::AppModel;
use crate::modes::{Dialog, Mode};
use vstd::prelude::*;

verus! {

impl AppModel {
    /// Mode, dialog and flags agree: each overlay is flagged exactly while
    /// its dialog is shown, text is entered exactly under the add dialog,
    /// the picker mode goes with the picker dialog and a picker state, and a
    /// source waits for a destination only at the destination step.
    pub open spec fn coherent(self) -> bool {
        &&& self.show_help <==> self.dialog == Dialog::Help
        &&& self.last_error is Some <==> self.dialog == Dialog::Error
        &&& self.confirm_delete <==> self.dialog == Dialog::ConfirmDelete
        &&& self.confirm_quit <==> self.dialog == Dialog::ConfirmQuit
        &&& self.takes_text() <==> self.dialog == Dialog::AddTorrent
        &&& self.mode == Mode::FilePicker <==> self.dialog == Dialog::FilePicker
        &&& self.mode == Mode::FilePicker ==> self.file_picker is Some
        &&& self.pending_add_input is Some ==> self.mode == Mode::EnterTorrentDir
    }

    /// Normal mode with nothing over it.
    pub open spec fn idle(self) -> bool {
        self.mode == Mode::Normal && self.dialog == Dialog::Closed
    }

    /// The state in which `effect` is begun by the reducer: the preflight and
    /// the download from normal mode with nothing over it, the probe for the
    /// picker from the destination step once the source is taken; the others
    /// from any state.
    pub open spec fn launches(self, effect: EffectModel) -> bool {
        match effect {
            EffectModel::PreflightAdd { .. } => self.idle(),
            EffectModel::StartDownload { .. } => self.idle(),
            EffectModel::StartFilePicker { .. } => self.mode == Mode::EnterTorrentDir
                && self.pending_add_input is None,
            _ => true,
        }
    }

    /// The state in which a source is looked up for `purpose`.
    pub open spec fn looks_up(self, purpose: PurposeModel) -> bool {
        match purpose {
            PurposeModel::Validate { .. } => self.mode == Mode::EnterMagnet,
            PurposeModel::Preflight { .. } => self.idle(),
            PurposeModel::Picker { .. } => self.mode == Mode::EnterTorrentDir
                && self.pending_add_input is None,
            PurposeModel::Download { .. } => self.idle(),
        }
    }

    /// The state in which the reducer waits for the reply that `wait` stands for.
    pub open spec fn awaits(self, wait: WaitModel) -> bool {
        match wait {
            WaitModel::SourceExists { purpose, .. } => self.looks_up(purpose),
            WaitModel::SourceRead { purpose } => self.looks_up(purpose),
            WaitModel::PreflightProbe { .. } | WaitModel::PreflightList { .. } => self.idle(),
            WaitModel::PickerProbe { .. }
            | WaitModel::PickerRetry { .. }
            | WaitModel::PickerFirst { .. }
            | WaitModel::PickerSecond { .. }
            | WaitModel::PickerCreate { .. } => self.mode == Mode::EnterTorrentDir
                && self.pending_add_input is None,
            WaitModel::DownloadAdd { .. }
            | WaitModel::DownloadVerify { .. }
            | WaitModel::DownloadRollback
            | WaitModel::DownloadStart => self.idle(),
            WaitModel::Command(_) | WaitModel::RefreshStats | WaitModel::RefreshList { .. } => true,
        }
    }

    /// The state in which `action` is applied by the reducer: an effect where
    /// it launches, the report of the preflight in normal mode with nothing
    /// over it.
    pub open spec fn follows(self, action: ActionModel) -> bool {
        match action {
            ActionModel::RunEffect(effect) => self.launches(effect),
            ActionModel::PreflightAddResult { .. } => self.idle(),
            _ => false,
        }
    }
}

/// Whether a step ends in a state in which mode, dialog and flags agree,
/// and from which the reducer can go on: what it appends to the queue can
/// be applied, and the reply that it waits for can be taken.
pub open spec fn keeps_lockstep(step: crate::effects::Stepped) -> bool {
    &&& step.state.coherent()
    &&& step.pushed matches Some(action) ==> step.state.follows(action) && step.flow is Continue
    &&& step.flow matches FlowModel::Call(_, wait) ==> step.state.awaits(wait)
}

/// The error funnel ends in a state in which mode, dialog and flags agree,
/// whatever the state before.
pub proof fn lemma_error_funnel_is_coherent(state: AppModel, words: Seq<char>)
    ensures
        state.failed(words).coherent(),
        state.failed(words).idle() == false,
        state.failed(words).pending_add_input is None,
{
}

/// The initial state is coherent.
pub proof fn lemma_initial_state_is_coherent(download_dir: Seq<char>)
    ensures
        AppModel::initial(download_dir).coherent(),
        AppModel::initial(download_dir).valid(),
{
}

/// While a dialog is open, no key means a command of normal mode: nothing
/// moves the selection or the filter, switches the view or the focus, or
/// opens another dialog.
pub proof fn lemma_open_dialog_takes_the_keys(state: AppModel, code: KeyCode)
    requires
        state.coherent(),
        state.dialog != Dialog::Closed,
    ensures
        match state.key_action(code) {
            None => true,
            Some(action) => match state.dialog {
                Dialog::Help => action is HelpClose || action is HelpScroll,
                Dialog::Error => action is ErrorClear,
                Dialog::ConfirmDelete => action is ConfirmDeleteSelect
                    || action is ConfirmDeleteCancel || action is ConfirmDeleteConfirm,
                Dialog::ConfirmQuit => action is ConfirmQuitSelect || action is ConfirmQuitCancel
                    || action is ConfirmQuitConfirm,
                Dialog::AddTorrent => action is InputCancel || action is InputEnter
                    || action is InputBackspace || action is InputDelete || action is InputLeft
                    || action is InputRight || action is InputHome || action is InputEnd
                    || action is InputChar,
                Dialog::FilePicker => action is FilePickerCancel || action is FilePickerUp
                    || action is FilePickerDown || action is FilePickerToggle
                    || action is FilePickerAll || action is FilePickerNone
                    || action is FilePickerConfirm,
                Dialog::Closed => false,
            },
        },
{
}

impl AppModel {
    /// The state in which `action` is applied: what a key means, in the
    /// state that gives the key that meaning; pasted text and a refresh in
    /// any state; what the reducer queues, where it follows.
    pub open spec fn takes(self, action: ActionModel) -> bool {
        match action {
            ActionModel::Paste(_) | ActionModel::Refresh => true,
            ActionModel::HelpClose | ActionModel::HelpScroll(_) => self.dialog == Dialog::Help,
            ActionModel::ErrorClear => self.dialog == Dialog::Error,
            ActionModel::ConfirmDeleteSelect(_)
            | ActionModel::ConfirmDeleteConfirm
            | ActionModel::ConfirmDeleteCancel => self.dialog == Dialog::ConfirmDelete,
            ActionModel::ConfirmQuitSelect(_)
            | ActionModel::ConfirmQuitConfirm
            | ActionModel::ConfirmQuitCancel => self.dialog == Dialog::ConfirmQuit,
            ActionModel::InputChar(_)
            | ActionModel::InputBackspace
            | ActionModel::InputDelete
            | ActionModel::InputLeft
            | ActionModel::InputRight
            | ActionModel::InputHome
            | ActionModel::InputEnd
            | ActionModel::InputEnter
            | ActionModel::InputCancel => self.dialog == Dialog::AddTorrent,
            ActionModel::FilePickerCancel
            | ActionModel::FilePickerUp
            | ActionModel::FilePickerDown
            | ActionModel::FilePickerToggle
            | ActionModel::FilePickerAll
            | ActionModel::FilePickerNone
            | ActionModel::FilePickerConfirm => self.dialog == Dialog::FilePicker,
            ActionModel::RunEffect(_) | ActionModel::PreflightAddResult { .. } => self.follows(
                action,
            ),
            _ => self.idle(),
        }
    }
}

/// A key means only what the state takes.
pub proof fn lemma_keys_mean_what_the_state_takes(state: AppModel, code: KeyCode)
    requires
        state.coherent(),
    ensures
        state.key_action(code) matches Some(action) ==> state.takes(action),
{
}

/// Applying an action of an overlay keeps the agreement.
proof fn lemma_overlay_action_keeps_lockstep(state: AppModel, action: ActionModel, now: u64)
    requires
        state.coherent(),
        state.takes(action),
        action is HelpClose || action is HelpScroll || action is ErrorClear
            || action is ConfirmDeleteSelect || action is ConfirmDeleteConfirm
            || action is ConfirmDeleteCancel || action is ConfirmQuitSelect
            || action is ConfirmQuitConfirm || action is ConfirmQuitCancel || action is Paste,
    ensures
        keeps_lockstep(state.applied(action, now)),
{
    reveal(AppModel::applied);
}

/// Applying an action of the wizard's text keeps the agreement.
proof fn lemma_text_action_keeps_lockstep(state: AppModel, action: ActionModel, now: u64)
    requires
        state.coherent(),
        state.takes(action),
        action is InputChar || action is InputBackspace || action is InputDelete
            || action is InputLeft || action is InputRight || action is InputHome
            || action is InputEnd || action is InputEnter || action is InputCancel,
    ensures
        keeps_lockstep(state.applied(action, now)),
{
    reveal(AppModel::applied);
}

/// Applying an action of the picker keeps the agreement.
proof fn lemma_picker_action_keeps_lockstep(state: AppModel, action: ActionModel, now: u64)
    requires
        state.coherent(),
        state.takes(action),
        action is FilePickerCancel || action is FilePickerUp || action is FilePickerDown
            || action is FilePickerToggle || action is FilePickerAll || action is FilePickerNone
            || action is FilePickerConfirm,
    ensures
        keeps_lockstep(state.applied(action, now)),
{
    reveal(AppModel::applied);
}

/// Applying a command of normal mode keeps the agreement.
proof fn lemma_command_keeps_lockstep(state: AppModel, action: ActionModel, now: u64)
    requires
        state.coherent(),
        state.takes(action),
        action is HelpOpen || action is ConfirmDeleteOpen || action is ConfirmQuitOpen
            || action is ViewSet || action is FocusToggle || action is FocusSet
            || action is MoveSelection || action is MoveFilter || action is SetFilter
            || action is TogglePause || action is StartAdd || action is Refresh,
    ensures
        keeps_lockstep(state.applied(action, now)),
{
    reveal(AppModel::applied);
}

/// Applying an action in a state that takes it keeps the agreement of
/// mode, dialog and flags.
pub proof fn lemma_action_keeps_lockstep(state: AppModel, action: ActionModel, now: u64)
    requires
        state.coherent(),
        state.takes(action),
    ensures
        keeps_lockstep(state.applied(action, now)),
{
    match action {
        ActionModel::HelpClose
        | ActionModel::HelpScroll(_)
        | ActionModel::ErrorClear
        | ActionModel::ConfirmDeleteSelect(_)
        | ActionModel::ConfirmDeleteConfirm
        | ActionModel::ConfirmDeleteCancel
        | ActionModel::ConfirmQuitSelect(_)
        | ActionModel::ConfirmQuitConfirm
        | ActionModel::ConfirmQuitCancel
        | ActionModel::Paste(_) => lemma_overlay_action_keeps_lockstep(state, action, now),
        ActionModel::InputChar(_)
        | ActionModel::InputBackspace
        | ActionModel::InputDelete
        | ActionModel::InputLeft
        | ActionModel::InputRight
        | ActionModel::InputHome
        | ActionModel::InputEnd
        | ActionModel::InputEnter
        | ActionModel::InputCancel => lemma_text_action_keeps_lockstep(state, action, now),
        ActionModel::FilePickerCancel
        | ActionModel::FilePickerUp
        | ActionModel::FilePickerDown
        | ActionModel::FilePickerToggle
        | ActionModel::FilePickerAll
        | ActionModel::FilePickerNone
        | ActionModel::FilePickerConfirm => lemma_picker_action_keeps_lockstep(state, action, now),
        ActionModel::RunEffect(effect) => lemma_effect_keeps_lockstep(state, effect, now),
        ActionModel::PreflightAddResult { magnet } => lemma_report_keeps_lockstep(
            state,
            magnet,
            now,
        ),
        _ => lemma_command_keeps_lockstep(state, action, now),
    }
}

/// Translating an input keeps the agreement of mode, dialog and flags, and
/// so does applying what the input means.
pub proof fn lemma_input_keeps_lockstep(state: AppModel, event: EventModel, now: u64, i: int)
    requires
        state.coherent(),
        0 <= i < state.translated(event, now).actions.len(),
    ensures
        state.translated(event, now).state.coherent(),
        keeps_lockstep(
            state.translated(event, now).state.applied(state.translated(event, now).actions[i], now),
        ),
{
    let translated = state.translated(event, now);
    assert(translated.state.coherent());
    match event {
        EventModel::Key(key) => {
            lemma_keys_mean_what_the_state_takes(translated.state, key.code);
        },
        _ => {},
    }
    lemma_action_keeps_lockstep(translated.state, translated.actions[i], now);
}

/// Beginning an effect keeps the agreement of mode, dialog and flags.
pub proof fn lemma_effect_keeps_lockstep(state: AppModel, effect: EffectModel, now: u64)
    requires
        state.coherent(),
        state.launches(effect),
    ensures
        keeps_lockstep(state.applied(ActionModel::RunEffect(effect), now)),
{
    reveal(AppModel::applied);
}

/// Taking the report of the preflight keeps the agreement of mode, dialog
/// and flags, and makes a source wait at the destination step.
pub proof fn lemma_report_keeps_lockstep(state: AppModel, magnet: Seq<char>, now: u64)
    requires
        state.coherent(),
        state.idle(),
    ensures
        keeps_lockstep(state.applied(ActionModel::PreflightAddResult { magnet }, now)),
        state.applied(ActionModel::PreflightAddResult { magnet }, now).state.mode
            == Mode::EnterTorrentDir,
{
    reveal(AppModel::applied);
}

/// Taking a reply keeps the agreement of mode, dialog and flags.
pub proof fn lemma_reply_keeps_lockstep(
    state: AppModel,
    wait: WaitModel,
    reply: ReplyModel,
)
    requires
        state.coherent(),
        state.awaits(wait),
    ensures
        keeps_lockstep(state.replied(wait, reply)),
{
}

/// Whether a run of the reducer ends in a state in which mode, dialog and
/// flags agree, and, where it ends with a request, in one that awaits the
/// reply, with nothing queued.
pub open spec fn ends_in_lockstep(end: Drained) -> bool {
    &&& end.state.coherent()
    &&& end.outcome matches OutcomeModel::Call(_, suspended) ==> end.state.awaits(suspended.wait)
        && suspended.queue.len() == 0
}

/// Draining a queue of at most one action, which the state takes, keeps
/// the agreement of mode, dialog and flags, through everything that
/// follows from the action.
pub proof fn lemma_drain_keeps_lockstep(state: AppModel, queue: Seq<ActionModel>, now: u64)
    requires
        state.coherent(),
        queue.len() <= 1,
        queue.len() == 1 ==> state.takes(queue[0]),
    ensures
        ends_in_lockstep(drained(state, queue, now)),
    decreases total_rank(queue),
{
    if queue.len() == 1 {
        let step = state.applied(queue[0], now);
        let rest = step.queue_after(queue.drop_first());
        lemma_action_keeps_lockstep(state, queue[0], now);
        lemma_drained_unfolds(state, queue, now);
        assert(queue.drop_first().len() == 0);
        match step.flow {
            FlowModel::Continue => {
                state.lemma_applied_rank(queue[0], now);
                if step.pushed is Some {
                    lemma_total_rank_push(queue.drop_first(), step.pushed->0);
                }
                lemma_drain_keeps_lockstep(step.state, rest, now);
            },
            FlowModel::Failed(words) => {
                lemma_error_funnel_is_coherent(step.state, words);
            },
            _ => {},
        }
    }
}

/// Handling an input event keeps the agreement of mode, dialog and flags.
pub proof fn lemma_event_keeps_lockstep(state: AppModel, event: EventModel, now: u64)
    requires
        state.coherent(),
    ensures
        ends_in_lockstep(handled(state, event, now)),
{
    let translated = state.translated(event, now);
    assert(translated.state.coherent());
    match event {
        EventModel::Key(key) => {
            lemma_keys_mean_what_the_state_takes(translated.state, key.code);
        },
        _ => {},
    }
    lemma_drain_keeps_lockstep(translated.state, translated.actions, now);
}

/// Going on with a reply keeps the agreement of mode, dialog and flags,
/// where the state awaits the reply and nothing is queued.
pub proof fn lemma_resumption_keeps_lockstep(
    state: AppModel,
    suspended: SuspendedModel,
    reply: ReplyModel,
)
    requires
        state.coherent(),
        state.awaits(suspended.wait),
        suspended.queue.len() == 0,
    ensures
        ends_in_lockstep(resumed(state, suspended, reply)),
{
    let step = state.replied(suspended.wait, reply);
    let rest = step.queue_after(suspended.queue);
    lemma_reply_keeps_lockstep(state, suspended.wait, reply);
    match step.flow {
        FlowModel::Continue => {
            if step.pushed is Some {
                assert(rest.len() == 1 && rest[0] == step.pushed->0);
            }
            lemma_drain_keeps_lockstep(step.state, rest, suspended.now);
        },
        FlowModel::Failed(words) => {
            lemma_error_funnel_is_coherent(step.state, words);
        },
        _ => {},
    }
}

/// A source waits for a destination only at the destination step, in
/// every state in which mode, dialog and flags agree.
pub proof fn lemma_source_waits_at_the_destination_step(state: AppModel)
    requires
        state.coherent(),
        state.pending_add_input is Some,
    ensures
        state.mode == Mode::EnterTorrentDir,
        state.dialog == Dialog::AddTorrent,
{
}

} // verus!
