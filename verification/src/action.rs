//! The discrete intents that the reducer applies.

use crate::effect::{Effect, EffectModel};
use crate::modes::FocusPanel;
use crate::modes;
use vstd::prelude::*;

verus! {

/// One intent: what a key meant, or what an effect reported.
#[derive(Debug, Clone, PartialEq, Eq)]
pub enum Action {
    Paste(String),
    HelpOpen,
    HelpClose,
    HelpScroll(i16),
    ErrorClear,
    ConfirmDeleteOpen,
    ConfirmDeleteSelect(bool),
    ConfirmDeleteConfirm,
    ConfirmDeleteCancel,
    ConfirmQuitOpen,
    ConfirmQuitSelect(bool),
    ConfirmQuitConfirm,
    ConfirmQuitCancel,
    ViewSet(modes::View),
    FocusToggle,
    FocusSet(FocusPanel),
    MoveSelection(isize),
    MoveFilter(isize),
    SetFilter(usize),
    TogglePause,
    StartAdd,
    InputChar(char),
    InputBackspace,
    InputDelete,
    InputLeft,
    InputRight,
    InputHome,
    InputEnd,
    InputEnter,
    InputCancel,
    FilePickerCancel,
    FilePickerUp,
    FilePickerDown,
    FilePickerToggle,
    FilePickerAll,
    FilePickerNone,
    FilePickerConfirm,
    Refresh,
    RunEffect(Effect),
    PreflightAddResult { magnet: String },
}

/// What an `Action` holds, as mathematical values.
pub enum ActionModel {
    Paste(Seq<char>),
    HelpOpen,
    HelpClose,
    HelpScroll(i16),
    ErrorClear,
    ConfirmDeleteOpen,
    ConfirmDeleteSelect(bool),
    ConfirmDeleteConfirm,
    ConfirmDeleteCancel,
    ConfirmQuitOpen,
    ConfirmQuitSelect(bool),
    ConfirmQuitConfirm,
    ConfirmQuitCancel,
    ViewSet(modes::View),
    FocusToggle,
    FocusSet(FocusPanel),
    MoveSelection(isize),
    MoveFilter(isize),
    SetFilter(usize),
    TogglePause,
    StartAdd,
    InputChar(char),
    InputBackspace,
    InputDelete,
    InputLeft,
    InputRight,
    InputHome,
    InputEnd,
    InputEnter,
    InputCancel,
    FilePickerCancel,
    FilePickerUp,
    FilePickerDown,
    FilePickerToggle,
    FilePickerAll,
    FilePickerNone,
    FilePickerConfirm,
    Refresh,
    RunEffect(EffectModel),
    PreflightAddResult { magnet: Seq<char> },
}

impl DeepView for Action {
    type V = ActionModel;

    open spec fn deep_view(&self) -> ActionModel {
        match self {
            Action::Paste(text) => ActionModel::Paste(text@),
            Action::HelpOpen => ActionModel::HelpOpen,
            Action::HelpClose => ActionModel::HelpClose,
            Action::HelpScroll(delta) => ActionModel::HelpScroll(*delta),
            Action::ErrorClear => ActionModel::ErrorClear,
            Action::ConfirmDeleteOpen => ActionModel::ConfirmDeleteOpen,
            Action::ConfirmDeleteSelect(yes) => ActionModel::ConfirmDeleteSelect(*yes),
            Action::ConfirmDeleteConfirm => ActionModel::ConfirmDeleteConfirm,
            Action::ConfirmDeleteCancel => ActionModel::ConfirmDeleteCancel,
            Action::ConfirmQuitOpen => ActionModel::ConfirmQuitOpen,
            Action::ConfirmQuitSelect(yes) => ActionModel::ConfirmQuitSelect(*yes),
            Action::ConfirmQuitConfirm => ActionModel::ConfirmQuitConfirm,
            Action::ConfirmQuitCancel => ActionModel::ConfirmQuitCancel,
            Action::ViewSet(view) => ActionModel::ViewSet(*view),
            Action::FocusToggle => ActionModel::FocusToggle,
            Action::FocusSet(panel) => ActionModel::FocusSet(*panel),
            Action::MoveSelection(delta) => ActionModel::MoveSelection(*delta),
            Action::MoveFilter(delta) => ActionModel::MoveFilter(*delta),
            Action::SetFilter(index) => ActionModel::SetFilter(*index),
            Action::TogglePause => ActionModel::TogglePause,
            Action::StartAdd => ActionModel::StartAdd,
            Action::InputChar(c) => ActionModel::InputChar(*c),
            Action::InputBackspace => ActionModel::InputBackspace,
            Action::InputDelete => ActionModel::InputDelete,
            Action::InputLeft => ActionModel::InputLeft,
            Action::InputRight => ActionModel::InputRight,
            Action::InputHome => ActionModel::InputHome,
            Action::InputEnd => ActionModel::InputEnd,
            Action::InputEnter => ActionModel::InputEnter,
            Action::InputCancel => ActionModel::InputCancel,
            Action::FilePickerCancel => ActionModel::FilePickerCancel,
            Action::FilePickerUp => ActionModel::FilePickerUp,
            Action::FilePickerDown => ActionModel::FilePickerDown,
            Action::FilePickerToggle => ActionModel::FilePickerToggle,
            Action::FilePickerAll => ActionModel::FilePickerAll,
            Action::FilePickerNone => ActionModel::FilePickerNone,
            Action::FilePickerConfirm => ActionModel::FilePickerConfirm,
            Action::Refresh => ActionModel::Refresh,
            Action::RunEffect(effect) => ActionModel::RunEffect(effect.deep_view()),
            Action::PreflightAddResult { magnet } => ActionModel::PreflightAddResult {
                magnet: magnet@,
            },
        }
    }
}

/// How many more actions an action can lead to: an effect's report leads to
/// none, an effect to a report, anything else to an effect.
pub open spec fn rank(action: ActionModel) -> nat {
    match action {
        ActionModel::PreflightAddResult { .. } => 1,
        ActionModel::RunEffect(_) => 2,
        _ => 3,
    }
}

/// The sum of the ranks of the actions of `queue`.
pub open spec fn total_rank(queue: Seq<ActionModel>) -> nat
    decreases queue.len(),
{
    if queue.len() == 0 {
        0
    } else {
        rank(queue[0]) + total_rank(queue.drop_first())
    }
}

/// The rank of a queue grows by the rank of what is pushed onto it.
pub proof fn lemma_total_rank_push(queue: Seq<ActionModel>, action: ActionModel)
    ensures
        total_rank(queue.push(action)) == total_rank(queue) + rank(action),
    decreases queue.len(),
{
    if queue.len() == 0 {
        assert(queue.push(action).drop_first() =~= Seq::<ActionModel>::empty());
        assert(total_rank(queue.push(action).drop_first()) == 0);
    } else {
        assert(queue.push(action).drop_first() =~= queue.drop_first().push(action));
        lemma_total_rank_push(queue.drop_first(), action);
    }
}

} // verus!
