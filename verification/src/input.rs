//! The input translator: what a raw input event means in the state that it
//! arrives in.

use crate::action::{Action, ActionModel};
use crate::model::AppModel;
use crate::modes::{FocusPanel, Mode};
use crate::modes;
use crate::state::App;
use vstd::prelude::*;

verus! {

/// The key of a key event, as far as the translator tells keys apart.
#[derive(Debug, Clone, Copy, PartialEq, Eq, Structural)]
pub enum KeyCode {
    Char(char),
    Up,
    Down,
    Left,
    Right,
    Enter,
    Esc,
    Tab,
    BackTab,
    Backspace,
    Delete,
    Home,
    End,
    /// Any other key.
    Other,
}

/// What happened to the key.
#[derive(Debug, Clone, Copy, PartialEq, Eq, Structural)]
pub enum KeyEventKind {
    Press,
    Repeat,
    Release,
}

/// A key event.
#[derive(Debug, Clone, Copy, PartialEq, Eq, Structural)]
pub struct KeyEvent {
    pub code: KeyCode,
    pub kind: KeyEventKind,
}

/// A raw input event.
#[derive(Debug, Clone, PartialEq, Eq)]
pub enum Event {
    Key(KeyEvent),
    /// Text that the terminal reports as pasted.
    Paste(String),
    Resize(u16, u16),
    /// Anything else.
    Other,
}

/// What an `Event` holds, as mathematical values.
pub enum EventModel {
    Key(KeyEvent),
    Paste(Seq<char>),
    Resize(u16, u16),
    Other,
}

impl DeepView for Event {
    type V = EventModel;

    open spec fn deep_view(&self) -> EventModel {
        match self {
            Event::Key(key) => EventModel::Key(*key),
            Event::Paste(text) => EventModel::Paste(text@),
            Event::Resize(width, height) => EventModel::Resize(*width, *height),
            Event::Other => EventModel::Other,
        }
    }
}

/// Whether `code` is an arrow key.
pub open spec fn is_arrow(code: KeyCode) -> bool {
    code is Up || code is Down || code is Left || code is Right
}

/// Whether `c` is one of the letters that move like the arrow keys.
pub open spec fn is_navigation_char(c: char) -> bool {
    c == 'h' || c == 'j' || c == 'k' || c == 'l'
}

/// What a key means while the help is open.
pub open spec fn help_key(code: KeyCode) -> Option<ActionModel> {
    match code {
        KeyCode::Char('?') | KeyCode::Char('x') | KeyCode::Esc => Some(ActionModel::HelpClose),
        KeyCode::Up | KeyCode::Char('k') => Some(ActionModel::HelpScroll((-1) as i16)),
        KeyCode::Down | KeyCode::Char('j') => Some(ActionModel::HelpScroll(1)),
        _ => None,
    }
}

/// What a key means while an error is shown.
pub open spec fn error_key(code: KeyCode) -> Option<ActionModel> {
    match code {
        KeyCode::Char('x') | KeyCode::Esc => Some(ActionModel::ErrorClear),
        _ => None,
    }
}

/// What a key means while the delete confirmation is open.
pub open spec fn confirm_delete_key(code: KeyCode) -> Option<ActionModel> {
    match code {
        KeyCode::Left | KeyCode::Char('h') | KeyCode::Char('y') | KeyCode::Char('Y') => Some(
            ActionModel::ConfirmDeleteSelect(true),
        ),
        KeyCode::Right | KeyCode::Char('l') | KeyCode::Char('n') | KeyCode::Char('N') => Some(
            ActionModel::ConfirmDeleteSelect(false),
        ),
        KeyCode::Esc => Some(ActionModel::ConfirmDeleteCancel),
        KeyCode::Enter => Some(ActionModel::ConfirmDeleteConfirm),
        _ => None,
    }
}

/// What a key means while the quit confirmation is open.
pub open spec fn confirm_quit_key(code: KeyCode) -> Option<ActionModel> {
    match code {
        KeyCode::Left | KeyCode::Char('h') | KeyCode::Char('y') | KeyCode::Char('Y') => Some(
            ActionModel::ConfirmQuitSelect(true),
        ),
        KeyCode::Right | KeyCode::Char('l') | KeyCode::Char('n') | KeyCode::Char('N') => Some(
            ActionModel::ConfirmQuitSelect(false),
        ),
        KeyCode::Esc => Some(ActionModel::ConfirmQuitCancel),
        KeyCode::Enter => Some(ActionModel::ConfirmQuitConfirm),
        _ => None,
    }
}

/// What a key means in normal mode, with `focus` on one of the panels: the
/// view switches first, then the commands.
pub open spec fn normal_key(code: KeyCode, focus: FocusPanel) -> Option<ActionModel> {
    match code {
        KeyCode::Char('f') => Some(ActionModel::ViewSet(modes::View::Torrents)),
        KeyCode::Char('i') => Some(ActionModel::ViewSet(modes::View::Info)),
        KeyCode::Char('v') => Some(ActionModel::ViewSet(modes::View::Peers)),
        KeyCode::Tab | KeyCode::BackTab | KeyCode::Char('\t') => Some(ActionModel::FocusToggle),
        KeyCode::Char('?') => Some(ActionModel::HelpOpen),
        KeyCode::Char('t') => Some(ActionModel::FocusSet(FocusPanel::Torrents)),
        KeyCode::Char('g') => Some(ActionModel::FocusSet(FocusPanel::Filters)),
        KeyCode::Char('p') => Some(ActionModel::TogglePause),
        KeyCode::Char('a') => Some(ActionModel::StartAdd),
        KeyCode::Char('d') => Some(ActionModel::ConfirmDeleteOpen),
        KeyCode::Char('q') => Some(ActionModel::ConfirmQuitOpen),
        KeyCode::Char('1') => Some(ActionModel::SetFilter(0)),
        KeyCode::Char('2') => Some(ActionModel::SetFilter(1)),
        KeyCode::Char('3') => Some(ActionModel::SetFilter(2)),
        KeyCode::Char('4') => Some(ActionModel::SetFilter(3)),
        KeyCode::Char('5') => Some(ActionModel::SetFilter(4)),
        KeyCode::Char('6') => Some(ActionModel::SetFilter(5)),
        KeyCode::Char('r') => Some(ActionModel::Refresh),
        KeyCode::Down | KeyCode::Char('j') => Some(
            match focus {
                FocusPanel::Torrents => ActionModel::MoveSelection(1),
                FocusPanel::Filters => ActionModel::MoveFilter(1),
            },
        ),
        KeyCode::Up | KeyCode::Char('k') => Some(
            match focus {
                FocusPanel::Torrents => ActionModel::MoveSelection((-1) as isize),
                FocusPanel::Filters => ActionModel::MoveFilter((-1) as isize),
            },
        ),
        _ => None,
    }
}

/// What a key means while text is entered.
pub open spec fn text_key(code: KeyCode) -> Option<ActionModel> {
    match code {
        KeyCode::Esc => Some(ActionModel::InputCancel),
        KeyCode::Enter => Some(ActionModel::InputEnter),
        KeyCode::Backspace => Some(ActionModel::InputBackspace),
        KeyCode::Delete => Some(ActionModel::InputDelete),
        KeyCode::Left => Some(ActionModel::InputLeft),
        KeyCode::Right => Some(ActionModel::InputRight),
        KeyCode::Home => Some(ActionModel::InputHome),
        KeyCode::End => Some(ActionModel::InputEnd),
        KeyCode::Char(c) => Some(ActionModel::InputChar(c)),
        _ => None,
    }
}

/// What a key means in the file picker.
pub open spec fn picker_key(code: KeyCode) -> Option<ActionModel> {
    match code {
        KeyCode::Esc => Some(ActionModel::FilePickerCancel),
        KeyCode::Up | KeyCode::Char('k') => Some(ActionModel::FilePickerUp),
        KeyCode::Down | KeyCode::Char('j') => Some(ActionModel::FilePickerDown),
        KeyCode::Char(' ') => Some(ActionModel::FilePickerToggle),
        KeyCode::Char('a') => Some(ActionModel::FilePickerAll),
        KeyCode::Char('n') => Some(ActionModel::FilePickerNone),
        KeyCode::Enter => Some(ActionModel::FilePickerConfirm),
        _ => None,
    }
}

/// The result of translating one input: the state after it, and the actions
/// that it means, in order.
pub struct Translated {
    pub state: AppModel,
    pub actions: Seq<ActionModel>,
}

impl AppModel {
    /// Whether a key event is taken at all: a press always; a repeat of an
    /// arrow key, or of a character key while text is entered; nothing else.
    pub open spec fn admits(self, key: KeyEvent) -> bool {
        match key.kind {
            KeyEventKind::Press => true,
            KeyEventKind::Repeat => is_arrow(key.code) || (self.takes_text() && key.code is Char),
            KeyEventKind::Release => false,
        }
    }

    /// Whether a key that arrives at `now` is weighed as possible paste
    /// noise: a character key in normal mode that is no navigation letter.
    pub open spec fn weighs(self, code: KeyCode) -> bool {
        self.mode == Mode::Normal && code is Char && !is_navigation_char(code->Char_0)
    }

    /// The state after the paste check on a key that arrives at `now`, and
    /// whether the key is dropped. In normal mode a key that is no character
    /// key forgets the arrival of the last character key.
    pub open spec fn debounced(self, code: KeyCode, now: u64) -> (AppModel, bool) {
        if self.weighs(code) {
            self.paste_checked(now)
        } else if self.mode == Mode::Normal && !(code is Char) {
            (AppModel { last_char_at: None, ..self }, false)
        } else {
            (self, false)
        }
    }

    /// What a key means in this state: the help comes first, then the error,
    /// the delete confirmation, the quit confirmation, and then the mode.
    pub open spec fn key_action(self, code: KeyCode) -> Option<ActionModel> {
        if self.show_help {
            help_key(code)
        } else if self.last_error is Some {
            error_key(code)
        } else if self.confirm_delete {
            confirm_delete_key(code)
        } else if self.confirm_quit {
            confirm_quit_key(code)
        } else {
            match self.mode {
                Mode::Normal => normal_key(code, self.focus),
                Mode::EnterMagnet | Mode::EnterTorrentDir => text_key(code),
                Mode::FilePicker => picker_key(code),
            }
        }
    }

    /// A key event that arrives at `now` is translated.
    pub open spec fn key_translated(self, key: KeyEvent, now: u64) -> Translated {
        if !self.admits(key) {
            Translated { state: self, actions: Seq::empty() }
        } else {
            let (state, dropped) = self.debounced(key.code, now);
            if dropped {
                Translated { state, actions: Seq::empty() }
            } else {
                Translated {
                    state,
                    actions: match state.key_action(key.code) {
                        Some(action) => seq![action],
                        None => Seq::empty(),
                    },
                }
            }
        }
    }

    /// An input event that arrives at `now` is translated: a key as its state
    /// has it, pasted text as one action, anything else as nothing.
    pub open spec fn translated(self, event: EventModel, now: u64) -> Translated {
        match event {
            EventModel::Key(key) => self.key_translated(key, now),
            EventModel::Paste(text) => Translated {
                state: self,
                actions: seq![ActionModel::Paste(text)],
            },
            _ => Translated { state: self, actions: Seq::empty() },
        }
    }
}

/// What a key means while the help is open.
pub fn help_key_action(code: KeyCode) -> (action: Option<Action>)
    ensures
        action.deep_view() == help_key(code),
{
    match code {
        KeyCode::Char('?') | KeyCode::Char('x') | KeyCode::Esc => Some(Action::HelpClose),
        KeyCode::Up | KeyCode::Char('k') => Some(Action::HelpScroll(-1)),
        KeyCode::Down | KeyCode::Char('j') => Some(Action::HelpScroll(1)),
        _ => None,
    }
}

/// What a key means while an error is shown.
pub fn error_key_action(code: KeyCode) -> (action: Option<Action>)
    ensures
        action.deep_view() == error_key(code),
{
    match code {
        KeyCode::Char('x') | KeyCode::Esc => Some(Action::ErrorClear),
        _ => None,
    }
}

/// What a key means while the delete confirmation is open.
pub fn confirm_delete_key_action(code: KeyCode) -> (action: Option<Action>)
    ensures
        action.deep_view() == confirm_delete_key(code),
{
    match code {
        KeyCode::Left | KeyCode::Char('h') | KeyCode::Char('y') | KeyCode::Char('Y') => Some(
            Action::ConfirmDeleteSelect(true),
        ),
        KeyCode::Right | KeyCode::Char('l') | KeyCode::Char('n') | KeyCode::Char('N') => Some(
            Action::ConfirmDeleteSelect(false),
        ),
        KeyCode::Esc => Some(Action::ConfirmDeleteCancel),
        KeyCode::Enter => Some(Action::ConfirmDeleteConfirm),
        _ => None,
    }
}

/// What a key means while the quit confirmation is open.
pub fn confirm_quit_key_action(code: KeyCode) -> (action: Option<Action>)
    ensures
        action.deep_view() == confirm_quit_key(code),
{
    match code {
        KeyCode::Left | KeyCode::Char('h') | KeyCode::Char('y') | KeyCode::Char('Y') => Some(
            Action::ConfirmQuitSelect(true),
        ),
        KeyCode::Right | KeyCode::Char('l') | KeyCode::Char('n') | KeyCode::Char('N') => Some(
            Action::ConfirmQuitSelect(false),
        ),
        KeyCode::Esc => Some(Action::ConfirmQuitCancel),
        KeyCode::Enter => Some(Action::ConfirmQuitConfirm),
        _ => None,
    }
}

/// What a key means in normal mode, with `focus` on one of the panels.
pub fn normal_key_action(code: KeyCode, focus: FocusPanel) -> (action: Option<Action>)
    ensures
        action.deep_view() == normal_key(code, focus),
{
    match code {
        KeyCode::Char('f') => Some(Action::ViewSet(modes::View::Torrents)),
        KeyCode::Char('i') => Some(Action::ViewSet(modes::View::Info)),
        KeyCode::Char('v') => Some(Action::ViewSet(modes::View::Peers)),
        KeyCode::Tab | KeyCode::BackTab | KeyCode::Char('\t') => Some(Action::FocusToggle),
        KeyCode::Char('?') => Some(Action::HelpOpen),
        KeyCode::Char('t') => Some(Action::FocusSet(FocusPanel::Torrents)),
        KeyCode::Char('g') => Some(Action::FocusSet(FocusPanel::Filters)),
        KeyCode::Char('p') => Some(Action::TogglePause),
        KeyCode::Char('a') => Some(Action::StartAdd),
        KeyCode::Char('d') => Some(Action::ConfirmDeleteOpen),
        KeyCode::Char('q') => Some(Action::ConfirmQuitOpen),
        KeyCode::Char('1') => Some(Action::SetFilter(0)),
        KeyCode::Char('2') => Some(Action::SetFilter(1)),
        KeyCode::Char('3') => Some(Action::SetFilter(2)),
        KeyCode::Char('4') => Some(Action::SetFilter(3)),
        KeyCode::Char('5') => Some(Action::SetFilter(4)),
        KeyCode::Char('6') => Some(Action::SetFilter(5)),
        KeyCode::Char('r') => Some(Action::Refresh),
        KeyCode::Down | KeyCode::Char('j') => Some(
            match focus {
                FocusPanel::Torrents => Action::MoveSelection(1),
                FocusPanel::Filters => Action::MoveFilter(1),
            },
        ),
        KeyCode::Up | KeyCode::Char('k') => Some(
            match focus {
                FocusPanel::Torrents => Action::MoveSelection(-1),
                FocusPanel::Filters => Action::MoveFilter(-1),
            },
        ),
        _ => None,
    }
}

/// What a key means while text is entered.
pub fn text_key_action(code: KeyCode) -> (action: Option<Action>)
    ensures
        action.deep_view() == text_key(code),
{
    match code {
        KeyCode::Esc => Some(Action::InputCancel),
        KeyCode::Enter => Some(Action::InputEnter),
        KeyCode::Backspace => Some(Action::InputBackspace),
        KeyCode::Delete => Some(Action::InputDelete),
        KeyCode::Left => Some(Action::InputLeft),
        KeyCode::Right => Some(Action::InputRight),
        KeyCode::Home => Some(Action::InputHome),
        KeyCode::End => Some(Action::InputEnd),
        KeyCode::Char(c) => Some(Action::InputChar(c)),
        _ => None,
    }
}

/// What a key means in the file picker.
pub fn picker_key_action(code: KeyCode) -> (action: Option<Action>)
    ensures
        action.deep_view() == picker_key(code),
{
    match code {
        KeyCode::Esc => Some(Action::FilePickerCancel),
        KeyCode::Up | KeyCode::Char('k') => Some(Action::FilePickerUp),
        KeyCode::Down | KeyCode::Char('j') => Some(Action::FilePickerDown),
        KeyCode::Char(' ') => Some(Action::FilePickerToggle),
        KeyCode::Char('a') => Some(Action::FilePickerAll),
        KeyCode::Char('n') => Some(Action::FilePickerNone),
        KeyCode::Enter => Some(Action::FilePickerConfirm),
        _ => None,
    }
}

impl App {
    /// What a key means in this state.
    pub fn action_for_key(&self, code: KeyCode) -> (action: Option<Action>)
        ensures
            action.deep_view() == self.model().key_action(code),
    {
        if self.show_help {
            help_key_action(code)
        } else if self.last_error.is_some() {
            error_key_action(code)
        } else if self.confirm_delete {
            confirm_delete_key_action(code)
        } else if self.confirm_quit {
            confirm_quit_key_action(code)
        } else {
            match self.mode {
                Mode::Normal => normal_key_action(code, self.focus),
                Mode::EnterMagnet | Mode::EnterTorrentDir => text_key_action(code),
                Mode::FilePicker => picker_key_action(code),
            }
        }
    }

    /// Translates a key event that arrives at `now` (milliseconds on a
    /// monotonic clock) into the actions that it means.
    pub fn actions_from_key(&mut self, key: KeyEvent, now: u64) -> (actions: Vec<Action>)
        ensures
            final(self).model() == old(self).model().key_translated(key, now).state,
            actions.deep_view() == old(self).model().key_translated(key, now).actions,
    {
        proof {
            use_type_invariant(&*self);
        }
        let mut actions: Vec<Action> = Vec::new();
        assert(actions.deep_view() =~= Seq::<ActionModel>::empty());
        let text_mode = matches!(self.mode, Mode::EnterMagnet | Mode::EnterTorrentDir);
        let is_char = matches!(key.code, KeyCode::Char(_));
        match key.kind {
            KeyEventKind::Press => {},
            KeyEventKind::Repeat => {
                let arrow = matches!(
                    key.code,
                    KeyCode::Up | KeyCode::Down | KeyCode::Left | KeyCode::Right
                );
                if !arrow && !(text_mode && is_char) {
                    return actions;
                }
            },
            KeyEventKind::Release => {
                return actions;
            },
        }
        if matches!(self.mode, Mode::Normal) {
            match key.code {
                KeyCode::Char(c) => {
                    let navigation = c == 'h' || c == 'j' || c == 'k' || c == 'l';
                    if !navigation && self.should_ignore_paste_char(now) {
                        return actions;
                    }
                },
                _ => {
                    self.last_char_at = None;
                },
            }
        }
        match self.action_for_key(key.code) {
            Some(action) => {
                actions.push(action);
                assert(actions.deep_view() =~= seq![action.deep_view()]);
            },
            None => {},
        }
        actions
    }

    /// Translates an input event that arrives at `now` (milliseconds on a
    /// monotonic clock) into the actions that it means.
    pub fn actions_from_event(&mut self, event: Event, now: u64) -> (actions: Vec<Action>)
        ensures
            final(self).model() == old(self).model().translated(event.deep_view(), now).state,
            actions.deep_view() == old(self).model().translated(event.deep_view(), now).actions,
    {
        match event {
            Event::Key(key) => self.actions_from_key(key, now),
            Event::Paste(text) => {
                let mut actions: Vec<Action> = Vec::new();
                actions.push(Action::Paste(text));
                assert(actions.deep_view() =~= seq![ActionModel::Paste(text@)]);
                actions
            },
            _ => {
                let actions: Vec<Action> = Vec::new();
                assert(actions.deep_view() =~= Seq::<ActionModel>::empty());
                actions
            },
        }
    }
}

} // verus!
