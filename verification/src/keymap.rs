use vstd::prelude::*;
use vstd::view::View as _;
use crate::app::{Action, AppState, Direction, PopupState, Tab, View};

verus! {

/// The keys the application distinguishes; every other key is `Other`.
#[derive(Debug, Clone, Copy, PartialEq, Eq, Structural)]
pub enum KeyCode {
    Char(char),
    Enter,
    Esc,
    Backspace,
    Tab,
    BackTab,
    Left,
    Right,
    Up,
    Down,
    Other,
}

/// A key press: the key and whether Control was held.
#[derive(Debug, Clone, Copy, PartialEq, Eq, Structural)]
pub struct KeyEvent {
    pub code: KeyCode,
    pub ctrl: bool,
}

pub open spec fn next_tab_spec(t: Tab) -> Tab {
    match t {
        Tab::ForYou => Tab::SavedSearches,
        Tab::SavedSearches => Tab::Subscriptions,
        Tab::Subscriptions => Tab::History,
        Tab::History => Tab::ForYou,
    }
}

pub open spec fn prev_tab_spec(t: Tab) -> Tab {
    match t {
        Tab::ForYou => Tab::History,
        Tab::SavedSearches => Tab::ForYou,
        Tab::Subscriptions => Tab::SavedSearches,
        Tab::History => Tab::Subscriptions,
    }
}

/// Keys while a popup is open.
pub open spec fn popup_key_spec(code: KeyCode, popup: Option<PopupState>) -> Option<Action> {
    match popup {
        Some(PopupState::ConfirmDelete { .. }) => match code {
            KeyCode::Char(c) => if c == 'y' || c == 'Y' {
                Some(Action::PopupSubmit)
            } else if c == 'n' || c == 'N' {
                Some(Action::PopupCancel)
            } else {
                None
            },
            KeyCode::Esc => Some(Action::PopupCancel),
            _ => None,
        },
        Some(_) => match code {
            KeyCode::Enter => Some(Action::PopupSubmit),
            KeyCode::Esc => Some(Action::PopupCancel),
            KeyCode::Backspace => Some(Action::PopupBackspace),
            KeyCode::Char(c) => Some(Action::PopupInput(c)),
            _ => None,
        },
        None => None,
    }
}

/// Keys while the filter bar has focus.
pub open spec fn filter_key_spec(code: KeyCode) -> Option<Action> {
    match code {
        KeyCode::Char(c) => if c == 'r' {
            Some(Action::ResetFilters)
        } else if c == 'f' {
            Some(Action::ExitFilterMode)
        } else if c == 'l' {
            Some(Action::FilterNextField)
        } else if c == 'h' {
            Some(Action::FilterPrevField)
        } else if c == 'k' {
            Some(Action::FilterCycleUp)
        } else if c == 'j' {
            Some(Action::FilterCycleDown)
        } else {
            None
        },
        KeyCode::Esc => Some(Action::ExitFilterMode),
        KeyCode::Tab => Some(Action::FilterNextField),
        KeyCode::Right => Some(Action::FilterNextField),
        KeyCode::BackTab => Some(Action::FilterPrevField),
        KeyCode::Left => Some(Action::FilterPrevField),
        KeyCode::Up => Some(Action::FilterCycleUp),
        KeyCode::Down => Some(Action::FilterCycleDown),
        KeyCode::Enter => Some(Action::ExitFilterMode),
        _ => None,
    }
}

/// Keys while the search bar has focus (Enter is decided by the caller).
pub open spec fn search_key_spec(code: KeyCode) -> Option<Action> {
    match code {
        KeyCode::Esc => Some(Action::UnfocusSearch),
        KeyCode::Backspace => Some(Action::SearchBackspace),
        KeyCode::Char(c) => Some(Action::SearchInput(c)),
        _ => None,
    }
}

/// Keys while the command line is open (Enter is decided by the caller).
pub open spec fn command_key_spec(code: KeyCode) -> Option<Action> {
    match code {
        KeyCode::Esc => Some(Action::CancelCommand),
        KeyCode::Backspace => Some(Action::CommandBackspace),
        KeyCode::Char(c) => Some(Action::CommandInput(c)),
        _ => None,
    }
}

/// Character keys in normal mode. The number keys switch tabs: `1` For
/// You, `2` Subscriptions, `3` and `4` History; Saved Searches is reached
/// with `Tab`.
pub open spec fn char_key_spec(c: char, ctrl: bool, view: View, tab: Tab) -> Option<Action> {
    if c == 'q' {
        Some(Action::Quit)
    } else if c == 'c' && ctrl {
        Some(Action::Quit)
    } else if c == '/' || c == 's' {
        Some(Action::FocusSearch)
    } else if c == '1' {
        Some(Action::SwitchTab(Tab::ForYou))
    } else if c == '2' {
        Some(Action::SwitchTab(Tab::Subscriptions))
    } else if c == '3' {
        Some(Action::SwitchTab(Tab::History))
    } else if c == '4' {
        Some(Action::SwitchTab(Tab::History))
    } else if c == 'h' {
        Some(Action::Navigate(Direction::Left))
    } else if c == 'j' {
        Some(Action::Navigate(Direction::Down))
    } else if c == 'k' {
        Some(Action::Navigate(Direction::Up))
    } else if c == 'l' {
        Some(Action::Navigate(Direction::Right))
    } else if c == ' ' {
        Some(Action::TogglePause)
    } else if c == '>' {
        Some(Action::Seek(10))
    } else if c == '<' {
        Some(Action::Seek(-10i64))
    } else if c == '+' || c == '=' {
        Some(Action::VolumeUp)
    } else if c == '-' {
        Some(Action::VolumeDown)
    } else if c == 'Q' {
        Some(Action::TogglePlaybackQuality)
    } else if c == 'X' {
        Some(Action::StopPlayerAndQuit)
    } else if c == 'S' {
        if view is Search {
            Some(Action::OpenSaveSearchPopup)
        } else {
            Some(Action::SubscribeSelected)
        }
    } else if c == 'f' && view is Search {
        Some(Action::EnterFilterMode)
    } else if c == 'd' && view is Home && tab == Tab::SavedSearches {
        Some(Action::OpenDeleteSearchConfirm)
    } else if c == 'r' && view is Home && tab == Tab::SavedSearches {
        Some(Action::OpenRenameSearchPopup)
    } else if c == ':' {
        Some(Action::EnterCommandMode)
    } else {
        None
    }
}

/// Keys in normal mode.
pub open spec fn normal_key_spec(key: KeyEvent, view: View, tab: Tab) -> Option<Action> {
    match key.code {
        KeyCode::Char(c) => char_key_spec(c, key.ctrl, view, tab),
        KeyCode::Tab => Some(Action::SwitchTab(next_tab_spec(tab))),
        KeyCode::BackTab => Some(Action::SwitchTab(prev_tab_spec(tab))),
        KeyCode::Left => Some(Action::Navigate(Direction::Left)),
        KeyCode::Down => Some(Action::Navigate(Direction::Down)),
        KeyCode::Up => Some(Action::Navigate(Direction::Up)),
        KeyCode::Right => Some(Action::Navigate(Direction::Right)),
        KeyCode::Enter => Some(Action::Select),
        KeyCode::Esc => Some(Action::Back),
        _ => None,
    }
}

/// The action a key press maps to: a popup takes keys first, then the
/// command line, then the search bar, then the filter bar, then normal mode.
pub open spec fn map_key_spec(key: KeyEvent, s: AppState) -> Option<Action> {
    if s.popup is Some {
        popup_key_spec(key.code, s.popup)
    } else if s.command.active {
        command_key_spec(key.code)
    } else if s.search.focused {
        search_key_spec(key.code)
    } else if s.search.filter.active {
        filter_key_spec(key.code)
    } else {
        normal_key_spec(key, s.view, s.tabs.active)
    }
}

fn map_popup_key(code: KeyCode, state: &AppState) -> (r: Option<Action>)
    ensures
        r == popup_key_spec(code, state.popup),
{
    match &state.popup {
        Some(PopupState::ConfirmDelete { .. }) => match code {
            KeyCode::Char(c) => if c == 'y' || c == 'Y' {
                Some(Action::PopupSubmit)
            } else if c == 'n' || c == 'N' {
                Some(Action::PopupCancel)
            } else {
                None
            },
            KeyCode::Esc => Some(Action::PopupCancel),
            _ => None,
        },
        Some(_) => match code {
            KeyCode::Enter => Some(Action::PopupSubmit),
            KeyCode::Esc => Some(Action::PopupCancel),
            KeyCode::Backspace => Some(Action::PopupBackspace),
            KeyCode::Char(c) => Some(Action::PopupInput(c)),
            _ => None,
        },
        None => None,
    }
}

fn map_filter_key(code: KeyCode) -> (r: Option<Action>)
    ensures
        r == filter_key_spec(code),
{
    match code {
        KeyCode::Char(c) => if c == 'r' {
            Some(Action::ResetFilters)
        } else if c == 'f' {
            Some(Action::ExitFilterMode)
        } else if c == 'l' {
            Some(Action::FilterNextField)
        } else if c == 'h' {
            Some(Action::FilterPrevField)
        } else if c == 'k' {
            Some(Action::FilterCycleUp)
        } else if c == 'j' {
            Some(Action::FilterCycleDown)
        } else {
            None
        },
        KeyCode::Esc => Some(Action::ExitFilterMode),
        KeyCode::Tab | KeyCode::Right => Some(Action::FilterNextField),
        KeyCode::BackTab | KeyCode::Left => Some(Action::FilterPrevField),
        KeyCode::Up => Some(Action::FilterCycleUp),
        KeyCode::Down => Some(Action::FilterCycleDown),
        KeyCode::Enter => Some(Action::ExitFilterMode),
        _ => None,
    }
}

fn map_search_key(code: KeyCode) -> (r: Option<Action>)
    ensures
        r == search_key_spec(code),
{
    match code {
        KeyCode::Esc => Some(Action::UnfocusSearch),
        KeyCode::Backspace => Some(Action::SearchBackspace),
        KeyCode::Char(c) => Some(Action::SearchInput(c)),
        _ => None,
    }
}

fn map_command_key(code: KeyCode) -> (r: Option<Action>)
    ensures
        r == command_key_spec(code),
{
    match code {
        KeyCode::Esc => Some(Action::CancelCommand),
        KeyCode::Backspace => Some(Action::CommandBackspace),
        KeyCode::Char(c) => Some(Action::CommandInput(c)),
        _ => None,
    }
}

fn map_char_key(c: char, ctrl: bool, state: &AppState) -> (r: Option<Action>)
    ensures
        r == char_key_spec(c, ctrl, state.view, state.tabs.active),
{
    let in_search = match state.view {
        View::Search => true,
        _ => false,
    };
    let in_home = match state.view {
        View::Home => true,
        _ => false,
    };
    let saved_tab = state.tabs.active == Tab::SavedSearches;
    if c == 'q' {
        Some(Action::Quit)
    } else if c == 'c' && ctrl {
        Some(Action::Quit)
    } else if c == '/' || c == 's' {
        Some(Action::FocusSearch)
    } else if c == '1' {
        Some(Action::SwitchTab(Tab::ForYou))
    } else if c == '2' {
        Some(Action::SwitchTab(Tab::Subscriptions))
    } else if c == '3' {
        Some(Action::SwitchTab(Tab::History))
    } else if c == '4' {
        Some(Action::SwitchTab(Tab::History))
    } else if c == 'h' {
        Some(Action::Navigate(Direction::Left))
    } else if c == 'j' {
        Some(Action::Navigate(Direction::Down))
    } else if c == 'k' {
        Some(Action::Navigate(Direction::Up))
    } else if c == 'l' {
        Some(Action::Navigate(Direction::Right))
    } else if c == ' ' {
        Some(Action::TogglePause)
    } else if c == '>' {
        Some(Action::Seek(10))
    } else if c == '<' {
        Some(Action::Seek(-10i64))
    } else if c == '+' || c == '=' {
        Some(Action::VolumeUp)
    } else if c == '-' {
        Some(Action::VolumeDown)
    } else if c == 'Q' {
        Some(Action::TogglePlaybackQuality)
    } else if c == 'X' {
        Some(Action::StopPlayerAndQuit)
    } else if c == 'S' {
        if in_search {
            Some(Action::OpenSaveSearchPopup)
        } else {
            Some(Action::SubscribeSelected)
        }
    } else if c == 'f' && in_search {
        Some(Action::EnterFilterMode)
    } else if c == 'd' && in_home && saved_tab {
        Some(Action::OpenDeleteSearchConfirm)
    } else if c == 'r' && in_home && saved_tab {
        Some(Action::OpenRenameSearchPopup)
    } else if c == ':' {
        Some(Action::EnterCommandMode)
    } else {
        None
    }
}

/// The action a key press maps to in the current state, if any.
pub fn map_key_event(key: KeyEvent, state: &AppState) -> (r: Option<Action>)
    ensures
        r == map_key_spec(key, *state),
{
    if state.popup.is_some() {
        return map_popup_key(key.code, state);
    }
    if state.command.active {
        return map_command_key(key.code);
    }
    if state.search.focused {
        return map_search_key(key.code);
    }
    if state.search.filter.active {
        return map_filter_key(key.code);
    }
    match key.code {
        KeyCode::Char(c) => map_char_key(c, key.ctrl, state),
        KeyCode::Tab => {
            let next = match state.tabs.active {
                Tab::ForYou => Tab::SavedSearches,
                Tab::SavedSearches => Tab::Subscriptions,
                Tab::Subscriptions => Tab::History,
                Tab::History => Tab::ForYou,
            };
            Some(Action::SwitchTab(next))
        },
        KeyCode::BackTab => {
            let prev = match state.tabs.active {
                Tab::ForYou => Tab::History,
                Tab::SavedSearches => Tab::ForYou,
                Tab::Subscriptions => Tab::SavedSearches,
                Tab::History => Tab::Subscriptions,
            };
            Some(Action::SwitchTab(prev))
        },
        KeyCode::Left => Some(Action::Navigate(Direction::Left)),
        KeyCode::Down => Some(Action::Navigate(Direction::Down)),
        KeyCode::Up => Some(Action::Navigate(Direction::Up)),
        KeyCode::Right => Some(Action::Navigate(Direction::Right)),
        KeyCode::Enter => Some(Action::Select),
        KeyCode::Esc => Some(Action::Back),
        _ => None,
    }
}

/// What a key press does, including Enter on the command line (submit the
/// command, or close the line when it is empty) and Enter in the search bar
/// (submit a non-empty query, nothing for an empty one).
pub open spec fn key_outcome_spec(key: KeyEvent, s: AppState, r: Option<Action>) -> bool {
    if s.command.active && key.code == KeyCode::Enter {
        if s.command.input@.len() > 0 {
            match r {
                Some(Action::SubmitCommand(c)) => c@ == s.command.input@,
                _ => false,
            }
        } else {
            r == Some(Action::CancelCommand)
        }
    } else if s.search.focused && key.code == KeyCode::Enter {
        if s.search.query@.len() > 0 {
            match r {
                Some(Action::SubmitSearch(q)) => q@ == s.search.query@,
                _ => false,
            }
        } else {
            r is None
        }
    } else {
        r == map_key_spec(key, s)
    }
}

/// The action for a key press in the current state, if any.
pub fn action_for_key(key: KeyEvent, state: &AppState) -> (r: Option<Action>)
    ensures
        key_outcome_spec(key, *state, r),
{
    if state.command.active && key.code == KeyCode::Enter {
        if !state.command.input.as_str().is_empty() {
            return Some(Action::SubmitCommand(state.command.input.clone()));
        }
        return Some(Action::CancelCommand);
    }
    if state.search.focused && key.code == KeyCode::Enter {
        if !state.search.query.as_str().is_empty() {
            return Some(Action::SubmitSearch(state.search.query.clone()));
        }
        return None;
    }
    map_key_event(key, state)
}

} // verus!

verus! {

/// Tab and Shift-Tab cycle through the tabs in opposite directions: one
/// undoes the other, and four presses of either return to the start.
pub proof fn lemma_tab_cycle(t: Tab)
    ensures
        prev_tab_spec(next_tab_spec(t)) == t,
        next_tab_spec(prev_tab_spec(t)) == t,
        next_tab_spec(next_tab_spec(next_tab_spec(next_tab_spec(t)))) == t,
{
}

/// In normal mode (no popup, command line, search bar or filter bar has
/// the keys) the documented bindings hold in every view and on every tab:
/// `q` and Ctrl+c quit, `/` and `s` focus search, `1` / `2` / `3` switch to
/// For You / Subscriptions / History, `h` `j` `k` `l` and the arrows
/// navigate, Enter selects, Esc goes back, Space pauses, `<` / `>` seek 10
/// seconds back / forward, `+` and `=` raise and `-` lowers the volume, and
/// `:` opens the command line.
pub proof fn lemma_normal_mode_bindings(s: AppState)
    requires
        s.popup is None,
        !s.command.active,
        !s.search.focused,
        !s.search.filter.active,
    ensures
        map_key_spec(KeyEvent { code: KeyCode::Char('q'), ctrl: false }, s) == Some(Action::Quit),
        map_key_spec(KeyEvent { code: KeyCode::Char('c'), ctrl: true }, s) == Some(Action::Quit),
        map_key_spec(KeyEvent { code: KeyCode::Char('/'), ctrl: false }, s) == Some(Action::FocusSearch),
        map_key_spec(KeyEvent { code: KeyCode::Char('s'), ctrl: false }, s) == Some(Action::FocusSearch),
        map_key_spec(KeyEvent { code: KeyCode::Char('1'), ctrl: false }, s) == Some(
            Action::SwitchTab(Tab::ForYou),
        ),
        map_key_spec(KeyEvent { code: KeyCode::Char('2'), ctrl: false }, s) == Some(
            Action::SwitchTab(Tab::Subscriptions),
        ),
        map_key_spec(KeyEvent { code: KeyCode::Char('3'), ctrl: false }, s) == Some(
            Action::SwitchTab(Tab::History),
        ),
        map_key_spec(KeyEvent { code: KeyCode::Char('h'), ctrl: false }, s) == Some(
            Action::Navigate(Direction::Left),
        ),
        map_key_spec(KeyEvent { code: KeyCode::Char('j'), ctrl: false }, s) == Some(
            Action::Navigate(Direction::Down),
        ),
        map_key_spec(KeyEvent { code: KeyCode::Char('k'), ctrl: false }, s) == Some(
            Action::Navigate(Direction::Up),
        ),
        map_key_spec(KeyEvent { code: KeyCode::Char('l'), ctrl: false }, s) == Some(
            Action::Navigate(Direction::Right),
        ),
        map_key_spec(KeyEvent { code: KeyCode::Left, ctrl: false }, s) == Some(
            Action::Navigate(Direction::Left),
        ),
        map_key_spec(KeyEvent { code: KeyCode::Down, ctrl: false }, s) == Some(
            Action::Navigate(Direction::Down),
        ),
        map_key_spec(KeyEvent { code: KeyCode::Up, ctrl: false }, s) == Some(
            Action::Navigate(Direction::Up),
        ),
        map_key_spec(KeyEvent { code: KeyCode::Right, ctrl: false }, s) == Some(
            Action::Navigate(Direction::Right),
        ),
        map_key_spec(KeyEvent { code: KeyCode::Enter, ctrl: false }, s) == Some(Action::Select),
        map_key_spec(KeyEvent { code: KeyCode::Esc, ctrl: false }, s) == Some(Action::Back),
        map_key_spec(KeyEvent { code: KeyCode::Char(' '), ctrl: false }, s) == Some(Action::TogglePause),
        map_key_spec(KeyEvent { code: KeyCode::Char('<'), ctrl: false }, s) == Some(Action::Seek(-10i64)),
        map_key_spec(KeyEvent { code: KeyCode::Char('>'), ctrl: false }, s) == Some(Action::Seek(10i64)),
        map_key_spec(KeyEvent { code: KeyCode::Char('+'), ctrl: false }, s) == Some(Action::VolumeUp),
        map_key_spec(KeyEvent { code: KeyCode::Char('='), ctrl: false }, s) == Some(Action::VolumeUp),
        map_key_spec(KeyEvent { code: KeyCode::Char('-'), ctrl: false }, s) == Some(Action::VolumeDown),
        map_key_spec(KeyEvent { code: KeyCode::Char(':'), ctrl: false }, s) == Some(
            Action::EnterCommandMode,
        ),
{
}

} // verus!
