//! The keys the interface reacts to.

use vstd::prelude::*;

use crate::screen::{next_spec, previous_spec, Screen};

verus! {

/// A key press, as the interface reads it.
#[derive(Clone, Copy, Debug, PartialEq, Eq, Structural)]
pub enum Key {
    Char(char),
    Enter,
    Esc,
    Backspace,
    Left,
    Right,
    Up,
    Down,
    Home,
    End,
    PageUp,
    PageDown,
    Tab,
    BackTab,
    /// Any other key.
    Other,
}

/// Who answers a key press.
#[derive(Clone, Copy, Debug, PartialEq, Eq, Structural)]
pub enum KeyRoute {
    /// Ctrl+C: leave at once, whatever is on screen.
    Abort,
    /// The progress modal of a running deletion or cleaning.
    Operation,
    /// The overlay on screen.
    Overlay,
    /// The `:` line being typed.
    CommandLine,
    /// Start typing a `:` line.
    OpenCommandLine,
    ShowHelp,
    ShowLog,
    SwitchScreen(Screen),
    Quit,
    ToggleBackgroundPause,
    ToggleSizeMode,
    /// The keys of the screen shown.
    Screen,
}

/// Who answers `key` (`control` when Ctrl is held): Ctrl+C always aborts; then the progress
/// modal, an overlay and the `:` line take every key, in that order; then the keys shared by
/// every screen (`a` toggles the size mode except on the cleaner, where it selects
/// everything); the rest goes to the screen shown.
pub open spec fn route_spec(
    key: Key,
    control: bool,
    operation_running: bool,
    overlay_open: bool,
    command_mode: bool,
    screen: Screen,
) -> KeyRoute {
    if control && key == Key::Char('c') {
        KeyRoute::Abort
    } else if operation_running {
        KeyRoute::Operation
    } else if overlay_open {
        KeyRoute::Overlay
    } else if command_mode {
        KeyRoute::CommandLine
    } else {
        match key {
            Key::Char(':') => KeyRoute::OpenCommandLine,
            Key::Char('?') => KeyRoute::ShowHelp,
            Key::Char('L') => KeyRoute::ShowLog,
            Key::Tab => KeyRoute::SwitchScreen(next_spec(screen)),
            Key::BackTab => KeyRoute::SwitchScreen(previous_spec(screen)),
            Key::Char('1') => KeyRoute::SwitchScreen(Screen::Dashboard),
            Key::Char('2') => KeyRoute::SwitchScreen(Screen::Explorer),
            Key::Char('3') => KeyRoute::SwitchScreen(Screen::Heaviest),
            Key::Char('4') => KeyRoute::SwitchScreen(Screen::Cleaner),
            Key::Char('q') => KeyRoute::Quit,
            Key::Char('p') => KeyRoute::ToggleBackgroundPause,
            Key::Char('a') => if screen != Screen::Cleaner {
                KeyRoute::ToggleSizeMode
            } else {
                KeyRoute::Screen
            },
            _ => KeyRoute::Screen,
        }
    }
}

/// What the keys of the interface do, whatever else is on screen: Ctrl+C always aborts;
/// while a deletion or cleaning runs, its modal takes every other key; with nothing in the
/// way, `1` to `4` open the dashboard, the explorer, the heaviest files and the cleaner,
/// `q` quits, `:` opens the command line, `?` the help and `L` the log, and Tab then
/// Shift+Tab comes back to the screen it started from.
pub proof fn lemma_key_routes(key: Key, control: bool, overlay_open: bool, command_mode: bool, screen: Screen)
    ensures
        route_spec(Key::Char('c'), true, true, overlay_open, command_mode, screen)
            == KeyRoute::Abort,
        !(control && key == Key::Char('c')) ==> route_spec(
            key,
            control,
            true,
            overlay_open,
            command_mode,
            screen,
        ) == KeyRoute::Operation,
        route_spec(Key::Char('1'), false, false, false, false, screen) == KeyRoute::SwitchScreen(
            Screen::Dashboard,
        ),
        route_spec(Key::Char('2'), false, false, false, false, screen) == KeyRoute::SwitchScreen(
            Screen::Explorer,
        ),
        route_spec(Key::Char('3'), false, false, false, false, screen) == KeyRoute::SwitchScreen(
            Screen::Heaviest,
        ),
        route_spec(Key::Char('4'), false, false, false, false, screen) == KeyRoute::SwitchScreen(
            Screen::Cleaner,
        ),
        route_spec(Key::Char('q'), false, false, false, false, screen) == KeyRoute::Quit,
        route_spec(Key::Char(':'), false, false, false, false, screen) == KeyRoute::OpenCommandLine,
        route_spec(Key::Char('?'), false, false, false, false, screen) == KeyRoute::ShowHelp,
        route_spec(Key::Char('L'), false, false, false, false, screen) == KeyRoute::ShowLog,
        route_spec(Key::Tab, false, false, false, false, screen) matches KeyRoute::SwitchScreen(
            forward,
        ) && route_spec(Key::BackTab, false, false, false, false, forward)
            == KeyRoute::SwitchScreen(screen),
        overlay_open && !(control && key == Key::Char('c')) ==> route_spec(
            key,
            control,
            false,
            true,
            command_mode,
            screen,
        ) == KeyRoute::Overlay,
{
}

/// Who answers `key`.
pub fn route_key(
    key: Key,
    control: bool,
    operation_running: bool,
    overlay_open: bool,
    command_mode: bool,
    screen: Screen,
) -> (route: KeyRoute)
    ensures
        route == route_spec(key, control, operation_running, overlay_open, command_mode, screen),
{
    if control && key == Key::Char('c') {
        KeyRoute::Abort
    } else if operation_running {
        KeyRoute::Operation
    } else if overlay_open {
        KeyRoute::Overlay
    } else if command_mode {
        KeyRoute::CommandLine
    } else {
        match key {
            Key::Char(':') => KeyRoute::OpenCommandLine,
            Key::Char('?') => KeyRoute::ShowHelp,
            Key::Char('L') => KeyRoute::ShowLog,
            Key::Tab => KeyRoute::SwitchScreen(screen.next()),
            Key::BackTab => KeyRoute::SwitchScreen(screen.previous()),
            Key::Char('1') => KeyRoute::SwitchScreen(Screen::Dashboard),
            Key::Char('2') => KeyRoute::SwitchScreen(Screen::Explorer),
            Key::Char('3') => KeyRoute::SwitchScreen(Screen::Heaviest),
            Key::Char('4') => KeyRoute::SwitchScreen(Screen::Cleaner),
            Key::Char('q') => KeyRoute::Quit,
            Key::Char('p') => KeyRoute::ToggleBackgroundPause,
            Key::Char('a') => if screen != Screen::Cleaner {
                KeyRoute::ToggleSizeMode
            } else {
                KeyRoute::Screen
            },
            _ => KeyRoute::Screen,
        }
    }
}

} // verus!
