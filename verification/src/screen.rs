//! The four screens and the order Tab walks through them.

use vstd::prelude::*;

use crate::paths::{path_eq, same_path};

verus! {

/// A screen of the interface.
#[derive(Clone, Copy, Debug, PartialEq, Eq, Structural)]
pub enum Screen {
    Dashboard,
    Explorer,
    Heaviest,
    Cleaner,
}

/// Position of a screen in the tab bar.
pub open spec fn screen_index(screen: Screen) -> int {
    match screen {
        Screen::Dashboard => 0,
        Screen::Explorer => 1,
        Screen::Heaviest => 2,
        Screen::Cleaner => 3,
    }
}

/// The screen after `screen` in the tab bar, wrapping around.
pub open spec fn next_spec(screen: Screen) -> Screen {
    match screen {
        Screen::Dashboard => Screen::Explorer,
        Screen::Explorer => Screen::Heaviest,
        Screen::Heaviest => Screen::Cleaner,
        Screen::Cleaner => Screen::Dashboard,
    }
}

/// The screen before `screen` in the tab bar, wrapping around.
pub open spec fn previous_spec(screen: Screen) -> Screen {
    match screen {
        Screen::Dashboard => Screen::Cleaner,
        Screen::Explorer => Screen::Dashboard,
        Screen::Heaviest => Screen::Explorer,
        Screen::Cleaner => Screen::Heaviest,
    }
}

impl Screen {
    /// Every screen, in tab order.
    pub fn all() -> (screens: [Screen; 4])
        ensures
            forall|i: int| 0 <= i < 4 ==> screen_index(#[trigger] screens@[i]) == i,
    {
        [Screen::Dashboard, Screen::Explorer, Screen::Heaviest, Screen::Cleaner]
    }

    /// The name in the tab bar.
    pub fn label(self) -> (label: &'static str)
        ensures
            label@ == (match self {
                Screen::Dashboard => "Dashboard"@,
                Screen::Explorer => "Explorer"@,
                Screen::Heaviest => "Heaviest"@,
                Screen::Cleaner => "Cleaner"@,
            }),
    {
        match self {
            Screen::Dashboard => "Dashboard",
            Screen::Explorer => "Explorer",
            Screen::Heaviest => "Heaviest",
            Screen::Cleaner => "Cleaner",
        }
    }

    /// The screen Tab goes to.
    pub fn next(self) -> (screen: Screen)
        ensures
            screen == next_spec(self),
            screen_index(screen) == (screen_index(self) + 1) % 4,
    {
        match self {
            Screen::Dashboard => Screen::Explorer,
            Screen::Explorer => Screen::Heaviest,
            Screen::Heaviest => Screen::Cleaner,
            Screen::Cleaner => Screen::Dashboard,
        }
    }

    /// The screen Shift+Tab goes to.
    pub fn previous(self) -> (screen: Screen)
        ensures
            screen == previous_spec(self),
            screen_index(screen) == (screen_index(self) + 3) % 4,
    {
        match self {
            Screen::Dashboard => Screen::Cleaner,
            Screen::Explorer => Screen::Dashboard,
            Screen::Heaviest => Screen::Explorer,
            Screen::Cleaner => Screen::Heaviest,
        }
    }
}

/// Shift+Tab undoes Tab and Tab undoes Shift+Tab; four presses of Tab come back to the start.
pub proof fn lemma_tab_order(screen: Screen)
    ensures
        previous_spec(next_spec(screen)) == screen,
        next_spec(previous_spec(screen)) == screen,
        next_spec(next_spec(next_spec(next_spec(screen)))) == screen,
{
}

/// Whether the interface opens on the explorer: a start path was given unless it is the
/// home directory itself.
pub open spec fn start_path_given_spec(start: Seq<char>, home: Option<Seq<char>>) -> bool {
    match home {
        Some(h) => !path_eq(h, start),
        None => true,
    }
}

/// Whether the start path was asked for, as opposed to defaulting to the home directory.
pub fn start_path_was_given(start: &str, home: Option<&str>) -> (given: bool)
    ensures
        given == start_path_given_spec(
            start@,
            match home {
                Some(h) => Some(h@),
                None => None,
            },
        ),
{
    match home {
        Some(h) => !same_path(h, start),
        None => true,
    }
}

} // verus!
