//! Moving between screens: what switching to a screen starts first, and starting the search
//! for the heaviest files.

use vstd::prelude::*;

use crate::commands::{status_is, Session};
use crate::dialogs::Severity;
use crate::model::{NodeId, QueryId};
use crate::panels::{CleanerState, HeaviestState};
use crate::preferences::clamp_int;
use crate::screen::Screen;

verus! {

/// A search for the heaviest files to start: below `origin`, keeping `limit` files, after
/// cancelling the search `cancel` when there is one.
#[derive(Clone, Copy, Debug, PartialEq, Eq, Structural)]
pub struct HeaviestRequest {
    pub origin: NodeId,
    pub limit: usize,
    pub cancel: Option<QueryId>,
}

/// Work switching screens leaves to the services.
#[derive(Clone, Copy, Debug, PartialEq, Eq, Structural)]
pub enum ScreenSwitch {
    Nothing,
    /// Start looking for reclaimable space (the last cleaning report is forgotten).
    RestartCleaner,
    StartHeaviestQuery(HeaviestRequest),
}

/// The number of files a search keeps after `limit` was asked for, from `current`: the
/// request held to `5..=10_000`, or `current` when nothing was asked.
pub open spec fn heaviest_limit_after(current: usize, limit: Option<usize>) -> usize {
    match limit {
        Some(asked) => clamp_int(asked as int, 5, 10_000) as usize,
        None => current,
    }
}

/// What starting a search for the heaviest files does, keeping `limit` files: with no
/// directory open it only says so; otherwise the files view starts over below the current
/// directory and comes on screen, and `request` says what the scanner has to do.
pub open spec fn heaviest_started<F>(
    before: Session,
    after: Session,
    heaviest_before: HeaviestState<F>,
    heaviest_after: HeaviestState<F>,
    limit: Option<usize>,
    request: Option<HeaviestRequest>,
) -> bool {
    match before.explorer.current {
        None => {
            &&& request is None
            &&& status_is(after.status, "open a directory first"@, Severity::Warning)
            &&& after == Session { status: after.status, ..before }
            &&& heaviest_after == heaviest_before
        },
        Some(origin) => {
            let kept = heaviest_limit_after(heaviest_before.limit, limit);
            &&& request == Some(
                HeaviestRequest { origin, limit: kept, cancel: heaviest_before.query },
            )
            &&& heaviest_after.query is None
            &&& heaviest_after.origin == Some(origin)
            &&& heaviest_after.rows@.len() == 0
            &&& heaviest_after.selected == 0
            &&& heaviest_after.limit == kept
            &&& heaviest_after.table_selection == heaviest_before.table_selection
            &&& after == Session { screen: Screen::Heaviest, ..before }
        },
    }
}

impl Session {
    /// Starts the search for the heaviest files below the current directory, keeping
    /// `limit` files (held to `5..=10_000`) or as many as before. The scanner starts the
    /// search the result asks for, and its identity goes into `heaviest.query`.
    pub fn start_heaviest_query<F>(
        &mut self,
        heaviest: &mut HeaviestState<F>,
        limit: Option<usize>,
    ) -> (request: Option<HeaviestRequest>)
        ensures
            heaviest_started(*old(self), *final(self), *old(heaviest), *final(heaviest), limit, request),
    {
        let origin = match self.explorer.current {
            Some(node) => node,
            None => {
                self.show_status(String::from_str("open a directory first"), Severity::Warning);
                return None;
            },
        };
        let cancel = heaviest.query.take();
        match limit {
            Some(asked) => {
                heaviest.limit = if asked < 5 {
                    5
                } else if asked > 10_000 {
                    10_000
                } else {
                    asked
                };
            },
            None => {},
        }
        heaviest.origin = Some(origin);
        heaviest.rows.clear();
        heaviest.selected = 0;
        self.screen = Screen::Heaviest;
        Some(HeaviestRequest { origin, limit: heaviest.limit, cancel })
    }

    /// Switches to `screen`. The cleaner starts looking for reclaimable space the first time
    /// (`cleaner_started` tells whether it has), forgetting its last report, and the files
    /// view starts its search when none was started yet; the result says what the services
    /// have to do.
    pub fn switch_screen<F>(
        &mut self,
        screen: Screen,
        cleaner_started: bool,
        cleaner: &mut CleanerState,
        heaviest: &mut HeaviestState<F>,
    ) -> (effect: ScreenSwitch)
        ensures
            *final(cleaner) == (if screen == Screen::Cleaner && !cleaner_started {
                CleanerState { last_report: None, ..*old(cleaner) }
            } else {
                *old(cleaner)
            }),
            screen == Screen::Cleaner && !cleaner_started ==> {
                &&& effect == ScreenSwitch::RestartCleaner
                &&& status_is(
                    final(self).status,
                    "looking for reclaimable space\u{2026}"@,
                    Severity::Info,
                )
                &&& *final(self) == (Session {
                    screen: Screen::Cleaner,
                    status: final(self).status,
                    ..*old(self)
                })
                &&& *final(heaviest) == *old(heaviest)
            },
            screen == Screen::Heaviest && old(heaviest).query is None ==> {
                let request = match effect {
                    ScreenSwitch::StartHeaviestQuery(r) => Some(r),
                    _ => None,
                };
                &&& effect == ScreenSwitch::Nothing || effect is StartHeaviestQuery
                &&& heaviest_started(
                    *old(self),
                    *final(self),
                    *old(heaviest),
                    *final(heaviest),
                    None,
                    request,
                )
            },
            !(screen == Screen::Cleaner && !cleaner_started) && !(screen == Screen::Heaviest
                && old(heaviest).query is None) ==> {
                &&& effect == ScreenSwitch::Nothing
                &&& *final(self) == (Session { screen, ..*old(self) })
                &&& *final(heaviest) == *old(heaviest)
            },
    {
        match screen {
            Screen::Cleaner => {
                if !cleaner_started {
                    cleaner.last_report = None;
                    self.screen = Screen::Cleaner;
                    self.show_status(
                        String::from_str("looking for reclaimable space\u{2026}"),
                        Severity::Info,
                    );
                    return ScreenSwitch::RestartCleaner;
                }
            },
            Screen::Heaviest => {
                if heaviest.query.is_none() {
                    return match self.start_heaviest_query(heaviest, None) {
                        Some(request) => ScreenSwitch::StartHeaviestQuery(request),
                        None => ScreenSwitch::Nothing,
                    };
                }
            },
            _ => {},
        }
        self.screen = screen;
        ScreenSwitch::Nothing
    }
}

} // verus!
