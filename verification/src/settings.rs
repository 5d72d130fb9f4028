//! The settings popup: which preferences exist, in which order, and which row is selected.

use std::time::Instant;

use vstd::prelude::*;

verus! {

/// A preference, or an action on the configuration file.
#[derive(Clone, Copy, Debug, PartialEq, Eq, Structural)]
pub enum SettingId {
    Theme,
    SizeMode,
    SizeBase,
    ShowFiles,
    RowLimit,
    HeaviestLimit,
    WorkerThreads,
    DenseThreshold,
    MaterializeDepth,
    BackgroundRootScan,
    BackgroundPaused,
    DeletionMode,
    DockerEnabled,
    DockerPruneContainers,
    DockerPruneVolumes,
    DockerPruneBuildCache,
    DiscoveryMaxDepth,
    SaveConfig,
    EditConfig,
    ReloadConfig,
    ResetDefaults,
}

impl SettingId {
    /// The name in the left column.
    pub fn label(self) -> (label: &'static str)
        ensures
            label@ == label_spec(self),
    {
        match self {
            SettingId::Theme => "Theme",
            SettingId::SizeMode => "Size mode",
            SettingId::SizeBase => "Units",
            SettingId::ShowFiles => "Show files in the explorer",
            SettingId::RowLimit => "Rows per directory",
            SettingId::HeaviestLimit => "Heaviest files kept",
            SettingId::WorkerThreads => "Scanner threads",
            SettingId::DenseThreshold => "Dense directory threshold",
            SettingId::MaterializeDepth => "Materialise depth",
            SettingId::BackgroundRootScan => "Scan / in the background",
            SettingId::BackgroundPaused => "Background scanning",
            SettingId::DeletionMode => "Deletion mode",
            SettingId::DockerEnabled => "Docker cleaning",
            SettingId::DockerPruneContainers => "Prune stopped containers",
            SettingId::DockerPruneVolumes => "Prune dangling volumes",
            SettingId::DockerPruneBuildCache => "Prune build cache",
            SettingId::DiscoveryMaxDepth => "Discovery depth",
            SettingId::SaveConfig => "Save preferences",
            SettingId::EditConfig => "Edit the config file",
            SettingId::ReloadConfig => "Reload the config file",
            SettingId::ResetDefaults => "Reset to defaults",
        }
    }

    /// What the setting does, in the right column.
    pub fn description(self) -> (description: &'static str)
        ensures
            description@ == description_spec(self),
    {
        match self {
            SettingId::Theme => "colour palette; [theme] in the config file overrides single colours",
            SettingId::SizeMode => "allocated = blocks on disk (what fills the volume); apparent = file length",
            SettingId::SizeBase => "decimal (GB, like Finder) or binary (GiB)",
            SettingId::ShowFiles => "list the largest files of the current directory next to its folders",
            SettingId::RowLimit => "how many rows a directory shows, largest first",
            SettingId::HeaviestLimit => "how many files the heaviest-files view keeps",
            SettingId::WorkerThreads => "applied live; on APFS 4-8 is the sweet spot",
            SettingId::DenseThreshold => "directories with more entries are summed and never listed",
            SettingId::MaterializeDepth => "levels below the scan origin that become nodes",
            SettingId::BackgroundRootScan => "measure / at startup so the dashboard fills in (takes effect on restart)",
            SettingId::BackgroundPaused => "session only: pause everything outside the focused directory",
            SettingId::DeletionMode => "permanent (rm -rf) or move to the Trash",
            SettingId::DockerEnabled => "look at images, containers and caches (applies when the cleaner runs again)",
            SettingId::DockerPruneContainers => "offer docker container prune",
            SettingId::DockerPruneVolumes => "offer docker volume prune (data volumes are not protected)",
            SettingId::DockerPruneBuildCache => "offer docker builder prune --all",
            SettingId::DiscoveryMaxDepth => "how deep the cleaner looks for venvs, node_modules and targets",
            SettingId::SaveConfig => "write every current value to the config file",
            SettingId::EditConfig => "open the file in $VISUAL / $EDITOR, then reload it",
            SettingId::ReloadConfig => "read the file again and apply it",
            SettingId::ResetDefaults => "back to the built-in defaults (not written until you save)",
        }
    }

    /// Whether the row runs something instead of holding a value.
    pub fn is_action(self) -> (action: bool)
        ensures
            action == is_action_spec(self),
    {
        match self {
            SettingId::SaveConfig | SettingId::EditConfig | SettingId::ReloadConfig
            | SettingId::ResetDefaults => true,
            _ => false,
        }
    }

    /// Runtime-only toggles are not written to the configuration file.
    pub fn is_session_only(self) -> (session_only: bool)
        ensures
            session_only == (self == SettingId::BackgroundPaused),
    {
        match self {
            SettingId::BackgroundPaused => true,
            _ => false,
        }
    }
}

/// The name in the left column.
pub open spec fn label_spec(id: SettingId) -> Seq<char> {
    match id {
            SettingId::Theme => "Theme"@,
            SettingId::SizeMode => "Size mode"@,
            SettingId::SizeBase => "Units"@,
            SettingId::ShowFiles => "Show files in the explorer"@,
            SettingId::RowLimit => "Rows per directory"@,
            SettingId::HeaviestLimit => "Heaviest files kept"@,
            SettingId::WorkerThreads => "Scanner threads"@,
            SettingId::DenseThreshold => "Dense directory threshold"@,
            SettingId::MaterializeDepth => "Materialise depth"@,
            SettingId::BackgroundRootScan => "Scan / in the background"@,
            SettingId::BackgroundPaused => "Background scanning"@,
            SettingId::DeletionMode => "Deletion mode"@,
            SettingId::DockerEnabled => "Docker cleaning"@,
            SettingId::DockerPruneContainers => "Prune stopped containers"@,
            SettingId::DockerPruneVolumes => "Prune dangling volumes"@,
            SettingId::DockerPruneBuildCache => "Prune build cache"@,
            SettingId::DiscoveryMaxDepth => "Discovery depth"@,
            SettingId::SaveConfig => "Save preferences"@,
            SettingId::EditConfig => "Edit the config file"@,
            SettingId::ReloadConfig => "Reload the config file"@,
            SettingId::ResetDefaults => "Reset to defaults"@,
    }
}

/// What the setting does.
pub open spec fn description_spec(id: SettingId) -> Seq<char> {
    match id {
            SettingId::Theme => "colour palette; [theme] in the config file overrides single colours"@,
            SettingId::SizeMode => "allocated = blocks on disk (what fills the volume); apparent = file length"@,
            SettingId::SizeBase => "decimal (GB, like Finder) or binary (GiB)"@,
            SettingId::ShowFiles => "list the largest files of the current directory next to its folders"@,
            SettingId::RowLimit => "how many rows a directory shows, largest first"@,
            SettingId::HeaviestLimit => "how many files the heaviest-files view keeps"@,
            SettingId::WorkerThreads => "applied live; on APFS 4-8 is the sweet spot"@,
            SettingId::DenseThreshold => "directories with more entries are summed and never listed"@,
            SettingId::MaterializeDepth => "levels below the scan origin that become nodes"@,
            SettingId::BackgroundRootScan => "measure / at startup so the dashboard fills in (takes effect on restart)"@,
            SettingId::BackgroundPaused => "session only: pause everything outside the focused directory"@,
            SettingId::DeletionMode => "permanent (rm -rf) or move to the Trash"@,
            SettingId::DockerEnabled => "look at images, containers and caches (applies when the cleaner runs again)"@,
            SettingId::DockerPruneContainers => "offer docker container prune"@,
            SettingId::DockerPruneVolumes => "offer docker volume prune (data volumes are not protected)"@,
            SettingId::DockerPruneBuildCache => "offer docker builder prune --all"@,
            SettingId::DiscoveryMaxDepth => "how deep the cleaner looks for venvs, node_modules and targets"@,
            SettingId::SaveConfig => "write every current value to the config file"@,
            SettingId::EditConfig => "open the file in $VISUAL / $EDITOR, then reload it"@,
            SettingId::ReloadConfig => "read the file again and apply it"@,
            SettingId::ResetDefaults => "back to the built-in defaults (not written until you save)"@,
    }
}

/// The rows that run an action.
pub open spec fn is_action_spec(id: SettingId) -> bool {
    id == SettingId::SaveConfig || id == SettingId::EditConfig || id == SettingId::ReloadConfig
        || id == SettingId::ResetDefaults
}

/// A row of the popup: a section header or a setting.
#[derive(Clone, Copy, Debug, PartialEq, Eq)]
pub enum SettingsRow {
    Section(&'static str),
    Setting(SettingId),
}

/// The rows of the popup, in order.
pub open spec fn standard_rows(rows: Seq<SettingsRow>) -> bool {
    &&& rows.len() == 26
    &&& rows[0] == SettingsRow::Section("Appearance")
    &&& rows[1] == SettingsRow::Setting(SettingId::Theme)
    &&& rows[2] == SettingsRow::Setting(SettingId::SizeMode)
    &&& rows[3] == SettingsRow::Setting(SettingId::SizeBase)
    &&& rows[4] == SettingsRow::Setting(SettingId::ShowFiles)
    &&& rows[5] == SettingsRow::Setting(SettingId::RowLimit)
    &&& rows[6] == SettingsRow::Setting(SettingId::HeaviestLimit)
    &&& rows[7] == SettingsRow::Section("Scanner")
    &&& rows[8] == SettingsRow::Setting(SettingId::WorkerThreads)
    &&& rows[9] == SettingsRow::Setting(SettingId::DenseThreshold)
    &&& rows[10] == SettingsRow::Setting(SettingId::MaterializeDepth)
    &&& rows[11] == SettingsRow::Setting(SettingId::BackgroundRootScan)
    &&& rows[12] == SettingsRow::Setting(SettingId::BackgroundPaused)
    &&& rows[13] == SettingsRow::Section("Deletion")
    &&& rows[14] == SettingsRow::Setting(SettingId::DeletionMode)
    &&& rows[15] == SettingsRow::Section("Cleaner")
    &&& rows[16] == SettingsRow::Setting(SettingId::DockerEnabled)
    &&& rows[17] == SettingsRow::Setting(SettingId::DockerPruneContainers)
    &&& rows[18] == SettingsRow::Setting(SettingId::DockerPruneVolumes)
    &&& rows[19] == SettingsRow::Setting(SettingId::DockerPruneBuildCache)
    &&& rows[20] == SettingsRow::Setting(SettingId::DiscoveryMaxDepth)
    &&& rows[21] == SettingsRow::Section("Configuration file")
    &&& rows[22] == SettingsRow::Setting(SettingId::SaveConfig)
    &&& rows[23] == SettingsRow::Setting(SettingId::EditConfig)
    &&& rows[24] == SettingsRow::Setting(SettingId::ReloadConfig)
    &&& rows[25] == SettingsRow::Setting(SettingId::ResetDefaults)
}

/// Whether row `i` exists and is a setting (not a section header).
pub open spec fn selectable(rows: Seq<SettingsRow>, i: int) -> bool {
    0 <= i < rows.len() && rows[i] is Setting
}

/// The first setting row at `candidate` or beyond in direction `step` (+1 or -1).
pub open spec fn scan_from(rows: Seq<SettingsRow>, candidate: int, step: int) -> Option<int>
    decreases (if step > 0 {
        rows.len() - candidate
    } else {
        candidate + 1
    }),
{
    if candidate < 0 || candidate >= rows.len() || !(step == 1 || step == -1) {
        None
    } else if rows[candidate] is Section {
        scan_from(rows, candidate + step, step)
    } else {
        Some(candidate)
    }
}

/// Where `remaining` moves of one setting in direction `step` lead from `index`, stopping at
/// the last setting in that direction.
pub open spec fn moved_index(rows: Seq<SettingsRow>, index: int, step: int, remaining: nat) -> int
    decreases remaining,
{
    if remaining == 0 {
        index
    } else {
        match scan_from(rows, index + step, step) {
            Some(next) => moved_index(rows, next, step, (remaining - 1) as nat),
            None => index,
        }
    }
}

/// Where `move_selection(delta)` leads from `index`.
pub open spec fn selection_after(rows: Seq<SettingsRow>, index: int, delta: int) -> int {
    if rows.len() == 0 || delta == 0 {
        index
    } else if delta > 0 {
        moved_index(rows, index, 1, delta as nat)
    } else {
        moved_index(rows, index, -1, (-delta) as nat)
    }
}

/// `Vec::len` on the rows of the settings screen. A `Vec` never holds more than
/// `isize::MAX` bytes, and a row takes at least one byte, so there are never more than
/// `isize::MAX` rows.
#[verifier::external_body]
fn row_count(rows: &Vec<SettingsRow>) -> (count: usize)
    ensures
        count == rows@.len(),
        count <= isize::MAX,
{
    rows.len()
}

/// State of the settings popup.
#[derive(Debug)]
pub struct SettingsState {
    pub rows: Vec<SettingsRow>,
    pub selected: usize,
    /// Preferences changed through this screen (or `:theme`) and not yet written.
    pub dirty: bool,
    pub last_saved: Option<Instant>,
}

impl Default for SettingsState {
    fn default() -> (state: SettingsState)
        ensures
            standard_rows(state.rows@),
            state.selected == 1,
            !state.dirty,
            state.last_saved is None,
    {
        SettingsState::new()
    }
}

impl SettingsState {
    /// Every row, the first setting selected, nothing changed yet.
    pub fn new() -> (state: SettingsState)
        ensures
            standard_rows(state.rows@),
            state.selected == 1,
            !state.dirty,
            state.last_saved is None,
    {
        let mut rows: Vec<SettingsRow> = Vec::new();
        rows.push(SettingsRow::Section("Appearance"));
        rows.push(SettingsRow::Setting(SettingId::Theme));
        rows.push(SettingsRow::Setting(SettingId::SizeMode));
        rows.push(SettingsRow::Setting(SettingId::SizeBase));
        rows.push(SettingsRow::Setting(SettingId::ShowFiles));
        rows.push(SettingsRow::Setting(SettingId::RowLimit));
        rows.push(SettingsRow::Setting(SettingId::HeaviestLimit));
        rows.push(SettingsRow::Section("Scanner"));
        rows.push(SettingsRow::Setting(SettingId::WorkerThreads));
        rows.push(SettingsRow::Setting(SettingId::DenseThreshold));
        rows.push(SettingsRow::Setting(SettingId::MaterializeDepth));
        rows.push(SettingsRow::Setting(SettingId::BackgroundRootScan));
        rows.push(SettingsRow::Setting(SettingId::BackgroundPaused));
        rows.push(SettingsRow::Section("Deletion"));
        rows.push(SettingsRow::Setting(SettingId::DeletionMode));
        rows.push(SettingsRow::Section("Cleaner"));
        rows.push(SettingsRow::Setting(SettingId::DockerEnabled));
        rows.push(SettingsRow::Setting(SettingId::DockerPruneContainers));
        rows.push(SettingsRow::Setting(SettingId::DockerPruneVolumes));
        rows.push(SettingsRow::Setting(SettingId::DockerPruneBuildCache));
        rows.push(SettingsRow::Setting(SettingId::DiscoveryMaxDepth));
        rows.push(SettingsRow::Section("Configuration file"));
        rows.push(SettingsRow::Setting(SettingId::SaveConfig));
        rows.push(SettingsRow::Setting(SettingId::EditConfig));
        rows.push(SettingsRow::Setting(SettingId::ReloadConfig));
        rows.push(SettingsRow::Setting(SettingId::ResetDefaults));
        SettingsState { rows, selected: 1, dirty: false, last_saved: None }
    }

    /// The setting of the selected row, if it is one.
    pub fn selected_setting(&self) -> (setting: Option<SettingId>)
        ensures
            setting == (if self.selected < self.rows@.len() {
                match self.rows@[self.selected as int] {
                    SettingsRow::Setting(id) => Some(id),
                    SettingsRow::Section(_) => None,
                }
            } else {
                None
            }),
    {
        if self.selected < self.rows.len() {
            match self.rows[self.selected] {
                SettingsRow::Setting(id) => Some(id),
                SettingsRow::Section(_) => None,
            }
        } else {
            None
        }
    }

    fn is_section(&self, i: usize) -> (section: bool)
        requires
            i < self.rows@.len(),
        ensures
            section == (self.rows@[i as int] is Section),
    {
        match self.rows[i] {
            SettingsRow::Section(_) => true,
            SettingsRow::Setting(_) => false,
        }
    }

    /// Moves `delta` settings down (or up when negative), skipping section headers and
    /// stopping at the last setting in that direction.
    pub fn move_selection(&mut self, delta: isize)
        requires
            delta != isize::MIN,
            old(self).selected < old(self).rows@.len() || old(self).selected < isize::MAX,
        ensures
            final(self).selected == selection_after(
                old(self).rows@,
                old(self).selected as int,
                delta as int,
            ),
            final(self).rows == old(self).rows,
            final(self).dirty == old(self).dirty,
            final(self).last_saved == old(self).last_saved,
    {
        let count = row_count(&self.rows);
        if count == 0 || delta == 0 {
            return;
        }
        let ghost rows = self.rows@;
        let ghost start = self.selected as int;
        let step: isize = if delta > 0 {
            1
        } else {
            -1
        };
        let ghost total: nat = if delta > 0 {
            delta as nat
        } else {
            (-delta) as nat
        };
        let mut remaining: isize = if delta > 0 {
            delta
        } else {
            -delta
        };
        let mut index: isize = self.selected as isize;
        let last: isize = count as isize - 1;
        let mut stop = false;
        while remaining > 0 && !stop
            invariant
                rows == self.rows@,
                rows.len() >= 1,
                last == rows.len() - 1,
                rows.len() <= isize::MAX,
                step == 1 || step == -1,
                0 <= remaining <= total,
                0 <= start < isize::MAX,
                index == start || (0 <= index <= last),
                moved_index(rows, start, step as int, total) == (if stop {
                    index as int
                } else {
                    moved_index(rows, index as int, step as int, remaining as nat)
                }),
            decreases remaining + (if stop {
                0int
            } else {
                1int
            }),
        {
            let mut candidate: isize = index + step;
            while 0 <= candidate && candidate <= last && self.is_section(candidate as usize)
                invariant
                    rows == self.rows@,
                    last == rows.len() - 1,
                    rows.len() <= isize::MAX,
                    step == 1 || step == -1,
                    index == start || (0 <= index <= last),
                    0 <= start < isize::MAX,
                    candidate == index + step || (-1 <= candidate <= last + 1),
                    scan_from(rows, index + step, step as int) == scan_from(
                        rows,
                        candidate as int,
                        step as int,
                    ),
                decreases (if step > 0 {
                    last + 1 - candidate
                } else {
                    candidate + 1
                }),
            {
                candidate = candidate + step;
            }
            if 0 <= candidate && candidate <= last {
                index = candidate;
                remaining = remaining - 1;
            } else {
                stop = true;
            }
        }
        self.selected = index as usize;
    }

    /// Selects the first setting.
    pub fn select_first(&mut self)
        ensures
            final(self).selected == selection_after(old(self).rows@, 0, 1),
            final(self).rows == old(self).rows,
            final(self).dirty == old(self).dirty,
            final(self).last_saved == old(self).last_saved,
    {
        self.selected = 0;
        self.move_selection(1);
    }

    /// Selects the last setting.
    pub fn select_last(&mut self)
        ensures
            ({
                let last = if old(self).rows@.len() > 0 {
                    old(self).rows@.len() - 1
                } else {
                    0
                };
                final(self).selected == (if last < old(self).rows@.len() && old(
                    self,
                ).rows@[last] is Section {
                    selection_after(old(self).rows@, last, -1)
                } else {
                    last
                })
            }),
            final(self).rows == old(self).rows,
            final(self).dirty == old(self).dirty,
            final(self).last_saved == old(self).last_saved,
    {
        self.selected = if self.rows.len() > 0 {
            self.rows.len() - 1
        } else {
            0
        };
        if self.selected < self.rows.len() && self.is_section(self.selected) {
            self.move_selection(-1);
        }
    }
}

/// `scan_from` only ever finds a setting.
proof fn lemma_scan_finds_setting(rows: Seq<SettingsRow>, candidate: int, step: int)
    ensures
        scan_from(rows, candidate, step) matches Some(found) ==> selectable(rows, found),
    decreases (if step > 0 {
        rows.len() - candidate
    } else {
        candidate + 1
    }),
{
    if !(candidate < 0 || candidate >= rows.len() || !(step == 1 || step == -1)) {
        if rows[candidate] is Section {
            lemma_scan_finds_setting(rows, candidate + step, step);
        }
    }
}

proof fn lemma_moved_lands_on_setting(rows: Seq<SettingsRow>, index: int, step: int, remaining: nat)
    ensures
        moved_index(rows, index, step, remaining) == index || selectable(
            rows,
            moved_index(rows, index, step, remaining),
        ),
    decreases remaining,
{
    if remaining > 0 {
        lemma_scan_finds_setting(rows, index + step, step);
        if let Some(next) = scan_from(rows, index + step, step) {
            lemma_moved_lands_on_setting(rows, next, step, (remaining - 1) as nat);
        }
    }
}

/// Moving the selection either leaves it where it was or puts it on a setting, never on a
/// section header.
pub proof fn lemma_selection_never_on_section(rows: Seq<SettingsRow>, index: int, delta: int)
    ensures
        selection_after(rows, index, delta) == index || selectable(
            rows,
            selection_after(rows, index, delta),
        ),
{
    if rows.len() != 0 && delta != 0 {
        if delta > 0 {
            lemma_moved_lands_on_setting(rows, index, 1, delta as nat);
        } else {
            lemma_moved_lands_on_setting(rows, index, -1, (-delta) as nat);
        }
    }
}

proof fn lemma_scan_direction(rows: Seq<SettingsRow>, candidate: int, step: int)
    ensures
        scan_from(rows, candidate, step) matches Some(found) ==> (step == 1 ==> found >= candidate)
            && (step == -1 ==> found <= candidate),
    decreases (if step > 0 {
        rows.len() - candidate
    } else {
        candidate + 1
    }),
{
    if !(candidate < 0 || candidate >= rows.len() || !(step == 1 || step == -1)) {
        if rows[candidate] is Section {
            lemma_scan_direction(rows, candidate + step, step);
        }
    }
}

proof fn lemma_moved_direction(rows: Seq<SettingsRow>, index: int, step: int, remaining: nat)
    requires
        step == 1 || step == -1,
    ensures
        step == 1 ==> moved_index(rows, index, step, remaining) >= index,
        step == -1 ==> moved_index(rows, index, step, remaining) <= index,
    decreases remaining,
{
    if remaining > 0 {
        lemma_scan_direction(rows, index + step, step);
        if let Some(next) = scan_from(rows, index + step, step) {
            lemma_moved_direction(rows, next, step, (remaining - 1) as nat);
        }
    }
}

/// The selection moves the way the key points: down (or not at all) for a positive
/// step, up (or not at all) for a negative one.
pub proof fn lemma_selection_follows_the_key(rows: Seq<SettingsRow>, index: int, delta: int)
    ensures
        delta >= 0 ==> selection_after(rows, index, delta) >= index,
        delta <= 0 ==> selection_after(rows, index, delta) <= index,
{
    if rows.len() != 0 && delta != 0 {
        if delta > 0 {
            lemma_moved_direction(rows, index, 1, delta as nat);
        } else {
            lemma_moved_direction(rows, index, -1, (-delta) as nat);
        }
    }
}

// ---------------------------------------------------------------------------------------
// Stepped values
// ---------------------------------------------------------------------------------------

/// Index of the first step that is at least `current`, from `from` on; the last index when
/// there is none.
pub open spec fn first_step_at_least(steps: Seq<usize>, current: usize, from: int) -> int
    decreases steps.len() - from,
{
    if from >= steps.len() - 1 || from < 0 {
        steps.len() - 1
    } else if steps[from] >= current {
        from
    } else {
        first_step_at_least(steps, current, from + 1)
    }
}

/// The value `delta` steps away from the first step at or above `current`, held inside the
/// list.
pub open spec fn step_through_spec(steps: Seq<usize>, current: usize, delta: int) -> usize {
    let position = first_step_at_least(steps, current, 0);
    let next = position + delta;
    let clamped = if next < 0 {
        0
    } else if next > steps.len() - 1 {
        steps.len() - 1
    } else {
        next
    };
    steps[clamped]
}

proof fn lemma_first_step_of_preset(steps: Seq<usize>, i: int, from: int)
    requires
        forall|a: int, b: int| 0 <= a < b < steps.len() ==> steps[a] < steps[b],
        0 <= from <= i < steps.len(),
    ensures
        first_step_at_least(steps, steps[i], from) == i,
    decreases i - from,
{
    if from < i {
        assert(steps[from] < steps[i]);
        lemma_first_step_of_preset(steps, i, from + 1);
    }
}

proof fn lemma_first_step_in_list(steps: Seq<usize>, current: usize, from: int)
    requires
        steps.len() > 0,
        0 <= from,
    ensures
        0 <= first_step_at_least(steps, current, from) < steps.len(),
    decreases steps.len() - from,
{
    if !(from >= steps.len() - 1) && steps[from] < current {
        lemma_first_step_in_list(steps, current, from + 1);
    }
}

/// Stepping through a list of presets in ascending order always lands on a preset, and from
/// a preset one step up gives the next preset and one step down the previous one, held at
/// the ends of the list.
pub proof fn lemma_presets_step_by_one(steps: Seq<usize>, current: usize, i: int, delta: int)
    requires
        steps.len() > 0,
        forall|a: int, b: int| 0 <= a < b < steps.len() ==> steps[a] < steps[b],
    ensures
        exists|k: int| 0 <= k < steps.len() && steps[k] == step_through_spec(steps, current, delta),
        0 <= i < steps.len() ==> step_through_spec(steps, steps[i], 1) == steps[if i + 1 < steps.len() {
            i + 1
        } else {
            i
        }],
        0 <= i < steps.len() ==> step_through_spec(steps, steps[i], -1) == steps[if i > 0 {
            i - 1
        } else {
            0
        }],
{
    lemma_first_step_in_list(steps, current, 0);
    let position = first_step_at_least(steps, current, 0);
    let next = position + delta;
    let clamped = if next < 0 {
        0
    } else if next > steps.len() - 1 {
        steps.len() - 1
    } else {
        next
    };
    assert(steps[clamped] == step_through_spec(steps, current, delta));
    if 0 <= i < steps.len() {
        lemma_first_step_of_preset(steps, i, 0);
    }
}

/// Moves `delta` steps through a list of preset values, starting from the first preset at or
/// above `current` (the last preset when none is).
pub fn step_through(steps: &[usize], current: usize, delta: i32) -> (value: usize)
    requires
        steps@.len() > 0,
        steps@.len() <= i64::MAX,
    ensures
        value == step_through_spec(steps@, current, delta as int),
{
    let len = steps.len();
    let mut position: usize = 0;
    while position < len - 1 && steps[position] < current
        invariant
            0 <= position <= len - 1,
            len == steps@.len(),
            first_step_at_least(steps@, current, 0) == first_step_at_least(
                steps@,
                current,
                position as int,
            ),
        decreases len - position,
    {
        position += 1;
    }
    let next: i128 = position as i128 + delta as i128;
    let top: i128 = len as i128 - 1;
    let clamped: i128 = if next < 0 {
        0
    } else if next > top {
        top
    } else {
        next
    };
    steps[clamped as usize]
}

} // verus!
