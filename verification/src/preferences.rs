//! The preferences the settings screen edits: their values, how one key press changes a
//! value, what has to follow outside the interface, and how a value is shown.

use vstd::prelude::*;

use crate::formatting::{count, decimal, decimal_string, grouped};
use crate::model::{DeletionMode, SizeBase, SizeMode};
use crate::settings::{step_through, step_through_spec, SettingId, SettingsState};
use crate::text::{chars_are, chars_of};
use crate::theme::{
    basic_palette, canonical_name_spec, overrides_from, palette_for_key, theme_key, theme_name,
    theme_name_spec, theme_position, Theme, THEME_COUNT,
};

verus! {

// ---------------------------------------------------------------------------------------
// Preset steps
// ---------------------------------------------------------------------------------------

pub open spec fn row_limit_steps_spec() -> Seq<usize> {
    seq![10, 25, 50, 100, 200, 500, 1_000, 5_000, 100_000]
}

pub open spec fn heaviest_steps_spec() -> Seq<usize> {
    seq![25, 50, 100, 250, 500, 1_000, 10_000]
}

pub open spec fn dense_steps_spec() -> Seq<usize> {
    seq![1_000, 2_000, 5_000, 10_000, 20_000, 50_000, 100_000, 500_000, 1_000_000]
}

/// The row limits the settings screen steps through.
pub fn row_limit_steps() -> (steps: [usize; 9])
    ensures
        steps@ == row_limit_steps_spec(),
{
    let steps: [usize; 9] = [10, 25, 50, 100, 200, 500, 1_000, 5_000, 100_000];
    assert(steps@ =~= row_limit_steps_spec());
    steps
}

/// The sizes of the heaviest-files list the settings screen steps through.
pub fn heaviest_steps() -> (steps: [usize; 7])
    ensures
        steps@ == heaviest_steps_spec(),
{
    let steps: [usize; 7] = [25, 50, 100, 250, 500, 1_000, 10_000];
    assert(steps@ =~= heaviest_steps_spec());
    steps
}

/// The dense-directory thresholds the settings screen steps through.
pub fn dense_steps() -> (steps: [usize; 9])
    ensures
        steps@ == dense_steps_spec(),
{
    let steps: [usize; 9] = [
        1_000,
        2_000,
        5_000,
        10_000,
        20_000,
        50_000,
        100_000,
        500_000,
        1_000_000,
    ];
    assert(steps@ =~= dense_steps_spec());
    steps
}

/// `value` held to `low..=high`.
pub open spec fn clamp_int(value: int, low: int, high: int) -> int {
    if value < low {
        low
    } else if value > high {
        high
    } else {
        value
    }
}

// ---------------------------------------------------------------------------------------
// Words accepted by commands
// ---------------------------------------------------------------------------------------

/// The size mode a `:size` word names: `apparent` or `logical`; `allocated`, `disk` or
/// `physical`.
pub open spec fn size_mode_named_spec(word: Seq<char>) -> Option<SizeMode> {
    if word == "apparent"@ || word == "logical"@ {
        Some(SizeMode::Apparent)
    } else if word == "allocated"@ || word == "disk"@ || word == "physical"@ {
        Some(SizeMode::Allocated)
    } else {
        None
    }
}

/// The unit base a `:units` word names: `binary`, `iec` or `1024`; `decimal`, `si` or
/// `1000`.
pub open spec fn size_base_named_spec(word: Seq<char>) -> Option<SizeBase> {
    if word == "binary"@ || word == "iec"@ || word == "1024"@ {
        Some(SizeBase::Binary)
    } else if word == "decimal"@ || word == "si"@ || word == "1000"@ {
        Some(SizeBase::Decimal)
    } else {
        None
    }
}

/// The deletion mode a `:trash` word names: `on` or `trash`; `off` or `permanent`.
pub open spec fn deletion_mode_named_spec(word: Seq<char>) -> Option<DeletionMode> {
    if word == "on"@ || word == "trash"@ {
        Some(DeletionMode::Trash)
    } else if word == "off"@ || word == "permanent"@ {
        Some(DeletionMode::Permanent)
    } else {
        None
    }
}

/// The words of `:trash`: `on` and `trash` switch to the Trash, `off` and `permanent` back
/// to permanent deletion, and no other word names a mode. So `on` and `off` name opposite
/// modes, and each mode's own label names it.
pub proof fn lemma_deletion_mode_words(word: Seq<char>, mode: DeletionMode)
    ensures
        deletion_mode_named_spec(word) == Some(DeletionMode::Trash) <==> (word == "on"@ || word
            == "trash"@),
        deletion_mode_named_spec(word) == Some(DeletionMode::Permanent) <==> (word == "off"@
            || word == "permanent"@),
        deletion_mode_named_spec("off"@) == Some(DeletionMode::Permanent),
        deletion_mode_named_spec("on"@) == Some(DeletionMode::Trash),
        deletion_mode_named_spec("off"@) == Some(
            deletion_mode_named_spec("on"@)->0.toggled_spec(),
        ),
        deletion_mode_named_spec(mode.label_spec()) == Some(mode),
{
    reveal_strlit("on");
    reveal_strlit("off");
    reveal_strlit("trash");
    reveal_strlit("permanent");
    assert("off"@ != "on"@ && "off"@ != "trash"@ && "permanent"@ != "on"@ && "permanent"@
        != "trash"@) by {
        assert("off"@.len() != "on"@.len());
        assert("off"@.len() != "trash"@.len());
        assert("permanent"@.len() != "on"@.len());
        assert("permanent"@.len() != "trash"@.len());
    }
}

/// The words of `:mode`: `apparent` and `logical` name apparent sizes, `allocated`, `disk`
/// and `physical` allocated sizes, and no other word names a mode; each mode's own label
/// names it.
pub proof fn lemma_size_mode_words(word: Seq<char>, mode: SizeMode)
    ensures
        size_mode_named_spec(word) == Some(SizeMode::Apparent) <==> (word == "apparent"@ || word
            == "logical"@),
        size_mode_named_spec(word) == Some(SizeMode::Allocated) <==> (word == "allocated"@
            || word == "disk"@ || word == "physical"@),
        size_mode_named_spec(mode.label_spec()) == Some(mode),
{
    reveal_strlit("apparent");
    reveal_strlit("logical");
    reveal_strlit("allocated");
    reveal_strlit("disk");
    reveal_strlit("physical");
    assert("allocated"@ != "apparent"@) by {
        assert("allocated"@[1] != "apparent"@[1]);
    }
    assert("allocated"@ != "logical"@ && "disk"@ != "apparent"@ && "disk"@ != "logical"@
        && "physical"@ != "apparent"@ && "physical"@ != "logical"@) by {
        assert("allocated"@.len() != "logical"@.len());
        assert("disk"@.len() != "apparent"@.len());
        assert("disk"@.len() != "logical"@.len());
        assert("physical"@.len() != "logical"@.len());
        assert("physical"@[0] != "apparent"@[0]);
    }
}

/// The words of `:base`: `binary`, `iec` and `1024` name binary units, `decimal`, `si` and
/// `1000` decimal units, and no other word names a base; each base's name in the
/// configuration names it.
pub proof fn lemma_size_base_words(word: Seq<char>, base: SizeBase)
    ensures
        size_base_named_spec(word) == Some(SizeBase::Binary) <==> (word == "binary"@ || word
            == "iec"@ || word == "1024"@),
        size_base_named_spec(word) == Some(SizeBase::Decimal) <==> (word == "decimal"@ || word
            == "si"@ || word == "1000"@),
        size_base_named_spec(base.config_name_spec()) == Some(base),
{
    reveal_strlit("binary");
    reveal_strlit("iec");
    reveal_strlit("1024");
    reveal_strlit("decimal");
    reveal_strlit("si");
    reveal_strlit("1000");
    assert("decimal"@ != "binary"@ && "decimal"@ != "iec"@ && "decimal"@ != "1024"@ && "si"@
        != "binary"@ && "si"@ != "iec"@ && "si"@ != "1024"@ && "1000"@ != "binary"@ && "1000"@
        != "iec"@ && "1000"@ != "1024"@) by {
        assert("decimal"@.len() != "binary"@.len());
        assert("decimal"@.len() != "iec"@.len());
        assert("decimal"@.len() != "1024"@.len());
        assert("si"@.len() != "binary"@.len());
        assert("si"@.len() != "iec"@.len());
        assert("si"@.len() != "1024"@.len());
        assert("1000"@.len() != "binary"@.len());
        assert("1000"@.len() != "iec"@.len());
        assert("1000"@[2] != "1024"@[2]);
    }
}

/// Turning a value one step up and then one step down gives it back: a switch flips and
/// flips back, a mode goes to the other mode and back, and a count inside its range moves by
/// one and back; the counts never leave their ranges (threads and depth 1 to 64, discovery
/// depth 2 to 64), whatever they were.
pub proof fn lemma_adjust_round_trip(
    before: Preferences,
    middle: Preferences,
    after: Preferences,
    id: SettingId,
)
    requires
        adjusted(before, middle, id, 1),
        adjusted(middle, after, id, -1),
    ensures
        id == SettingId::ShowFiles ==> middle.show_files != before.show_files && after.show_files
            == before.show_files,
        id == SettingId::BackgroundRootScan ==> middle.background_root_scan
            != before.background_root_scan && after.background_root_scan
            == before.background_root_scan,
        id == SettingId::DockerEnabled ==> middle.docker_enabled != before.docker_enabled
            && after.docker_enabled == before.docker_enabled,
        id == SettingId::SizeMode ==> middle.size_mode != before.size_mode && after.size_mode
            == before.size_mode,
        id == SettingId::SizeBase ==> middle.size_base != before.size_base && after.size_base
            == before.size_base,
        id == SettingId::DeletionMode ==> middle.deletion_mode != before.deletion_mode
            && after.deletion_mode == before.deletion_mode,
        id == SettingId::WorkerThreads && 1 <= before.worker_threads < 64 ==> middle.worker_threads
            == before.worker_threads + 1 && after.worker_threads == before.worker_threads,
        id == SettingId::MaterializeDepth && 1 <= before.materialize_depth < 64
            ==> middle.materialize_depth == before.materialize_depth + 1 && after.materialize_depth
            == before.materialize_depth,
        id == SettingId::DiscoveryMaxDepth && 2 <= before.discovery_max_depth < 64
            ==> middle.discovery_max_depth == before.discovery_max_depth + 1
            && after.discovery_max_depth == before.discovery_max_depth,
        id == SettingId::WorkerThreads ==> 1 <= middle.worker_threads <= 64,
        id == SettingId::MaterializeDepth ==> 1 <= middle.materialize_depth <= 64,
        id == SettingId::DiscoveryMaxDepth ==> 2 <= middle.discovery_max_depth <= 64,
{
}

/// The preset row limits, list lengths and dense thresholds rise strictly, so the settings
/// keys step from one preset to the next (see `lemma_presets_step_by_one`).
pub proof fn lemma_presets_ascend()
    ensures
        forall|a: int, b: int|
            0 <= a < b < row_limit_steps_spec().len() ==> row_limit_steps_spec()[a]
                < row_limit_steps_spec()[b],
        forall|a: int, b: int|
            0 <= a < b < heaviest_steps_spec().len() ==> heaviest_steps_spec()[a]
                < heaviest_steps_spec()[b],
        forall|a: int, b: int|
            0 <= a < b < dense_steps_spec().len() ==> dense_steps_spec()[a]
                < dense_steps_spec()[b],
{
}

/// The size mode `word` names, if any.
pub fn size_mode_named(word: &str) -> (mode: Option<SizeMode>)
    ensures
        mode == size_mode_named_spec(word@),
{
    let chars = chars_of(word);
    let c = chars.as_slice();
    if chars_are(c, "apparent") || chars_are(c, "logical") {
        Some(SizeMode::Apparent)
    } else if chars_are(c, "allocated") || chars_are(c, "disk") || chars_are(c, "physical") {
        Some(SizeMode::Allocated)
    } else {
        None
    }
}

/// The unit base `word` names, if any.
pub fn size_base_named(word: &str) -> (base: Option<SizeBase>)
    ensures
        base == size_base_named_spec(word@),
{
    let chars = chars_of(word);
    let c = chars.as_slice();
    if chars_are(c, "binary") || chars_are(c, "iec") || chars_are(c, "1024") {
        Some(SizeBase::Binary)
    } else if chars_are(c, "decimal") || chars_are(c, "si") || chars_are(c, "1000") {
        Some(SizeBase::Decimal)
    } else {
        None
    }
}

/// The deletion mode `word` names, if any.
pub fn deletion_mode_named(word: &str) -> (mode: Option<DeletionMode>)
    ensures
        mode == deletion_mode_named_spec(word@),
{
    let chars = chars_of(word);
    let c = chars.as_slice();
    if chars_are(c, "on") || chars_are(c, "trash") {
        Some(DeletionMode::Trash)
    } else if chars_are(c, "off") || chars_are(c, "permanent") {
        Some(DeletionMode::Permanent)
    } else {
        None
    }
}

/// The row limit a `:rows` command or the `+`/`-` keys ask for, held to `5..=100_000`.
pub fn row_limit_within(limit: usize) -> (held: usize)
    ensures
        held == clamp_int(limit as int, 5, 100_000),
{
    if limit < 5 {
        5
    } else if limit > 100_000 {
        100_000
    } else {
        limit
    }
}

/// The length of the heaviest-files list a query asks for, held to `5..=10_000`.
pub fn heaviest_limit_within(limit: usize) -> (held: usize)
    ensures
        held == clamp_int(limit as int, 5, 10_000),
{
    if limit < 5 {
        5
    } else if limit > 10_000 {
        10_000
    } else {
        limit
    }
}

// ---------------------------------------------------------------------------------------
// Values
// ---------------------------------------------------------------------------------------

/// Every value the settings screen shows and edits.
pub struct Preferences {
    /// Name of the built-in palette in use.
    pub theme_name: String,
    pub size_mode: SizeMode,
    pub size_base: SizeBase,
    pub show_files: bool,
    pub row_limit: usize,
    pub heaviest_limit: usize,
    /// Scanner threads asked for.
    pub worker_threads: usize,
    pub dense_threshold: usize,
    pub materialize_depth: u16,
    pub background_root_scan: bool,
    /// Session only: whether scanning outside the focused directory is paused.
    pub background_paused: bool,
    pub deletion_mode: DeletionMode,
    pub docker_enabled: bool,
    pub docker_prune_containers: bool,
    pub docker_prune_volumes: bool,
    pub docker_prune_build_cache: bool,
    pub discovery_max_depth: u16,
}

/// What has to happen outside the interface after a value changed.
#[derive(Clone, Copy, Debug, PartialEq, Eq, Structural)]
pub enum SettingEffect {
    Nothing,
    /// Switch to the palette now named in the preferences.
    ApplyTheme,
    /// Show sizes in this mode.
    SizeMode(SizeMode),
    /// Run this many scanner threads.
    WorkerCount(usize),
    /// Sum directories with more entries than this.
    DenseThreshold(usize),
    /// Materialise this many levels below a scan origin.
    MaterializeDepth(u16),
    /// Pause or resume scanning outside the focused directory.
    BackgroundPaused(bool),
    /// Hand the changed cleaner rules to the cleaner.
    CleanerConfig,
}

/// The effect of adjusting `id` when the preferences were `p`.
pub open spec fn effect_spec(p: Preferences, id: SettingId, delta: int) -> SettingEffect {
    match id {
        SettingId::Theme => SettingEffect::ApplyTheme,
        SettingId::SizeMode => SettingEffect::SizeMode(p.size_mode.toggled_spec()),
        SettingId::WorkerThreads => SettingEffect::WorkerCount(
            clamp_int(p.worker_threads + delta, 1, 64) as usize,
        ),
        SettingId::DenseThreshold => SettingEffect::DenseThreshold(
            step_through_spec(dense_steps_spec(), p.dense_threshold, delta),
        ),
        SettingId::MaterializeDepth => SettingEffect::MaterializeDepth(
            clamp_int(p.materialize_depth + delta, 1, 64) as u16,
        ),
        SettingId::BackgroundPaused => SettingEffect::BackgroundPaused(!p.background_paused),
        SettingId::DockerEnabled | SettingId::DockerPruneContainers
        | SettingId::DockerPruneVolumes | SettingId::DockerPruneBuildCache
        | SettingId::DiscoveryMaxDepth => SettingEffect::CleanerConfig,
        _ => SettingEffect::Nothing,
    }
}

/// Whether adjusting `id` leaves unsaved changes behind: every stored value does; the
/// session-only pause and the action rows do not.
pub open spec fn marks_dirty(id: SettingId) -> bool {
    match id {
        SettingId::BackgroundPaused | SettingId::SaveConfig | SettingId::EditConfig
        | SettingId::ReloadConfig | SettingId::ResetDefaults => false,
        _ => true,
    }
}

/// How one key press on the row `id` (`delta` steps) turns the preferences `before` into
/// `after`: only the value of that row changes.
pub open spec fn adjusted(before: Preferences, after: Preferences, id: SettingId, delta: int) -> bool {
    &&& after.theme_name@ == (if id == SettingId::Theme {
        theme_name_spec(
            (theme_position(before.theme_name@, 0) + delta) % (THEME_COUNT as int),
        )
    } else {
        before.theme_name@
    })
    &&& after.size_mode == (if id == SettingId::SizeMode {
        before.size_mode.toggled_spec()
    } else {
        before.size_mode
    })
    &&& after.size_base == (if id == SettingId::SizeBase {
        before.size_base.toggled_spec()
    } else {
        before.size_base
    })
    &&& after.show_files == (if id == SettingId::ShowFiles {
        !before.show_files
    } else {
        before.show_files
    })
    &&& after.row_limit == (if id == SettingId::RowLimit {
        step_through_spec(row_limit_steps_spec(), before.row_limit, delta)
    } else {
        before.row_limit
    })
    &&& after.heaviest_limit == (if id == SettingId::HeaviestLimit {
        step_through_spec(heaviest_steps_spec(), before.heaviest_limit, delta)
    } else {
        before.heaviest_limit
    })
    &&& after.worker_threads == (if id == SettingId::WorkerThreads {
        clamp_int(before.worker_threads + delta, 1, 64)
    } else {
        before.worker_threads as int
    })
    &&& after.dense_threshold == (if id == SettingId::DenseThreshold {
        step_through_spec(dense_steps_spec(), before.dense_threshold, delta)
    } else {
        before.dense_threshold
    })
    &&& after.materialize_depth == (if id == SettingId::MaterializeDepth {
        clamp_int(before.materialize_depth + delta, 1, 64)
    } else {
        before.materialize_depth as int
    })
    &&& after.background_root_scan == (if id == SettingId::BackgroundRootScan {
        !before.background_root_scan
    } else {
        before.background_root_scan
    })
    &&& after.background_paused == (if id == SettingId::BackgroundPaused {
        !before.background_paused
    } else {
        before.background_paused
    })
    &&& after.deletion_mode == (if id == SettingId::DeletionMode {
        before.deletion_mode.toggled_spec()
    } else {
        before.deletion_mode
    })
    &&& after.docker_enabled == (if id == SettingId::DockerEnabled {
        !before.docker_enabled
    } else {
        before.docker_enabled
    })
    &&& after.docker_prune_containers == (if id == SettingId::DockerPruneContainers {
        !before.docker_prune_containers
    } else {
        before.docker_prune_containers
    })
    &&& after.docker_prune_volumes == (if id == SettingId::DockerPruneVolumes {
        !before.docker_prune_volumes
    } else {
        before.docker_prune_volumes
    })
    &&& after.docker_prune_build_cache == (if id == SettingId::DockerPruneBuildCache {
        !before.docker_prune_build_cache
    } else {
        before.docker_prune_build_cache
    })
    &&& after.discovery_max_depth == (if id == SettingId::DiscoveryMaxDepth {
        clamp_int(before.discovery_max_depth + delta, 2, 64)
    } else {
        before.discovery_max_depth as int
    })
}

impl Preferences {
    /// Changes the value of `id` by one key press: `delta` steps for a value in steps or a
    /// range, the other choice for a switch; an action row changes nothing. Returns what has
    /// to follow outside the interface.
    pub fn adjust(&mut self, id: SettingId, delta: i32) -> (effect: SettingEffect)
        requires
            id == SettingId::Theme ==> theme_position(old(self).theme_name@, 0) + delta
                <= isize::MAX,
        ensures
            effect == effect_spec(*old(self), id, delta as int),
            adjusted(*old(self), *final(self), id, delta as int),
    {
        match id {
            SettingId::Theme => {
                let next = Theme::neighbour_name(self.theme_name.as_str(), delta as isize);
                self.theme_name = next.to_owned();
                SettingEffect::ApplyTheme
            },
            SettingId::SizeMode => {
                self.size_mode = self.size_mode.toggled();
                SettingEffect::SizeMode(self.size_mode)
            },
            SettingId::SizeBase => {
                self.size_base = self.size_base.toggled();
                SettingEffect::Nothing
            },
            SettingId::ShowFiles => {
                self.show_files = !self.show_files;
                SettingEffect::Nothing
            },
            SettingId::RowLimit => {
                let steps = row_limit_steps();
                self.row_limit = step_through(&steps, self.row_limit, delta);
                SettingEffect::Nothing
            },
            SettingId::HeaviestLimit => {
                let steps = heaviest_steps();
                self.heaviest_limit = step_through(&steps, self.heaviest_limit, delta);
                SettingEffect::Nothing
            },
            SettingId::WorkerThreads => {
                let next = clamp_i128(self.worker_threads as i128 + delta as i128, 1, 64);
                self.worker_threads = next as usize;
                SettingEffect::WorkerCount(self.worker_threads)
            },
            SettingId::DenseThreshold => {
                let steps = dense_steps();
                self.dense_threshold = step_through(&steps, self.dense_threshold, delta);
                SettingEffect::DenseThreshold(self.dense_threshold)
            },
            SettingId::MaterializeDepth => {
                let next = clamp_i128(self.materialize_depth as i128 + delta as i128, 1, 64);
                self.materialize_depth = next as u16;
                SettingEffect::MaterializeDepth(self.materialize_depth)
            },
            SettingId::BackgroundRootScan => {
                self.background_root_scan = !self.background_root_scan;
                SettingEffect::Nothing
            },
            SettingId::BackgroundPaused => {
                self.background_paused = !self.background_paused;
                SettingEffect::BackgroundPaused(self.background_paused)
            },
            SettingId::DeletionMode => {
                self.deletion_mode = self.deletion_mode.toggled();
                SettingEffect::Nothing
            },
            SettingId::DockerEnabled => {
                self.docker_enabled = !self.docker_enabled;
                SettingEffect::CleanerConfig
            },
            SettingId::DockerPruneContainers => {
                self.docker_prune_containers = !self.docker_prune_containers;
                SettingEffect::CleanerConfig
            },
            SettingId::DockerPruneVolumes => {
                self.docker_prune_volumes = !self.docker_prune_volumes;
                SettingEffect::CleanerConfig
            },
            SettingId::DockerPruneBuildCache => {
                self.docker_prune_build_cache = !self.docker_prune_build_cache;
                SettingEffect::CleanerConfig
            },
            SettingId::DiscoveryMaxDepth => {
                let next = clamp_i128(self.discovery_max_depth as i128 + delta as i128, 2, 64);
                self.discovery_max_depth = next as u16;
                SettingEffect::CleanerConfig
            },
            SettingId::SaveConfig | SettingId::EditConfig | SettingId::ReloadConfig
            | SettingId::ResetDefaults => SettingEffect::Nothing,
        }
    }
}

/// `value` held to `low..=high`.
fn clamp_i128(value: i128, low: i128, high: i128) -> (held: i128)
    requires
        low <= high,
    ensures
        held == clamp_int(value as int, low as int, high as int),
{
    if value < low {
        low
    } else if value > high {
        high
    } else {
        value
    }
}

/// Adjusts `id` by one key press and records that there are unsaved changes when the value
/// is stored; returns what has to follow outside the interface.
pub fn adjust_setting(
    settings: &mut SettingsState,
    preferences: &mut Preferences,
    id: SettingId,
    delta: i32,
) -> (effect: SettingEffect)
    requires
        id == SettingId::Theme ==> theme_position(old(preferences).theme_name@, 0) + delta
            <= isize::MAX,
    ensures
        effect == effect_spec(*old(preferences), id, delta as int),
        adjusted(*old(preferences), *final(preferences), id, delta as int),
        *final(settings) == (SettingsState {
            dirty: old(settings).dirty || marks_dirty(id),
            ..*old(settings)
        }),
{
    let effect = preferences.adjust(id, delta);
    if !id.is_action() && !id.is_session_only() {
        settings.dirty = true;
    }
    effect
}

// ---------------------------------------------------------------------------------------
// How values are shown
// ---------------------------------------------------------------------------------------

pub open spec fn on_off(value: bool) -> Seq<char> {
    if value {
        "on"@
    } else {
        "off"@
    }
}

/// The middle column of the settings screen: the current value of `id`.
pub open spec fn value_text_spec(p: Preferences, id: SettingId) -> Seq<char> {
    match id {
        SettingId::Theme => p.theme_name@,
        SettingId::SizeMode => p.size_mode.label_spec(),
        SettingId::SizeBase => match p.size_base {
            SizeBase::Decimal => "decimal (GB)"@,
            SizeBase::Binary => "binary (GiB)"@,
        },
        SettingId::ShowFiles => on_off(p.show_files),
        SettingId::RowLimit => grouped(p.row_limit as nat),
        SettingId::HeaviestLimit => grouped(p.heaviest_limit as nat),
        SettingId::WorkerThreads => decimal(p.worker_threads as nat),
        SettingId::DenseThreshold => grouped(p.dense_threshold as nat),
        SettingId::MaterializeDepth => decimal(p.materialize_depth as nat),
        SettingId::BackgroundRootScan => on_off(p.background_root_scan),
        SettingId::BackgroundPaused => if p.background_paused {
            "paused"@
        } else {
            "running"@
        },
        SettingId::DeletionMode => p.deletion_mode.label_spec(),
        SettingId::DockerEnabled => on_off(p.docker_enabled),
        SettingId::DockerPruneContainers => on_off(p.docker_prune_containers),
        SettingId::DockerPruneVolumes => on_off(p.docker_prune_volumes),
        SettingId::DockerPruneBuildCache => on_off(p.docker_prune_build_cache),
        SettingId::DiscoveryMaxDepth => decimal(p.discovery_max_depth as nat),
        SettingId::SaveConfig | SettingId::EditConfig | SettingId::ReloadConfig
        | SettingId::ResetDefaults => "⏎"@,
    }
}

fn on_off_text(value: bool) -> (text: String)
    ensures
        text@ == on_off(value),
{
    if value {
        String::from_str("on")
    } else {
        String::from_str("off")
    }
}

impl Preferences {
    /// The current value of `id`, as the settings screen shows it.
    pub fn value_text(&self, id: SettingId) -> (text: String)
        ensures
            text@ == value_text_spec(*self, id),
    {
        match id {
            SettingId::Theme => self.theme_name.clone(),
            SettingId::SizeMode => self.size_mode.label().to_owned(),
            SettingId::SizeBase => match self.size_base {
                SizeBase::Decimal => String::from_str("decimal (GB)"),
                SizeBase::Binary => String::from_str("binary (GiB)"),
            },
            SettingId::ShowFiles => on_off_text(self.show_files),
            SettingId::RowLimit => count(self.row_limit as u64),
            SettingId::HeaviestLimit => count(self.heaviest_limit as u64),
            SettingId::WorkerThreads => decimal_string(self.worker_threads as u64),
            SettingId::DenseThreshold => count(self.dense_threshold as u64),
            SettingId::MaterializeDepth => decimal_string(self.materialize_depth as u64),
            SettingId::BackgroundRootScan => on_off_text(self.background_root_scan),
            SettingId::BackgroundPaused => if self.background_paused {
                String::from_str("paused")
            } else {
                String::from_str("running")
            },
            SettingId::DeletionMode => self.deletion_mode.label().to_owned(),
            SettingId::DockerEnabled => on_off_text(self.docker_enabled),
            SettingId::DockerPruneContainers => on_off_text(self.docker_prune_containers),
            SettingId::DockerPruneVolumes => on_off_text(self.docker_prune_volumes),
            SettingId::DockerPruneBuildCache => on_off_text(self.docker_prune_build_cache),
            SettingId::DiscoveryMaxDepth => decimal_string(self.discovery_max_depth as u64),
            SettingId::SaveConfig | SettingId::EditConfig | SettingId::ReloadConfig
            | SettingId::ResetDefaults => String::from_str("⏎"),
        }
    }
}

// ---------------------------------------------------------------------------------------
// Switching palettes by name
// ---------------------------------------------------------------------------------------

/// The first `count` built-in names, separated by `, `.
pub open spec fn joined_names(count: nat) -> Seq<char>
    decreases count,
{
    if count == 0 {
        Seq::empty()
    } else if count == 1 {
        theme_name_spec(0)
    } else {
        joined_names((count - 1) as nat) + ", "@ + theme_name_spec(count - 1)
    }
}

/// What the status line says when `name` is no palette.
pub open spec fn unknown_theme_spec(name: Seq<char>) -> Seq<char> {
    "unknown theme `"@ + name + "`; available: "@ + joined_names(THEME_COUNT as nat)
}

/// The theme drawn with after switching to the palette `base` called `canonical`: with the
/// colour overrides when they all apply, and the 16-colour palette on a terminal without
/// truecolor unless that is the one asked for.
pub open spec fn switched_theme(
    base: Theme,
    canonical: Seq<char>,
    overrides: Seq<(String, String)>,
    truecolor: bool,
) -> Theme {
    if truecolor || canonical == "basic"@ {
        match overrides_from(base, overrides, 0) {
            Ok(theme) => theme,
            Err(_) => base,
        }
    } else {
        basic_palette()
    }
}

/// The message for a name that is no palette.
pub fn unknown_theme_message(name: &str) -> (message: String)
    ensures
        message@ == unknown_theme_spec(name@),
{
    let mut message = String::from_str("unknown theme `");
    message.append(name);
    message.append("`; available: ");
    let ghost start = message@;
    let mut k: usize = 0;
    while k < THEME_COUNT
        invariant
            0 <= k <= THEME_COUNT,
            message@ == start + joined_names(k as nat),
        decreases THEME_COUNT - k,
    {
        if k > 0 {
            message.append(", ");
        }
        message.append(theme_name(k));
        proof {
            reveal_strlit(", ");
        }
        assert(message@ =~= start + joined_names((k + 1) as nat));
        k += 1;
    }
    message
}

/// Switches to the palette called `name`. For a palette name, remembers its built-in name,
/// records an unsaved change and returns the theme to draw with; otherwise changes nothing
/// and returns the message to show.
pub fn apply_theme_name(
    preferences: &mut Preferences,
    settings: &mut SettingsState,
    name: &str,
    overrides: &[(String, String)],
    truecolor: bool,
) -> (result: Result<Theme, String>)
    ensures
        match canonical_name_spec(name@) {
            None => {
                &&& result matches Err(message) && message@ == unknown_theme_spec(name@)
                &&& *final(preferences) == *old(preferences)
                &&& final(settings).dirty == old(settings).dirty
            },
            Some(canonical) => {
                &&& result matches Ok(theme) && theme == switched_theme(
                    palette_for_key(theme_key(name@))->0,
                    canonical,
                    overrides@,
                    truecolor,
                )
                &&& final(preferences).theme_name@ == canonical
                &&& final(settings).dirty
            },
        },
        *final(settings) == (SettingsState { dirty: final(settings).dirty, ..*old(settings) }),
        final(preferences).size_mode == old(preferences).size_mode,
        final(preferences).size_base == old(preferences).size_base,
        final(preferences).show_files == old(preferences).show_files,
        final(preferences).row_limit == old(preferences).row_limit,
        final(preferences).heaviest_limit == old(preferences).heaviest_limit,
        final(preferences).deletion_mode == old(preferences).deletion_mode,
        final(preferences).worker_threads == old(preferences).worker_threads,
        final(preferences).dense_threshold == old(preferences).dense_threshold,
        final(preferences).materialize_depth == old(preferences).materialize_depth,
        final(preferences).background_root_scan == old(preferences).background_root_scan,
        final(preferences).background_paused == old(preferences).background_paused,
        final(preferences).docker_enabled == old(preferences).docker_enabled,
        final(preferences).docker_prune_containers == old(preferences).docker_prune_containers,
        final(preferences).docker_prune_volumes == old(preferences).docker_prune_volumes,
        final(preferences).docker_prune_build_cache == old(preferences).docker_prune_build_cache,
        final(preferences).discovery_max_depth == old(preferences).discovery_max_depth,
{
    let base = match Theme::by_name(name) {
        Some(theme) => theme,
        None => return Err(unknown_theme_message(name)),
    };
    let canonical = match Theme::canonical_name(name) {
        Some(c) => c,
        None => "terracotta",
    };
    preferences.theme_name = String::from_str(canonical);
    let themed = match base.with_overrides(overrides) {
        Ok(theme) => theme,
        Err(_) => base,
    };
    settings.dirty = true;
    let canonical_chars = chars_of(canonical);
    if truecolor || chars_are(canonical_chars.as_slice(), "basic") {
        Ok(themed)
    } else {
        Ok(Theme::basic())
    }
}

} // verus!
