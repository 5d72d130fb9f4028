//! The values of the storage model that the interface state refers to: sizes, tree node
//! identities and the deletion plans built from marks.

use vstd::prelude::*;

verus! {

/// A number of bytes.
#[derive(Clone, Copy, Debug, PartialEq, Eq, Structural, Hash)]
pub struct ByteSize(pub u64);

impl ByteSize {
    /// `bytes` bytes.
    pub fn new(bytes: u64) -> (size: ByteSize)
        ensures
            size.0 == bytes,
    {
        ByteSize(bytes)
    }

    /// No bytes.
    pub fn zero() -> (size: ByteSize)
        ensures
            size.0 == 0,
    {
        ByteSize(0)
    }

    /// The number of bytes.
    pub fn as_u64(self) -> (bytes: u64)
        ensures
            bytes == self.0,
    {
        self.0
    }

    /// The sum, held at `u64::MAX` when it would not fit.
    pub fn saturating_add(self, other: ByteSize) -> (sum: ByteSize)
        ensures
            sum.0 == (if self.0 + other.0 > u64::MAX {
                u64::MAX as int
            } else {
                self.0 + other.0
            }),
    {
        ByteSize(self.0.saturating_add(other.0))
    }
}

/// Identity of a directory node in the file tree.
#[derive(Clone, Copy, Debug, PartialEq, Eq, Structural, Hash)]
pub struct NodeId(pub u32);

/// How marked items are removed.
#[derive(Clone, Copy, Debug, PartialEq, Eq, Structural)]
pub enum DeletionMode {
    /// `rm -rf` semantics.
    Permanent,
    /// Moved to the Trash.
    Trash,
}

impl DeletionMode {
    pub open spec fn toggled_spec(self) -> DeletionMode {
        match self {
            DeletionMode::Permanent => DeletionMode::Trash,
            DeletionMode::Trash => DeletionMode::Permanent,
        }
    }

    /// The other mode.
    pub fn toggled(self) -> (other: DeletionMode)
        ensures
            other == self.toggled_spec(),
    {
        match self {
            DeletionMode::Permanent => DeletionMode::Trash,
            DeletionMode::Trash => DeletionMode::Permanent,
        }
    }

    pub open spec fn label_spec(self) -> Seq<char> {
        match self {
            DeletionMode::Permanent => "permanent"@,
            DeletionMode::Trash => "trash"@,
        }
    }

    /// The word the settings screen and the configuration file use.
    pub fn label(self) -> (label: &'static str)
        ensures
            label@ == self.label_spec(),
    {
        match self {
            DeletionMode::Permanent => "permanent",
            DeletionMode::Trash => "trash",
        }
    }
}

/// Which size of a file is counted.
#[derive(Clone, Copy, Debug, PartialEq, Eq, Structural)]
pub enum SizeMode {
    /// Blocks on disk: what fills the volume.
    Allocated,
    /// The length of the file.
    Apparent,
}

impl SizeMode {
    pub open spec fn toggled_spec(self) -> SizeMode {
        match self {
            SizeMode::Allocated => SizeMode::Apparent,
            SizeMode::Apparent => SizeMode::Allocated,
        }
    }

    /// The other mode.
    pub fn toggled(self) -> (other: SizeMode)
        ensures
            other == self.toggled_spec(),
    {
        match self {
            SizeMode::Allocated => SizeMode::Apparent,
            SizeMode::Apparent => SizeMode::Allocated,
        }
    }

    pub open spec fn label_spec(self) -> Seq<char> {
        match self {
            SizeMode::Allocated => "allocated"@,
            SizeMode::Apparent => "apparent"@,
        }
    }

    /// The word the settings screen and the configuration file use.
    pub fn label(self) -> (label: &'static str)
        ensures
            label@ == self.label_spec(),
    {
        match self {
            SizeMode::Allocated => "allocated",
            SizeMode::Apparent => "apparent",
        }
    }
}

/// Whether sizes are shown in powers of 1000 or of 1024.
#[derive(Clone, Copy, Debug, PartialEq, Eq, Structural)]
pub enum SizeBase {
    Decimal,
    Binary,
}

impl SizeBase {
    pub open spec fn toggled_spec(self) -> SizeBase {
        match self {
            SizeBase::Decimal => SizeBase::Binary,
            SizeBase::Binary => SizeBase::Decimal,
        }
    }

    /// The other base.
    pub fn toggled(self) -> (other: SizeBase)
        ensures
            other == self.toggled_spec(),
    {
        match self {
            SizeBase::Decimal => SizeBase::Binary,
            SizeBase::Binary => SizeBase::Decimal,
        }
    }

    pub open spec fn config_name_spec(self) -> Seq<char> {
        match self {
            SizeBase::Decimal => "decimal"@,
            SizeBase::Binary => "binary"@,
        }
    }

    /// The word the configuration file uses.
    pub fn config_name(self) -> (name: &'static str)
        ensures
            name@ == self.config_name_spec(),
    {
        match self {
            SizeBase::Decimal => "decimal",
            SizeBase::Binary => "binary",
        }
    }
}

/// Switching the size mode, the unit base or the deletion mode twice gives back the one
/// started from.
pub proof fn lemma_toggles_undo(mode: SizeMode, base: SizeBase, deletion: DeletionMode)
    ensures
        mode.toggled_spec().toggled_spec() == mode,
        base.toggled_spec().toggled_spec() == base,
        deletion.toggled_spec().toggled_spec() == deletion,
{
}

/// One path to delete.
#[derive(Clone, Debug)]
pub struct DeletionItem {
    pub path: String,
    pub size: ByteSize,
    pub is_directory: bool,
    pub node: Option<NodeId>,
}

/// The items a deletion run removes, in order, and how.
#[derive(Clone, Debug)]
pub struct DeletionPlan {
    pub items: Vec<DeletionItem>,
    pub mode: DeletionMode,
}

impl DeletionPlan {
    /// A plan over `items`, removed in that order.
    pub fn new(items: Vec<DeletionItem>, mode: DeletionMode) -> (plan: DeletionPlan)
        ensures
            plan.items == items,
            plan.mode == mode,
    {
        DeletionPlan { items, mode }
    }

    /// Number of items.
    pub fn len(&self) -> (count: usize)
        ensures
            count == self.items@.len(),
    {
        self.items.len()
    }
}

impl DeletionItem {
    /// An equal copy.
    pub fn duplicate(&self) -> (copy: DeletionItem)
        ensures
            copy == *self,
    {
        DeletionItem {
            path: self.path.clone(),
            size: self.size,
            is_directory: self.is_directory,
            node: self.node,
        }
    }
}

/// What became of one deletion item.
#[derive(Clone, Debug)]
pub enum DeletionStatus {
    Removed,
    MovedToTrash,
    NeedsPrivileges,
    Cancelled,
    Refused(String),
    Failed(String),
}

impl DeletionStatus {
    /// An equal copy.
    pub fn duplicate(&self) -> (copy: DeletionStatus)
        ensures
            copy == *self,
    {
        match self {
            DeletionStatus::Removed => DeletionStatus::Removed,
            DeletionStatus::MovedToTrash => DeletionStatus::MovedToTrash,
            DeletionStatus::NeedsPrivileges => DeletionStatus::NeedsPrivileges,
            DeletionStatus::Cancelled => DeletionStatus::Cancelled,
            DeletionStatus::Refused(reason) => DeletionStatus::Refused(reason.clone()),
            DeletionStatus::Failed(reason) => DeletionStatus::Failed(reason.clone()),
        }
    }
}

/// The outcome of one deletion item: its status, how many entries were removed and how
/// many bytes that gave back.
#[derive(Clone, Debug)]
pub struct DeletionOutcome {
    pub item: DeletionItem,
    pub status: DeletionStatus,
    pub entries_removed: u64,
    pub reclaimed: ByteSize,
}

impl DeletionOutcome {
    /// An equal copy.
    pub fn duplicate(&self) -> (copy: DeletionOutcome)
        ensures
            copy == *self,
    {
        DeletionOutcome {
            item: self.item.duplicate(),
            status: self.status.duplicate(),
            entries_removed: self.entries_removed,
            reclaimed: self.reclaimed,
        }
    }
}

/// Every outcome of a deletion run.
#[derive(Clone, Debug)]
pub struct DeletionReport {
    pub outcomes: Vec<DeletionOutcome>,
}

impl DeletionReport {
    /// An equal copy.
    pub fn duplicate(&self) -> (copy: DeletionReport)
        ensures
            copy.outcomes@ == self.outcomes@,
    {
        let mut outcomes: Vec<DeletionOutcome> = Vec::new();
        let mut i: usize = 0;
        while i < self.outcomes.len()
            invariant
                0 <= i <= self.outcomes@.len(),
                outcomes@ == self.outcomes@.take(i as int),
            decreases self.outcomes@.len() - i,
        {
            outcomes.push(self.outcomes[i].duplicate());
            assert(outcomes@ =~= self.outcomes@.take(i + 1));
            i += 1;
        }
        assert(outcomes@ =~= self.outcomes@);
        DeletionReport { outcomes }
    }
}

/// Identity of a cleaning candidate.
#[derive(Clone, Copy, Debug, PartialEq, Eq, Structural, Hash)]
pub struct CandidateId(pub u32);

/// A kind of reclaimable data (caches, logs, build outputs and so on), by its place in the
/// catalogue of kinds.
#[derive(Clone, Copy, Debug, PartialEq, Eq, Structural, Hash)]
pub struct CleaningCategory(pub u32);

/// What the cleaner screen lists of one candidate: its identity, its kind and its size when
/// it is known.
#[derive(Clone, Copy, Debug, PartialEq, Eq, Structural)]
pub struct CleaningCandidate {
    pub id: CandidateId,
    pub category: CleaningCategory,
    pub size: Option<ByteSize>,
}

/// Identity of a running query for the heaviest files below a directory.
#[derive(Clone, Copy, Debug, PartialEq, Eq, Structural, Hash)]
pub struct QueryId(pub u64);

/// What became of one cleaning target.
#[derive(Clone, Debug)]
pub enum CleaningStatus {
    Cleaned,
    NeedsPrivileges,
    Cancelled,
    Skipped(String),
    Failed(String),
}

impl CleaningStatus {
    /// An equal copy.
    pub fn duplicate(&self) -> (copy: CleaningStatus)
        ensures
            copy == *self,
    {
        match self {
            CleaningStatus::Cleaned => CleaningStatus::Cleaned,
            CleaningStatus::NeedsPrivileges => CleaningStatus::NeedsPrivileges,
            CleaningStatus::Cancelled => CleaningStatus::Cancelled,
            CleaningStatus::Skipped(reason) => CleaningStatus::Skipped(reason.clone()),
            CleaningStatus::Failed(reason) => CleaningStatus::Failed(reason.clone()),
        }
    }
}

/// The outcome of one cleaning target.
#[derive(Clone, Debug)]
pub struct CleaningOutcome {
    pub candidate: CandidateId,
    pub label: String,
    pub status: CleaningStatus,
    pub detail: String,
    pub reclaimed: ByteSize,
    pub entries_removed: u64,
}

impl CleaningOutcome {
    /// An equal copy.
    pub fn duplicate(&self) -> (copy: CleaningOutcome)
        ensures
            copy == *self,
    {
        CleaningOutcome {
            candidate: self.candidate,
            label: self.label.clone(),
            status: self.status.duplicate(),
            detail: self.detail.clone(),
            reclaimed: self.reclaimed,
            entries_removed: self.entries_removed,
        }
    }
}

/// Every outcome of a cleaning run, and the space it was expected to free.
#[derive(Clone, Debug)]
pub struct CleaningReport {
    pub outcomes: Vec<CleaningOutcome>,
    pub reclaimed_estimate: ByteSize,
}

impl CleaningReport {
    /// An equal copy.
    pub fn duplicate(&self) -> (copy: CleaningReport)
        ensures
            copy.outcomes@ == self.outcomes@,
            copy.reclaimed_estimate == self.reclaimed_estimate,
    {
        let mut outcomes: Vec<CleaningOutcome> = Vec::new();
        let mut i: usize = 0;
        while i < self.outcomes.len()
            invariant
                0 <= i <= self.outcomes@.len(),
                outcomes@ == self.outcomes@.take(i as int),
            decreases self.outcomes@.len() - i,
        {
            outcomes.push(self.outcomes[i].duplicate());
            assert(outcomes@ =~= self.outcomes@.take(i + 1));
            i += 1;
        }
        assert(outcomes@ =~= self.outcomes@);
        CleaningReport { outcomes, reclaimed_estimate: self.reclaimed_estimate }
    }
}

/// One target of a cleaning run as the plan lists it.
#[derive(Clone, Debug)]
pub struct CleaningTarget {
    pub id: CandidateId,
    pub label: String,
    pub size: Option<ByteSize>,
    pub requires_privileges: bool,
}

/// The targets a cleaning run works through, in order.
#[derive(Clone, Debug)]
pub struct CleaningPlan {
    pub candidates: Vec<CleaningTarget>,
}

impl CleaningPlan {
    /// Number of targets.
    pub fn len(&self) -> (count: usize)
        ensures
            count == self.candidates@.len(),
    {
        self.candidates.len()
    }
}

} // verus!
