//! The entities of the rotation engine and their invariants.

use vstd::prelude::*;

verus! {

/// Identity of a participant. The engine only ever compares identities for
/// equality, so a plain integer account id stands for a participant.
pub type MemberId = u64;

/// Maximum length of a metadata name, in characters.
pub const MAX_NAME_LENGTH: u32 = 64;

/// Maximum length of a metadata description, in characters.
pub const MAX_DESCRIPTION_LENGTH: u32 = 256;

/// Maximum length of metadata rules, in characters.
pub const MAX_RULES_LENGTH: u32 = 512;

/// Upper cap on `max_members`, so that cycle counters and pooled sums stay
/// far away from their machine limits.
pub const MAX_MEMBERS_LIMIT: u32 = 1000;

/// Metadata for a group with size constraints.
///
/// Size limits are enforced on update: `name` at most 64 characters,
/// `description` at most 256, `rules` at most 512. Empty strings are valid.
#[derive(Clone, Debug, PartialEq, Eq)]
pub struct GroupMetadata {
    /// Human-readable name for the group.
    pub name: String,
    /// Detailed description of the group's purpose.
    pub description: String,
    /// Rules and guidelines for group members.
    pub rules: String,
}

impl GroupMetadata {
    /// The stored record respects all three length limits.
    pub open spec fn wf(self) -> bool {
        &&& self.name@.len() <= MAX_NAME_LENGTH
        &&& self.description@.len() <= MAX_DESCRIPTION_LENGTH
        &&& self.rules@.len() <= MAX_RULES_LENGTH
    }
}

/// An ajo group's configuration and rotation state.
#[derive(Clone, Debug, PartialEq, Eq)]
pub struct Group {
    /// Unique group identifier, assigned at creation and never reused.
    pub id: u64,
    /// Creator of the group, auto-enrolled as its first member.
    pub creator: MemberId,
    /// Fixed contribution amount per member per cycle.
    pub contribution_amount: i128,
    /// Duration of each cycle in seconds.
    pub cycle_duration: u64,
    /// Maximum number of members allowed, fixed at creation.
    pub max_members: u32,
    /// Member identities in join order; join order is the payout order.
    pub members: Vec<MemberId>,
    /// Current cycle number, starting at 1.
    pub current_cycle: u32,
    /// Index into `members` of the next payout recipient; equals the number
    /// of payouts executed so far.
    pub payout_index: u32,
    /// Timestamp when the group was created.
    pub created_at: u64,
    /// Timestamp when the current cycle started.
    pub cycle_start_time: u64,
    /// Whether the rotation is exhausted or the group was cancelled.
    pub is_complete: bool,
}

impl Group {
    /// The members sequence holds no identity twice.
    pub open spec fn members_distinct(self) -> bool {
        forall|i: int, j: int|
            0 <= i < j < self.members@.len() ==> self.members@[i] != self.members@[j]
    }

    /// Well-formedness of a group record: parameter validity, the rotation
    /// bookkeeping invariant, and the bounds that keep every sum and counter
    /// inside its machine type.
    pub open spec fn wf(self) -> bool {
        &&& self.contribution_amount > 0
        &&& self.cycle_duration > 0
        &&& 2 <= self.max_members <= MAX_MEMBERS_LIMIT
        &&& 1 <= self.members@.len() <= self.max_members
        &&& self.members@[0] == self.creator
        &&& self.members_distinct()
        &&& self.payout_index <= self.members@.len()
        &&& self.current_cycle == self.payout_index + 1
        &&& self.payout_index == self.members@.len() ==> self.is_complete
        &&& self.contribution_amount * (self.max_members + 1) as int <= i128::MAX as int
        &&& self.cycle_start_time + self.cycle_duration <= u64::MAX
    }
}

/// Contribution status of one member in one cycle.
#[derive(Clone, Copy, Debug, PartialEq, Eq, Structural)]
pub struct ContributionRecord {
    pub member: MemberId,
    pub group_id: u64,
    pub cycle: u32,
    pub has_paid: bool,
    pub timestamp: u64,
}

/// Record of one executed payout.
#[derive(Clone, Copy, Debug, PartialEq, Eq, Structural)]
pub struct PayoutRecord {
    pub member: MemberId,
    pub group_id: u64,
    pub cycle: u32,
    pub amount: i128,
    pub timestamp: u64,
}

/// Comprehensive group status snapshot.
///
/// A pure aggregation for observers: producing it never advances state.
#[derive(Clone, Debug, PartialEq, Eq)]
pub struct GroupStatus {
    /// The group id.
    pub group_id: u64,
    /// Current cycle number.
    pub current_cycle: u32,
    /// The next recipient; meaningful only when `has_next_recipient`.
    pub next_recipient: MemberId,
    /// Whether there is a next recipient (false once complete).
    pub has_next_recipient: bool,
    /// Number of members who have contributed this cycle.
    pub contributions_received: u32,
    /// Total number of members in the group.
    pub total_members: u32,
    /// Members who haven't contributed yet this cycle, in join order.
    pub pending_contributors: Vec<MemberId>,
    /// Whether the group has completed all cycles or was cancelled.
    pub is_complete: bool,
    /// Timestamp when the current cycle started.
    pub cycle_start_time: u64,
    /// Timestamp when the current cycle ends.
    pub cycle_end_time: u64,
    /// The caller-supplied current timestamp, echoed for reference.
    pub current_time: u64,
    /// Whether the cycle window is still open at `current_time`.
    pub is_cycle_active: bool,
}

} // verus!
