//! The closed set of business-rule failures an entry point can report.

use vstd::prelude::*;

verus! {

/// Error codes for the ajo engine.
///
/// Every failure of an entry point is one of these; none is a crash, and a
/// failing call leaves the state untouched.
#[derive(Clone, Copy, Debug, PartialEq, Eq, Structural)]
pub enum AjoError {
    /// Contract has already been initialized.
    AlreadyInitialized,
    /// The specified group wasn't found in storage.
    GroupNotFound,
    /// Can't join because the group is already at its member limit.
    MaxMembersExceeded,
    /// This account is already part of the group.
    AlreadyMember,
    /// The account isn't a member of the group.
    NotMember,
    /// The member already made their contribution for this cycle.
    AlreadyContributed,
    /// The payout can't move forward until everyone has contributed.
    IncompleteContributions,
    /// Member has already been paid out.
    AlreadyReceivedPayout,
    /// All cycles for this group are finished.
    GroupComplete,
    /// Contribution amount can't be zero.
    ContributionAmountZero,
    /// Cycle duration must be greater than zero.
    CycleDurationZero,
    /// Groups need at least 2 members to work.
    MaxMembersBelowMinimum,
    /// Max members exceeds the reasonable limit.
    MaxMembersAboveLimit,
    /// Member doesn't have enough balance.
    InsufficientBalance,
    /// The token transfer didn't go through.
    TransferFailed,
    /// This group has no members initialized.
    NoMembers,
    /// Only the creator or authorized members can do this.
    Unauthorized,
    /// Contribution outside the active cycle window.
    OutsideCycleWindow,
    /// Negative amounts aren't allowed for contributions.
    ContributionAmountNegative,
    /// Metadata name exceeds its maximum length.
    MetadataNameTooLong,
    /// Metadata description exceeds its maximum length.
    MetadataDescriptionTooLong,
    /// Metadata rules exceed their maximum length.
    MetadataRulesTooLong,
    /// The cycle window has not yet elapsed, so the group is not stalled.
    NotEligibleForWithdrawal,
    /// The member has already performed an emergency withdrawal.
    AlreadyWithdrawn,
    /// A member who already received a payout cannot withdraw.
    WithdrawalAfterPayout,
}

} // verus!
