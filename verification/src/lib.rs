//! A rotating savings and credit association ("ajo"/"esusu") engine.
//!
//! A fixed circle of members each contributes a fixed amount every cycle,
//! and exactly one member is paid the pooled sum per cycle, in join order,
//! until every member has been paid once.

pub mod engine;
pub mod errors;
pub mod ledger;
pub mod storage;
pub mod types;
pub mod utils;

pub use errors::AjoError;
pub use ledger::AjoLedger;
pub use storage::GroupEntry;
pub use types::{ContributionRecord, Group, GroupMetadata, GroupStatus, MemberId, PayoutRecord};
pub use types::{MAX_DESCRIPTION_LENGTH, MAX_MEMBERS_LIMIT, MAX_NAME_LENGTH, MAX_RULES_LENGTH};
