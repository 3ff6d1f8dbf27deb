//! Verified core of the open-source Windmill services: audit-log records and queries,
//! GitHub App git-sync decisions, critical alerts, mail delivery planning and the
//! AWS Secrets Manager backend.
use vstd::prelude::*;

pub mod text;
pub mod error;
pub mod sqlb;
pub mod audit;
pub mod url_parts;
pub mod git_sync;
pub mod license;
pub mod email;
pub mod aws_sm;

verus! {
} // verus!
