//! The record of a check for updates.

use vstd::prelude::*;

verus! {

/// How a check for updates stands.
#[derive(Clone, Copy, Debug, PartialEq, Eq, Structural)]
pub enum CheckUpdateStatus {
    Checking,
    Success,
    Failed,
}

impl CheckUpdateStatus {
    /// The name under which the status is reported.
    pub open spec fn name(self) -> Seq<char> {
        match self {
            CheckUpdateStatus::Checking => "checking"@,
            CheckUpdateStatus::Success => "success"@,
            CheckUpdateStatus::Failed => "failed"@,
        }
    }

    /// The name under which the status is reported.
    pub fn as_str(&self) -> (name: &'static str)
        ensures
            name@ == self.name(),
    {
        match self {
            CheckUpdateStatus::Checking => "checking",
            CheckUpdateStatus::Success => "success",
            CheckUpdateStatus::Failed => "failed",
        }
    }
}

/// The last check for updates: when it began, in seconds since the epoch,
/// and how it stands.
#[derive(Clone, Copy, Debug, PartialEq, Eq, Structural)]
pub struct UpdateCheckResult {
    pub timestamp: i64,
    pub status: CheckUpdateStatus,
}

impl UpdateCheckResult {
    /// The record of a check that has just begun at `timestamp`.
    pub fn started(timestamp: i64) -> (result: UpdateCheckResult)
        ensures
            result == (UpdateCheckResult { timestamp, status: CheckUpdateStatus::Checking }),
    {
        UpdateCheckResult { timestamp, status: CheckUpdateStatus::Checking }
    }

    /// The record of the same check once it has ended, well or not.
    pub fn finished(&self, found_out: bool) -> (result: UpdateCheckResult)
        ensures
            result == (UpdateCheckResult {
                timestamp: self.timestamp,
                status: if found_out {
                    CheckUpdateStatus::Success
                } else {
                    CheckUpdateStatus::Failed
                },
            }),
    {
        UpdateCheckResult {
            timestamp: self.timestamp,
            status: if found_out {
                CheckUpdateStatus::Success
            } else {
                CheckUpdateStatus::Failed
            },
        }
    }
}

} // verus!
