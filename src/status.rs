use vstd::prelude::*;

verus! {

/// Lifecycle state of an encoding job.
#[derive(Debug, Clone, Copy, PartialEq, Eq, Structural)]
pub enum JobStatus {
    Queued,
    Running,
    Completed,
    Failed,
    Cancelled,
}

impl JobStatus {
    pub open spec fn spec_is_terminal(self) -> bool {
        self == JobStatus::Completed || self == JobStatus::Failed || self == JobStatus::Cancelled
    }

    /// True for the three final states.
    pub fn is_terminal(&self) -> (r: bool)
        ensures
            r == self.spec_is_terminal(),
    {
        match self {
            JobStatus::Completed | JobStatus::Failed | JobStatus::Cancelled => true,
            _ => false,
        }
    }

    /// True only while the job is being encoded.
    pub fn is_active(&self) -> (r: bool)
        ensures
            r == (*self == JobStatus::Running),
    {
        matches!(self, JobStatus::Running)
    }

    pub open spec fn spec_label(self) -> Seq<char> {
        match self {
            JobStatus::Queued => "Queued"@,
            JobStatus::Running => "Running"@,
            JobStatus::Completed => "Completed"@,
            JobStatus::Failed => "Failed"@,
            JobStatus::Cancelled => "Cancelled"@,
        }
    }

    /// Human-readable name of the state.
    pub fn label(&self) -> (r: &'static str)
        ensures
            r@ == self.spec_label(),
    {
        match self {
            JobStatus::Queued => "Queued",
            JobStatus::Running => "Running",
            JobStatus::Completed => "Completed",
            JobStatus::Failed => "Failed",
            JobStatus::Cancelled => "Cancelled",
        }
    }
}

} // verus!
