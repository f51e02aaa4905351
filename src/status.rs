use vstd::prelude::*;

verus! {

/// Lifecycle stage of a task.
#[derive(Clone, Copy, Debug, PartialEq, Eq, Structural)]
pub enum Status {
    Pending,
    Queued,
    InProgress,
    Completed,
    Failed,
    Cancelled,
}

/// The text shown for a status.
pub open spec fn status_text(s: Status) -> Seq<char> {
    match s {
        Status::Pending => seq!['P', 'e', 'n', 'd', 'i', 'n', 'g'],
        Status::Queued => seq!['Q', 'u', 'e', 'u', 'e', 'd'],
        Status::InProgress => seq!['I', 'n', ' ', 'P', 'r', 'o', 'g', 'r', 'e', 's', 's'],
        Status::Completed => seq!['C', 'o', 'm', 'p', 'l', 'e', 't', 'e', 'd'],
        Status::Failed => seq!['F', 'a', 'i', 'l', 'e', 'd'],
        Status::Cancelled => seq!['C', 'a', 'n', 'c', 'e', 'l', 'l', 'e', 'd'],
    }
}

impl Status {
    /// The text shown for this status.
    pub fn label(&self) -> (r: &'static str)
        ensures
            r@ == status_text(*self),
    {
        proof {
            reveal_strlit("Pending");
            reveal_strlit("Queued");
            reveal_strlit("In Progress");
            reveal_strlit("Completed");
            reveal_strlit("Failed");
            reveal_strlit("Cancelled");
        }
        match self {
            Status::Pending => "Pending",
            Status::Queued => "Queued",
            Status::InProgress => "In Progress",
            Status::Completed => "Completed",
            Status::Failed => "Failed",
            Status::Cancelled => "Cancelled",
        }
    }
}

impl Default for Status {
    fn default() -> (r: Status)
        ensures
            r == Status::Pending,
    {
        Status::Pending
    }
}

} // verus!
