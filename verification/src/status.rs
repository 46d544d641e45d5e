//! The states of a generation job and of a support ticket, and the labels
//! under which the caches and the store know them.

use vstd::prelude::*;
use crate::text::str_eq;

verus! {

/// The state of a generation job.
#[derive(Clone, Copy, Debug, PartialEq, Eq, Hash, Structural)]
pub enum GenerationStatus {
    Working,
    Success,
    Failed,
    Deleting,
    Waiting,
}

/// Who a person that opens a support ticket says they are.
#[derive(Clone, Copy, Debug, PartialEq, Eq, Hash, Structural)]
pub enum SupportWhoAreYou {
    Student,
    Teacher,
    Company,
    Organisation,
    Unknown,
}

/// The state of a support ticket.
#[derive(Clone, Copy, Debug, PartialEq, Eq, Hash, Structural)]
pub enum SupportTicketState {
    Unclaimed,
    Claimed,
    Closed,
}

/// The label of a job state.
pub open spec fn status_label(status: GenerationStatus) -> Seq<char> {
    match status {
        GenerationStatus::Working => "Working"@,
        GenerationStatus::Success => "Success"@,
        GenerationStatus::Failed => "Failed"@,
        GenerationStatus::Deleting => "Deleting"@,
        GenerationStatus::Waiting => "Waiting"@,
    }
}

/// The job state that a label stands for, if any.
pub open spec fn status_of_label(label: Seq<char>) -> Option<GenerationStatus> {
    if label == "Failed"@ {
        Some(GenerationStatus::Failed)
    } else if label == "Working"@ {
        Some(GenerationStatus::Working)
    } else if label == "Deleting"@ {
        Some(GenerationStatus::Deleting)
    } else if label == "Waiting"@ {
        Some(GenerationStatus::Waiting)
    } else if label == "Success"@ {
        Some(GenerationStatus::Success)
    } else {
        None
    }
}

impl GenerationStatus {
    /// The label under which the status cache holds this state.
    pub fn label(&self) -> (r: &'static str)
        ensures
            r@ == status_label(*self),
    {
        match self {
            GenerationStatus::Working => "Working",
            GenerationStatus::Success => "Success",
            GenerationStatus::Failed => "Failed",
            GenerationStatus::Deleting => "Deleting",
            GenerationStatus::Waiting => "Waiting",
        }
    }

    /// Reads a state from the label that the status cache holds.
    pub fn from_label(label: &str) -> (r: Option<GenerationStatus>)
        ensures
            r == status_of_label(label@),
    {
        if str_eq(label, "Failed") {
            Some(GenerationStatus::Failed)
        } else if str_eq(label, "Working") {
            Some(GenerationStatus::Working)
        } else if str_eq(label, "Deleting") {
            Some(GenerationStatus::Deleting)
        } else if str_eq(label, "Waiting") {
            Some(GenerationStatus::Waiting)
        } else if str_eq(label, "Success") {
            Some(GenerationStatus::Success)
        } else {
            None
        }
    }
}

/// Every state is read back from its own label.
pub proof fn lemma_label_round_trip(status: GenerationStatus)
    ensures
        status_of_label(status_label(status)) == Some(status),
{
    reveal_strlit("Working");
    reveal_strlit("Success");
    reveal_strlit("Failed");
    reveal_strlit("Deleting");
    reveal_strlit("Waiting");
    match status {
        GenerationStatus::Working => {
            assert("Working"@[0] == 'W');
            assert("Working"@[1] == 'o');
            assert("Waiting"@[1] == 'a');
        },
        GenerationStatus::Success => {
            assert("Success"@[0] == 'S');
        },
        GenerationStatus::Failed => {},
        GenerationStatus::Deleting => {
            assert("Deleting"@[0] == 'D');
        },
        GenerationStatus::Waiting => {
            assert("Waiting"@[0] == 'W');
            assert("Waiting"@[1] == 'a');
            assert("Working"@[1] == 'o');
        },
    }
}

} // verus!
