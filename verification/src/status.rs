//! The lifecycle states of a timer and their persisted codes.

use vstd::prelude::*;

verus! {

/// Lifecycle state of a timer.
///
/// A timer is created `NEW`, alternates between `RUN` and `PAUSED` while it is
/// worked on, and ends `COMPLETED` or `DELETED`.
#[allow(non_camel_case_types)]
#[derive(Debug, Clone, Copy, PartialEq, Eq, Structural)]
pub enum TimerStatus {
    NEW,
    RUN,
    PAUSED,
    COMPLETED,
    DELETED,
}

impl TimerStatus {
    /// The integer under which the state is persisted.
    pub open spec fn spec_code(self) -> u32 {
        match self {
            TimerStatus::NEW => 0,
            TimerStatus::RUN => 1,
            TimerStatus::PAUSED => 2,
            TimerStatus::COMPLETED => 3,
            TimerStatus::DELETED => 9,
        }
    }

    /// The state that a persisted integer stands for, if any.
    pub open spec fn spec_from_code(code: u32) -> Option<TimerStatus> {
        if code == 0 {
            Some(TimerStatus::NEW)
        } else if code == 1 {
            Some(TimerStatus::RUN)
        } else if code == 2 {
            Some(TimerStatus::PAUSED)
        } else if code == 3 {
            Some(TimerStatus::COMPLETED)
        } else if code == 9 {
            Some(TimerStatus::DELETED)
        } else {
            None
        }
    }

    /// A terminal state admits no further lifecycle transition.
    pub open spec fn spec_is_terminal(self) -> bool {
        self == TimerStatus::COMPLETED || self == TimerStatus::DELETED
    }

    /// The text under which a state is shown to people.
    pub open spec fn spec_label(self) -> Seq<char> {
        match self {
            TimerStatus::NEW => "New"@,
            TimerStatus::RUN => "Running"@,
            TimerStatus::PAUSED => "Paused"@,
            TimerStatus::COMPLETED => "Completed"@,
            TimerStatus::DELETED => "Deleted"@,
        }
    }

    /// Returns the integer under which the state is persisted.
    pub fn code(self) -> (code: u32)
        ensures
            code == self.spec_code(),
    {
        match self {
            TimerStatus::NEW => 0,
            TimerStatus::RUN => 1,
            TimerStatus::PAUSED => 2,
            TimerStatus::COMPLETED => 3,
            TimerStatus::DELETED => 9,
        }
    }

    /// Reads a persisted integer back; `None` for an integer that no state
    /// is persisted under.
    pub fn from_code(code: u32) -> (status: Option<TimerStatus>)
        ensures
            status == Self::spec_from_code(code),
    {
        match code {
            0 => Some(TimerStatus::NEW),
            1 => Some(TimerStatus::RUN),
            2 => Some(TimerStatus::PAUSED),
            3 => Some(TimerStatus::COMPLETED),
            9 => Some(TimerStatus::DELETED),
            _ => None,
        }
    }

    /// Whether the state is `COMPLETED` or `DELETED`.
    pub fn is_terminal(self) -> (terminal: bool)
        ensures
            terminal == self.spec_is_terminal(),
    {
        match self {
            TimerStatus::COMPLETED | TimerStatus::DELETED => true,
            _ => false,
        }
    }

    /// Returns the text under which the state is shown to people.
    pub fn label(self) -> (text: &'static str)
        ensures
            text@ == self.spec_label(),
    {
        match self {
            TimerStatus::NEW => "New",
            TimerStatus::RUN => "Running",
            TimerStatus::PAUSED => "Paused",
            TimerStatus::COMPLETED => "Completed",
            TimerStatus::DELETED => "Deleted",
        }
    }
}

/// Every state is read back from its own code.
pub proof fn code_round_trip(status: TimerStatus)
    ensures
        TimerStatus::spec_from_code(status.spec_code()) == Some(status),
{
}

/// An integer that a state is read from is that state's code, so no two
/// integers stand for one state.
pub proof fn code_is_unique(code: u32, status: TimerStatus)
    requires
        TimerStatus::spec_from_code(code) == Some(status),
    ensures
        status.spec_code() == code,
{
}

} // verus!
