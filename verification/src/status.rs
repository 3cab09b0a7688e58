use vstd::prelude::*;

verus! {

/// Lifecycle state of a task or of a flow. `PENDING` and `RUNNING` are
/// transient; `COMPLETED` and `FAILED` are terminal.
#[allow(non_camel_case_types)]
#[derive(Clone, Copy, Debug, PartialEq, Eq, Structural)]
pub enum Status {
    PENDING,
    RUNNING,
    COMPLETED,
    FAILED,
}

impl Status {
    /// A terminal state is never left again.
    pub open spec fn is_terminal(self) -> bool {
        self == Status::COMPLETED || self == Status::FAILED
    }
}

} // verus!
