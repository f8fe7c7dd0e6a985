//! The structured error taxonomy returned by every entry point.

use vstd::prelude::*;
use crate::state::MilestoneStatus;
use crate::state::ProjectStatus;

verus! {

/// Every failure an entry point can report.  Each call either fully commits
/// its mutations or returns one of these with the state unchanged.
#[derive(Clone, Copy, Debug, PartialEq, Eq, Structural)]
pub enum ContractError {
    /// The caller lacks the required role.
    Unauthorized,
    /// Unknown project or voter.
    NotFound,
    /// The project is not in the status the operation requires.
    WrongStatus { expected: ProjectStatus, actual: ProjectStatus },
    /// The milestone awaiting release is not open for voting.
    WrongMilestoneStatus { step: usize, status: MilestoneStatus },
    /// A forced completion or failure of a project already past that point.
    AlreadyDoneFail,
    /// The selected contribution pool already met its cap.
    AlreadyCollected,
    /// The attached contribution is below the accepted minimum.
    InsufficientFunds,
    /// The base-currency balance is below the operational buffer.
    InsufficientReserve,
    /// The wallet is already registered as a community member.
    AlreadyMember,
    /// The wallet is not registered as a community member.
    NotMember,
    /// An intermediate amount does not fit the arithmetic domain.
    Overflow,
    /// The proportional-withdrawal denominator is zero.
    DivideByZero,
}

} // verus!
