use vstd::prelude::*;

verus! {

/// The terminal outcomes of a failed loan operation. Every error aborts the
/// whole requested operation: no record is mutated and no transfer is owed.
#[derive(Clone, Copy, Debug, PartialEq, Eq, Structural)]
pub enum CustomError {
    /// A deposit was attempted for a (borrower, asset) pair whose loan record
    /// is still active.
    LoanIsActive,
    /// A funding was attempted on a record whose borrower is unset, i.e.
    /// before any deposit.
    BorrowerNotFound,
    /// A repayment was attempted on a record that is not active (never
    /// deposited, or already repaid).
    LoanIsNotActive,
    /// The fee or total-repayment computation would overflow the numeric
    /// range.
    MathOverflow,
    /// A funding was attempted on a record whose history log is already at
    /// capacity.
    HistoryFull,
}

} // verus!
