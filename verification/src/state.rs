use vstd::prelude::*;
use crate::address::Address;

verus! {

/// Capacity of a loan's history log: room is allocated for this many funding
/// events at record creation, and the log never grows past it.
pub const HISTORY_CAPACITY: usize = 10;

/// The fee rate, in basis points, that every deployment is created with.
pub const DEFAULT_FEE_BPS: u64 = 30;

/// Whether a funding event is still open (`ACTIVE`) or has been settled by a
/// repayment (`CLOSED`).
#[allow(non_camel_case_types)]
#[derive(Clone, Copy, Debug, PartialEq, Eq, Structural)]
pub enum LoanStatus {
    ACTIVE,
    CLOSED,
}

/// Protocol configuration: one per deployment, created once and read by
/// every later operation.
#[derive(Clone, Copy, Debug, PartialEq, Eq, Structural)]
pub struct Config {
    /// Identity of the party that created the deployment.
    pub admin: Address,
    /// Default principal applied to new loans.
    pub loan_amount: u64,
    /// Fee rate in basis points, charged once at repayment.
    pub bps_fee: u64,
    /// Address-derivation tag of the stored record.
    pub bump: u8,
}

/// One history entry, recorded per successful funding event.
#[derive(Clone, Copy, Debug, PartialEq, Eq, Structural)]
pub struct LoanDetails {
    /// Identifier derived from the funding timestamp.
    pub loan_id: u64,
    /// The borrowing party of this funding event.
    pub borrower_pubkey: Address,
    /// The lending party of this funding event.
    pub lender_pubkey: Address,
    /// Principal funded.
    pub loan_amount: u64,
    /// `ACTIVE` until the loan is repaid, then `CLOSED`.
    pub loan_status: LoanStatus,
    /// Wall-clock time of the funding.
    pub loan_timestamp: i64,
}

/// A loan record: one per (borrower, collateral asset) pair.
#[derive(Clone, Debug)]
pub struct Loan {
    /// Identifier of the locked non-fungible asset.
    pub nft_mint: Address,
    /// Identity of the depositing party; unset (all-zero) before any deposit.
    pub borrower: Address,
    /// Principal recorded at deposit time, copied from the configuration.
    pub amount: u64,
    /// True while the collateral is held in custody and not yet returned.
    pub active: bool,
    /// Append-only log of funding events, at most `HISTORY_CAPACITY` long.
    pub loan_details: Vec<LoanDetails>,
    /// Address-derivation tag of the stored record.
    pub bump: u8,
}

/// The mathematical model of a `Loan` record: the same fields, with the
/// history log as a sequence. Contracts and transition functions speak of
/// this model.
#[verifier::ext_equal]
pub struct LoanModel {
    pub nft_mint: Address,
    pub borrower: Address,
    pub amount: u64,
    pub active: bool,
    pub loan_details: Seq<LoanDetails>,
    pub bump: u8,
}

impl LoanModel {
    /// The model of a freshly allocated, never-deposited record: unset
    /// identities, no principal, inactive, empty history.
    pub open spec fn spec_default() -> LoanModel {
        LoanModel {
            nft_mint: Address::spec_zero(),
            borrower: Address::spec_zero(),
            amount: 0,
            active: false,
            loan_details: Seq::empty(),
            bump: 0,
        }
    }

    /// Well-formedness: the history log respects its capacity.
    pub open spec fn wf(self) -> bool {
        self.loan_details.len() <= HISTORY_CAPACITY
    }
}

impl View for Loan {
    type V = LoanModel;

    open spec fn view(&self) -> LoanModel {
        LoanModel {
            nft_mint: self.nft_mint,
            borrower: self.borrower,
            amount: self.amount,
            active: self.active,
            loan_details: self.loan_details@,
            bump: self.bump,
        }
    }
}

impl Loan {
    /// Well-formedness of the stored record, inherited from its model.
    pub open spec fn wf(&self) -> bool {
        self@.wf()
    }
}

impl Default for Loan {
    /// A freshly allocated, never-deposited record.
    fn default() -> (l: Loan)
        ensures
            l@ == LoanModel::spec_default(),
            l.wf(),
    {
        Loan {
            nft_mint: Address::zero(),
            borrower: Address::zero(),
            amount: 0,
            active: false,
            loan_details: Vec::new(),
            bump: 0,
        }
    }
}

/// The custody proxy bound to one loan record: the identity that signs the
/// release of the collateral back to the borrower at repayment.
#[derive(Clone, Copy, Debug, PartialEq, Eq, Structural)]
pub struct Escrow {
    /// Identity the proxy acts for.
    pub owner: Address,
    /// Address-derivation tag of the stored record.
    pub bump: u8,
}

impl Escrow {
    /// Builds the custody proxy record for one loan.
    pub fn new(owner: Address, bump: u8) -> (e: Escrow)
        ensures
            e == (Escrow { owner, bump }),
    {
        Escrow { owner, bump }
    }
}

impl Default for Escrow {
    /// A freshly allocated proxy record, not yet bound to any identity.
    fn default() -> (e: Escrow)
        ensures
            e == (Escrow { owner: Address::spec_zero(), bump: 0 }),
    {
        Escrow { owner: Address::zero(), bump: 0 }
    }
}

/// A requested movement of collateral-token units between custody accounts,
/// to be performed atomically by the host's token-transfer collaborator.
#[derive(Clone, Copy, Debug, PartialEq, Eq, Structural)]
pub struct TokenTransfer {
    /// Custody account debited.
    pub from: Address,
    /// Custody account credited.
    pub to: Address,
    /// Identity that must authorize the debit.
    pub authority: Address,
    /// Number of token units moved.
    pub amount: u64,
}

/// A requested movement of native currency between accounts, to be performed
/// atomically by the host's currency-transfer collaborator. The debited
/// account's owner authorizes the movement.
#[derive(Clone, Copy, Debug, PartialEq, Eq, Structural)]
pub struct CurrencyTransfer {
    /// Account debited.
    pub from: Address,
    /// Account credited.
    pub to: Address,
    /// Amount of native currency moved.
    pub amount: u64,
}

} // verus!
