use vstd::prelude::*;
use crate::address::Address;
use crate::error::CustomError;
use crate::fee::spec_fee;
use crate::ops::{spec_deposite, spec_funding_entry, spec_lend_borrower, spec_repay_borrower};
use crate::state::{
    Config, CurrencyTransfer, LoanDetails, LoanModel, LoanStatus, TokenTransfer,
    HISTORY_CAPACITY,
};

verus! {

/// Depositing again before repayment fails: once a deposit has succeeded,
/// any further deposit on the resulting record — whatever its arguments —
/// is refused with `LoanIsActive` and leaves the record unchanged.
pub proof fn lemma_deposit_twice_fails(
    loan: LoanModel,
    config1: Config,
    user1: Address,
    nft_mint1: Address,
    user_ata1: Address,
    escrow_ata1: Address,
    bump1: u8,
    config2: Config,
    user2: Address,
    nft_mint2: Address,
    user_ata2: Address,
    escrow_ata2: Address,
    bump2: u8,
)
    requires
        spec_deposite(loan, config1, user1, nft_mint1, user_ata1, escrow_ata1, bump1).1 is Ok,
    ensures
        ({
            let after = spec_deposite(
                loan, config1, user1, nft_mint1, user_ata1, escrow_ata1, bump1).0;
            spec_deposite(after, config2, user2, nft_mint2, user_ata2, escrow_ata2, bump2)
                == (after, Err::<TokenTransfer, CustomError>(CustomError::LoanIsActive))
        }),
{
}

/// Funding before any deposit fails: on a record whose borrower is unset —
/// as every record is before its first deposit — funding is refused with
/// `BorrowerNotFound` and leaves the record unchanged.
pub proof fn lemma_fund_before_deposit_fails(
    loan: LoanModel,
    user: Address,
    escrow_ata: Address,
    now: i64,
)
    requires
        loan.borrower == Address::spec_zero(),
    ensures
        spec_lend_borrower(loan, user, escrow_ata, now)
            == (loan, Err::<CurrencyTransfer, CustomError>(CustomError::BorrowerNotFound)),
{
}

/// Repaying an inactive loan fails: on a record that is not active — never
/// deposited, or already repaid — repayment is refused with
/// `LoanIsNotActive` and leaves the record unchanged.
pub proof fn lemma_repay_inactive_fails(
    loan: LoanModel,
    config: Config,
    user: Address,
    escrow_sol_ata: Address,
    escrow_nft_ata: Address,
    user_nft_ata: Address,
    escrow_authority: Address,
)
    requires
        !loan.active,
    ensures
        spec_repay_borrower(
            loan, config, user, escrow_sol_ata, escrow_nft_ata, user_nft_ata, escrow_authority)
            == (loan, Err::<(CurrencyTransfer, TokenTransfer), CustomError>(
                CustomError::LoanIsNotActive)),
{
}

/// Repaying twice fails: once a repayment has succeeded, any further
/// repayment on the resulting record — whatever its arguments — is refused
/// with `LoanIsNotActive` and leaves the record unchanged.
pub proof fn lemma_repay_twice_fails(
    loan: LoanModel,
    config1: Config,
    user1: Address,
    escrow_sol_ata1: Address,
    escrow_nft_ata1: Address,
    user_nft_ata1: Address,
    escrow_authority1: Address,
    config2: Config,
    user2: Address,
    escrow_sol_ata2: Address,
    escrow_nft_ata2: Address,
    user_nft_ata2: Address,
    escrow_authority2: Address,
)
    requires
        spec_repay_borrower(
            loan, config1, user1, escrow_sol_ata1, escrow_nft_ata1, user_nft_ata1,
            escrow_authority1).1 is Ok,
    ensures
        ({
            let after = spec_repay_borrower(
                loan, config1, user1, escrow_sol_ata1, escrow_nft_ata1, user_nft_ata1,
                escrow_authority1).0;
            spec_repay_borrower(
                after, config2, user2, escrow_sol_ata2, escrow_nft_ata2, user_nft_ata2,
                escrow_authority2)
                == (after, Err::<(CurrencyTransfer, TokenTransfer), CustomError>(
                    CustomError::LoanIsNotActive))
        }),
{
}

/// The history bound is enforced: funding a record whose history log is at
/// capacity — and whose borrower is set, so that no earlier refusal hides
/// the bound — is refused with `HistoryFull` and leaves the record
/// unchanged.
pub proof fn lemma_history_bound(loan: LoanModel, user: Address, escrow_ata: Address, now: i64)
    requires
        loan.loan_details.len() >= HISTORY_CAPACITY,
        loan.borrower != Address::spec_zero(),
    ensures
        spec_lend_borrower(loan, user, escrow_ata, now)
            == (loan, Err::<CurrencyTransfer, CustomError>(CustomError::HistoryFull)),
{
}

/// Overflow is refused, never wrapped: repaying an active loan whose fee
/// product or whose total of principal and fee would leave the numeric
/// range fails with `MathOverflow` and leaves the record unchanged.
pub proof fn lemma_repay_overflow_fails(
    loan: LoanModel,
    config: Config,
    user: Address,
    escrow_sol_ata: Address,
    escrow_nft_ata: Address,
    user_nft_ata: Address,
    escrow_authority: Address,
)
    requires
        loan.active,
        loan.amount * config.bps_fee > u64::MAX
            || loan.amount + spec_fee(loan.amount, config.bps_fee) > u64::MAX,
    ensures
        spec_repay_borrower(
            loan, config, user, escrow_sol_ata, escrow_nft_ata, user_nft_ata, escrow_authority)
            == (loan, Err::<(CurrencyTransfer, TokenTransfer), CustomError>(
                CustomError::MathOverflow)),
{
}

/// `active` is governed by deposit and repayment alone: a successful
/// deposit leaves the record active, funding never changes the flag, and a
/// successful repayment leaves the record inactive.
pub proof fn lemma_active_lifecycle(
    loan: LoanModel,
    config: Config,
    user: Address,
    nft_mint: Address,
    account1: Address,
    account2: Address,
    account3: Address,
    bump: u8,
    now: i64,
)
    ensures
        spec_deposite(loan, config, user, nft_mint, account1, account2, bump).1 is Ok
            ==> spec_deposite(loan, config, user, nft_mint, account1, account2, bump).0.active,
        spec_lend_borrower(loan, user, account1, now).0.active == loan.active,
        spec_repay_borrower(loan, config, user, account1, account2, account3, user).1 is Ok
            ==> !spec_repay_borrower(loan, config, user, account1, account2, account3, user)
                .0.active,
{
}

/// The history log is an append-only record of funding events: a successful
/// funding appends exactly one entry, carrying the lender, the borrower,
/// the principal and an open status, and touches nothing else of the log.
pub proof fn lemma_funding_appends_one_entry(
    loan: LoanModel,
    user: Address,
    escrow_ata: Address,
    now: i64,
)
    requires
        spec_lend_borrower(loan, user, escrow_ata, now).1 is Ok,
    ensures
        ({
            let after = spec_lend_borrower(loan, user, escrow_ata, now).0;
            let entry = spec_funding_entry(loan, user, now);
            &&& after.loan_details == loan.loan_details.push(entry)
            &&& entry.lender_pubkey == user
            &&& entry.borrower_pubkey == loan.borrower
            &&& entry.loan_amount == loan.amount
            &&& entry.loan_status == LoanStatus::ACTIVE
        }),
{
}

/// A successful repayment settles the log without rewriting it: the length
/// is kept, every entry but the last is untouched, and the last entry — if
/// one exists — changes only its status, to closed.
pub proof fn lemma_repayment_closes_last_entry(
    loan: LoanModel,
    config: Config,
    user: Address,
    escrow_sol_ata: Address,
    escrow_nft_ata: Address,
    user_nft_ata: Address,
    escrow_authority: Address,
)
    requires
        spec_repay_borrower(
            loan, config, user, escrow_sol_ata, escrow_nft_ata, user_nft_ata, escrow_authority)
            .1 is Ok,
    ensures
        ({
            let after = spec_repay_borrower(
                loan, config, user, escrow_sol_ata, escrow_nft_ata, user_nft_ata,
                escrow_authority).0;
            let n = loan.loan_details.len();
            &&& after.loan_details.len() == n
            &&& forall|i: int| 0 <= i < n - 1
                ==> after.loan_details[i] == loan.loan_details[i]
            &&& n > 0 ==> after.loan_details[n - 1] == (LoanDetails {
                loan_status: LoanStatus::CLOSED,
                ..loan.loan_details[n - 1]
            })
        }),
{
}

/// Every transition preserves well-formedness: starting from a record whose
/// history log respects its capacity, the record left by a deposit, a
/// funding or a repayment — successful or refused — respects it too.
pub proof fn lemma_transitions_preserve_wf(
    loan: LoanModel,
    config: Config,
    user: Address,
    nft_mint: Address,
    account1: Address,
    account2: Address,
    account3: Address,
    bump: u8,
    now: i64,
)
    requires
        loan.wf(),
    ensures
        spec_deposite(loan, config, user, nft_mint, account1, account2, bump).0.wf(),
        spec_lend_borrower(loan, user, account1, now).0.wf(),
        spec_repay_borrower(loan, config, user, account1, account2, account3, user).0.wf(),
{
}

} // verus!
