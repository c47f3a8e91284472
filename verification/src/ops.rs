use vstd::prelude::*;
use vstd::pervasive::VecAdditionalExecFns;
use crate::address::Address;
use crate::error::CustomError;
use crate::fee::{calc_fee, spec_fee};
use crate::state::{
    Config, CurrencyTransfer, Loan, LoanDetails, LoanModel, LoanStatus, TokenTransfer,
    DEFAULT_FEE_BPS, HISTORY_CAPACITY,
};

verus! {

/// The configuration a deployment is created with: owned by the calling
/// admin, carrying the given default principal and the fixed fee rate.
pub open spec fn spec_initialize(admin: Address, loan_amount: u64, bump: u8) -> Config {
    Config { admin, loan_amount, bps_fee: DEFAULT_FEE_BPS, bump }
}

/// Creates the configuration for a deployment. The fee rate is set to
/// `DEFAULT_FEE_BPS` unconditionally; refusing a second configuration for
/// the same admin is the storage collaborator's duty.
pub fn initialize(admin: Address, loan_amount: u64, bump: u8) -> (config: Config)
    ensures
        config == spec_initialize(admin, loan_amount, bump),
{
    Config { admin, loan_amount, bps_fee: DEFAULT_FEE_BPS, bump }
}

/// The transition made by a collateral deposit: on a record that is not
/// active, the record is (re)written for the depositing borrower with the
/// configured principal, an empty history and `active` set, and one unit of
/// the collateral asset is owed from the borrower's token account to the
/// escrow token account. On an active record the deposit is refused and the
/// record is unchanged.
pub open spec fn spec_deposite(
    loan: LoanModel,
    config: Config,
    user: Address,
    nft_mint: Address,
    user_ata: Address,
    escrow_ata: Address,
    bump: u8,
) -> (LoanModel, Result<TokenTransfer, CustomError>) {
    if loan.active {
        (loan, Err(CustomError::LoanIsActive))
    } else {
        (
            LoanModel {
                nft_mint,
                borrower: user,
                amount: config.loan_amount,
                active: true,
                loan_details: Seq::empty(),
                bump,
            },
            Ok(TokenTransfer { from: user_ata, to: escrow_ata, authority: user, amount: 1 }),
        )
    }
}

/// Deposits collateral: refuses an active record with `LoanIsActive`,
/// otherwise creates the loan state and returns the one-unit collateral
/// transfer the host must perform (authorized by the depositing user).
pub fn deposite(
    loan: &mut Loan,
    config: &Config,
    user: Address,
    nft_mint: Address,
    user_ata: Address,
    escrow_ata: Address,
    bump: u8,
) -> (r: Result<TokenTransfer, CustomError>)
    ensures
        (final(loan)@, r) == spec_deposite(
            old(loan)@, *config, user, nft_mint, user_ata, escrow_ata, bump),
        r is Ok ==> final(loan).wf(),
        old(loan).wf() ==> final(loan).wf(),
        r is Err ==> *final(loan) == *old(loan),
{
    if loan.active {
        Err(CustomError::LoanIsActive)
    } else {
        loan.nft_mint = nft_mint;
        loan.borrower = user;
        loan.amount = config.loan_amount;
        loan.active = true;
        loan.bump = bump;
        loan.loan_details = Vec::new();
        Ok(TokenTransfer { from: user_ata, to: escrow_ata, authority: user, amount: 1 })
    }
}

/// The history entry recorded for a funding event at time `now`.
pub open spec fn spec_funding_entry(loan: LoanModel, user: Address, now: i64) -> LoanDetails {
    LoanDetails {
        loan_id: now as u64,
        borrower_pubkey: loan.borrower,
        lender_pubkey: user,
        loan_amount: loan.amount,
        loan_status: LoanStatus::ACTIVE,
        loan_timestamp: now,
    }
}

/// The transition made by funding a loan: refused with `BorrowerNotFound`
/// while the record's borrower is unset, and with `HistoryFull` once the
/// history log is at capacity; otherwise the recorded principal is owed from
/// the lender to the escrow currency account and one `ACTIVE` history entry
/// is appended, with `active` left as it was.
pub open spec fn spec_lend_borrower(
    loan: LoanModel,
    user: Address,
    escrow_ata: Address,
    now: i64,
) -> (LoanModel, Result<CurrencyTransfer, CustomError>) {
    if loan.borrower == Address::spec_zero() {
        (loan, Err(CustomError::BorrowerNotFound))
    } else if loan.loan_details.len() >= HISTORY_CAPACITY {
        (loan, Err(CustomError::HistoryFull))
    } else {
        (
            LoanModel {
                loan_details: loan.loan_details.push(spec_funding_entry(loan, user, now)),
                ..loan
            },
            Ok(CurrencyTransfer { from: user, to: escrow_ata, amount: loan.amount }),
        )
    }
}

/// Funds a loan at time `now`: refuses a record with an unset borrower with
/// `BorrowerNotFound` and a full history log with `HistoryFull`, otherwise
/// appends the funding entry and returns the principal transfer the host
/// must perform from the lender to the escrow currency account.
pub fn lend_borrower(
    loan: &mut Loan,
    user: Address,
    escrow_ata: Address,
    now: i64,
) -> (r: Result<CurrencyTransfer, CustomError>)
    requires
        0 <= now,
    ensures
        (final(loan)@, r) == spec_lend_borrower(old(loan)@, user, escrow_ata, now),
        old(loan).wf() ==> final(loan).wf(),
        r is Err ==> *final(loan) == *old(loan),
{
    if loan.borrower == Address::zero() {
        return Err(CustomError::BorrowerNotFound);
    }
    if loan.loan_details.len() >= HISTORY_CAPACITY {
        return Err(CustomError::HistoryFull);
    }
    let details = LoanDetails {
        loan_id: now as u64,
        borrower_pubkey: loan.borrower,
        lender_pubkey: user,
        loan_amount: loan.amount,
        loan_status: LoanStatus::ACTIVE,
        loan_timestamp: now,
    };
    let amount = loan.amount;
    loan.loan_details.push(details);
    Ok(CurrencyTransfer { from: user, to: escrow_ata, amount })
}

/// The history log after a repayment: the last entry, if any, is closed.
pub open spec fn spec_close_last(history: Seq<LoanDetails>) -> Seq<LoanDetails> {
    if history.len() == 0 {
        history
    } else {
        let last = history[history.len() - 1];
        history.update(
            history.len() - 1,
            LoanDetails { loan_status: LoanStatus::CLOSED, ..last },
        )
    }
}

/// The transition made by repaying a loan: refused with `LoanIsNotActive`
/// on a record that is not active, and with `MathOverflow` when the fee or
/// the total of principal and fee would overflow; otherwise the total is
/// owed from the repaying user to the escrow currency account, one unit of
/// the collateral asset is owed from escrow custody back to the user under
/// the escrow authority's signature, the last history entry (if any) is
/// closed, and the record becomes inactive.
pub open spec fn spec_repay_borrower(
    loan: LoanModel,
    config: Config,
    user: Address,
    escrow_sol_ata: Address,
    escrow_nft_ata: Address,
    user_nft_ata: Address,
    escrow_authority: Address,
) -> (LoanModel, Result<(CurrencyTransfer, TokenTransfer), CustomError>) {
    if !loan.active {
        (loan, Err(CustomError::LoanIsNotActive))
    } else if loan.amount * config.bps_fee > u64::MAX
        || loan.amount + spec_fee(loan.amount, config.bps_fee) > u64::MAX {
        (loan, Err(CustomError::MathOverflow))
    } else {
        (
            LoanModel { active: false, loan_details: spec_close_last(loan.loan_details), ..loan },
            Ok((
                CurrencyTransfer {
                    from: user,
                    to: escrow_sol_ata,
                    amount: (loan.amount + spec_fee(loan.amount, config.bps_fee)) as u64,
                },
                TokenTransfer {
                    from: escrow_nft_ata,
                    to: user_nft_ata,
                    authority: escrow_authority,
                    amount: 1,
                },
            )),
        )
    }
}

/// Repays a loan: refuses an inactive record with `LoanIsNotActive` and an
/// overflowing fee or total with `MathOverflow`; otherwise closes the last
/// history entry (if any), deactivates the record, and returns the two
/// transfers the host must perform: principal plus fee from the user to the
/// escrow currency account, and the one collateral unit from escrow custody
/// back to the user, signed by the escrow authority.
pub fn repay_borrower(
    loan: &mut Loan,
    config: &Config,
    user: Address,
    escrow_sol_ata: Address,
    escrow_nft_ata: Address,
    user_nft_ata: Address,
    escrow_authority: Address,
) -> (r: Result<(CurrencyTransfer, TokenTransfer), CustomError>)
    ensures
        (final(loan)@, r) == spec_repay_borrower(
            old(loan)@, *config, user, escrow_sol_ata, escrow_nft_ata, user_nft_ata,
            escrow_authority),
        old(loan).wf() ==> final(loan).wf(),
        r is Err ==> *final(loan) == *old(loan),
{
    if !loan.active {
        return Err(CustomError::LoanIsNotActive);
    }
    let fee = match calc_fee(loan.amount, config.bps_fee) {
        Ok(f) => f,
        Err(e) => {
            return Err(e);
        },
    };
    let total = match loan.amount.checked_add(fee) {
        Some(t) => t,
        None => {
            return Err(CustomError::MathOverflow);
        },
    };
    let n = loan.loan_details.len();
    if n > 0 {
        let mut last = loan.loan_details[n - 1];
        last.loan_status = LoanStatus::CLOSED;
        loan.loan_details.set(n - 1, last);
    }
    loan.active = false;
    Ok((
        CurrencyTransfer { from: user, to: escrow_sol_ata, amount: total },
        TokenTransfer { from: escrow_nft_ata, to: user_nft_ata, authority: escrow_authority, amount: 1 },
    ))
}

} // verus!
