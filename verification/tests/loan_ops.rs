use nft_pawn::address::Address;
use nft_pawn::error::CustomError;
use nft_pawn::ops::{deposite, initialize, lend_borrower, repay_borrower};
use nft_pawn::state::{Config, Escrow, Loan, LoanStatus, HISTORY_CAPACITY};

fn addr(n: u64) -> Address {
    Address::new(n, 0, 0, 0)
}

#[test]
fn initialize_sets_fields() {
    let config = initialize(addr(1), 1000, 7);
    assert_eq!(config.admin, addr(1));
    assert_eq!(config.loan_amount, 1000);
    assert_eq!(config.bps_fee, 30);
    assert_eq!(config.bump, 7);
}

#[test]
fn address_default_is_zero() {
    assert_eq!(Address::default(), Address::zero());
    assert_eq!(Address::zero(), addr(0));
    assert_ne!(addr(1), Address::zero());
}

#[test]
fn escrow_new_and_default() {
    let e = Escrow::new(addr(5), 3);
    assert_eq!(e.owner, addr(5));
    assert_eq!(e.bump, 3);
    let d = Escrow::default();
    assert_eq!(d.owner, Address::zero());
    assert_eq!(d.bump, 0);
}

#[test]
fn end_to_end_flow() {
    let config = initialize(addr(1), 1000, 1);
    let borrower = addr(2);
    let lender = addr(3);
    let nft_mint = addr(4);

    let mut loan = Loan::default();
    let token = deposite(&mut loan, &config, borrower, nft_mint, addr(10), addr(11), 2).unwrap();
    assert_eq!(token.from, addr(10));
    assert_eq!(token.to, addr(11));
    assert_eq!(token.authority, borrower);
    assert_eq!(token.amount, 1);
    assert_eq!(loan.borrower, borrower);
    assert_eq!(loan.nft_mint, nft_mint);
    assert_eq!(loan.amount, 1000);
    assert!(loan.active);
    assert!(loan.loan_details.is_empty());
    assert_eq!(loan.bump, 2);

    let funding = lend_borrower(&mut loan, lender, addr(12), 777).unwrap();
    assert_eq!(funding.from, lender);
    assert_eq!(funding.to, addr(12));
    assert_eq!(funding.amount, 1000);
    assert!(loan.active);
    assert_eq!(loan.loan_details.len(), 1);
    let entry = &loan.loan_details[0];
    assert_eq!(entry.loan_id, 777);
    assert_eq!(entry.loan_timestamp, 777);
    assert_eq!(entry.lender_pubkey, lender);
    assert_eq!(entry.borrower_pubkey, borrower);
    assert_eq!(entry.loan_amount, 1000);
    assert_eq!(entry.loan_status, LoanStatus::ACTIVE);

    let (currency, token_back) =
        repay_borrower(&mut loan, &config, borrower, addr(13), addr(14), addr(15), addr(16))
            .unwrap();
    assert_eq!(currency.from, borrower);
    assert_eq!(currency.to, addr(13));
    assert_eq!(currency.amount, 1003);
    assert_eq!(token_back.from, addr(14));
    assert_eq!(token_back.to, addr(15));
    assert_eq!(token_back.authority, addr(16));
    assert_eq!(token_back.amount, 1);
    assert!(!loan.active);
    assert_eq!(loan.loan_details.len(), 1);
    assert_eq!(loan.loan_details[0].loan_status, LoanStatus::CLOSED);
}

#[test]
fn deposit_twice_fails() {
    let config = initialize(addr(1), 500, 1);
    let mut loan = Loan::default();
    deposite(&mut loan, &config, addr(2), addr(4), addr(10), addr(11), 2).unwrap();
    let r = deposite(&mut loan, &config, addr(2), addr(4), addr(10), addr(11), 2);
    assert_eq!(r, Err(CustomError::LoanIsActive));
    assert!(loan.active);
    assert_eq!(loan.borrower, addr(2));
    assert_eq!(loan.amount, 500);
    assert!(loan.loan_details.is_empty());
}

#[test]
fn fund_before_deposit_fails() {
    let mut loan = Loan::default();
    let r = lend_borrower(&mut loan, addr(3), addr(12), 777);
    assert_eq!(r, Err(CustomError::BorrowerNotFound));
    assert!(!loan.active);
    assert!(loan.loan_details.is_empty());
}

#[test]
fn repay_never_deposited_fails() {
    let config = initialize(addr(1), 1000, 1);
    let mut loan = Loan::default();
    let r = repay_borrower(&mut loan, &config, addr(2), addr(13), addr(14), addr(15), addr(16));
    assert_eq!(r, Err(CustomError::LoanIsNotActive));
    assert!(!loan.active);
}

#[test]
fn repay_twice_fails() {
    let config = initialize(addr(1), 1000, 1);
    let mut loan = Loan::default();
    deposite(&mut loan, &config, addr(2), addr(4), addr(10), addr(11), 2).unwrap();
    lend_borrower(&mut loan, addr(3), addr(12), 777).unwrap();
    repay_borrower(&mut loan, &config, addr(2), addr(13), addr(14), addr(15), addr(16)).unwrap();
    assert!(!loan.active);

    let r = repay_borrower(&mut loan, &config, addr(2), addr(13), addr(14), addr(15), addr(16));
    assert_eq!(r, Err(CustomError::LoanIsNotActive));
    assert!(!loan.active);
    assert_eq!(loan.loan_details.len(), 1);
    assert_eq!(loan.loan_details[0].loan_status, LoanStatus::CLOSED);
    assert_eq!(loan.borrower, addr(2));
    assert_eq!(loan.amount, 1000);
}

#[test]
fn repay_without_funding_closes_empty_history() {
    let config = initialize(addr(1), 1000, 1);
    let mut loan = Loan::default();
    deposite(&mut loan, &config, addr(2), addr(4), addr(10), addr(11), 2).unwrap();
    let (currency, _token) =
        repay_borrower(&mut loan, &config, addr(2), addr(13), addr(14), addr(15), addr(16))
            .unwrap();
    assert_eq!(currency.amount, 1003);
    assert!(!loan.active);
    assert!(loan.loan_details.is_empty());
}

#[test]
fn history_bound_eleventh_funding_fails() {
    let config = initialize(addr(1), 1000, 1);
    let mut loan = Loan::default();
    deposite(&mut loan, &config, addr(2), addr(4), addr(10), addr(11), 2).unwrap();
    for i in 0..HISTORY_CAPACITY {
        lend_borrower(&mut loan, addr(3), addr(12), 1000 + i as i64).unwrap();
    }
    assert_eq!(loan.loan_details.len(), HISTORY_CAPACITY);

    let r = lend_borrower(&mut loan, addr(3), addr(12), 2000);
    assert_eq!(r, Err(CustomError::HistoryFull));
    assert_eq!(loan.loan_details.len(), HISTORY_CAPACITY);
    assert!(loan.active);
}

#[test]
fn repay_fee_overflow_fails() {
    let config = initialize(addr(1), u64::MAX, 1);
    let mut loan = Loan::default();
    deposite(&mut loan, &config, addr(2), addr(4), addr(10), addr(11), 2).unwrap();
    assert_eq!(loan.amount, u64::MAX);
    let r = repay_borrower(&mut loan, &config, addr(2), addr(13), addr(14), addr(15), addr(16));
    assert_eq!(r, Err(CustomError::MathOverflow));
    assert!(loan.active);
    assert!(loan.loan_details.is_empty());
}

#[test]
fn repay_total_overflow_fails() {
    // A one-basis-point rate keeps the product in range, but the total of
    // principal and fee overflows.
    let config = Config { admin: addr(1), loan_amount: u64::MAX, bps_fee: 1, bump: 1 };
    let mut loan = Loan::default();
    deposite(&mut loan, &config, addr(2), addr(4), addr(10), addr(11), 2).unwrap();
    let r = repay_borrower(&mut loan, &config, addr(2), addr(13), addr(14), addr(15), addr(16));
    assert_eq!(r, Err(CustomError::MathOverflow));
    assert!(loan.active);
}
