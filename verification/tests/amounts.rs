use anker::address::Address;
use anker::error::{Failure, LidoError, ProgramError};
use anker::exchange::ExchangeRate;
use anker::processor::{rewards, withdraw_amount};
use anker::solido::{Signer, Solido, SolidoExchangeRate};
use anker::token::{scale, BLamports, Lamports, StLamports};

const FAILURE: Failure = Failure::Error(ProgramError::Lido(LidoError::CalculationFailure));

fn solido(st_sol_supply: u64, sol_balance: u64) -> Solido {
    Solido {
        manager: Address { bytes: [1; 32] },
        st_sol_mint: Address { bytes: [2; 32] },
        exchange_rate: SolidoExchangeRate {
            st_sol_supply: StLamports(st_sol_supply),
            sol_balance: Lamports(sol_balance),
        },
    }
}

#[test]
fn scaling_rounds_down() {
    assert_eq!(scale(7, 3, 2), Ok(10));
    assert_eq!(scale(u64::MAX, u64::MAX, u64::MAX), Ok(u64::MAX));
    assert_eq!(scale(u64::MAX, 2, 1), Err(FAILURE));
    assert_eq!(scale(1, 1, 0), Err(FAILURE));
}

#[test]
fn amounts_are_subtracted_and_compared() {
    assert_eq!(StLamports(7).minus(StLamports(5)), Ok(StLamports(2)));
    assert_eq!(StLamports(5).minus(StLamports(7)), Err(FAILURE));
    assert_eq!(StLamports(5).lesser(StLamports(7)), StLamports(5));
    assert_eq!(StLamports(7).lesser(StLamports(5)), StLamports(5));
}

#[test]
fn deposit_is_exchanged_at_the_peg() {
    let rate = ExchangeRate::from_solido_pegged(&solido(1000, 1500));
    assert_eq!(rate.exchange_st_sol(StLamports(101)), Ok(BLamports(151)));
    assert_eq!(rate.exchange_b_sol(BLamports(151)), Ok(StLamports(100)));
    let none = ExchangeRate::from_solido_pegged(&solido(0, 1500));
    assert_eq!(none.exchange_st_sol(StLamports(1)), Err(FAILURE));
}

#[test]
fn sol_is_exchanged() {
    assert_eq!(solido(1000, 1500).exchange_rate.exchange_sol(Lamports(150)), Ok(StLamports(100)));
    assert_eq!(solido(0, 1500).exchange_rate.exchange_sol(Lamports(150)), Ok(StLamports(150)));
    assert_eq!(solido(1000, 0).exchange_rate.exchange_sol(Lamports(150)), Ok(StLamports(150)));
    assert_eq!(solido(3, 1).exchange_rate.exchange_sol(Lamports(u64::MAX)), Err(FAILURE));
}

#[test]
fn covered_withdrawal_is_pegged() {
    // The reserve is worth 1050 SOL, for 1000 bSOL.
    let paid = withdraw_amount(&solido(1000, 1500), BLamports(1000), StLamports(700), BLamports(150));
    assert_eq!(paid, Ok(StLamports(100)));
}

#[test]
fn uncovered_withdrawal_is_a_share() {
    // The reserve is worth 750 SOL, for 1000 bSOL.
    let s = solido(1000, 1500);
    let paid = withdraw_amount(&s, BLamports(1000), StLamports(500), BLamports(150));
    assert_eq!(paid, Ok(StLamports(75)));
    // The rest keeps its share, and can be withdrawn to the last.
    let paid = withdraw_amount(&s, BLamports(850), StLamports(425), BLamports(850));
    assert_eq!(paid, Ok(StLamports(425)));
}

#[test]
fn withdrawal_needs_supply_and_balance() {
    let s = solido(1000, 1500);
    assert_eq!(withdraw_amount(&s, BLamports(0), StLamports(5), BLamports(1)), Err(FAILURE));
    let empty = solido(1000, 0);
    assert_eq!(withdraw_amount(&empty, BLamports(9), StLamports(5), BLamports(1)), Err(FAILURE));
}

#[test]
fn round_trip_gains_nothing() {
    let s = solido(997, 1009);
    let minted = ExchangeRate::from_solido_pegged(&s).exchange_st_sol(StLamports(500)).unwrap();
    let paid = withdraw_amount(&s, BLamports(5000), StLamports(5000), minted).unwrap();
    assert_eq!(minted, BLamports(506));
    assert_eq!(paid, StLamports(499));
}

#[test]
fn rewards_are_the_excess() {
    let s = solido(1000, 1500);
    assert_eq!(rewards(&s, 1500, StLamports(1100)), Ok(StLamports(100)));
    assert_eq!(rewards(&s, 1500, StLamports(1000)), Ok(StLamports(0)));
    assert_eq!(rewards(&s, 1500, StLamports(999)), Err(FAILURE));
    // Once sold, all bSOL is still paid at the peg.
    let paid = withdraw_amount(&s, BLamports(1500), StLamports(1000), BLamports(1500));
    assert_eq!(paid, Ok(StLamports(1000)));
}

#[test]
fn manager_has_to_sign() {
    let s = solido(1, 1);
    let manager = Address { bytes: [1; 32] };
    let other = Address { bytes: [3; 32] };
    assert_eq!(s.check_manager(&Signer { key: manager, is_signer: true }), Ok(()));
    assert_eq!(
        s.check_manager(&Signer { key: manager, is_signer: false }),
        Err(Failure::Error(ProgramError::MissingRequiredSignature))
    );
    assert_eq!(
        s.check_manager(&Signer { key: other, is_signer: true }),
        Err(Failure::Error(ProgramError::Lido(LidoError::InvalidManager)))
    );
}

#[test]
fn reserve_keeps_covering() {
    let s = solido(997, 1009);
    let worth = |reserve: u64| reserve as u128 * 1009;
    let owed = |supply: u64| supply as u128 * 997;
    let (supply, reserve) = (1012u64, 1000u64);
    assert!(owed(supply) <= worth(reserve));

    let minted = ExchangeRate::from_solido_pegged(&s).exchange_st_sol(StLamports(13)).unwrap();
    assert_eq!(minted, BLamports(13));
    assert!(owed(supply + minted.0) <= worth(reserve + 13));

    let paid = withdraw_amount(&s, BLamports(supply), StLamports(reserve), BLamports(50)).unwrap();
    assert_eq!(paid, StLamports(49));
    assert!(owed(supply - 50) <= worth(reserve - paid.0));
}

#[test]
fn reserve_keeps_backing() {
    // The reserve backs where rewards can be calculated.
    let s = solido(1, 2);
    let backs = |supply: u64, reserve: u64| rewards(&s, supply, StLamports(reserve)).is_ok();
    assert_eq!(rewards(&s, 3, StLamports(2)), Ok(StLamports(1)));
    assert!(!backs(3, 0));

    // The sale leaves a reserve that backs all bSOL, though 3 bSOL is worth more than the
    // 1 stSOL that is left.
    assert!(backs(3, 1));

    let minted = ExchangeRate::from_solido_pegged(&s).exchange_st_sol(StLamports(4)).unwrap();
    assert_eq!(minted, BLamports(8));
    assert!(backs(3 + 8, 1 + 4));

    let paid = withdraw_amount(&s, BLamports(11), StLamports(5), BLamports(6)).unwrap();
    assert_eq!(paid, StLamports(2));
    assert!(backs(11 - 6, 5 - 2));
}

#[test]
fn withdrawal_after_a_sale_is_rounded() {
    let s = solido(1, 2);
    let pegged = ExchangeRate::from_solido_pegged(&s).exchange_b_sol(BLamports(2));
    assert_eq!(pegged, Ok(StLamports(1)));
    let paid = |reserve: u64, amount: u64| {
        withdraw_amount(&s, BLamports(3), StLamports(reserve), BLamports(amount))
    };
    // Before the sale, and after it.
    assert_eq!(paid(2, 2), Ok(StLamports(1)));
    assert_eq!(paid(1, 2), Ok(StLamports(0)));
    // The whole supply is paid the same.
    assert_eq!(paid(2, 3), Ok(StLamports(1)));
    assert_eq!(paid(1, 3), Ok(StLamports(1)));
}

#[test]
fn reserve_keeps_backing_without_a_rate() {
    let no_sol = solido(5, 0);
    assert_eq!(rewards(&no_sol, 7, StLamports(7)), Ok(StLamports(0)));
    let minted = ExchangeRate::from_solido_pegged(&no_sol).exchange_st_sol(StLamports(4));
    assert_eq!(minted, Ok(BLamports(0)));
    assert_eq!(rewards(&no_sol, 7, StLamports(11)), Ok(StLamports(4)));

    let no_st_sol = solido(0, 5);
    let paid = withdraw_amount(&no_st_sol, BLamports(7), StLamports(7), BLamports(3));
    assert_eq!(paid, Ok(StLamports(0)));
    assert_eq!(rewards(&no_st_sol, 4, StLamports(7)), Ok(StLamports(3)));
}
