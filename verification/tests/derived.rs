use anker::address::Address;
use anker::derived::{
    expect_address, Derivation, Purpose, SignerSeeds, ANKER_MINT_AUTHORITY,
    ANKER_RESERVE_AUTHORITY, ANKER_STSOL_RESERVE_ACCOUNT, ANKER_UST_RESERVE_ACCOUNT,
    ORCA_TOKEN_SWAP_V2,
};
use anker::error::{AnkerError, Failure, ProgramError};
use anker::processor::RENT_SYSVAR;
use anker::spl::TOKEN_PROGRAM;
use solana_program::pubkey::Pubkey;
use std::str::FromStr;

const WRONG: Failure = Failure::Error(ProgramError::Anker(AnkerError::InvalidDerivedAccount));

#[test]
fn seeds_are_spelled_out() {
    assert_eq!(&ANKER_MINT_AUTHORITY, b"mint_authority");
    assert_eq!(&ANKER_RESERVE_AUTHORITY, b"reserve_authority");
    assert_eq!(&ANKER_STSOL_RESERVE_ACCOUNT, b"st_sol_reserve_account");
    assert_eq!(&ANKER_UST_RESERVE_ACCOUNT, b"ust_reserve_account");
}

#[test]
fn programs_are_the_known_ones() {
    assert_eq!(TOKEN_PROGRAM, spl_token::id().to_bytes());
    assert_eq!(RENT_SYSVAR, solana_program::sysvar::rent::id().to_bytes());
    let orca = Pubkey::from_str("9W959DqEETiGZocYWCQPaJ6sBmUzgfxXfqGeTEdp3aQP").unwrap();
    assert_eq!(ORCA_TOKEN_SWAP_V2, orca.to_bytes());
}

#[test]
fn addresses_are_found() {
    let program = Pubkey::new_from_array([9; 32]);
    let base = [7u8; 32];
    let cases: [(Purpose, Vec<&[u8]>); 6] = [
        (Purpose::Instance, vec![&base]),
        (Purpose::MintAuthority, vec![&base, b"mint_authority"]),
        (Purpose::ReserveAuthority, vec![&base, b"reserve_authority"]),
        (Purpose::StSolReserve, vec![&base, b"st_sol_reserve_account"]),
        (Purpose::UstReserve, vec![&base, b"ust_reserve_account"]),
        (Purpose::TokenSwapAuthority, vec![&base]),
    ];
    for (purpose, seeds) in cases {
        let derivation = Derivation { purpose, base: Address { bytes: base } };
        let expected = Pubkey::find_program_address(&seeds, &program);
        let found = derivation.find(&Address { bytes: [9; 32] }).unwrap();
        assert_eq!(found.0.bytes, expected.0.to_bytes());
        assert_eq!(found.1, expected.1);

        let mut all: Vec<Vec<u8>> = seeds.iter().map(|s| s.to_vec()).collect();
        assert_eq!(derivation.seeds(), all);
        all.push(vec![found.1]);
        let signer = SignerSeeds { derivation, bump: found.1 };
        assert_eq!(signer.seeds(), all);
        assert_eq!(signer.check(&Address { bytes: [9; 32] }, &found.0), Ok(()));
        assert_eq!(
            signer.check(&Address { bytes: [9; 32] }, &Address { bytes: base }),
            Err(WRONG)
        );
    }
}

#[test]
fn unviable_bump_is_refused() {
    let program = Address { bytes: [9; 32] };
    let mut refused = 0;
    for n in 0..40u8 {
        let derivation =
            Derivation { purpose: Purpose::Instance, base: Address { bytes: [n; 32] } };
        let (address, bump) = derivation.find(&program).unwrap();
        for higher in (bump as u16 + 1)..256 {
            let signer = SignerSeeds { derivation, bump: higher as u8 };
            assert_eq!(signer.check(&program, &address), Err(WRONG));
            refused += 1;
        }
    }
    assert!(refused > 0);
}

#[test]
fn derived_address_is_expected() {
    let a = Address { bytes: [1; 32] };
    let b = Address { bytes: [2; 32] };
    assert_eq!(expect_address(Some(a), &a), Ok(()));
    assert_eq!(expect_address(Some(a), &b), Err(WRONG));
    assert_eq!(expect_address(None, &a), Err(WRONG));
}

#[test]
fn addresses_differ_in_any_byte() {
    let a = Address { bytes: [1; 32] };
    let mut last = [1u8; 32];
    last[31] = 0;
    assert!(a == Address { bytes: [1; 32] });
    assert!(a != Address { bytes: last });
    let data: Vec<u8> = (0..40).collect();
    let expected: Vec<u8> = (3..35).collect();
    assert_eq!(Address::read(&data, 3).bytes.to_vec(), expected);
}
