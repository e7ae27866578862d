use anchor_lang::prelude::Pubkey as Address;
use anchor_lang::AccountSerialize;
use duelpvp::address::{
    check_canonical, check_stored_bump, key_bytes, make_duel_seeds, make_treasury_seeds,
    make_vault_seeds, match_derived, match_found, program_id, u64_le_bytes,
};
use duelpvp::errors::{DuelError, InstructionError};
use duelpvp::loader::{
    check_loader_owned, check_upgrade_authority, make_program_data_seeds, match_authority,
};
use duelpvp::pubkey::Pubkey;
use duelpvp::vrf::{
    has_randomness, is_randomness_fulfilled, make_config_seeds, make_randomness_seeds,
    read_fulfilled_randomness, require_fulfilled,
};
use orao_solana_vrf::state::{
    FulfilledRequest, PendingRequest, Randomness, RandomnessV2, Request,
};

fn key(n: u8) -> Pubkey {
    Pubkey { bytes: [n; 32] }
}

fn v2(request: Request) -> Vec<u8> {
    let mut out = Vec::new();
    RandomnessV2 { request }.try_serialize(&mut out).unwrap();
    out
}

fn v1(randomness: [u8; 64]) -> Vec<u8> {
    let mut out = Vec::new();
    Randomness { seed: [1; 32], randomness, responses: Vec::new() }
        .try_serialize(&mut out)
        .unwrap();
    out
}

#[test]
fn program_address() {
    assert_eq!(
        Address::new_from_array(program_id().bytes).to_string(),
        "8NkYNEeX6eUiNrK89cHfNmZoigaUCdi5NLGKgRFJ77oZ"
    );
}

#[test]
fn numbers_as_little_endian_bytes() {
    for x in [0u64, 1, 255, 256, 0x0102030405060708, u64::MAX] {
        assert_eq!(u64_le_bytes(x), x.to_le_bytes().to_vec());
    }
}

#[test]
fn seeds_of_the_accounts() {
    assert_eq!(make_treasury_seeds(), vec![b"treasury".to_vec()]);
    assert_eq!(
        make_duel_seeds(3, &key(1)),
        vec![b"duel".to_vec(), 3u64.to_le_bytes().to_vec(), vec![1u8; 32]]
    );
    assert_eq!(
        make_vault_seeds(3, &key(1)),
        vec![b"vault".to_vec(), 3u64.to_le_bytes().to_vec(), vec![1u8; 32]]
    );
    assert_ne!(make_duel_seeds(3, &key(1)), make_duel_seeds(4, &key(1)));
    assert_eq!(make_config_seeds(), vec![b"orao-vrf-network-configuration".to_vec()]);
    assert_eq!(
        make_randomness_seeds(&[5; 32]),
        vec![b"orao-vrf-randomness-request".to_vec(), vec![5u8; 32]]
    );
    assert_eq!(make_program_data_seeds(), vec![program_id().bytes.to_vec()]);
    assert_eq!(key_bytes(&key(4)), vec![4u8; 32]);
}

#[test]
fn addresses_at_the_canonical_bump() {
    let owner = Address::new_from_array([9; 32]);
    let (address, bump) = Address::find_program_address(&[b"treasury"], &owner);
    let here = Pubkey { bytes: address.to_bytes() };
    assert_eq!(check_canonical(&here, make_treasury_seeds(), &key(9)), Ok(bump));
    assert_eq!(check_stored_bump(&here, make_treasury_seeds(), bump, &key(9)), Ok(()));
    let refused = InstructionError::ConstraintSeeds;
    assert_eq!(check_canonical(&here, make_treasury_seeds(), &key(8)), Err(refused));
    assert_eq!(check_canonical(&key(1), make_treasury_seeds(), &key(9)), Err(refused));
    assert_eq!(
        check_stored_bump(&here, make_treasury_seeds(), bump.wrapping_sub(1), &key(9)),
        Err(refused)
    );
    // A seed over 32 bytes gives no address.
    let long = vec![vec![0u8; 33]];
    assert_eq!(
        check_canonical(&here, long.clone(), &key(9)),
        Err(InstructionError::NoViableBump)
    );
    assert_eq!(check_stored_bump(&here, long, bump, &key(9)), Err(refused));
}

#[test]
fn addresses_are_matched() {
    let refused = InstructionError::ConstraintSeeds;
    assert_eq!(match_derived(&key(1), Some(key(1))), Ok(()));
    assert_eq!(match_derived(&key(1), Some(key(2))), Err(refused));
    assert_eq!(match_derived(&key(1), None), Err(refused));
    assert_eq!(match_found(&key(1), Some((key(1), 7))), Ok(7));
    assert_eq!(match_found(&key(1), Some((key(2), 7))), Err(refused));
    assert_eq!(match_found(&key(1), None), Err(InstructionError::NoViableBump));
}

#[test]
fn randomness_of_the_current_layout() {
    let mut bytes = [0u8; 64];
    bytes[63] = 17;
    let done = v2(Request::Fulfilled(FulfilledRequest {
        client: Address::default(),
        seed: [1; 32],
        randomness: bytes,
    }));
    assert_eq!(read_fulfilled_randomness(&done), Ok(bytes));
    assert!(is_randomness_fulfilled(&done));
    let waiting = v2(Request::Pending(PendingRequest {
        client: Address::default(),
        seed: [1; 32],
        responses: Vec::new(),
    }));
    assert_eq!(read_fulfilled_randomness(&waiting), Err(DuelError::RandomnessNotReady));
    assert!(!is_randomness_fulfilled(&waiting));
    // Cut short, it is no randomness account.
    assert!(!is_randomness_fulfilled(&done[..done.len() - 1]));
}

#[test]
fn randomness_of_the_legacy_layout() {
    let done = v1([3; 64]);
    assert_eq!(read_fulfilled_randomness(&done), Ok([3; 64]));
    assert!(is_randomness_fulfilled(&done));
    let waiting = v1([0; 64]);
    assert_eq!(read_fulfilled_randomness(&waiting), Err(DuelError::RandomnessNotReady));
    assert!(!is_randomness_fulfilled(&waiting));
}

#[test]
fn no_randomness_account() {
    for data in [&[][..], &[1u8; 7][..], &[1u8; 300][..]] {
        assert_eq!(read_fulfilled_randomness(data), Err(DuelError::RandomnessNotReady));
        assert!(!is_randomness_fulfilled(data));
    }
}

#[test]
fn what_was_read_is_judged() {
    let not_ready = Err(DuelError::RandomnessNotReady);
    assert_eq!(require_fulfilled(Some(Some([2; 64]))), Ok([2; 64]));
    assert_eq!(require_fulfilled(Some(None)), not_ready);
    assert_eq!(require_fulfilled(None), not_ready);
    assert!(has_randomness(Some(Some([2; 64]))));
    assert!(!has_randomness(Some(None)));
    assert!(!has_randomness(None));
    assert_eq!(match_authority(Some(Some(key(1))), &key(1)), Ok(()));
    assert_eq!(match_authority(Some(Some(key(2))), &key(1)), Err(DuelError::Unauthorized));
    assert_eq!(match_authority(Some(None), &key(1)), Err(DuelError::Unauthorized));
    assert_eq!(match_authority(None, &key(1)), Err(DuelError::Unauthorized));
}

#[test]
fn upgrade_authority_of_the_loaders_record() {
    let loader = Pubkey {
        bytes: anchor_lang::solana_program::bpf_loader_upgradeable::ID.to_bytes(),
    };
    assert_eq!(check_loader_owned(&loader), Ok(()));
    assert_eq!(check_loader_owned(&key(8)), Err(DuelError::Unauthorized));
    let mut data = vec![3u8, 0, 0, 0, 1, 0, 0, 0, 0, 0, 0, 0, 1];
    data.extend_from_slice(&[6; 32]);
    assert_eq!(check_upgrade_authority(&loader, &data, &key(6)), Ok(()));
    assert_eq!(check_upgrade_authority(&loader, &data, &key(7)), Err(DuelError::Unauthorized));
    assert_eq!(check_upgrade_authority(&key(8), &data, &key(6)), Err(DuelError::Unauthorized));
    assert_eq!(check_upgrade_authority(&loader, &[], &key(6)), Err(DuelError::Unauthorized));
}
