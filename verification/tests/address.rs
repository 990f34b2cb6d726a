use price_account::account::{same_address, AccountInfo, Pubkey};
use price_account::address::{AddressDeriver, ADDRESS_TAG, MAX_SEED_LEN};
use price_account::error::PriceError;
use price_account::validation::{
    check_address, require_address_matches, require_initialized, require_payload_length,
    require_signer, require_uninitialized,
};

fn program_id() -> Pubkey {
    solana_pubkey::Pubkey::from_str_const("4zSrGy87rYtohmWK7PLBsojskZQa38GMwmoQkeK1nJSD").to_bytes()
}

fn find(identifier: u64) -> (Pubkey, u8) {
    let (address, bump) = solana_pubkey::Pubkey::find_program_address(
        &[&ADDRESS_TAG, identifier.to_le_bytes().as_ref()],
        &solana_pubkey::Pubkey::new_from_array(program_id()),
    );
    (address.to_bytes(), bump)
}

fn account(is_signer: bool, data: Vec<u8>) -> AccountInfo {
    AccountInfo { key: [3u8; 32], is_signer, data, owner: [4u8; 32], lamports: 9 }
}

#[test]
fn the_tag_spells_price_feed_account() {
    assert_eq!(&ADDRESS_TAG, b"price_feed_account");
}

#[test]
fn the_seeds_are_within_the_ledgers_limit() {
    assert_eq!(MAX_SEED_LEN, pinocchio::pubkey::MAX_SEED_LEN);
    assert!(ADDRESS_TAG.len() <= MAX_SEED_LEN);
    assert!(13u64.to_le_bytes().len() <= MAX_SEED_LEN);
}

#[test]
fn a_deriver_keeps_its_program() {
    assert_eq!(AddressDeriver::new(program_id()).program_id, program_id());
    assert_eq!(AddressDeriver::new([9u8; 32]).program_id, [9u8; 32]);
}

#[test]
fn derive_finds_what_the_ledger_finds_or_nothing() {
    let deriver = AddressDeriver::new(program_id());
    for identifier in [0u64, 13, 123, u64::MAX] {
        match deriver.derive(identifier) {
            Ok(found) => assert_eq!(found, find(identifier)),
            Err(kind) => assert_eq!(kind, PriceError::AddressSpaceExhausted),
        }
    }
}

#[test]
fn derive_is_deterministic() {
    let deriver = AddressDeriver::new(program_id());
    for identifier in [0u64, 13, 123, u64::MAX] {
        assert_eq!(deriver.derive(identifier), deriver.derive(identifier));
        assert_eq!(
            AddressDeriver::new(program_id()).derive(identifier),
            deriver.derive(identifier)
        );
    }
}

#[test]
fn verify_agrees_with_derive() {
    let deriver = AddressDeriver::new(program_id());
    let (address, _) = find(13);
    match deriver.derive(13) {
        Ok((derived, _)) => {
            assert_eq!(derived, address);
            assert!(deriver.verify(&address, 13));
        },
        Err(_) => assert!(!deriver.verify(&address, 13)),
    }
    assert!(!deriver.verify(&[0u8; 32], 13));
    assert!(!deriver.verify(&find(14).0, 13));
}

#[test]
fn require_address_matches_agrees_with_derive() {
    let deriver = AddressDeriver::new(program_id());
    let (address, bump) = find(13);
    match deriver.derive(13) {
        Ok(_) => {
            assert_eq!(require_address_matches(&deriver, &address, 13), Ok(bump));
            assert_eq!(
                require_address_matches(&deriver, &[0u8; 32], 13),
                Err(PriceError::AddressMismatch)
            );
        },
        Err(kind) => {
            assert_eq!(require_address_matches(&deriver, &address, 13), Err(kind));
            assert_eq!(require_address_matches(&deriver, &[0u8; 32], 13), Err(kind));
        },
    }
}

#[test]
fn check_address_compares_with_what_was_found() {
    let (address, bump) = find(13);
    assert_eq!(check_address(&address, &Some((address, bump))), Ok(bump));
    assert_eq!(check_address(&address, &Some((address, 0))), Ok(0));
    assert_eq!(check_address(&address, &Some((find(14).0, bump))), Err(PriceError::AddressMismatch));
    assert_eq!(check_address(&address, &None), Err(PriceError::AddressSpaceExhausted));
    let mut nearly = address;
    nearly[31] ^= 1;
    assert_eq!(check_address(&nearly, &Some((address, bump))), Err(PriceError::AddressMismatch));
    nearly = address;
    nearly[0] ^= 0x80;
    assert_eq!(check_address(&nearly, &Some((address, bump))), Err(PriceError::AddressMismatch));
}

#[test]
fn addresses_are_compared_byte_by_byte() {
    let left = [5u8; 32];
    assert!(same_address(&left, &[5u8; 32]));
    for at in 0..32 {
        let mut right = left;
        right[at] = 6;
        assert!(!same_address(&left, &right));
        assert!(!same_address(&right, &left));
    }
}

#[test]
fn the_signer_must_have_signed() {
    assert_eq!(require_signer(&account(true, vec![])), Ok(()));
    assert_eq!(require_signer(&account(false, vec![])), Err(PriceError::Unauthorized));
}

#[test]
fn a_slot_is_initialized_when_it_holds_anything() {
    assert_eq!(require_uninitialized(&account(false, vec![])), Ok(()));
    assert_eq!(require_initialized(&account(false, vec![])), Err(PriceError::NotInitialized));
    for length in [1usize, 16, 17, 100] {
        let slot = account(false, vec![0u8; length]);
        assert_eq!(require_uninitialized(&slot), Err(PriceError::AlreadyInitialized));
        assert_eq!(require_initialized(&slot), Ok(()));
    }
}

#[test]
fn a_payload_must_reach_its_minimum() {
    assert_eq!(require_payload_length(&[0u8; 8], 8), Ok(()));
    assert_eq!(require_payload_length(&[0u8; 9], 8), Ok(()));
    assert_eq!(require_payload_length(&[0u8; 7], 8), Err(PriceError::MalformedPayload));
    assert_eq!(require_payload_length(&[0u8; 15], 16), Err(PriceError::MalformedPayload));
    assert_eq!(require_payload_length(&[0u8; 16], 16), Ok(()));
    assert_eq!(require_payload_length(&[], 0), Ok(()));
    assert_eq!(require_payload_length(&[], 1), Err(PriceError::MalformedPayload));
}
