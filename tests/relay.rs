use solana_program::pubkey::Pubkey;
use token_swap::accounts::{rewrite_accounts, AccountEntry};
use token_swap::address::Address;
use token_swap::derivation::{derive_authority, derive_vault_authority, VAULT_SEED};
use token_swap::error::ErrorCode;
use token_swap::relay::{
    check_gate, id, initialize, token_swap, Balances, Jupiter, RelayConfig, JUPITER_PROGRAM_ID,
    PROGRAM_ID, ROUTE_SELECTOR,
};

fn addr(fill: u8) -> Address {
    Address::new([fill; 32])
}

fn entry(key: Address, is_signer: bool, is_writable: bool) -> AccountEntry {
    AccountEntry { key, is_signer, is_writable }
}

fn route_payload() -> Vec<u8> {
    let mut data = ROUTE_SELECTOR.to_vec();
    data.extend_from_slice(&[1, 2, 3]);
    data
}

fn custody() -> Address {
    derive_vault_authority(&id()).expect("a viable bump").address
}

#[test]
fn seed_spells_the_tag() {
    assert_eq!(&VAULT_SEED, b"vault-authority");
}

#[test]
fn ids_match_their_base58_form() {
    let relay = Pubkey::new_from_array(PROGRAM_ID);
    assert_eq!(relay.to_string(), "CzJLugPC4q4tsFyQuVoVwcfHE1VJgKdtGZrhXWFsKmc2");
    let jupiter = Pubkey::new_from_array(JUPITER_PROGRAM_ID);
    assert_eq!(jupiter.to_string(), "JUP6LkbZbjS1jKKwapdHNy74zcZ3tLUZoi5QNyVTaV4");
    assert_eq!(Jupiter::id().bytes, JUPITER_PROGRAM_ID);
}

#[test]
fn vault_derivation_matches_runtime_search() {
    let program = Pubkey::new_from_array(PROGRAM_ID);
    let (expected, bump) = Pubkey::find_program_address(&[b"vault-authority"], &program);
    let authority = derive_vault_authority(&id()).unwrap();
    assert_eq!(authority.address.bytes, expected.to_bytes());
    assert_eq!(authority.bump, bump);
    assert!(authority.address != id());
}

#[test]
fn derivation_is_deterministic() {
    let first = derive_authority(b"some-tag", &id()).unwrap();
    let second = derive_authority(b"some-tag", &id()).unwrap();
    assert_eq!(first.address, second.address);
    assert_eq!(first.bump, second.bump);
    let other = derive_authority(b"other-tag", &id()).unwrap();
    assert!(other.address != first.address);
}

#[test]
fn gate_rejects_untrusted_target() {
    let config = RelayConfig::jupiter_route();
    assert_eq!(check_gate(&config, &addr(9), &route_payload()), Some(ErrorCode::InvalidTarget));
}

#[test]
fn gate_rejects_short_payload() {
    let config = RelayConfig::jupiter_route();
    let data = ROUTE_SELECTOR[..7].to_vec();
    assert_eq!(check_gate(&config, &Jupiter::id(), &data), Some(ErrorCode::MalformedPayload));
    assert_eq!(check_gate(&config, &Jupiter::id(), &Vec::new()), Some(ErrorCode::MalformedPayload));
}

#[test]
fn gate_rejects_other_selector() {
    let config = RelayConfig::jupiter_route();
    let mut data = route_payload();
    data[7] ^= 1;
    assert_eq!(
        check_gate(&config, &Jupiter::id(), &data),
        Some(ErrorCode::InvalidPayloadSelector)
    );
}

#[test]
fn gate_accepts_route_call() {
    let config = RelayConfig::jupiter_route();
    assert_eq!(check_gate(&config, &Jupiter::id(), &route_payload()), None);
    assert_eq!(check_gate(&config, &Jupiter::id(), &ROUTE_SELECTOR.to_vec()), None);
}

#[test]
fn gate_uses_injected_config() {
    let config = RelayConfig { trusted_target: addr(7), allowed_selector: [1, 2, 3, 4, 5, 6, 7, 8] };
    assert_eq!(check_gate(&config, &addr(7), &vec![1, 2, 3, 4, 5, 6, 7, 8, 9]), None);
    assert_eq!(
        check_gate(&config, &Jupiter::id(), &vec![1, 2, 3, 4, 5, 6, 7, 8]),
        Some(ErrorCode::InvalidTarget)
    );
}

#[test]
fn rewrite_promotes_single_match() {
    let accounts = vec![entry(addr(1), false, true), entry(addr(2), false, false), entry(addr(3), true, false)];
    let out = rewrite_accounts(&accounts, &addr(2)).unwrap();
    assert_eq!(out, vec![entry(addr(1), false, true), entry(addr(2), true, false), entry(addr(3), true, false)]);
}

#[test]
fn rewrite_promotes_first_of_duplicates() {
    let accounts = vec![entry(addr(5), false, true), entry(addr(2), false, true), entry(addr(5), false, false)];
    let out = rewrite_accounts(&accounts, &addr(5)).unwrap();
    assert_eq!(out, vec![entry(addr(5), true, true), entry(addr(2), false, true), entry(addr(5), false, false)]);
}

#[test]
fn rewrite_without_match_is_none() {
    let accounts = vec![entry(addr(1), true, true)];
    assert_eq!(rewrite_accounts(&accounts, &addr(2)), None);
    assert_eq!(rewrite_accounts(&Vec::new(), &addr(2)), None);
}

#[test]
fn initialize_moves_minimum_balance() {
    let mut balances = Balances { funder: 10, custody: 0 };
    let transfer = initialize(&id(), &addr(1), &custody(), &mut balances, 1).unwrap();
    assert_eq!(balances, Balances { funder: 9, custody: 1 });
    assert_eq!(transfer.from, addr(1));
    assert_eq!(transfer.to, custody());
    assert_eq!(transfer.amount, 1);
}

#[test]
fn second_initialize_is_rejected() {
    let mut balances = Balances { funder: 10, custody: 0 };
    assert!(initialize(&id(), &addr(1), &custody(), &mut balances, 1).is_ok());
    let second = initialize(&id(), &addr(1), &custody(), &mut balances, 1);
    assert!(matches!(second, Err(ErrorCode::AlreadyInitialized)));
    assert_eq!(balances, Balances { funder: 9, custody: 1 });
}

#[test]
fn initialize_with_short_funder_fails() {
    let mut balances = Balances { funder: 4, custody: 0 };
    let r = initialize(&id(), &addr(1), &custody(), &mut balances, 5);
    assert!(matches!(r, Err(ErrorCode::InsufficientFunds)));
    assert_eq!(balances, Balances { funder: 4, custody: 0 });
}

#[test]
fn initialize_with_wrong_custody_fails() {
    let mut balances = Balances { funder: 10, custody: 0 };
    let r = initialize(&id(), &addr(1), &addr(3), &mut balances, 1);
    assert!(matches!(r, Err(ErrorCode::InvalidCustodyAddress)));
    assert_eq!(balances, Balances { funder: 10, custody: 0 });
}

#[test]
fn forward_to_trusted_target_promotes_custody() {
    let config = RelayConfig::jupiter_route();
    let vault = custody();
    let accounts = vec![entry(addr(1), true, true), entry(vault, false, true), entry(addr(2), false, false)];
    let call = token_swap(&config, &id(), &Jupiter::id(), route_payload(), &accounts).unwrap();
    assert_eq!(
        call.instruction.accounts,
        vec![entry(addr(1), true, true), entry(vault, true, true), entry(addr(2), false, false)]
    );
    assert_eq!(call.instruction.program_id, Jupiter::id());
    assert_eq!(call.instruction.data, route_payload());
    let expected = derive_vault_authority(&id()).unwrap();
    assert_eq!(call.authority.address, expected.address);
    assert_eq!(call.authority.bump, expected.bump);
}

#[test]
fn forward_to_untrusted_target_is_rejected() {
    let config = RelayConfig::jupiter_route();
    let balances = Balances { funder: 9, custody: 1 };
    let accounts = vec![entry(custody(), false, true)];
    let r = token_swap(&config, &id(), &addr(9), route_payload(), &accounts);
    assert!(matches!(r, Err(ErrorCode::InvalidTarget)));
    assert_eq!(balances, Balances { funder: 9, custody: 1 });
}

#[test]
fn forward_with_other_selector_is_rejected() {
    let config = RelayConfig::jupiter_route();
    let accounts = vec![entry(custody(), false, true)];
    let r = token_swap(&config, &id(), &Jupiter::id(), vec![0; 12], &accounts);
    assert!(matches!(r, Err(ErrorCode::InvalidPayloadSelector)));
}

#[test]
fn forward_without_custody_entry_is_rejected() {
    let config = RelayConfig::jupiter_route();
    let accounts = vec![entry(addr(1), false, true)];
    let r = token_swap(&config, &id(), &Jupiter::id(), route_payload(), &accounts);
    assert!(matches!(r, Err(ErrorCode::CustodyAccountNotFound)));
}
