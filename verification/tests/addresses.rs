use anchor_lang::prelude::Pubkey as Sdk;
use simple_vault::contexts::derive_addresses;
use simple_vault::pda;
use simple_vault::{Pubkey, VaultState};

fn sdk(key: Pubkey) -> Sdk {
    Sdk::new_from_array(key.bytes)
}

const PROGRAM: Pubkey = Pubkey { bytes: [9; 32] };
const MINT: Pubkey = Pubkey { bytes: [3; 32] };

#[test]
fn seeds_are_the_documented_words() {
    assert_eq!(&pda::VAULT_SEED[..], b"vault");
    assert_eq!(&pda::VAULT_TOKENS_SEED[..], b"vault_tokens");
    assert_eq!(&pda::SHARE_MINT_SEED[..], b"share_mint");
}

#[test]
fn the_vault_is_found_where_its_seeds_lead() {
    let (key, bump) = pda::find_vault(&MINT, &PROGRAM).unwrap();
    let (expected, expected_bump) =
        Sdk::find_program_address(&[b"vault", &MINT.bytes], &sdk(PROGRAM));
    assert_eq!(sdk(key), expected);
    assert_eq!(bump, expected_bump);
    assert_ne!(key, MINT);
}

#[test]
fn a_found_bump_leads_back_to_the_address() {
    for n in 0..20u8 {
        let mint = Pubkey { bytes: [n; 32] };
        let (key, bump) = pda::find_vault(&mint, &PROGRAM).unwrap();
        assert_eq!(pda::vault_address(&mint, bump, &PROGRAM), Some(key));
        assert!(bump >= 1);
        for higher in (bump as u16 + 1)..256 {
            assert_eq!(pda::vault_address(&mint, higher as u8, &PROGRAM), None);
        }
    }
}

#[test]
fn a_known_bump_leads_to_the_address() {
    let (_, bump) = Sdk::find_program_address(&[b"vault", &MINT.bytes], &sdk(PROGRAM));
    let expected =
        Sdk::create_program_address(&[b"vault", &MINT.bytes, &[bump]], &sdk(PROGRAM)).unwrap();
    assert_eq!(sdk(pda::vault_address(&MINT, bump, &PROGRAM).unwrap()), expected);
    let other = Pubkey { bytes: [8; 32] };
    assert_ne!(pda::vault_address(&MINT, bump, &other).map(sdk), Some(expected));
}

#[test]
fn all_addresses_of_a_vault_are_derived() {
    let (_, bump) = pda::find_vault(&MINT, &PROGRAM).unwrap();
    let vault = VaultState { token_mint: MINT, bump, ..VaultState::default() };
    let derived = derive_addresses(&vault, &PROGRAM);
    let find = |prefix: &[u8]| Sdk::find_program_address(&[prefix, &MINT.bytes], &sdk(PROGRAM)).0;
    assert_eq!(derived.vault_state.map(sdk), Some(find(b"vault")));
    assert_eq!(derived.vault_token_account.map(sdk), Some(find(b"vault_tokens")));
    assert_eq!(derived.share_mint.map(sdk), Some(find(b"share_mint")));
}

#[test]
fn addresses_are_equal_byte_by_byte() {
    let mut other = MINT;
    assert!(other == MINT);
    other.bytes[31] = 4;
    assert!(other != MINT);
    assert_eq!(Pubkey::default().bytes, [0; 32]);
}
