use anchor_lang::prelude::Pubkey;
use anchor_lang::solana_program::native_token::LAMPORTS_PER_SOL;
use solearn::deriver::{
    bounty_address, client_address, escrow_address, pda_is, pda_is_with_bump, submission_address,
    user_address, Pda,
};
use solearn::program::{check_id, id};
use solearn::states::bounty::MINOR_UNITS_PER_UNIT;
use solearn::Address;
use std::str::FromStr;

fn key(n: u8) -> Address {
    Address::new([n; 32])
}

fn expected(seeds: &[&[u8]]) -> Pda {
    let program = Pubkey::new_from_array(id().to_bytes());
    let (address, bump) = Pubkey::find_program_address(seeds, &program);
    Pda { address: Address::new(address.to_bytes()), bump }
}

#[test]
fn program_id_is_the_declared_one() {
    let declared = Pubkey::from_str("3J4pJELCCwVFjD58iBUUa46pmrZNXwkWGwQkYm8pAc4j").unwrap();
    assert_eq!(id().to_bytes(), declared.to_bytes());
    assert!(check_id(&id()));
    assert!(!check_id(&key(0)));
}

#[test]
fn minor_units_are_lamports() {
    assert_eq!(MINOR_UNITS_PER_UNIT, LAMPORTS_PER_SOL);
    assert_eq!(MINOR_UNITS_PER_UNIT, 1_000_000_000);
}

#[test]
fn default_address_is_the_default_key() {
    assert_eq!(Address::default().to_bytes(), Pubkey::default().to_bytes());
    assert_eq!(Address::zero(), Address::new([0u8; 32]));
    assert!(Address::zero().is_zero());
    assert!(!key(1).is_zero());
}

#[test]
fn client_address_follows_the_client_seeds() {
    let authority = key(7);
    let got = client_address(&id(), &authority).unwrap();
    assert_eq!(got, expected(&[b"client", &authority.to_bytes()]));
    assert_ne!(got.address, authority);
}

#[test]
fn user_address_follows_the_user_seeds() {
    let authority = key(7);
    let got = user_address(&id(), &authority).unwrap();
    assert_eq!(got, expected(&[b"user", &authority.to_bytes()]));
    assert_ne!(got, client_address(&id(), &authority).unwrap());
}

#[test]
fn bounty_address_follows_title_and_creator() {
    let creator = key(9);
    let got = bounty_address(&id(), &"fix the bug".to_string(), &creator).unwrap();
    assert_eq!(got, expected(&[b"bounty", b"fix the bug", &creator.to_bytes()]));
    let other = bounty_address(&id(), &"fix the bugs".to_string(), &creator).unwrap();
    assert_ne!(got.address, other.address);
    let by_other = bounty_address(&id(), &"fix the bug".to_string(), &key(10)).unwrap();
    assert_ne!(got.address, by_other.address);
}

#[test]
fn bounty_address_takes_the_bytes_of_the_title() {
    let creator = key(9);
    let title = "Übersetzung – 翻訳";
    let got = bounty_address(&id(), &title.to_string(), &creator).unwrap();
    assert_eq!(got, expected(&[b"bounty", title.as_bytes(), &creator.to_bytes()]));
}

#[test]
fn escrow_address_follows_the_bounty() {
    let bounty = bounty_address(&id(), &"t".to_string(), &key(1)).unwrap().address;
    let got = escrow_address(&id(), &bounty).unwrap();
    assert_eq!(got, expected(&[b"escrow", &bounty.to_bytes()]));
}

#[test]
fn submission_address_follows_worker_and_bounty() {
    let worker = key(3);
    let bounty = key(4);
    let got = submission_address(&id(), &worker, &bounty).unwrap();
    assert_eq!(got, expected(&[b"submission", &worker.to_bytes(), &bounty.to_bytes()]));
    assert_ne!(got, submission_address(&id(), &bounty, &worker).unwrap());
}

#[test]
fn derivation_depends_on_the_program() {
    let authority = key(7);
    let here = client_address(&id(), &authority).unwrap();
    let there = client_address(&key(42), &authority).unwrap();
    assert_ne!(here.address, there.address);
}

#[test]
fn derivation_is_repeatable() {
    let a = bounty_address(&id(), &"same".to_string(), &key(5));
    let b = bounty_address(&id(), &"same".to_string(), &key(5));
    assert_eq!(a, b);
}

#[test]
fn title_of_thirty_two_bytes_is_a_seed() {
    let title = "a".repeat(32);
    assert!(bounty_address(&id(), &title, &key(1)).is_some());
}

#[test]
fn title_over_thirty_two_bytes_derives_nothing() {
    let title = "a".repeat(33);
    assert_eq!(bounty_address(&id(), &title, &key(1)), None);
}

#[test]
fn pda_checks_compare_address_and_bump() {
    let pda = Pda { address: key(1), bump: 254 };
    assert!(pda_is(&Some(pda), &key(1)));
    assert!(!pda_is(&Some(pda), &key(2)));
    assert!(!pda_is(&None, &key(1)));
    assert!(pda_is_with_bump(&Some(pda), &key(1), 254));
    assert!(!pda_is_with_bump(&Some(pda), &key(1), 255));
    assert!(!pda_is_with_bump(&Some(pda), &key(2), 254));
    assert!(!pda_is_with_bump(&None, &key(1), 254));
}
