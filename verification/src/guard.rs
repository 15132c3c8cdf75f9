//! The checks that every operation makes of the accounts it is given.
//!
//! A caller names the accounts of an operation by their addresses. Before
//! anything changes, the operation asks that the signer holds a wallet, that
//! each record lies at the address derived from what identifies it, and that
//! the records belong together. The addresses that are derived from stored
//! records are derived here as well.

use crate::address::Address;
use crate::deriver::{
    bounty_address, bounty_derivation, pda_is, pda_is_with_bump, pda_view, program_address,
    resolves_to, resolves_with_bump, submission_address, submission_seeds, user_address, user_seeds,
    Pda, PdaView,
};
use crate::errors::{AccountError, BountyError, ClientError, Error, UserError};
use crate::ledger::{
    bounty_at, client_at, escrow_at, submission_at, user_at, wallet_at, Ledger, State,
};
use vstd::prelude::*;

verus! {

/// Why `authority` is refused as the signer for the client record at
/// `client`, if it is: the signer holds a wallet, the record lies at the
/// address derived for the signer, and it names the signer as its authority.
pub open spec fn client_refusal(
    s: State,
    authority: Seq<u8>,
    client: Seq<u8>,
    client_pda: PdaView,
) -> Option<Error> {
    if !wallet_at(s, authority) || !resolves_to(client_pda, client) {
        Some(Error::Client(ClientError::InvalidClientAuthority))
    } else if client_at(s, client) is None {
        Some(Error::Client(ClientError::ClientNotFound))
    } else if client_at(s, client).unwrap().authority@ != authority {
        Some(Error::Client(ClientError::InvalidClientAuthority))
    } else {
        None
    }
}

/// Why `authority` is refused as the signer for the user record at `user`,
/// if it is: the signer holds a wallet, the record lies at the address
/// derived for the signer, and it names the signer as its authority.
pub open spec fn user_refusal(
    s: State,
    authority: Seq<u8>,
    user: Seq<u8>,
    user_pda: PdaView,
) -> Option<Error> {
    if !wallet_at(s, authority) || !resolves_to(user_pda, user) {
        Some(Error::User(UserError::InvalidUserAuthority))
    } else if user_at(s, user) is None {
        Some(Error::User(UserError::UserNotFound))
    } else if user_at(s, user).unwrap().authority@ != authority {
        Some(Error::User(UserError::InvalidUserAuthority))
    } else {
        None
    }
}

/// Why the bounty named is refused, if it is: a bounty is stored at
/// `bounty`, and the address is the one derived for it, with the bump seed
/// that the bounty records.
pub open spec fn bounty_refusal(s: State, bounty: Seq<u8>, bounty_pda: PdaView) -> Option<Error> {
    if bounty_at(s, bounty) is None {
        Some(Error::Account(AccountError::BountyNotFound))
    } else if !resolves_with_bump(bounty_pda, bounty, bounty_at(s, bounty).unwrap().bump) {
        Some(Error::Account(AccountError::InvalidBountyAccount))
    } else {
        None
    }
}

/// Why the bounty named is refused to the client whose record lies at
/// `client`, if it is: the bounty is stored where it belongs, and it names
/// that client as its owner.
pub open spec fn owned_bounty_refusal(
    s: State,
    client: Seq<u8>,
    bounty: Seq<u8>,
    bounty_pda: PdaView,
) -> Option<Error> {
    let stored = bounty_refusal(s, bounty, bounty_pda);
    if stored is Some {
        stored
    } else if bounty_at(s, bounty).unwrap().client_key@ != client {
        Some(Error::Client(ClientError::NotAuthorizedForBounty))
    } else {
        None
    }
}

/// Why the escrow account named for the bounty stored at `bounty` is
/// refused, if it is: its address is the one derived from the bounty's and
/// the one that the bounty records, and an escrow account exists there.
pub open spec fn escrow_refusal(
    s: State,
    bounty: Seq<u8>,
    escrow: Seq<u8>,
    escrow_pda: PdaView,
) -> Option<Error>
    recommends
        bounty_at(s, bounty) is Some,
{
    if !resolves_to(escrow_pda, escrow) || bounty_at(s, bounty).unwrap().escrow_account@
        != escrow {
        Some(Error::Bounty(BountyError::InvalidEscrowAccount))
    } else if !escrow_at(s, escrow) {
        Some(Error::Bounty(BountyError::EscrowAccountNotFound))
    } else {
        None
    }
}

/// Checks the signer against the client record named.
pub fn check_client(
    ledger: &Ledger,
    authority: &Address,
    client: &Address,
    client_pda: &Option<Pda>,
) -> (r: Option<Error>)
    requires
        ledger.wf(),
    ensures
        r == client_refusal(ledger@, authority@, client@, pda_view(*client_pda)),
{
    if !ledger.has_wallet(authority) || !pda_is(client_pda, client) {
        return Some(Error::Client(ClientError::InvalidClientAuthority));
    }
    match ledger.client(client) {
        None => Some(Error::Client(ClientError::ClientNotFound)),
        Some(record) => {
            if record.authority.same(authority) {
                None
            } else {
                Some(Error::Client(ClientError::InvalidClientAuthority))
            }
        },
    }
}

/// Checks the signer against the user record named.
pub fn check_user(
    ledger: &Ledger,
    authority: &Address,
    user: &Address,
    user_pda: &Option<Pda>,
) -> (r: Option<Error>)
    requires
        ledger.wf(),
    ensures
        r == user_refusal(ledger@, authority@, user@, pda_view(*user_pda)),
{
    if !ledger.has_wallet(authority) || !pda_is(user_pda, user) {
        return Some(Error::User(UserError::InvalidUserAuthority));
    }
    match ledger.user(user) {
        None => Some(Error::User(UserError::UserNotFound)),
        Some(record) => {
            if record.authority.same(authority) {
                None
            } else {
                Some(Error::User(UserError::InvalidUserAuthority))
            }
        },
    }
}

/// Checks that the bounty named is stored where it belongs.
pub fn check_bounty(
    ledger: &Ledger,
    bounty: &Address,
    bounty_pda: &Option<Pda>,
) -> (r: Option<Error>)
    requires
        ledger.wf(),
    ensures
        r == bounty_refusal(ledger@, bounty@, pda_view(*bounty_pda)),
{
    match ledger.bounty(bounty) {
        None => Some(Error::Account(AccountError::BountyNotFound)),
        Some(record) => {
            if pda_is_with_bump(bounty_pda, bounty, record.bump) {
                None
            } else {
                Some(Error::Account(AccountError::InvalidBountyAccount))
            }
        },
    }
}

/// Checks that the bounty named is stored where it belongs and is owned by
/// the client whose record lies at `client`.
pub fn check_owned_bounty(
    ledger: &Ledger,
    client: &Address,
    bounty: &Address,
    bounty_pda: &Option<Pda>,
) -> (r: Option<Error>)
    requires
        ledger.wf(),
    ensures
        r == owned_bounty_refusal(ledger@, client@, bounty@, pda_view(*bounty_pda)),
{
    match ledger.bounty(bounty) {
        None => Some(Error::Account(AccountError::BountyNotFound)),
        Some(record) => {
            if !pda_is_with_bump(bounty_pda, bounty, record.bump) {
                Some(Error::Account(AccountError::InvalidBountyAccount))
            } else if !record.client_key.same(client) {
                Some(Error::Client(ClientError::NotAuthorizedForBounty))
            } else {
                None
            }
        },
    }
}

/// Checks the escrow account named for the bounty stored at `bounty`.
pub fn check_escrow(
    ledger: &Ledger,
    bounty: &Address,
    escrow: &Address,
    escrow_pda: &Option<Pda>,
) -> (r: Option<Error>)
    requires
        ledger.wf(),
        bounty_at(ledger@, bounty@) is Some,
    ensures
        r == escrow_refusal(ledger@, bounty@, escrow@, pda_view(*escrow_pda)),
{
    let recorded = match ledger.bounty(bounty) {
        Some(record) => record.escrow_account.same(escrow),
        None => false,
    };
    if !pda_is(escrow_pda, escrow) || !recorded {
        Some(Error::Bounty(BountyError::InvalidEscrowAccount))
    } else if !ledger.has_escrow(escrow) {
        Some(Error::Bounty(BountyError::EscrowAccountNotFound))
    } else {
        None
    }
}

/// The address derived from the title and creator of the bounty stored at
/// `bounty`; none where no bounty is stored there.
pub open spec fn stored_bounty_pda(s: State, program: Seq<u8>, bounty: Seq<u8>) -> PdaView {
    match bounty_at(s, bounty) {
        Some(b) => bounty_derivation(b.title@, b.creator_wallet_key@, program),
        None => None,
    }
}

/// The address derived from `title` and the creator of the bounty stored at
/// `bounty`; none where no bounty is stored there.
pub open spec fn retitled_bounty_pda(
    s: State,
    program: Seq<u8>,
    bounty: Seq<u8>,
    title: Seq<char>,
) -> PdaView {
    match bounty_at(s, bounty) {
        Some(b) => bounty_derivation(title, b.creator_wallet_key@, program),
        None => None,
    }
}

/// The address derived for the submission to `bounty` of the worker whose
/// user record is stored at `user`; none where no user is stored there.
pub open spec fn submission_pda_of_user(
    s: State,
    program: Seq<u8>,
    user: Seq<u8>,
    bounty: Seq<u8>,
) -> PdaView {
    match user_at(s, user) {
        Some(u) => program_address(submission_seeds(u.authority@, bounty), program),
        None => None,
    }
}

/// The address derived for the user record of the worker who wrote the
/// submission stored at `submission`; none where no submission is stored
/// there.
pub open spec fn user_pda_of_submission(
    s: State,
    program: Seq<u8>,
    submission: Seq<u8>,
) -> PdaView {
    match submission_at(s, submission) {
        Some(x) => program_address(user_seeds(x.user_wallet_key@), program),
        None => None,
    }
}

/// Derives the address of the bounty stored at `bounty` from its title and
/// creator.
pub fn resolve_stored_bounty(ledger: &Ledger, bounty: &Address) -> (r: Option<Pda>)
    requires
        ledger.wf(),
    ensures
        pda_view(r) == stored_bounty_pda(ledger@, ledger.program(), bounty@),
{
    let program_id = ledger.program_id();
    match ledger.bounty(bounty) {
        Some(b) => bounty_address(&program_id, &b.title, &b.creator_wallet_key),
        None => None,
    }
}

/// Derives an address from `title` and the creator of the bounty stored at
/// `bounty`.
pub fn resolve_retitled_bounty(
    ledger: &Ledger,
    bounty: &Address,
    title: &String,
) -> (r: Option<Pda>)
    requires
        ledger.wf(),
    ensures
        pda_view(r) == retitled_bounty_pda(ledger@, ledger.program(), bounty@, title@),
{
    let program_id = ledger.program_id();
    match ledger.bounty(bounty) {
        Some(b) => bounty_address(&program_id, title, &b.creator_wallet_key),
        None => None,
    }
}

/// Derives the address of the submission to `bounty` of the worker whose
/// user record is stored at `user`.
pub fn resolve_submission_of_user(
    ledger: &Ledger,
    user: &Address,
    bounty: &Address,
) -> (r: Option<Pda>)
    requires
        ledger.wf(),
    ensures
        pda_view(r) == submission_pda_of_user(ledger@, ledger.program(), user@, bounty@),
{
    let program_id = ledger.program_id();
    match ledger.user(user) {
        Some(u) => submission_address(&program_id, &u.authority, bounty),
        None => None,
    }
}

/// Derives the address of the user record of the worker who wrote the
/// submission stored at `submission`.
pub fn resolve_user_of_submission(ledger: &Ledger, submission: &Address) -> (r: Option<Pda>)
    requires
        ledger.wf(),
    ensures
        pda_view(r) == user_pda_of_submission(ledger@, ledger.program(), submission@),
{
    let program_id = ledger.program_id();
    match ledger.submission(submission) {
        Some(x) => user_address(&program_id, &x.user_wallet_key),
        None => None,
    }
}

} // verus!
