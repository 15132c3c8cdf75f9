//! Posting a bounty: the reward is locked in a fresh escrow account.

use crate::address::{lemma_zero_key, zero_key, Address};
use crate::clock::{to_unix_time, unix_time};
use crate::deriver::{
    bounty_address, bounty_derivation, client_address, client_seeds, escrow_address, escrow_seeds,
    pda_is, pda_view, program_address, resolves_to, Pda, PdaView,
};
use crate::errors::{AccountError, BountyError, Error};
use crate::guard::{check_client, client_refusal};
use crate::ledger::{
    balance_of, client_at, committed, debited, with_record, Account, Ledger, Record, State,
};
use crate::states::bounty::{
    MAX_DESCRIPTION_LEN, MAX_SKILLS, MAX_SKILL_LEN, MAX_TITLE_LEN, MINOR_UNITS_PER_UNIT,
};
use crate::states::text::{byte_len, check_list_fits, list_fits, stored_len};
use crate::states::{Bounty, Client};
use vstd::prelude::*;

verus! {

/// The accounts that posting a bounty names.
#[derive(Clone, Copy, Debug, PartialEq, Eq)]
pub struct CreateBounty {
    /// Wallet of the client, who signs and pays.
    pub authority: Address,
    /// The client record of `authority`.
    pub client: Address,
    /// Where the bounty will be stored.
    pub bounty: Address,
    /// Where the reward will be held.
    pub escrow_account: Address,
}

/// The addresses derived for the accounts that posting a bounty names.
#[derive(Clone, Copy, Debug, PartialEq, Eq)]
pub struct CreateBountyPdas {
    pub client: Option<Pda>,
    pub bounty: Option<Pda>,
    pub escrow_account: Option<Pda>,
}

/// The record of a bounty as it is first stored.
pub open spec fn new_bounty(
    ctx: CreateBounty,
    bump: u8,
    title: String,
    description: String,
    reward: u64,
    deadline: u64,
    required_skills: Vec<String>,
    now: i64,
) -> Bounty {
    Bounty {
        creator_wallet_key: ctx.authority,
        client_key: ctx.client,
        title,
        description,
        reward,
        live: true,
        created_at: unix_time(now),
        deadline,
        required_skills,
        no_of_submissions: 0,
        selected_submission: zero_key(),
        selected_user_wallet_key: zero_key(),
        escrow_account: ctx.escrow_account,
        bounty_rewarded: false,
        bump,
    }
}

/// Why the addresses named for a new bounty and its escrow account are
/// refused, if they are: each is the one derived for it, each is free, and
/// the two differ.
pub open spec fn new_bounty_accounts_refusal(
    pre: State,
    ctx: CreateBounty,
    bounty_pda: PdaView,
    escrow_pda: PdaView,
) -> Option<Error> {
    if bounty_pda is None {
        Some(Error::Account(AccountError::InvalidSeeds))
    } else if !resolves_to(bounty_pda, ctx.bounty@) {
        Some(Error::Account(AccountError::InvalidBountyAccount))
    } else if pre.dom().contains(ctx.bounty@) {
        Some(Error::Account(AccountError::BountyAlreadyExists))
    } else if !resolves_to(escrow_pda, ctx.escrow_account@) || pre.dom().contains(
        ctx.escrow_account@,
    ) || ctx.escrow_account@ == ctx.bounty@ {
        Some(Error::Bounty(BountyError::InvalidEscrowAccount))
    } else {
        None
    }
}

/// Why posting a bounty is refused, if it is. The checks come in this
/// order: the signer and the client record, the addresses of the bounty and
/// of its escrow account, the reward, which must be positive, the balance
/// of the signer, which must cover it, the size of the texts, the counter
/// of the client.
pub open spec fn create_bounty_refusal(
    pre: State,
    ctx: CreateBounty,
    client_pda: PdaView,
    bounty_pda: PdaView,
    escrow_pda: PdaView,
    title: Seq<char>,
    description: Seq<char>,
    reward: u64,
    required_skills: Seq<String>,
) -> Option<Error> {
    let client = client_refusal(pre, ctx.authority@, ctx.client@, client_pda);
    let accounts = new_bounty_accounts_refusal(pre, ctx, bounty_pda, escrow_pda);
    if client is Some {
        client
    } else if accounts is Some {
        accounts
    } else if reward == 0 {
        Some(Error::Bounty(BountyError::InvalidRewardAmount))
    } else if balance_of(pre, ctx.authority@) < reward * MINOR_UNITS_PER_UNIT {
        Some(Error::Bounty(BountyError::InsufficientSolBalance))
    } else if byte_len(title) > MAX_TITLE_LEN || byte_len(description) > MAX_DESCRIPTION_LEN
        || !list_fits(required_skills, MAX_SKILLS as nat, MAX_SKILL_LEN as nat) {
        Some(Error::Account(AccountError::DataTooLarge))
    } else if client_at(pre, ctx.client@).unwrap().bounties_posted == u64::MAX {
        Some(Error::Account(AccountError::ArithmeticOverflow))
    } else {
        None
    }
}

/// The accounts after a bounty is posted: the reward has moved from the
/// client's wallet into the new escrow account, the bounty is stored, and
/// the client has one more bounty posted.
pub open spec fn create_bounty_effect(pre: State, ctx: CreateBounty, bounty: Bounty) -> State {
    let amount = (bounty.reward * MINOR_UNITS_PER_UNIT) as u64;
    let client = client_at(pre, ctx.client@).unwrap();
    let paid = debited(pre, ctx.authority@, amount);
    let stored = paid.insert(ctx.bounty@, Account { lamports: 0, record: Record::Bounty(bounty) });
    let locked = stored.insert(
        ctx.escrow_account@,
        Account { lamports: amount, record: Record::Escrow },
    );
    with_record(
        locked,
        ctx.client@,
        Record::Client(
            Client { bounties_posted: (client.bounties_posted + 1) as u64, ..client },
        ),
    )
}

/// What posting a bounty does: the error of the first check that fails, or
/// the accounts after the bounty is stored and its reward locked.
pub open spec fn create_bounty_outcome(
    pre: State,
    ctx: CreateBounty,
    client_pda: PdaView,
    bounty_pda: PdaView,
    escrow_pda: PdaView,
    title: String,
    description: String,
    reward: u64,
    deadline: u64,
    required_skills: Vec<String>,
    now: i64,
) -> Result<State, Error> {
    match create_bounty_refusal(
        pre,
        ctx,
        client_pda,
        bounty_pda,
        escrow_pda,
        title@,
        description@,
        reward,
        required_skills@,
    ) {
        Some(e) => Err(e),
        None => Ok(
            create_bounty_effect(
                pre,
                ctx,
                new_bounty(
                    ctx,
                    bounty_pda.unwrap().1,
                    title,
                    description,
                    reward,
                    deadline,
                    required_skills,
                    now,
                ),
            ),
        ),
    }
}

/// Whether `balance` minor units cover a reward of `reward` whole units.
fn covers(balance: u64, reward: u64) -> (r: bool)
    ensures
        r == (balance >= reward * MINOR_UNITS_PER_UNIT),
{
    if reward > u64::MAX / MINOR_UNITS_PER_UNIT {
        assert(reward * MINOR_UNITS_PER_UNIT > u64::MAX) by (nonlinear_arith)
            requires
                reward > u64::MAX / MINOR_UNITS_PER_UNIT,
        ;
        false
    } else {
        assert(reward * MINOR_UNITS_PER_UNIT <= u64::MAX) by (nonlinear_arith)
            requires
                reward <= u64::MAX / MINOR_UNITS_PER_UNIT,
        ;
        balance >= reward * MINOR_UNITS_PER_UNIT
    }
}

/// Checks the addresses named for a new bounty and its escrow account.
fn check_new_bounty_accounts(
    ledger: &Ledger,
    ctx: &CreateBounty,
    pdas: &CreateBountyPdas,
) -> (r: Option<Error>)
    requires
        ledger.wf(),
    ensures
        r == new_bounty_accounts_refusal(
            ledger@,
            *ctx,
            pda_view(pdas.bounty),
            pda_view(pdas.escrow_account),
        ),
{
    if pdas.bounty.is_none() {
        Some(Error::Account(AccountError::InvalidSeeds))
    } else if !pda_is(&pdas.bounty, &ctx.bounty) {
        Some(Error::Account(AccountError::InvalidBountyAccount))
    } else if ledger.contains(&ctx.bounty) {
        Some(Error::Account(AccountError::BountyAlreadyExists))
    } else if !pda_is(&pdas.escrow_account, &ctx.escrow_account) || ledger.contains(
        &ctx.escrow_account,
    ) || ctx.escrow_account.same(&ctx.bounty) {
        Some(Error::Bounty(BountyError::InvalidEscrowAccount))
    } else {
        None
    }
}

/// Posts a bounty, given the addresses derived for the accounts named.
///
/// Either every check of `create_bounty_refusal` passes and the ledger
/// changes as `create_bounty_effect` says, or the error of the first check
/// that fails is returned and the ledger is unchanged.
pub fn create_bounty_resolved(
    ledger: &mut Ledger,
    ctx: &CreateBounty,
    pdas: &CreateBountyPdas,
    title: String,
    description: String,
    reward: u64,
    deadline: u64,
    required_skills: Vec<String>,
    now: i64,
) -> (r: Result<(), Error>)
    requires
        old(ledger).wf(),
    ensures
        final(ledger).wf(),
        final(ledger).program() == old(ledger).program(),
        committed(
            r,
            create_bounty_outcome(
                old(ledger)@,
                *ctx,
                pda_view(pdas.client),
                pda_view(pdas.bounty),
                pda_view(pdas.escrow_account),
                title,
                description,
                reward,
                deadline,
                required_skills,
                now,
            ),
            old(ledger)@,
            final(ledger)@,
        ),
{
    match check_client(ledger, &ctx.authority, &ctx.client, &pdas.client) {
        Some(e) => {
            return Err(e);
        },
        None => {},
    }
    match check_new_bounty_accounts(ledger, ctx, pdas) {
        Some(e) => {
            return Err(e);
        },
        None => {},
    }
    if reward == 0 {
        return Err(Error::Bounty(BountyError::InvalidRewardAmount));
    }
    if !covers(ledger.lamports(&ctx.authority), reward) {
        return Err(Error::Bounty(BountyError::InsufficientSolBalance));
    }
    if stored_len(&title) > MAX_TITLE_LEN || stored_len(&description) > MAX_DESCRIPTION_LEN
        || !check_list_fits(&required_skills, MAX_SKILLS, MAX_SKILL_LEN) {
        return Err(Error::Account(AccountError::DataTooLarge));
    }
    let posted = ledger.client(&ctx.client).unwrap().bounties_posted;
    if posted == u64::MAX {
        return Err(Error::Account(AccountError::ArithmeticOverflow));
    }
    let amount = reward * MINOR_UNITS_PER_UNIT;
    let bounty = Bounty {
        creator_wallet_key: ctx.authority,
        client_key: ctx.client,
        title,
        description,
        reward,
        live: true,
        created_at: to_unix_time(now),
        deadline,
        required_skills,
        no_of_submissions: 0,
        selected_submission: Address::zero(),
        selected_user_wallet_key: Address::zero(),
        escrow_account: ctx.escrow_account,
        bounty_rewarded: false,
        bump: pdas.bounty.unwrap().bump,
    };
    proof {
        lemma_zero_key();
    }
    ledger.withdraw(&ctx.authority, amount);
    ledger.insert(ctx.bounty, Account { lamports: 0, record: Record::Bounty(bounty) });
    ledger.insert(ctx.escrow_account, Account { lamports: amount, record: Record::Escrow });
    let (held, mut client) = ledger.take_client(&ctx.client);
    client.bounties_posted = posted + 1;
    ledger.insert(ctx.client, Account { lamports: held, record: Record::Client(client) });
    assert(ledger@ =~= create_bounty_effect(old(ledger)@, *ctx, bounty));
    Ok(())
}

/// The addresses derived for the accounts that posting a bounty under
/// `title` names.
pub fn resolve_create_bounty(
    program_id: &Address,
    ctx: &CreateBounty,
    title: &String,
) -> (r: CreateBountyPdas)
    ensures
        pda_view(r.client) == program_address(client_seeds(ctx.authority@), program_id@),
        pda_view(r.bounty) == bounty_derivation(title@, ctx.authority@, program_id@),
        pda_view(r.escrow_account) == program_address(escrow_seeds(ctx.bounty@), program_id@),
{
    CreateBountyPdas {
        client: client_address(program_id, &ctx.authority),
        bounty: bounty_address(program_id, title, &ctx.authority),
        escrow_account: escrow_address(program_id, &ctx.bounty),
    }
}

/// What posting a bounty does under `program`: its outcome for the
/// addresses that the derivation gives.
pub open spec fn create_bounty_spec(
    pre: State,
    program: Seq<u8>,
    ctx: CreateBounty,
    title: String,
    description: String,
    reward: u64,
    deadline: u64,
    required_skills: Vec<String>,
    now: i64,
) -> Result<State, Error> {
    create_bounty_outcome(
        pre,
        ctx,
        program_address(client_seeds(ctx.authority@), program),
        bounty_derivation(title@, ctx.authority@, program),
        program_address(escrow_seeds(ctx.bounty@), program),
        title,
        description,
        reward,
        deadline,
        required_skills,
        now,
    )
}

/// Posts a bounty: locks `reward` whole units of the signer's balance in a
/// new escrow account and stores the bounty, live and without submissions,
/// at the address that follows from its title and the signer.
///
/// The outcome is that of `create_bounty_outcome` for the addresses that the
/// derivation gives under the ledger's program.
pub fn create_bounty(
    ledger: &mut Ledger,
    ctx: &CreateBounty,
    title: String,
    description: String,
    reward: u64,
    deadline: u64,
    required_skills: Vec<String>,
    now: i64,
) -> (r: Result<(), Error>)
    requires
        old(ledger).wf(),
    ensures
        final(ledger).wf(),
        final(ledger).program() == old(ledger).program(),
        committed(
            r,
            create_bounty_spec(
                old(ledger)@,
                old(ledger).program(),
                *ctx,
                title,
                description,
                reward,
                deadline,
                required_skills,
                now,
            ),
            old(ledger)@,
            final(ledger)@,
        ),
{
    let program_id = ledger.program_id();
    let pdas = resolve_create_bounty(&program_id, ctx, &title);
    create_bounty_resolved(
        ledger,
        ctx,
        &pdas,
        title,
        description,
        reward,
        deadline,
        required_skills,
        now,
    )
}

} // verus!
