//! Editing the description and deadline of a bounty that has no submissions.

use crate::address::Address;
use crate::deriver::{client_address, client_seeds, pda_view, program_address, Pda, PdaView};
use crate::errors::{AccountError, BountyError, Error};
use crate::guard::{
    check_client, check_owned_bounty, client_refusal, owned_bounty_refusal, resolve_retitled_bounty,
    retitled_bounty_pda,
};
use crate::ledger::{bounty_at, committed, with_record, Account, Ledger, Record, State};
use crate::states::bounty::MAX_DESCRIPTION_LEN;
use crate::states::text::{byte_len, stored_len};
use crate::states::Bounty;
use vstd::prelude::*;

verus! {

/// The accounts that editing a bounty names.
#[derive(Clone, Copy, Debug, PartialEq, Eq)]
pub struct UpdateBounty {
    /// Wallet of the client, who signs.
    pub authority: Address,
    /// The client record of `authority`.
    pub client: Address,
    /// The bounty to edit.
    pub bounty: Address,
}

/// The addresses derived for the accounts that editing a bounty names.
#[derive(Clone, Copy, Debug, PartialEq, Eq)]
pub struct UpdateBountyPdas {
    pub client: Option<Pda>,
    pub bounty: Option<Pda>,
}

/// Why the accounts named for an edit are refused, if they are: first the
/// signer and the client record, then the bounty and its owner.
pub open spec fn update_bounty_accounts_refusal(
    pre: State,
    ctx: UpdateBounty,
    client_pda: PdaView,
    bounty_pda: PdaView,
) -> Option<Error> {
    let client = client_refusal(pre, ctx.authority@, ctx.client@, client_pda);
    if client is Some {
        client
    } else {
        owned_bounty_refusal(pre, ctx.client@, ctx.bounty@, bounty_pda)
    }
}

/// Why an edit is refused, if it is. After the accounts come the liveness
/// of the bounty, its submissions, and the size of the new description.
pub open spec fn update_bounty_refusal(
    pre: State,
    ctx: UpdateBounty,
    client_pda: PdaView,
    bounty_pda: PdaView,
    description: Seq<char>,
) -> Option<Error> {
    let accounts = update_bounty_accounts_refusal(pre, ctx, client_pda, bounty_pda);
    let bounty = bounty_at(pre, ctx.bounty@).unwrap();
    if accounts is Some {
        accounts
    } else if !bounty.live {
        Some(Error::Bounty(BountyError::BountyAlreadyClosed))
    } else if bounty.no_of_submissions != 0 {
        Some(Error::Bounty(BountyError::CannotUpdateWithSubmissions))
    } else if byte_len(description) > MAX_DESCRIPTION_LEN {
        Some(Error::Account(AccountError::DataTooLarge))
    } else {
        None
    }
}

/// The accounts after an edit: the bounty has the new description and
/// deadline, and nothing else has changed.
pub open spec fn update_bounty_effect(
    pre: State,
    ctx: UpdateBounty,
    description: String,
    deadline: u64,
) -> State {
    let bounty = bounty_at(pre, ctx.bounty@).unwrap();
    with_record(pre, ctx.bounty@, Record::Bounty(Bounty { description, deadline, ..bounty }))
}

/// What editing a bounty does: the error of the first check that fails, or
/// the accounts after the edit.
pub open spec fn update_bounty_outcome(
    pre: State,
    ctx: UpdateBounty,
    client_pda: PdaView,
    bounty_pda: PdaView,
    description: String,
    deadline: u64,
) -> Result<State, Error> {
    match update_bounty_refusal(pre, ctx, client_pda, bounty_pda, description@) {
        Some(e) => Err(e),
        None => Ok(update_bounty_effect(pre, ctx, description, deadline)),
    }
}

/// Edits a bounty, given the addresses derived for the accounts named.
///
/// Either every check of `update_bounty_refusal` passes and the ledger
/// changes as `update_bounty_effect` says, or the error of the first check
/// that fails is returned and the ledger is unchanged.
pub fn update_bounty_resolved(
    ledger: &mut Ledger,
    ctx: &UpdateBounty,
    pdas: &UpdateBountyPdas,
    description: String,
    deadline: u64,
) -> (r: Result<(), Error>)
    requires
        old(ledger).wf(),
    ensures
        final(ledger).wf(),
        final(ledger).program() == old(ledger).program(),
        committed(
            r,
            update_bounty_outcome(
                old(ledger)@,
                *ctx,
                pda_view(pdas.client),
                pda_view(pdas.bounty),
                description,
                deadline,
            ),
            old(ledger)@,
            final(ledger)@,
        ),
{
    match check_client(ledger, &ctx.authority, &ctx.client, &pdas.client) {
        Some(e) => {
            return Err(e);
        },
        None => {},
    }
    match check_owned_bounty(ledger, &ctx.client, &ctx.bounty, &pdas.bounty) {
        Some(e) => {
            return Err(e);
        },
        None => {},
    }
    let bounty = ledger.bounty(&ctx.bounty).unwrap();
    if !bounty.live {
        return Err(Error::Bounty(BountyError::BountyAlreadyClosed));
    }
    if bounty.no_of_submissions != 0 {
        return Err(Error::Bounty(BountyError::CannotUpdateWithSubmissions));
    }
    if stored_len(&description) > MAX_DESCRIPTION_LEN {
        return Err(Error::Account(AccountError::DataTooLarge));
    }
    let (balance, mut bounty) = ledger.take_bounty(&ctx.bounty);
    bounty.description = description;
    bounty.deadline = deadline;
    ledger.insert(ctx.bounty, Account { lamports: balance, record: Record::Bounty(bounty) });
    assert(ledger@ =~= with_record(old(ledger)@, ctx.bounty@, Record::Bounty(bounty)));
    Ok(())
}

/// The addresses derived for the accounts that editing the bounty titled
/// `title` names.
pub fn resolve_update_bounty(
    ledger: &Ledger,
    ctx: &UpdateBounty,
    title: &String,
) -> (r: UpdateBountyPdas)
    requires
        ledger.wf(),
    ensures
        pda_view(r.client) == program_address(client_seeds(ctx.authority@), ledger.program()),
        pda_view(r.bounty) == retitled_bounty_pda(
            ledger@,
            ledger.program(),
            ctx.bounty@,
            title@,
        ),
{
    let program_id = ledger.program_id();
    UpdateBountyPdas {
        client: client_address(&program_id, &ctx.authority),
        bounty: resolve_retitled_bounty(ledger, &ctx.bounty, title),
    }
}

/// What editing the bounty titled `title` does under `program`: its
/// outcome for the addresses that the derivation gives.
pub open spec fn update_bounty_spec(
    pre: State,
    program: Seq<u8>,
    ctx: UpdateBounty,
    title: Seq<char>,
    description: String,
    deadline: u64,
) -> Result<State, Error> {
    update_bounty_outcome(
        pre,
        ctx,
        program_address(client_seeds(ctx.authority@), program),
        retitled_bounty_pda(pre, program, ctx.bounty@, title),
        description,
        deadline,
    )
}

/// Replaces the description and deadline of the bounty titled `title`, as
/// long as it is live and nobody has submitted to it. The title, the reward
/// and the escrow stay as they are.
///
/// The outcome is that of `update_bounty_outcome` for the addresses that
/// the derivation gives under the ledger's program.
pub fn update_bounty(
    ledger: &mut Ledger,
    ctx: &UpdateBounty,
    title: String,
    description: String,
    deadline: u64,
) -> (r: Result<(), Error>)
    requires
        old(ledger).wf(),
    ensures
        final(ledger).wf(),
        final(ledger).program() == old(ledger).program(),
        committed(
            r,
            update_bounty_spec(
                old(ledger)@,
                old(ledger).program(),
                *ctx,
                title@,
                description,
                deadline,
            ),
            old(ledger)@,
            final(ledger)@,
        ),
{
    let pdas = resolve_update_bounty(ledger, ctx, &title);
    update_bounty_resolved(ledger, ctx, &pdas, description, deadline)
}

} // verus!
