//! Cancelling a bounty that has no submissions: the escrow is refunded and
//! both accounts are closed.

use crate::address::Address;
use crate::deriver::{
    bounty_address, bounty_derivation, client_address, client_seeds, escrow_address, escrow_seeds,
    pda_view, program_address, Pda, PdaView,
};
use crate::errors::{AccountError, BountyError, Error};
use crate::guard::{
    check_client, check_escrow, check_owned_bounty, client_refusal, escrow_refusal,
    owned_bounty_refusal,
};
use crate::ledger::{
    balance_of, bounty_at, client_at, committed, credited, with_record, Account, Ledger, Record,
    State,
};
use crate::states::Client;
use vstd::prelude::*;

verus! {

/// The accounts that cancelling a bounty names.
#[derive(Clone, Copy, Debug, PartialEq, Eq)]
pub struct DeleteBounty {
    /// Wallet of the client, who signs and is refunded.
    pub authority: Address,
    /// The client record of `authority`.
    pub client: Address,
    /// The bounty to cancel.
    pub bounty: Address,
    /// The account that holds the reward of the bounty.
    pub escrow_account: Address,
}

/// The addresses derived for the accounts that cancelling a bounty names.
#[derive(Clone, Copy, Debug, PartialEq, Eq)]
pub struct DeleteBountyPdas {
    pub client: Option<Pda>,
    pub bounty: Option<Pda>,
    pub escrow_account: Option<Pda>,
}

/// Why the accounts named for a cancellation are refused, if they are:
/// first the signer and the client record, then the bounty and its owner,
/// then the escrow account.
pub open spec fn delete_bounty_accounts_refusal(
    pre: State,
    ctx: DeleteBounty,
    client_pda: PdaView,
    bounty_pda: PdaView,
    escrow_pda: PdaView,
) -> Option<Error> {
    let client = client_refusal(pre, ctx.authority@, ctx.client@, client_pda);
    let bounty = owned_bounty_refusal(pre, ctx.client@, ctx.bounty@, bounty_pda);
    if client is Some {
        client
    } else if bounty is Some {
        bounty
    } else {
        escrow_refusal(pre, ctx.bounty@, ctx.escrow_account@, escrow_pda)
    }
}

/// The accounts once the bounty and its escrow account are closed, before
/// their balances are handed back.
pub open spec fn delete_bounty_closed(pre: State, ctx: DeleteBounty) -> State {
    pre.remove(ctx.escrow_account@).remove(ctx.bounty@)
}

/// Why a cancellation is refused, if it is. After the accounts come the
/// liveness of the bounty, its submissions, and the range of the balance
/// that would grow and of the counter that would shrink.
pub open spec fn delete_bounty_refusal(
    pre: State,
    ctx: DeleteBounty,
    client_pda: PdaView,
    bounty_pda: PdaView,
    escrow_pda: PdaView,
) -> Option<Error> {
    let accounts = delete_bounty_accounts_refusal(pre, ctx, client_pda, bounty_pda, escrow_pda);
    let client = client_at(pre, ctx.client@).unwrap();
    let bounty = bounty_at(pre, ctx.bounty@).unwrap();
    if accounts is Some {
        accounts
    } else if !bounty.live {
        Some(Error::Bounty(BountyError::BountyAlreadyClosed))
    } else if bounty.no_of_submissions != 0 {
        Some(Error::Bounty(BountyError::CannotDeleteWithSubmissions))
    } else if balance_of(pre, ctx.authority@) + pre[ctx.escrow_account@].lamports
        + pre[ctx.bounty@].lamports > u64::MAX || client.bounties_posted == 0 {
        Some(Error::Account(AccountError::ArithmeticOverflow))
    } else {
        None
    }
}

/// The accounts after a cancellation: the bounty and its escrow account are
/// gone, the whole balance of the escrow and what the bounty's own account
/// held are back in the client's wallet, and the client has one bounty
/// fewer posted.
pub open spec fn delete_bounty_effect(pre: State, ctx: DeleteBounty) -> State {
    let client = client_at(pre, ctx.client@).unwrap();
    let refunded = credited(
        delete_bounty_closed(pre, ctx),
        ctx.authority@,
        pre[ctx.escrow_account@].lamports,
    );
    let reclaimed = credited(refunded, ctx.authority@, pre[ctx.bounty@].lamports);
    with_record(
        reclaimed,
        ctx.client@,
        Record::Client(
            Client { bounties_posted: (client.bounties_posted - 1) as u64, ..client },
        ),
    )
}

/// What cancelling a bounty does: the error of the first check that fails,
/// or the accounts after the refund.
pub open spec fn delete_bounty_outcome(
    pre: State,
    ctx: DeleteBounty,
    client_pda: PdaView,
    bounty_pda: PdaView,
    escrow_pda: PdaView,
) -> Result<State, Error> {
    match delete_bounty_refusal(pre, ctx, client_pda, bounty_pda, escrow_pda) {
        Some(e) => Err(e),
        None => Ok(delete_bounty_effect(pre, ctx)),
    }
}

/// Cancels a bounty, given the addresses derived for the accounts named.
///
/// Either every check of `delete_bounty_refusal` passes and the ledger
/// changes as `delete_bounty_effect` says, or the error of the first check
/// that fails is returned and the ledger is unchanged.
pub fn delete_bounty_resolved(
    ledger: &mut Ledger,
    ctx: &DeleteBounty,
    pdas: &DeleteBountyPdas,
) -> (r: Result<(), Error>)
    requires
        old(ledger).wf(),
    ensures
        final(ledger).wf(),
        final(ledger).program() == old(ledger).program(),
        committed(
            r,
            delete_bounty_outcome(
                old(ledger)@,
                *ctx,
                pda_view(pdas.client),
                pda_view(pdas.bounty),
                pda_view(pdas.escrow_account),
            ),
            old(ledger)@,
            final(ledger)@,
        ),
{
    match check_client(ledger, &ctx.authority, &ctx.client, &pdas.client) {
        Some(e) => {
            return Err(e);
        },
        None => {},
    }
    match check_owned_bounty(ledger, &ctx.client, &ctx.bounty, &pdas.bounty) {
        Some(e) => {
            return Err(e);
        },
        None => {},
    }
    match check_escrow(ledger, &ctx.bounty, &ctx.escrow_account, &pdas.escrow_account) {
        Some(e) => {
            return Err(e);
        },
        None => {},
    }
    let bounty = ledger.bounty(&ctx.bounty).unwrap();
    if !bounty.live {
        return Err(Error::Bounty(BountyError::BountyAlreadyClosed));
    }
    if bounty.no_of_submissions != 0 {
        return Err(Error::Bounty(BountyError::CannotDeleteWithSubmissions));
    }
    let refund = ledger.lamports(&ctx.escrow_account);
    let reclaim = ledger.lamports(&ctx.bounty);
    let held = ledger.lamports(&ctx.authority);
    let posted = ledger.client(&ctx.client).unwrap().bounties_posted;
    if refund > u64::MAX - held || reclaim > u64::MAX - held - refund || posted == 0 {
        return Err(Error::Account(AccountError::ArithmeticOverflow));
    }
    let _ = ledger.remove(&ctx.escrow_account);
    let _ = ledger.remove(&ctx.bounty);
    assert(ledger@ =~= delete_bounty_closed(old(ledger)@, *ctx));
    let _ = ledger.deposit(&ctx.authority, refund);
    let _ = ledger.deposit(&ctx.authority, reclaim);
    let ghost reclaimed = ledger@;

    let (balance, mut client) = ledger.take_client(&ctx.client);
    client.bounties_posted = posted - 1;
    ledger.insert(ctx.client, Account { lamports: balance, record: Record::Client(client) });
    assert(ledger@ =~= with_record(reclaimed, ctx.client@, Record::Client(client)));
    Ok(())
}

/// The addresses derived for the accounts that cancelling the bounty titled
/// `title` names.
pub fn resolve_delete_bounty(
    program_id: &Address,
    ctx: &DeleteBounty,
    title: &String,
) -> (r: DeleteBountyPdas)
    ensures
        pda_view(r.client) == program_address(client_seeds(ctx.authority@), program_id@),
        pda_view(r.bounty) == bounty_derivation(title@, ctx.authority@, program_id@),
        pda_view(r.escrow_account) == program_address(escrow_seeds(ctx.bounty@), program_id@),
{
    DeleteBountyPdas {
        client: client_address(program_id, &ctx.authority),
        bounty: bounty_address(program_id, title, &ctx.authority),
        escrow_account: escrow_address(program_id, &ctx.bounty),
    }
}

/// What cancelling the bounty titled `title` does under `program`: its
/// outcome for the addresses that the derivation gives.
pub open spec fn delete_bounty_spec(
    pre: State,
    program: Seq<u8>,
    ctx: DeleteBounty,
    title: Seq<char>,
) -> Result<State, Error> {
    delete_bounty_outcome(
        pre,
        ctx,
        program_address(client_seeds(ctx.authority@), program),
        bounty_derivation(title, ctx.authority@, program),
        program_address(escrow_seeds(ctx.bounty@), program),
    )
}

/// Cancels the bounty that the signer posted under `title`, as long as it is
/// live and nobody has submitted to it: the escrow is refunded in full and
/// the bounty and its escrow account cease to exist.
///
/// The outcome is that of `delete_bounty_outcome` for the addresses that
/// the derivation gives under the ledger's program.
pub fn delete_bounty(
    ledger: &mut Ledger,
    ctx: &DeleteBounty,
    title: String,
) -> (r: Result<(), Error>)
    requires
        old(ledger).wf(),
    ensures
        final(ledger).wf(),
        final(ledger).program() == old(ledger).program(),
        committed(
            r,
            delete_bounty_spec(old(ledger)@, old(ledger).program(), *ctx, title@),
            old(ledger)@,
            final(ledger)@,
        ),
{
    let program_id = ledger.program_id();
    let pdas = resolve_delete_bounty(&program_id, ctx, &title);
    delete_bounty_resolved(ledger, ctx, &pdas)
}

} // verus!
