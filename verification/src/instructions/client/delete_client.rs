//! Closing a client record.

use crate::address::Address;
use crate::deriver::{client_address, client_seeds, pda_view, program_address, Pda, PdaView};
use crate::errors::{AccountError, Error};
use crate::guard::{check_client, client_refusal};
use crate::ledger::{balance_of, committed, credited, Ledger, State};
use vstd::prelude::*;

verus! {

/// The accounts that closing a client record names.
#[derive(Clone, Copy, Debug, PartialEq, Eq)]
pub struct DeleteClient {
    /// Wallet of the client, who signs and receives what the record holds.
    pub authority: Address,
    /// The client record of `authority`.
    pub client: Address,
}

/// Why closing a client record is refused, if it is.
pub open spec fn delete_client_refusal(
    pre: State,
    ctx: DeleteClient,
    client_pda: PdaView,
) -> Option<Error> {
    let signer = client_refusal(pre, ctx.authority@, ctx.client@, client_pda);
    if signer is Some {
        signer
    } else if balance_of(pre, ctx.authority@) + pre[ctx.client@].lamports > u64::MAX {
        Some(Error::Account(AccountError::ArithmeticOverflow))
    } else {
        None
    }
}

/// What closing a client record does: the error of the first check that
/// fails, or the accounts without the record, its balance handed to the
/// signer's wallet.
pub open spec fn delete_client_outcome(
    pre: State,
    ctx: DeleteClient,
    client_pda: PdaView,
) -> Result<State, Error> {
    match delete_client_refusal(pre, ctx, client_pda) {
        Some(e) => Err(e),
        None => Ok(credited(pre.remove(ctx.client@), ctx.authority@, pre[ctx.client@].lamports)),
    }
}

/// Closes a client record, given the address derived for it.
pub fn delete_client_resolved(
    ledger: &mut Ledger,
    ctx: &DeleteClient,
    client_pda: &Option<Pda>,
) -> (r: Result<(), Error>)
    requires
        old(ledger).wf(),
    ensures
        final(ledger).wf(),
        final(ledger).program() == old(ledger).program(),
        committed(
            r,
            delete_client_outcome(old(ledger)@, *ctx, pda_view(*client_pda)),
            old(ledger)@,
            final(ledger)@,
        ),
{
    match check_client(ledger, &ctx.authority, &ctx.client, client_pda) {
        Some(e) => {
            return Err(e);
        },
        None => {},
    }
    let held = ledger.lamports(&ctx.client);
    if ledger.lamports(&ctx.authority) > u64::MAX - held {
        return Err(Error::Account(AccountError::ArithmeticOverflow));
    }
    let _ = ledger.remove(&ctx.client);
    let _ = ledger.deposit(&ctx.authority, held);
    Ok(())
}

/// Closes the signer's client record and hands what its account holds to
/// the signer's wallet.
pub fn delete_client(ledger: &mut Ledger, ctx: &DeleteClient) -> (r: Result<(), Error>)
    requires
        old(ledger).wf(),
    ensures
        final(ledger).wf(),
        final(ledger).program() == old(ledger).program(),
        committed(
            r,
            delete_client_outcome(
                old(ledger)@,
                *ctx,
                program_address(client_seeds(ctx.authority@), old(ledger).program()),
            ),
            old(ledger)@,
            final(ledger)@,
        ),
{
    let program_id = ledger.program_id();
    let client_pda = client_address(&program_id, &ctx.authority);
    delete_client_resolved(ledger, ctx, &client_pda)
}

} // verus!
