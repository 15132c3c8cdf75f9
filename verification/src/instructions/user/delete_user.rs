//! Closing a user record.

use crate::address::Address;
use crate::deriver::{pda_view, program_address, user_address, user_seeds, Pda, PdaView};
use crate::errors::{AccountError, Error};
use crate::guard::{check_user, user_refusal};
use crate::ledger::{balance_of, committed, credited, Ledger, State};
use vstd::prelude::*;

verus! {

/// The accounts that closing a user record names.
#[derive(Clone, Copy, Debug, PartialEq, Eq)]
pub struct DeleteUser {
    /// Wallet of the worker, who signs and receives what the record holds.
    pub authority: Address,
    /// The user record of `authority`.
    pub user: Address,
}

/// Why closing a user record is refused, if it is.
pub open spec fn delete_user_refusal(
    pre: State,
    ctx: DeleteUser,
    user_pda: PdaView,
) -> Option<Error> {
    let signer = user_refusal(pre, ctx.authority@, ctx.user@, user_pda);
    if signer is Some {
        signer
    } else if balance_of(pre, ctx.authority@) + pre[ctx.user@].lamports > u64::MAX {
        Some(Error::Account(AccountError::ArithmeticOverflow))
    } else {
        None
    }
}

/// What closing a user record does: the error of the first check that
/// fails, or the accounts without the record, its balance handed to the
/// signer's wallet.
pub open spec fn delete_user_outcome(
    pre: State,
    ctx: DeleteUser,
    user_pda: PdaView,
) -> Result<State, Error> {
    match delete_user_refusal(pre, ctx, user_pda) {
        Some(e) => Err(e),
        None => Ok(credited(pre.remove(ctx.user@), ctx.authority@, pre[ctx.user@].lamports)),
    }
}

/// Closes a user record, given the address derived for it.
pub fn delete_user_resolved(
    ledger: &mut Ledger,
    ctx: &DeleteUser,
    user_pda: &Option<Pda>,
) -> (r: Result<(), Error>)
    requires
        old(ledger).wf(),
    ensures
        final(ledger).wf(),
        final(ledger).program() == old(ledger).program(),
        committed(
            r,
            delete_user_outcome(old(ledger)@, *ctx, pda_view(*user_pda)),
            old(ledger)@,
            final(ledger)@,
        ),
{
    match check_user(ledger, &ctx.authority, &ctx.user, user_pda) {
        Some(e) => {
            return Err(e);
        },
        None => {},
    }
    let held = ledger.lamports(&ctx.user);
    if ledger.lamports(&ctx.authority) > u64::MAX - held {
        return Err(Error::Account(AccountError::ArithmeticOverflow));
    }
    let _ = ledger.remove(&ctx.user);
    let _ = ledger.deposit(&ctx.authority, held);
    Ok(())
}

/// Closes the signer's user record and hands what its account holds to
/// the signer's wallet.
pub fn delete_user(ledger: &mut Ledger, ctx: &DeleteUser) -> (r: Result<(), Error>)
    requires
        old(ledger).wf(),
    ensures
        final(ledger).wf(),
        final(ledger).program() == old(ledger).program(),
        committed(
            r,
            delete_user_outcome(
                old(ledger)@,
                *ctx,
                program_address(user_seeds(ctx.authority@), old(ledger).program()),
            ),
            old(ledger)@,
            final(ledger)@,
        ),
{
    let program_id = ledger.program_id();
    let user_pda = user_address(&program_id, &ctx.authority);
    delete_user_resolved(ledger, ctx, &user_pda)
}

} // verus!
