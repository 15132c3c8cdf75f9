//! Selecting the winning submission: the escrow pays the winner and the
//! bounty closes.

use crate::address::Address;
use crate::deriver::{
    client_address, client_seeds, escrow_address, escrow_seeds, pda_is, pda_is_with_bump, pda_view,
    program_address, resolves_to, resolves_with_bump, Pda, PdaView,
};
use crate::errors::{AccountError, BountyError, Error, SubmissionError, UserError};
use crate::guard::{
    check_client, check_escrow, check_owned_bounty, client_refusal, escrow_refusal,
    owned_bounty_refusal, resolve_stored_bounty, resolve_submission_of_user,
    resolve_user_of_submission, stored_bounty_pda, submission_pda_of_user, user_pda_of_submission,
};
use crate::ledger::{
    balance_of, bounty_at, client_at, committed, credited, debited, payable, submission_at, user_at,
    with_record, Account, Ledger, Record, State,
};
use crate::states::bounty::MINOR_UNITS_PER_UNIT;
use crate::states::{Bounty, Client, User};
use vstd::prelude::*;

verus! {

/// The accounts that selecting a winner names.
#[derive(Clone, Copy, Debug, PartialEq, Eq)]
pub struct SelectSubmission {
    /// Wallet of the client, who signs.
    pub authority: Address,
    /// The client record of `authority`.
    pub client: Address,
    /// The bounty to pay out.
    pub bounty: Address,
    /// The winning submission.
    pub submission: Address,
    /// The user record of the winner.
    pub selected_user: Address,
    /// The account that holds the reward of the bounty.
    pub escrow_account: Address,
    /// The wallet of the winner, which is paid.
    pub selected_user_wallet: Address,
}

/// The addresses derived for the accounts that selecting a winner names.
#[derive(Clone, Copy, Debug, PartialEq, Eq)]
pub struct SelectSubmissionPdas {
    pub client: Option<Pda>,
    pub bounty: Option<Pda>,
    pub submission: Option<Pda>,
    pub selected_user: Option<Pda>,
    pub escrow_account: Option<Pda>,
}

/// What can be moved out of an account that must keep `retained_minimum`.
pub open spec fn transferable(balance: u64, retained_minimum: u64) -> u64 {
    if balance >= retained_minimum {
        (balance - retained_minimum) as u64
    } else {
        0
    }
}

/// Why the submission and the winner named for a selection are refused, if
/// they are: both records exist, the submission is one to this bounty and
/// lies at the address derived for the winner and the bounty, the user
/// record lies at the address derived for the author of the submission, and
/// the wallet to be paid is the winner's.
pub open spec fn winner_refusal(
    pre: State,
    ctx: SelectSubmission,
    submission_pda: PdaView,
    user_pda: PdaView,
) -> Option<Error> {
    let submission = submission_at(pre, ctx.submission@);
    let user = user_at(pre, ctx.selected_user@);
    if submission is None {
        Some(Error::Submission(SubmissionError::SubmissionNotFound))
    } else if user is None {
        Some(Error::User(UserError::UserNotFound))
    } else if submission.unwrap().bounty_key@ != ctx.bounty@ {
        Some(Error::Submission(SubmissionError::WrongBounty))
    } else if !resolves_with_bump(submission_pda, ctx.submission@, submission.unwrap().bump) {
        Some(Error::Submission(SubmissionError::InvalidSubmission))
    } else if !resolves_to(user_pda, ctx.selected_user@) || ctx.selected_user_wallet@
        != user.unwrap().authority@ || !payable(pre, ctx.selected_user_wallet@) {
        Some(Error::User(UserError::InvalidUserAuthority))
    } else {
        None
    }
}

/// Why the accounts named for a selection are refused, if they are. The
/// checks come in this order: the signer and the client record, the bounty
/// and its owner, the submission and the winner, the escrow account.
pub open spec fn select_submission_accounts_refusal(
    pre: State,
    ctx: SelectSubmission,
    client_pda: PdaView,
    bounty_pda: PdaView,
    submission_pda: PdaView,
    user_pda: PdaView,
    escrow_pda: PdaView,
) -> Option<Error> {
    let client = client_refusal(pre, ctx.authority@, ctx.client@, client_pda);
    let bounty = owned_bounty_refusal(pre, ctx.client@, ctx.bounty@, bounty_pda);
    let winner = winner_refusal(pre, ctx, submission_pda, user_pda);
    if client is Some {
        client
    } else if bounty is Some {
        bounty
    } else if winner is Some {
        winner
    } else {
        escrow_refusal(pre, ctx.bounty@, ctx.escrow_account@, escrow_pda)
    }
}

/// Why a selection is refused, if it is. After the accounts come the state
/// of the bounty, which must be live and not yet rewarded, the author of
/// the submission, who must be the winner, and the range of the balance and
/// of the totals that would grow.
pub open spec fn select_submission_refusal(
    pre: State,
    ctx: SelectSubmission,
    client_pda: PdaView,
    bounty_pda: PdaView,
    submission_pda: PdaView,
    user_pda: PdaView,
    escrow_pda: PdaView,
    retained_minimum: u64,
) -> Option<Error> {
    let accounts = select_submission_accounts_refusal(
        pre,
        ctx,
        client_pda,
        bounty_pda,
        submission_pda,
        user_pda,
        escrow_pda,
    );
    let client = client_at(pre, ctx.client@).unwrap();
    let bounty = bounty_at(pre, ctx.bounty@).unwrap();
    let submission = submission_at(pre, ctx.submission@).unwrap();
    let user = user_at(pre, ctx.selected_user@).unwrap();
    let amount = transferable(pre[ctx.escrow_account@].lamports, retained_minimum);
    if accounts is Some {
        accounts
    } else if bounty.bounty_rewarded {
        Some(Error::Bounty(BountyError::BountyAlreadyRewarded))
    } else if !bounty.live {
        Some(Error::Bounty(BountyError::BountyNotLive))
    } else if submission.user_wallet_key@ != user.authority@ {
        Some(Error::Submission(SubmissionError::InvalidSubmission))
    } else if balance_of(pre, ctx.selected_user_wallet@) + amount > u64::MAX || user.earned
        + bounty.reward_minor_units() > u64::MAX || user.bounties_completed == u64::MAX
        || client.rewarded + bounty.reward_minor_units() > u64::MAX {
        Some(Error::Account(AccountError::ArithmeticOverflow))
    } else {
        None
    }
}

/// The accounts after a selection: what the escrow holds above
/// `retained_minimum` has moved to the winner's wallet; the winner and the
/// client are credited the nominal reward in their totals; the bounty
/// records its winner and is closed.
pub open spec fn select_submission_effect(
    pre: State,
    ctx: SelectSubmission,
    retained_minimum: u64,
) -> State {
    let client = client_at(pre, ctx.client@).unwrap();
    let bounty = bounty_at(pre, ctx.bounty@).unwrap();
    let user = user_at(pre, ctx.selected_user@).unwrap();
    let reward = bounty.reward_minor_units();
    let amount = transferable(pre[ctx.escrow_account@].lamports, retained_minimum);
    let drained = debited(pre, ctx.escrow_account@, amount);
    let paid = credited(drained, ctx.selected_user_wallet@, amount);
    let won = with_record(
        paid,
        ctx.selected_user@,
        Record::User(
            User {
                earned: (user.earned + reward) as u64,
                bounties_completed: (user.bounties_completed + 1) as u64,
                ..user
            },
        ),
    );
    let closed = with_record(
        won,
        ctx.bounty@,
        Record::Bounty(
            Bounty {
                selected_submission: ctx.submission,
                selected_user_wallet_key: user.authority,
                bounty_rewarded: true,
                live: false,
                ..bounty
            },
        ),
    );
    with_record(
        closed,
        ctx.client@,
        Record::Client(Client { rewarded: (client.rewarded + reward) as u64, ..client }),
    )
}

/// What selecting a winner does: the error of the first check that fails,
/// or the accounts after the payout.
pub open spec fn select_submission_outcome(
    pre: State,
    ctx: SelectSubmission,
    client_pda: PdaView,
    bounty_pda: PdaView,
    submission_pda: PdaView,
    user_pda: PdaView,
    escrow_pda: PdaView,
    retained_minimum: u64,
) -> Result<State, Error> {
    match select_submission_refusal(
        pre,
        ctx,
        client_pda,
        bounty_pda,
        submission_pda,
        user_pda,
        escrow_pda,
        retained_minimum,
    ) {
        Some(e) => Err(e),
        None => Ok(select_submission_effect(pre, ctx, retained_minimum)),
    }
}

/// Checks the submission and the winner named for a selection.
fn check_winner(
    ledger: &Ledger,
    ctx: &SelectSubmission,
    pdas: &SelectSubmissionPdas,
) -> (r: Option<Error>)
    requires
        ledger.wf(),
    ensures
        r == winner_refusal(
            ledger@,
            *ctx,
            pda_view(pdas.submission),
            pda_view(pdas.selected_user),
        ),
{
    let (submitted_to, submission_bump) = match ledger.submission(&ctx.submission) {
        None => {
            return Some(Error::Submission(SubmissionError::SubmissionNotFound));
        },
        Some(submission) => (submission.bounty_key, submission.bump),
    };
    let winner = match ledger.user(&ctx.selected_user) {
        None => {
            return Some(Error::User(UserError::UserNotFound));
        },
        Some(user) => user.authority,
    };
    if !submitted_to.same(&ctx.bounty) {
        Some(Error::Submission(SubmissionError::WrongBounty))
    } else if !pda_is_with_bump(&pdas.submission, &ctx.submission, submission_bump) {
        Some(Error::Submission(SubmissionError::InvalidSubmission))
    } else if !pda_is(&pdas.selected_user, &ctx.selected_user) || !ctx.selected_user_wallet.same(
        &winner,
    ) || !ledger.is_payable(&ctx.selected_user_wallet) {
        Some(Error::User(UserError::InvalidUserAuthority))
    } else {
        None
    }
}

/// Selects the winning submission, given the addresses derived for the
/// accounts named.
///
/// Either every check of `select_submission_refusal` passes and the ledger
/// changes as `select_submission_effect` says, or the error of the first
/// check that fails is returned and the ledger is unchanged.
pub fn select_submission_resolved(
    ledger: &mut Ledger,
    ctx: &SelectSubmission,
    pdas: &SelectSubmissionPdas,
    retained_minimum: u64,
) -> (r: Result<(), Error>)
    requires
        old(ledger).wf(),
    ensures
        final(ledger).wf(),
        final(ledger).program() == old(ledger).program(),
        committed(
            r,
            select_submission_outcome(
                old(ledger)@,
                *ctx,
                pda_view(pdas.client),
                pda_view(pdas.bounty),
                pda_view(pdas.submission),
                pda_view(pdas.selected_user),
                pda_view(pdas.escrow_account),
                retained_minimum,
            ),
            old(ledger)@,
            final(ledger)@,
        ),
{
    match check_client(ledger, &ctx.authority, &ctx.client, &pdas.client) {
        Some(e) => {
            return Err(e);
        },
        None => {},
    }
    match check_owned_bounty(ledger, &ctx.client, &ctx.bounty, &pdas.bounty) {
        Some(e) => {
            return Err(e);
        },
        None => {},
    }
    match check_winner(ledger, ctx, pdas) {
        Some(e) => {
            return Err(e);
        },
        None => {},
    }
    match check_escrow(ledger, &ctx.bounty, &ctx.escrow_account, &pdas.escrow_account) {
        Some(e) => {
            return Err(e);
        },
        None => {},
    }
    let bounty = ledger.bounty(&ctx.bounty).unwrap();
    if bounty.bounty_rewarded {
        return Err(Error::Bounty(BountyError::BountyAlreadyRewarded));
    }
    if !bounty.live {
        return Err(Error::Bounty(BountyError::BountyNotLive));
    }
    let reward = bounty.reward * MINOR_UNITS_PER_UNIT;
    let winner = ledger.user(&ctx.selected_user).unwrap().authority;
    if !ledger.submission(&ctx.submission).unwrap().user_wallet_key.same(&winner) {
        return Err(Error::Submission(SubmissionError::InvalidSubmission));
    }
    let held = ledger.lamports(&ctx.escrow_account);
    let amount = if held >= retained_minimum {
        held - retained_minimum
    } else {
        0
    };
    let earned = ledger.user(&ctx.selected_user).unwrap().earned;
    let completed = ledger.user(&ctx.selected_user).unwrap().bounties_completed;
    let rewarded = ledger.client(&ctx.client).unwrap().rewarded;
    if ledger.lamports(&ctx.selected_user_wallet) > u64::MAX - amount || earned > u64::MAX
        - reward || completed == u64::MAX || rewarded > u64::MAX - reward {
        return Err(Error::Account(AccountError::ArithmeticOverflow));
    }
    ledger.withdraw(&ctx.escrow_account, amount);
    let _ = ledger.deposit(&ctx.selected_user_wallet, amount);
    let ghost paid = ledger@;

    let (user_balance, mut user) = ledger.take_user(&ctx.selected_user);
    user.earned = earned + reward;
    user.bounties_completed = completed + 1;
    ledger.insert(
        ctx.selected_user,
        Account { lamports: user_balance, record: Record::User(user) },
    );
    let ghost won = ledger@;
    assert(won =~= with_record(paid, ctx.selected_user@, Record::User(user)));

    let (bounty_balance, mut bounty) = ledger.take_bounty(&ctx.bounty);
    bounty.selected_submission = ctx.submission;
    bounty.selected_user_wallet_key = winner;
    bounty.bounty_rewarded = true;
    bounty.live = false;
    ledger.insert(ctx.bounty, Account { lamports: bounty_balance, record: Record::Bounty(bounty) });
    let ghost closed = ledger@;
    assert(closed =~= with_record(won, ctx.bounty@, Record::Bounty(bounty)));

    let (client_balance, mut client) = ledger.take_client(&ctx.client);
    client.rewarded = rewarded + reward;
    ledger.insert(ctx.client, Account { lamports: client_balance, record: Record::Client(client) });
    assert(ledger@ =~= with_record(closed, ctx.client@, Record::Client(client)));
    Ok(())
}

/// The addresses derived for the accounts that a selection names, as far
/// as the records they are derived from are stored.
pub fn resolve_select_submission(
    ledger: &Ledger,
    ctx: &SelectSubmission,
) -> (r: SelectSubmissionPdas)
    requires
        ledger.wf(),
    ensures
        pda_view(r.client) == program_address(client_seeds(ctx.authority@), ledger.program()),
        pda_view(r.bounty) == stored_bounty_pda(ledger@, ledger.program(), ctx.bounty@),
        pda_view(r.submission) == submission_pda_of_user(
            ledger@,
            ledger.program(),
            ctx.selected_user@,
            ctx.bounty@,
        ),
        pda_view(r.selected_user) == user_pda_of_submission(
            ledger@,
            ledger.program(),
            ctx.submission@,
        ),
        pda_view(r.escrow_account) == program_address(
            escrow_seeds(ctx.bounty@),
            ledger.program(),
        ),
{
    let program_id = ledger.program_id();
    SelectSubmissionPdas {
        client: client_address(&program_id, &ctx.authority),
        bounty: resolve_stored_bounty(ledger, &ctx.bounty),
        submission: resolve_submission_of_user(ledger, &ctx.selected_user, &ctx.bounty),
        selected_user: resolve_user_of_submission(ledger, &ctx.submission),
        escrow_account: escrow_address(&program_id, &ctx.bounty),
    }
}

/// What selecting a winner does under `program`: its outcome for the
/// addresses that the derivation gives.
pub open spec fn select_submission_spec(
    pre: State,
    program: Seq<u8>,
    ctx: SelectSubmission,
    retained_minimum: u64,
) -> Result<State, Error> {
    select_submission_outcome(
        pre,
        ctx,
        program_address(client_seeds(ctx.authority@), program),
        stored_bounty_pda(pre, program, ctx.bounty@),
        submission_pda_of_user(
            pre,
            program,
            ctx.selected_user@,
            ctx.bounty@,
        ),
        user_pda_of_submission(pre, program, ctx.submission@),
        program_address(escrow_seeds(ctx.bounty@), program),
        retained_minimum,
    )
}

/// Selects the winning submission of a bounty and pays its author: what the
/// escrow holds above `retained_minimum` moves to the winner's wallet, and
/// the bounty closes for good.
///
/// The outcome is that of `select_submission_outcome` for the addresses
/// that the derivation gives under the ledger's program.
pub fn select_submission(
    ledger: &mut Ledger,
    ctx: &SelectSubmission,
    retained_minimum: u64,
) -> (r: Result<(), Error>)
    requires
        old(ledger).wf(),
    ensures
        final(ledger).wf(),
        final(ledger).program() == old(ledger).program(),
        committed(
            r,
            select_submission_spec(old(ledger)@, old(ledger).program(), *ctx, retained_minimum),
            old(ledger)@,
            final(ledger)@,
        ),
{
    let pdas = resolve_select_submission(ledger, ctx);
    select_submission_resolved(ledger, ctx, &pdas, retained_minimum)
}

} // verus!
