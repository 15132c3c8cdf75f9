//! Handing in work for a bounty.

use crate::address::Address;
use crate::clock::{to_unix_time, unix_time};
use crate::deriver::{
    pda_is, pda_view, program_address, resolves_to, submission_address, submission_seeds,
    user_address, user_seeds, Pda, PdaView,
};
use crate::errors::{AccountError, BountyError, Error, SubmissionError};
use crate::guard::{
    bounty_refusal, check_bounty, check_user, resolve_stored_bounty, stored_bounty_pda,
    user_refusal,
};
use crate::ledger::{bounty_at, committed, user_at, with_record, Account, Ledger, Record, State};
use crate::states::submission::{MAX_SUBMISSION_DESCRIPTION_LEN, MAX_WORK_URL_LEN};
use crate::states::text::{byte_len, stored_len};
use crate::states::{Bounty, Submission, User};
use vstd::prelude::*;

verus! {

/// The accounts that handing in work names.
#[derive(Clone, Copy, Debug, PartialEq, Eq)]
pub struct CreateSubmission {
    /// Wallet of the worker, who signs.
    pub authority: Address,
    /// The user record of `authority`.
    pub user: Address,
    /// The bounty submitted to.
    pub bounty: Address,
    /// Where the submission will be stored.
    pub submission: Address,
}

/// The addresses derived for the accounts that handing in work names.
#[derive(Clone, Copy, Debug, PartialEq, Eq)]
pub struct CreateSubmissionPdas {
    pub user: Option<Pda>,
    pub bounty: Option<Pda>,
    pub submission: Option<Pda>,
}

/// The record of a submission as it is stored.
pub open spec fn new_submission(
    ctx: CreateSubmission,
    bump: u8,
    description: String,
    work_url: String,
) -> Submission {
    Submission {
        user_wallet_key: ctx.authority,
        user_key: ctx.user,
        bounty_key: ctx.bounty,
        description,
        work_url,
        bump,
    }
}

/// Why a submission is refused, if it is. The checks come in this order:
/// the signer and the user record, the bounty, which must be live, the
/// address of the submission, which must be the one derived for the worker
/// and the bounty and must be free, the deadline, the size of the texts,
/// the counters.
pub open spec fn create_submission_refusal(
    pre: State,
    ctx: CreateSubmission,
    user_pda: PdaView,
    bounty_pda: PdaView,
    submission_pda: PdaView,
    description: Seq<char>,
    work_url: Seq<char>,
    now: i64,
) -> Option<Error> {
    let worker = user_refusal(pre, ctx.authority@, ctx.user@, user_pda);
    let stored = bounty_refusal(pre, ctx.bounty@, bounty_pda);
    let user = user_at(pre, ctx.user@).unwrap();
    let bounty = bounty_at(pre, ctx.bounty@).unwrap();
    if worker is Some {
        worker
    } else if stored is Some {
        stored
    } else if !bounty.live {
        Some(Error::Bounty(BountyError::BountyNotLive))
    } else if submission_pda is None {
        Some(Error::Account(AccountError::InvalidSeeds))
    } else if !resolves_to(submission_pda, ctx.submission@) {
        Some(Error::Submission(SubmissionError::InvalidSubmission))
    } else if pre.dom().contains(ctx.submission@) {
        Some(Error::Submission(SubmissionError::SubmissionAlreadyExists))
    } else if unix_time(now) > bounty.deadline {
        Some(Error::Bounty(BountyError::BountyDeadlinePassed))
    } else if byte_len(description) > MAX_SUBMISSION_DESCRIPTION_LEN {
        Some(Error::Submission(SubmissionError::DescriptionTooLong))
    } else if byte_len(work_url) > MAX_WORK_URL_LEN {
        Some(Error::Submission(SubmissionError::InvalidSubmissionLink))
    } else if bounty.no_of_submissions == u64::MAX || user.bounties_submitted == u64::MAX {
        Some(Error::Account(AccountError::ArithmeticOverflow))
    } else {
        None
    }
}

/// The accounts after a submission: it is stored, and the bounty and the
/// worker each count one submission more. No balance moves.
pub open spec fn create_submission_effect(
    pre: State,
    ctx: CreateSubmission,
    submission: Submission,
) -> State {
    let user = user_at(pre, ctx.user@).unwrap();
    let bounty = bounty_at(pre, ctx.bounty@).unwrap();
    let stored = pre.insert(
        ctx.submission@,
        Account { lamports: 0, record: Record::Submission(submission) },
    );
    let counted = with_record(
        stored,
        ctx.bounty@,
        Record::Bounty(
            Bounty { no_of_submissions: (bounty.no_of_submissions + 1) as u64, ..bounty },
        ),
    );
    with_record(
        counted,
        ctx.user@,
        Record::User(User { bounties_submitted: (user.bounties_submitted + 1) as u64, ..user }),
    )
}

/// What handing in work does: the error of the first check that fails, or
/// the accounts after the submission is stored.
pub open spec fn create_submission_outcome(
    pre: State,
    ctx: CreateSubmission,
    user_pda: PdaView,
    bounty_pda: PdaView,
    submission_pda: PdaView,
    description: String,
    work_url: String,
    now: i64,
) -> Result<State, Error> {
    match create_submission_refusal(
        pre,
        ctx,
        user_pda,
        bounty_pda,
        submission_pda,
        description@,
        work_url@,
        now,
    ) {
        Some(e) => Err(e),
        None => Ok(
            create_submission_effect(
                pre,
                ctx,
                new_submission(ctx, submission_pda.unwrap().1, description, work_url),
            ),
        ),
    }
}

/// Stores a submission, given the addresses derived for the accounts named.
///
/// Either every check of `create_submission_refusal` passes and the ledger
/// changes as `create_submission_effect` says, or the error of the first
/// check that fails is returned and the ledger is unchanged.
pub fn create_submission_resolved(
    ledger: &mut Ledger,
    ctx: &CreateSubmission,
    pdas: &CreateSubmissionPdas,
    description: String,
    work_url: String,
    now: i64,
) -> (r: Result<(), Error>)
    requires
        old(ledger).wf(),
    ensures
        final(ledger).wf(),
        final(ledger).program() == old(ledger).program(),
        committed(
            r,
            create_submission_outcome(
                old(ledger)@,
                *ctx,
                pda_view(pdas.user),
                pda_view(pdas.bounty),
                pda_view(pdas.submission),
                description,
                work_url,
                now,
            ),
            old(ledger)@,
            final(ledger)@,
        ),
{
    match check_user(ledger, &ctx.authority, &ctx.user, &pdas.user) {
        Some(e) => {
            return Err(e);
        },
        None => {},
    }
    match check_bounty(ledger, &ctx.bounty, &pdas.bounty) {
        Some(e) => {
            return Err(e);
        },
        None => {},
    }
    let bounty = ledger.bounty(&ctx.bounty).unwrap();
    let deadline = bounty.deadline;
    let count = bounty.no_of_submissions;
    if !bounty.live {
        return Err(Error::Bounty(BountyError::BountyNotLive));
    }
    if pdas.submission.is_none() {
        return Err(Error::Account(AccountError::InvalidSeeds));
    }
    if !pda_is(&pdas.submission, &ctx.submission) {
        return Err(Error::Submission(SubmissionError::InvalidSubmission));
    }
    if ledger.contains(&ctx.submission) {
        return Err(Error::Submission(SubmissionError::SubmissionAlreadyExists));
    }
    if to_unix_time(now) > deadline {
        return Err(Error::Bounty(BountyError::BountyDeadlinePassed));
    }
    if stored_len(&description) > MAX_SUBMISSION_DESCRIPTION_LEN {
        return Err(Error::Submission(SubmissionError::DescriptionTooLong));
    }
    if stored_len(&work_url) > MAX_WORK_URL_LEN {
        return Err(Error::Submission(SubmissionError::InvalidSubmissionLink));
    }
    let submitted = ledger.user(&ctx.user).unwrap().bounties_submitted;
    if count == u64::MAX || submitted == u64::MAX {
        return Err(Error::Account(AccountError::ArithmeticOverflow));
    }
    let submission = Submission {
        user_wallet_key: ctx.authority,
        user_key: ctx.user,
        bounty_key: ctx.bounty,
        description,
        work_url,
        bump: pdas.submission.unwrap().bump,
    };
    ledger.insert(ctx.submission, Account { lamports: 0, record: Record::Submission(submission) });
    let ghost stored = ledger@;

    let (bounty_balance, mut bounty) = ledger.take_bounty(&ctx.bounty);
    bounty.no_of_submissions = count + 1;
    ledger.insert(ctx.bounty, Account { lamports: bounty_balance, record: Record::Bounty(bounty) });
    let ghost counted = ledger@;
    assert(counted =~= with_record(stored, ctx.bounty@, Record::Bounty(bounty)));

    let (user_balance, mut user) = ledger.take_user(&ctx.user);
    user.bounties_submitted = submitted + 1;
    ledger.insert(ctx.user, Account { lamports: user_balance, record: Record::User(user) });
    assert(ledger@ =~= with_record(counted, ctx.user@, Record::User(user)));
    Ok(())
}

/// The addresses derived for the accounts that handing in work names.
pub fn resolve_create_submission(
    ledger: &Ledger,
    ctx: &CreateSubmission,
) -> (r: CreateSubmissionPdas)
    requires
        ledger.wf(),
    ensures
        pda_view(r.user) == program_address(user_seeds(ctx.authority@), ledger.program()),
        pda_view(r.bounty) == stored_bounty_pda(ledger@, ledger.program(), ctx.bounty@),
        pda_view(r.submission) == program_address(
            submission_seeds(ctx.authority@, ctx.bounty@),
            ledger.program(),
        ),
{
    let program_id = ledger.program_id();
    CreateSubmissionPdas {
        user: user_address(&program_id, &ctx.authority),
        bounty: resolve_stored_bounty(ledger, &ctx.bounty),
        submission: submission_address(&program_id, &ctx.authority, &ctx.bounty),
    }
}

/// What handing in work does under `program`: its outcome for the
/// addresses that the derivation gives.
pub open spec fn create_submission_spec(
    pre: State,
    program: Seq<u8>,
    ctx: CreateSubmission,
    description: String,
    work_url: String,
    now: i64,
) -> Result<State, Error> {
    create_submission_outcome(
        pre,
        ctx,
        program_address(user_seeds(ctx.authority@), program),
        stored_bounty_pda(pre, program, ctx.bounty@),
        program_address(
            submission_seeds(ctx.authority@, ctx.bounty@),
            program,
        ),
        description,
        work_url,
        now,
    )
}

/// Hands in work for a live bounty whose deadline has not passed. A worker
/// has one submission per bounty: its address follows from the two.
///
/// The outcome is that of `create_submission_outcome` for the addresses
/// that the derivation gives under the ledger's program.
pub fn create_submission(
    ledger: &mut Ledger,
    ctx: &CreateSubmission,
    description: String,
    work_url: String,
    now: i64,
) -> (r: Result<(), Error>)
    requires
        old(ledger).wf(),
    ensures
        final(ledger).wf(),
        final(ledger).program() == old(ledger).program(),
        committed(
            r,
            create_submission_spec(
                old(ledger)@,
                old(ledger).program(),
                *ctx,
                description,
                work_url,
                now,
            ),
            old(ledger)@,
            final(ledger)@,
        ),
{
    let pdas = resolve_create_submission(ledger, ctx);
    create_submission_resolved(ledger, ctx, &pdas, description, work_url, now)
}

} // verus!
