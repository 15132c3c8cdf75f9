//! What holds of the operations, whatever the accounts and arguments.
//!
//! Each statement is about the outcome functions that the contracts of the
//! operations are written in, so it holds of every run of the operations.

use crate::address::lemma_zero_key;
use crate::clock::unix_time;
use crate::deriver::PdaView;
use crate::errors::{BountyError, Error, SubmissionError};
use crate::instructions::bounty::create_bounty::{
    create_bounty_outcome, create_bounty_spec, new_bounty, CreateBounty,
};
use crate::instructions::bounty::create_submission::{
    create_submission_outcome, create_submission_spec, CreateSubmission,
};
use crate::instructions::bounty::delete_bounty::{
    delete_bounty_accounts_refusal, delete_bounty_outcome, delete_bounty_spec, DeleteBounty,
};
use crate::instructions::bounty::select_submission::{
    select_submission_outcome, select_submission_spec, transferable, SelectSubmission,
};
use crate::instructions::bounty::update_bounty::{
    update_bounty_accounts_refusal, update_bounty_outcome, update_bounty_spec, UpdateBounty,
};
use crate::ledger::{
    balance_of, bounty_at, client_at, escrow_at, state_wf, submission_at, user_at, Ledger, State,
};
use crate::states::bounty::{
    MAX_DESCRIPTION_LEN, MAX_SKILLS, MAX_SKILL_LEN, MAX_TITLE_LEN, MINOR_UNITS_PER_UNIT,
};
use crate::states::text::{byte_len, list_fits};
use crate::states::Bounty;
use vstd::prelude::*;

verus! {

/// A bounty that has been rewarded is closed: this holds of every bounty in
/// every ledger.
pub proof fn rewarded_bounty_is_closed(ledger: &Ledger, bounty: Seq<u8>)
    requires
        ledger.wf(),
        bounty_at(ledger@, bounty) is Some,
    ensures
        bounty_at(ledger@, bounty).unwrap().bounty_rewarded ==> !bounty_at(
            ledger@,
            bounty,
        ).unwrap().live,
{
    ledger.lemma_records_wf();
}

/// A selection that succeeds finds the bounty live and not yet rewarded, and
/// leaves it rewarded and closed, with the winner recorded.
pub proof fn selection_closes_the_bounty(
    pre: State,
    ctx: SelectSubmission,
    client_pda: PdaView,
    bounty_pda: PdaView,
    submission_pda: PdaView,
    user_pda: PdaView,
    escrow_pda: PdaView,
    retained_minimum: u64,
)
    requires
        select_submission_outcome(
            pre,
            ctx,
            client_pda,
            bounty_pda,
            submission_pda,
            user_pda,
            escrow_pda,
            retained_minimum,
        ) is Ok,
    ensures
        ({
            let post = select_submission_outcome(
                pre,
                ctx,
                client_pda,
                bounty_pda,
                submission_pda,
                user_pda,
                escrow_pda,
                retained_minimum,
            ).unwrap();
            let before = bounty_at(pre, ctx.bounty@).unwrap();
            let after = bounty_at(post, ctx.bounty@).unwrap();
            &&& bounty_at(pre, ctx.bounty@) is Some
            &&& before.live && !before.bounty_rewarded
            &&& bounty_at(post, ctx.bounty@) is Some
            &&& !after.live && after.bounty_rewarded
            &&& after.selected_submission == ctx.submission
            &&& after.selected_user_wallet_key@ == ctx.selected_user_wallet@
        }),
{
}

/// No selection succeeds on a bounty that has been rewarded, whoever is
/// named as the winner.
pub proof fn rewarded_bounty_is_not_paid_again(
    pre: State,
    ctx: SelectSubmission,
    client_pda: PdaView,
    bounty_pda: PdaView,
    submission_pda: PdaView,
    user_pda: PdaView,
    escrow_pda: PdaView,
    retained_minimum: u64,
)
    requires
        bounty_at(pre, ctx.bounty@) is Some,
        bounty_at(pre, ctx.bounty@).unwrap().bounty_rewarded,
    ensures
        select_submission_outcome(
            pre,
            ctx,
            client_pda,
            bounty_pda,
            submission_pda,
            user_pda,
            escrow_pda,
            retained_minimum,
        ) is Err,
{
}

/// After a selection has succeeded, the same selection is refused because
/// the bounty has already been rewarded.
pub proof fn second_selection_is_refused(
    pre: State,
    program: Seq<u8>,
    ctx: SelectSubmission,
    first_minimum: u64,
    second_minimum: u64,
)
    requires
        select_submission_spec(pre, program, ctx, first_minimum) is Ok,
    ensures
        select_submission_spec(
            select_submission_spec(pre, program, ctx, first_minimum).unwrap(),
            program,
            ctx,
            second_minimum,
        ) == Err::<State, Error>(Error::Bounty(BountyError::BountyAlreadyRewarded)),
{
}

/// A selection that succeeds moves what the escrow holds above the retained
/// minimum into the winner's wallet, and credits the nominal reward, in
/// minor units, to the winner's earnings and to the client's total.
pub proof fn selection_pays_the_winner(
    pre: State,
    ctx: SelectSubmission,
    client_pda: PdaView,
    bounty_pda: PdaView,
    submission_pda: PdaView,
    user_pda: PdaView,
    escrow_pda: PdaView,
    retained_minimum: u64,
)
    requires
        select_submission_outcome(
            pre,
            ctx,
            client_pda,
            bounty_pda,
            submission_pda,
            user_pda,
            escrow_pda,
            retained_minimum,
        ) is Ok,
    ensures
        ({
            let post = select_submission_outcome(
                pre,
                ctx,
                client_pda,
                bounty_pda,
                submission_pda,
                user_pda,
                escrow_pda,
                retained_minimum,
            ).unwrap();
            let reward = bounty_at(pre, ctx.bounty@).unwrap().reward * MINOR_UNITS_PER_UNIT;
            let held = balance_of(pre, ctx.escrow_account@);
            let moved = transferable(pre[ctx.escrow_account@].lamports, retained_minimum);
            &&& balance_of(post, ctx.escrow_account@) == if held >= retained_minimum {
                retained_minimum as nat
            } else {
                held
            }
            &&& balance_of(post, ctx.selected_user_wallet@) == balance_of(
                pre,
                ctx.selected_user_wallet@,
            ) + moved
            &&& user_at(post, ctx.selected_user@) is Some
            &&& user_at(post, ctx.selected_user@).unwrap().earned == user_at(
                pre,
                ctx.selected_user@,
            ).unwrap().earned + reward
            &&& user_at(post, ctx.selected_user@).unwrap().bounties_completed == user_at(
                pre,
                ctx.selected_user@,
            ).unwrap().bounties_completed + 1
            &&& client_at(post, ctx.client@) is Some
            &&& client_at(post, ctx.client@).unwrap().rewarded == client_at(
                pre,
                ctx.client@,
            ).unwrap().rewarded + reward
        }),
{
}

/// Right after a bounty is posted with a reward of `reward` whole units, its
/// escrow account holds exactly that reward in minor units, the creator's
/// balance is lower by exactly that amount, and the bounty is stored live,
/// not rewarded and without submissions.
pub proof fn posting_locks_the_reward(
    pre: State,
    ctx: CreateBounty,
    client_pda: PdaView,
    bounty_pda: PdaView,
    escrow_pda: PdaView,
    title: String,
    description: String,
    reward: u64,
    deadline: u64,
    required_skills: Vec<String>,
    now: i64,
)
    requires
        create_bounty_outcome(
            pre,
            ctx,
            client_pda,
            bounty_pda,
            escrow_pda,
            title,
            description,
            reward,
            deadline,
            required_skills,
            now,
        ) is Ok,
    ensures
        ({
            let post = create_bounty_outcome(
                pre,
                ctx,
                client_pda,
                bounty_pda,
                escrow_pda,
                title,
                description,
                reward,
                deadline,
                required_skills,
                now,
            ).unwrap();
            &&& escrow_at(post, ctx.escrow_account@)
            &&& balance_of(post, ctx.escrow_account@) == reward * MINOR_UNITS_PER_UNIT
            &&& balance_of(post, ctx.authority@) + reward * MINOR_UNITS_PER_UNIT == balance_of(
                pre,
                ctx.authority@,
            )
            &&& bounty_at(post, ctx.bounty@) == Some(
                new_bounty(
                    ctx,
                    bounty_pda.unwrap().1,
                    title,
                    description,
                    reward,
                    deadline,
                    required_skills,
                    now,
                ),
            )
            &&& client_at(post, ctx.client@) is Some
            &&& client_at(post, ctx.client@).unwrap().bounties_posted == client_at(
                pre,
                ctx.client@,
            ).unwrap().bounties_posted + 1
        }),
{
}

/// A cancellation that succeeds removes the bounty and its escrow account,
/// and raises the creator's balance by the whole balance of the escrow and
/// by what the bounty's own account held.
pub proof fn cancellation_refunds_the_escrow(
    pre: State,
    ctx: DeleteBounty,
    client_pda: PdaView,
    bounty_pda: PdaView,
    escrow_pda: PdaView,
)
    requires
        delete_bounty_outcome(pre, ctx, client_pda, bounty_pda, escrow_pda) is Ok,
    ensures
        ({
            let post = delete_bounty_outcome(pre, ctx, client_pda, bounty_pda, escrow_pda).unwrap();
            &&& !post.dom().contains(ctx.bounty@)
            &&& !post.dom().contains(ctx.escrow_account@)
            &&& balance_of(post, ctx.authority@) == balance_of(pre, ctx.authority@) + balance_of(
                pre,
                ctx.escrow_account@,
            ) + balance_of(pre, ctx.bounty@)
            &&& client_at(post, ctx.client@) is Some
            &&& client_at(post, ctx.client@).unwrap().bounties_posted + 1 == client_at(
                pre,
                ctx.client@,
            ).unwrap().bounties_posted
        }),
{
}

/// Once a bounty has been cancelled, its creator can post a bounty under the
/// same title again, at the same addresses: with a positive reward that the
/// wallet covers and texts that fit, the posting succeeds.
pub proof fn cancelled_title_can_be_posted_again(
    pre: State,
    program: Seq<u8>,
    ctx: DeleteBounty,
    again: CreateBounty,
    title: String,
    description: String,
    reward: u64,
    deadline: u64,
    required_skills: Vec<String>,
    now: i64,
)
    requires
        delete_bounty_spec(pre, program, ctx, title@) is Ok,
        again.authority == ctx.authority,
        again.client == ctx.client,
        again.bounty == ctx.bounty,
        again.escrow_account == ctx.escrow_account,
        reward > 0,
        balance_of(delete_bounty_spec(pre, program, ctx, title@).unwrap(), ctx.authority@)
            >= reward * MINOR_UNITS_PER_UNIT,
        byte_len(title@) <= MAX_TITLE_LEN,
        byte_len(description@) <= MAX_DESCRIPTION_LEN,
        list_fits(required_skills@, MAX_SKILLS as nat, MAX_SKILL_LEN as nat),
    ensures
        create_bounty_spec(
            delete_bounty_spec(pre, program, ctx, title@).unwrap(),
            program,
            again,
            title,
            description,
            reward,
            deadline,
            required_skills,
            now,
        ) is Ok,
{
}

/// A submission handed in after the deadline of the bounty is refused.
pub proof fn late_submission_is_refused(
    pre: State,
    ctx: CreateSubmission,
    user_pda: PdaView,
    bounty_pda: PdaView,
    submission_pda: PdaView,
    description: String,
    work_url: String,
    now: i64,
)
    requires
        bounty_at(pre, ctx.bounty@) is Some,
        unix_time(now) > bounty_at(pre, ctx.bounty@).unwrap().deadline,
    ensures
        create_submission_outcome(
            pre,
            ctx,
            user_pda,
            bounty_pda,
            submission_pda,
            description,
            work_url,
            now,
        ) is Err,
{
}

/// A submission that is accepted is stored at its address and counted once
/// by the bounty, which stays live.
pub proof fn accepted_submission_is_counted(
    pre: State,
    ctx: CreateSubmission,
    user_pda: PdaView,
    bounty_pda: PdaView,
    submission_pda: PdaView,
    description: String,
    work_url: String,
    now: i64,
)
    requires
        create_submission_outcome(
            pre,
            ctx,
            user_pda,
            bounty_pda,
            submission_pda,
            description,
            work_url,
            now,
        ) is Ok,
    ensures
        ({
            let post = create_submission_outcome(
                pre,
                ctx,
                user_pda,
                bounty_pda,
                submission_pda,
                description,
                work_url,
                now,
            ).unwrap();
            &&& !pre.dom().contains(ctx.submission@)
            &&& submission_at(post, ctx.submission@) is Some
            &&& bounty_at(post, ctx.bounty@) is Some
            &&& bounty_at(post, ctx.bounty@).unwrap().live
            &&& bounty_at(post, ctx.bounty@).unwrap().no_of_submissions == bounty_at(
                pre,
                ctx.bounty@,
            ).unwrap().no_of_submissions + 1
            &&& forall|a: Seq<u8>| #[trigger]
                post.dom().contains(a) ==> a == ctx.submission@ || pre.dom().contains(a)
        }),
{
}

/// A worker has one submission per bounty: after one has been accepted, a
/// second one from the same worker to the same bounty is refused because
/// its address is taken.
pub proof fn second_submission_is_refused(
    pre: State,
    program: Seq<u8>,
    ctx: CreateSubmission,
    description: String,
    work_url: String,
    now: i64,
    other_description: String,
    other_work_url: String,
    later: i64,
)
    requires
        create_submission_spec(pre, program, ctx, description, work_url, now) is Ok,
    ensures
        create_submission_spec(
            create_submission_spec(pre, program, ctx, description, work_url, now).unwrap(),
            program,
            ctx,
            other_description,
            other_work_url,
            later,
        ) == Err::<State, Error>(Error::Submission(SubmissionError::SubmissionAlreadyExists)),
{
}

/// A bounty that has a submission cannot be edited: the edit is refused,
/// and, where the accounts named are those of a live bounty, for the reason
/// that it has submissions.
pub proof fn bounty_with_submissions_is_not_edited(
    pre: State,
    ctx: UpdateBounty,
    client_pda: PdaView,
    bounty_pda: PdaView,
    description: String,
    deadline: u64,
)
    requires
        bounty_at(pre, ctx.bounty@) is Some,
        bounty_at(pre, ctx.bounty@).unwrap().no_of_submissions > 0,
    ensures
        update_bounty_outcome(pre, ctx, client_pda, bounty_pda, description, deadline) is Err,
        update_bounty_accounts_refusal(pre, ctx, client_pda, bounty_pda) is None && bounty_at(
            pre,
            ctx.bounty@,
        ).unwrap().live ==> update_bounty_outcome(
            pre,
            ctx,
            client_pda,
            bounty_pda,
            description,
            deadline,
        ) == Err::<State, Error>(Error::Bounty(BountyError::CannotUpdateWithSubmissions)),
{
}

/// A bounty that has a submission cannot be cancelled: the cancellation is
/// refused, and, where the accounts named are those of a live bounty, for
/// the reason that it has submissions.
pub proof fn bounty_with_submissions_is_not_cancelled(
    pre: State,
    ctx: DeleteBounty,
    client_pda: PdaView,
    bounty_pda: PdaView,
    escrow_pda: PdaView,
)
    requires
        bounty_at(pre, ctx.bounty@) is Some,
        bounty_at(pre, ctx.bounty@).unwrap().no_of_submissions > 0,
    ensures
        delete_bounty_outcome(pre, ctx, client_pda, bounty_pda, escrow_pda) is Err,
        delete_bounty_accounts_refusal(pre, ctx, client_pda, bounty_pda, escrow_pda) is None
            && bounty_at(pre, ctx.bounty@).unwrap().live ==> delete_bounty_outcome(
            pre,
            ctx,
            client_pda,
            bounty_pda,
            escrow_pda,
        ) == Err::<State, Error>(Error::Bounty(BountyError::CannotDeleteWithSubmissions)),
{
}

/// After a submission to a bounty has been accepted, an edit of that bounty
/// that would have been accepted before is refused because the bounty has
/// submissions.
pub proof fn edit_after_submission_is_refused(
    pre: State,
    program: Seq<u8>,
    submit: CreateSubmission,
    description: String,
    work_url: String,
    now: i64,
    edit: UpdateBounty,
    title: Seq<char>,
    new_description: String,
    new_deadline: u64,
)
    requires
        create_submission_spec(pre, program, submit, description, work_url, now) is Ok,
        update_bounty_spec(pre, program, edit, title, new_description, new_deadline) is Ok,
        edit.bounty == submit.bounty,
    ensures
        update_bounty_spec(
            create_submission_spec(pre, program, submit, description, work_url, now).unwrap(),
            program,
            edit,
            title,
            new_description,
            new_deadline,
        ) == Err::<State, Error>(Error::Bounty(BountyError::CannotUpdateWithSubmissions)),
{
}

/// After a submission to a bounty has been accepted, a cancellation of that
/// bounty that would have been accepted before is refused because the
/// bounty has submissions.
pub proof fn cancellation_after_submission_is_refused(
    pre: State,
    program: Seq<u8>,
    submit: CreateSubmission,
    description: String,
    work_url: String,
    now: i64,
    cancel: DeleteBounty,
    title: Seq<char>,
)
    requires
        create_submission_spec(pre, program, submit, description, work_url, now) is Ok,
        delete_bounty_spec(pre, program, cancel, title) is Ok,
        cancel.bounty == submit.bounty,
    ensures
        delete_bounty_spec(
            create_submission_spec(pre, program, submit, description, work_url, now).unwrap(),
            program,
            cancel,
            title,
        ) == Err::<State, Error>(Error::Bounty(BountyError::CannotDeleteWithSubmissions)),
{
}

/// A bounty whose title takes more than 32 bytes is not posted, whatever
/// address is derived for it.
pub proof fn oversized_title_is_refused(
    pre: State,
    ctx: CreateBounty,
    client_pda: PdaView,
    bounty_pda: PdaView,
    escrow_pda: PdaView,
    title: String,
    description: String,
    reward: u64,
    deadline: u64,
    required_skills: Vec<String>,
    now: i64,
)
    requires
        byte_len(title@) > MAX_TITLE_LEN,
    ensures
        create_bounty_outcome(
            pre,
            ctx,
            client_pda,
            bounty_pda,
            escrow_pda,
            title,
            description,
            reward,
            deadline,
            required_skills,
            now,
        ) is Err,
{
}

/// Posting a bounty keeps the invariants of the records.
pub proof fn posting_keeps_the_invariants(
    pre: State,
    ctx: CreateBounty,
    client_pda: PdaView,
    bounty_pda: PdaView,
    escrow_pda: PdaView,
    title: String,
    description: String,
    reward: u64,
    deadline: u64,
    required_skills: Vec<String>,
    now: i64,
)
    requires
        state_wf(pre),
        create_bounty_outcome(
            pre,
            ctx,
            client_pda,
            bounty_pda,
            escrow_pda,
            title,
            description,
            reward,
            deadline,
            required_skills,
            now,
        ) is Ok,
    ensures
        state_wf(
            create_bounty_outcome(
                pre,
                ctx,
                client_pda,
                bounty_pda,
                escrow_pda,
                title,
                description,
                reward,
                deadline,
                required_skills,
                now,
            ).unwrap(),
        ),
{
    lemma_zero_key();
}

/// Accepting a submission keeps the invariants of the records.
pub proof fn submission_keeps_the_invariants(
    pre: State,
    ctx: CreateSubmission,
    user_pda: PdaView,
    bounty_pda: PdaView,
    submission_pda: PdaView,
    description: String,
    work_url: String,
    now: i64,
)
    requires
        state_wf(pre),
        create_submission_outcome(
            pre,
            ctx,
            user_pda,
            bounty_pda,
            submission_pda,
            description,
            work_url,
            now,
        ) is Ok,
    ensures
        state_wf(
            create_submission_outcome(
                pre,
                ctx,
                user_pda,
                bounty_pda,
                submission_pda,
                description,
                work_url,
                now,
            ).unwrap(),
        ),
{
}

/// Editing a bounty keeps the invariants of the records.
pub proof fn edit_keeps_the_invariants(
    pre: State,
    ctx: UpdateBounty,
    client_pda: PdaView,
    bounty_pda: PdaView,
    description: String,
    deadline: u64,
)
    requires
        state_wf(pre),
        update_bounty_outcome(pre, ctx, client_pda, bounty_pda, description, deadline) is Ok,
    ensures
        state_wf(
            update_bounty_outcome(pre, ctx, client_pda, bounty_pda, description, deadline).unwrap(),
        ),
{
}

/// Cancelling a bounty keeps the invariants of the records.
pub proof fn cancellation_keeps_the_invariants(
    pre: State,
    ctx: DeleteBounty,
    client_pda: PdaView,
    bounty_pda: PdaView,
    escrow_pda: PdaView,
)
    requires
        state_wf(pre),
        delete_bounty_outcome(pre, ctx, client_pda, bounty_pda, escrow_pda) is Ok,
    ensures
        state_wf(delete_bounty_outcome(pre, ctx, client_pda, bounty_pda, escrow_pda).unwrap()),
{
}

/// Selecting a winner keeps the invariants of the records: the bounty that
/// becomes rewarded is closed in the same step.
pub proof fn selection_keeps_the_invariants(
    pre: State,
    ctx: SelectSubmission,
    client_pda: PdaView,
    bounty_pda: PdaView,
    submission_pda: PdaView,
    user_pda: PdaView,
    escrow_pda: PdaView,
    retained_minimum: u64,
)
    requires
        state_wf(pre),
        select_submission_outcome(
            pre,
            ctx,
            client_pda,
            bounty_pda,
            submission_pda,
            user_pda,
            escrow_pda,
            retained_minimum,
        ) is Ok,
    ensures
        state_wf(
            select_submission_outcome(
                pre,
                ctx,
                client_pda,
                bounty_pda,
                submission_pda,
                user_pda,
                escrow_pda,
                retained_minimum,
            ).unwrap(),
        ),
{
}

/// Whether the account at `a`, or its absence, is the same in both states.
pub open spec fn untouched(pre: State, post: State, a: Seq<u8>) -> bool {
    &&& pre.dom().contains(a) == post.dom().contains(a)
    &&& pre.dom().contains(a) ==> pre[a] == post[a]
}

/// Posting a bounty moves value and makes none: what the signer's wallet
/// and the escrow account hold together is what the wallet held before, the
/// new bounty's account holds nothing, and every account that the
/// operation does not name is left as it was.
pub proof fn posting_conserves_value(
    pre: State,
    ctx: CreateBounty,
    client_pda: PdaView,
    bounty_pda: PdaView,
    escrow_pda: PdaView,
    title: String,
    description: String,
    reward: u64,
    deadline: u64,
    required_skills: Vec<String>,
    now: i64,
)
    requires
        create_bounty_outcome(
            pre,
            ctx,
            client_pda,
            bounty_pda,
            escrow_pda,
            title,
            description,
            reward,
            deadline,
            required_skills,
            now,
        ) is Ok,
    ensures
        ({
            let post = create_bounty_outcome(
                pre,
                ctx,
                client_pda,
                bounty_pda,
                escrow_pda,
                title,
                description,
                reward,
                deadline,
                required_skills,
                now,
            ).unwrap();
            &&& balance_of(post, ctx.authority@) + balance_of(post, ctx.escrow_account@)
                == balance_of(pre, ctx.authority@)
            &&& balance_of(post, ctx.bounty@) == 0
            &&& balance_of(post, ctx.client@) == balance_of(pre, ctx.client@)
            &&& forall|a: Seq<u8>|
                a != ctx.authority@ && a != ctx.client@ && a != ctx.bounty@ && a
                    != ctx.escrow_account@ ==> #[trigger] untouched(pre, post, a)
        }),
{
}

/// Accepting a submission moves no value: every balance is what it was, and
/// every account that the operation does not name is left as it was.
pub proof fn submission_moves_no_value(
    pre: State,
    ctx: CreateSubmission,
    user_pda: PdaView,
    bounty_pda: PdaView,
    submission_pda: PdaView,
    description: String,
    work_url: String,
    now: i64,
)
    requires
        create_submission_outcome(
            pre,
            ctx,
            user_pda,
            bounty_pda,
            submission_pda,
            description,
            work_url,
            now,
        ) is Ok,
    ensures
        ({
            let post = create_submission_outcome(
                pre,
                ctx,
                user_pda,
                bounty_pda,
                submission_pda,
                description,
                work_url,
                now,
            ).unwrap();
            &&& forall|a: Seq<u8>| #[trigger] balance_of(post, a) == balance_of(pre, a)
            &&& forall|a: Seq<u8>|
                a != ctx.user@ && a != ctx.bounty@ && a != ctx.submission@ ==> #[trigger] untouched(
                    pre,
                    post,
                    a,
                )
        }),
{
}

/// Editing a bounty, which is live and has no submissions, changes its
/// description and deadline and nothing else: every other field of the
/// bounty, every balance and every other account is what it was.
pub proof fn edit_changes_description_and_deadline_only(
    pre: State,
    ctx: UpdateBounty,
    client_pda: PdaView,
    bounty_pda: PdaView,
    description: String,
    deadline: u64,
)
    requires
        update_bounty_outcome(pre, ctx, client_pda, bounty_pda, description, deadline) is Ok,
    ensures
        ({
            let post = update_bounty_outcome(
                pre,
                ctx,
                client_pda,
                bounty_pda,
                description,
                deadline,
            ).unwrap();
            let before = bounty_at(pre, ctx.bounty@).unwrap();
            let after = bounty_at(post, ctx.bounty@).unwrap();
            &&& bounty_at(post, ctx.bounty@) is Some
            &&& after == (Bounty { description, deadline, ..before })
            &&& before.live && before.no_of_submissions == 0
            &&& forall|a: Seq<u8>| #[trigger] balance_of(post, a) == balance_of(pre, a)
            &&& forall|a: Seq<u8>| a != ctx.bounty@ ==> #[trigger] untouched(pre, post, a)
        }),
{
}

/// Cancelling a bounty moves value and loses none: every account that the
/// operation does not name is left as it was, and what the two closed
/// accounts held is in the signer's wallet.
pub proof fn cancellation_conserves_value(
    pre: State,
    ctx: DeleteBounty,
    client_pda: PdaView,
    bounty_pda: PdaView,
    escrow_pda: PdaView,
)
    requires
        delete_bounty_outcome(pre, ctx, client_pda, bounty_pda, escrow_pda) is Ok,
    ensures
        ({
            let post = delete_bounty_outcome(pre, ctx, client_pda, bounty_pda, escrow_pda).unwrap();
            &&& balance_of(post, ctx.authority@) + balance_of(post, ctx.escrow_account@)
                + balance_of(post, ctx.bounty@) == balance_of(pre, ctx.authority@) + balance_of(
                pre,
                ctx.escrow_account@,
            ) + balance_of(pre, ctx.bounty@)
            &&& balance_of(post, ctx.client@) == balance_of(pre, ctx.client@)
            &&& forall|a: Seq<u8>|
                a != ctx.authority@ && a != ctx.client@ && a != ctx.bounty@ && a
                    != ctx.escrow_account@ ==> #[trigger] untouched(pre, post, a)
        }),
{
}

/// Selecting a winner moves value and makes none: what the escrow account
/// and the winner's wallet hold together is what they held before, and
/// every account that the operation does not name is left as it was.
pub proof fn selection_conserves_value(
    pre: State,
    ctx: SelectSubmission,
    client_pda: PdaView,
    bounty_pda: PdaView,
    submission_pda: PdaView,
    user_pda: PdaView,
    escrow_pda: PdaView,
    retained_minimum: u64,
)
    requires
        select_submission_outcome(
            pre,
            ctx,
            client_pda,
            bounty_pda,
            submission_pda,
            user_pda,
            escrow_pda,
            retained_minimum,
        ) is Ok,
    ensures
        ({
            let post = select_submission_outcome(
                pre,
                ctx,
                client_pda,
                bounty_pda,
                submission_pda,
                user_pda,
                escrow_pda,
                retained_minimum,
            ).unwrap();
            &&& balance_of(post, ctx.escrow_account@) + balance_of(post, ctx.selected_user_wallet@)
                == balance_of(pre, ctx.escrow_account@) + balance_of(
                pre,
                ctx.selected_user_wallet@,
            )
            &&& balance_of(post, ctx.client@) == balance_of(pre, ctx.client@)
            &&& balance_of(post, ctx.bounty@) == balance_of(pre, ctx.bounty@)
            &&& balance_of(post, ctx.selected_user@) == balance_of(pre, ctx.selected_user@)
            &&& untouched(pre, post, ctx.submission@)
            &&& forall|a: Seq<u8>|
                a != ctx.client@ && a != ctx.bounty@ && a != ctx.selected_user@ && a
                    != ctx.escrow_account@ && a != ctx.selected_user_wallet@
                    ==> #[trigger] untouched(pre, post, a)
        }),
{
}

} // verus!
