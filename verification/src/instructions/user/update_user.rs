//! Editing the profile of a worker.

use crate::address::Address;
use crate::deriver::{pda_view, program_address, user_address, user_seeds, Pda, PdaView};
use crate::errors::{Error, UserError};
use crate::guard::{check_user, user_refusal};
use crate::instructions::avatar::{avatar_of, process_avatar};
use crate::instructions::user::create_user::{MAX_BIO_LEN, MAX_NAME_LEN};
use crate::ledger::{user_at, Account, Ledger, Record, State};
use crate::states::text::{byte_len, stored_len};
use crate::states::User;
use vstd::prelude::*;

verus! {

/// The accounts that editing a worker profile names.
#[derive(Clone, Copy, Debug, PartialEq, Eq)]
pub struct UpdateUser {
    /// Wallet of the worker, who signs.
    pub authority: Address,
    /// The user record of `authority`.
    pub user: Address,
}

/// Why an edit of a worker profile is refused, if it is. The checks come in
/// this order: the signer, the record, the texts.
pub open spec fn update_user_refusal(
    pre: State,
    ctx: UpdateUser,
    user_pda: PdaView,
    name: Seq<char>,
    email: Seq<char>,
    bio: Seq<char>,
) -> Option<Error> {
    let signer = user_refusal(pre, ctx.authority@, ctx.user@, user_pda);
    if signer is Some {
        signer
    } else if name.len() == 0 {
        Some(Error::User(UserError::InvalidNameFormat))
    } else if email.len() == 0 {
        Some(Error::User(UserError::InvalidEmailFormat))
    } else if byte_len(name) > MAX_NAME_LEN {
        Some(Error::User(UserError::InvalidNameFormat))
    } else if byte_len(bio) > MAX_BIO_LEN {
        Some(Error::User(UserError::InvalidBioFormat))
    } else {
        None
    }
}

/// Whether `after` is `before` with the profile texts and skills replaced
/// and the avatar text made anew; the totals and the date of joining stay.
pub open spec fn is_edited_user(
    before: User,
    after: User,
    name: Seq<char>,
    email: Seq<char>,
    bio: Seq<char>,
    skills: Vec<String>,
) -> bool {
    &&& after.authority == before.authority
    &&& after.name@ == name
    &&& after.email@ == email
    &&& after.avatar@ == avatar_of(name)
    &&& after.bio@ == bio
    &&& after.skills == skills
    &&& after.joined_at == before.joined_at
    &&& after.earned == before.earned
    &&& after.bounties_submitted == before.bounties_submitted
    &&& after.bounties_completed == before.bounties_completed
    &&& after.bump == before.bump
}

/// Whether `post` is `pre` with the user record at the address named
/// edited, its balance kept.
pub open spec fn user_edited(
    pre: State,
    post: State,
    ctx: UpdateUser,
    name: Seq<char>,
    email: Seq<char>,
    bio: Seq<char>,
    skills: Vec<String>,
) -> bool {
    &&& post.dom().contains(ctx.user@)
    &&& post == pre.insert(ctx.user@, post[ctx.user@])
    &&& post[ctx.user@].lamports == pre[ctx.user@].lamports
    &&& match post[ctx.user@].record {
        Record::User(after) => is_edited_user(
            user_at(pre, ctx.user@).unwrap(),
            after,
            name,
            email,
            bio,
            skills,
        ),
        _ => false,
    }
}

/// Whether an edit that reports `r` did what it was to do: on success the
/// record is edited, on failure the error is that of the first check that
/// fails and the accounts are untouched.
pub open spec fn update_user_done(
    r: Result<(), Error>,
    pre: State,
    post: State,
    ctx: UpdateUser,
    user_pda: PdaView,
    name: Seq<char>,
    email: Seq<char>,
    bio: Seq<char>,
    skills: Vec<String>,
) -> bool {
    let refusal = update_user_refusal(pre, ctx, user_pda, name, email, bio);
    match r {
        Ok(()) => refusal is None && user_edited(pre, post, ctx, name, email, bio, skills),
        Err(e) => refusal == Some(e) && post == pre,
    }
}

/// Edits a worker profile, given the address derived for the record.
pub fn update_user_resolved(
    ledger: &mut Ledger,
    ctx: &UpdateUser,
    user_pda: &Option<Pda>,
    name: String,
    email: String,
    bio: String,
    skills: Vec<String>,
) -> (r: Result<(), Error>)
    requires
        old(ledger).wf(),
    ensures
        final(ledger).wf(),
        final(ledger).program() == old(ledger).program(),
        update_user_done(
            r,
            old(ledger)@,
            final(ledger)@,
            *ctx,
            pda_view(*user_pda),
            name@,
            email@,
            bio@,
            skills,
        ),
{
    match check_user(ledger, &ctx.authority, &ctx.user, user_pda) {
        Some(e) => {
            return Err(e);
        },
        None => {},
    }
    if name.as_str().is_empty() {
        return Err(Error::User(UserError::InvalidNameFormat));
    }
    if email.as_str().is_empty() {
        return Err(Error::User(UserError::InvalidEmailFormat));
    }
    if stored_len(&name) > MAX_NAME_LEN {
        return Err(Error::User(UserError::InvalidNameFormat));
    }
    if stored_len(&bio) > MAX_BIO_LEN {
        return Err(Error::User(UserError::InvalidBioFormat));
    }
    let avatar = process_avatar(name.as_str());
    let (balance, mut user) = ledger.take_user(&ctx.user);
    user.name = name;
    user.email = email;
    user.avatar = avatar;
    user.bio = bio;
    user.skills = skills;
    ledger.insert(ctx.user, Account { lamports: balance, record: Record::User(user) });
    assert(ledger@ =~= old(ledger)@.insert(ctx.user@, ledger@[ctx.user@]));
    Ok(())
}

/// Replaces the profile texts and skills of the signer's user record and
/// makes its avatar text anew from the name.
pub fn update_user(
    ledger: &mut Ledger,
    ctx: &UpdateUser,
    name: String,
    email: String,
    bio: String,
    skills: Vec<String>,
) -> (r: Result<(), Error>)
    requires
        old(ledger).wf(),
    ensures
        final(ledger).wf(),
        final(ledger).program() == old(ledger).program(),
        update_user_done(
            r,
            old(ledger)@,
            final(ledger)@,
            *ctx,
            program_address(user_seeds(ctx.authority@), old(ledger).program()),
            name@,
            email@,
            bio@,
            skills,
        ),
{
    let program_id = ledger.program_id();
    let user_pda = user_address(&program_id, &ctx.authority);
    update_user_resolved(ledger, ctx, &user_pda, name, email, bio, skills)
}

} // verus!
