//! Registering a worker.

use crate::address::Address;
use crate::clock::{to_unix_time, unix_time};
use crate::deriver::{
    pda_is, pda_view, program_address, resolves_to, user_address, user_seeds, Pda, PdaView,
};
use crate::errors::{Error, UserError};
use crate::instructions::avatar::{avatar_of, process_avatar};
use crate::ledger::{wallet_at, Account, Ledger, Record, State};
use crate::states::text::{byte_len, stored_len};
use crate::states::User;
use vstd::prelude::*;
use vstd::string::StringExecFns;

verus! {

/// Largest stored size of the name of a worker, in bytes.
pub const MAX_NAME_LEN: usize = 32;

/// Largest stored size of the email address of a worker, in bytes.
pub const MAX_EMAIL_LEN: usize = 100;

/// Largest stored size of the text a worker says of themself, in bytes.
pub const MAX_BIO_LEN: usize = 280;

/// The accounts that registering a worker names.
#[derive(Clone, Copy, Debug, PartialEq, Eq)]
pub struct CreateUser {
    /// Wallet of the worker, who signs.
    pub authority: Address,
    /// Where the user record will be stored.
    pub user: Address,
}

/// Why the name and email address of a new worker are refused, if they are:
/// neither may be empty, and each has its largest size.
pub open spec fn new_user_texts_refusal(name: Seq<char>, email: Seq<char>) -> Option<Error> {
    if name.len() == 0 {
        Some(Error::User(UserError::InvalidNameFormat))
    } else if email.len() == 0 {
        Some(Error::User(UserError::InvalidEmailFormat))
    } else if byte_len(name) > MAX_NAME_LEN {
        Some(Error::User(UserError::InvalidNameFormat))
    } else if byte_len(email) > MAX_EMAIL_LEN {
        Some(Error::User(UserError::InvalidEmailFormat))
    } else {
        None
    }
}

/// Why a registration is refused, if it is. The checks come in this order:
/// the signer, the address of the record, which must be free, the texts.
pub open spec fn create_user_refusal(
    pre: State,
    ctx: CreateUser,
    user_pda: PdaView,
    name: Seq<char>,
    email: Seq<char>,
) -> Option<Error> {
    if !wallet_at(pre, ctx.authority@) || !resolves_to(user_pda, ctx.user@) {
        Some(Error::User(UserError::InvalidUserAuthority))
    } else if pre.dom().contains(ctx.user@) {
        Some(Error::User(UserError::UserAlreadyExists))
    } else {
        new_user_texts_refusal(name, email)
    }
}

/// Whether `user` is the record of a worker who has just registered.
pub open spec fn is_new_user(
    user: User,
    ctx: CreateUser,
    bump: u8,
    name: Seq<char>,
    email: Seq<char>,
    skills: Vec<String>,
    now: i64,
) -> bool {
    &&& user.authority == ctx.authority
    &&& user.name@ == name
    &&& user.email@ == email
    &&& user.avatar@ == avatar_of(name)
    &&& user.bio@ == "Hi I'm a new user"@
    &&& user.skills == skills
    &&& user.joined_at == unix_time(now)
    &&& user.earned == 0
    &&& user.bounties_submitted == 0
    &&& user.bounties_completed == 0
    &&& user.bump == bump
}

/// Whether `post` is `pre` with one account more: the record of a worker
/// who has just registered, at the address named, with no balance.
pub open spec fn user_created(
    pre: State,
    post: State,
    ctx: CreateUser,
    user_pda: PdaView,
    name: Seq<char>,
    email: Seq<char>,
    skills: Vec<String>,
    now: i64,
) -> bool {
    &&& post.dom().contains(ctx.user@)
    &&& post == pre.insert(ctx.user@, post[ctx.user@])
    &&& post[ctx.user@].lamports == 0
    &&& match post[ctx.user@].record {
        Record::User(user) => is_new_user(user, ctx, user_pda.unwrap().1, name, email, skills, now),
        _ => false,
    }
}

/// Whether a registration that reports `r` did what it was to do: on success
/// the new record is stored, on failure the error is that of the first check
/// that fails and the accounts are untouched.
pub open spec fn create_user_done(
    r: Result<(), Error>,
    pre: State,
    post: State,
    ctx: CreateUser,
    user_pda: PdaView,
    name: Seq<char>,
    email: Seq<char>,
    skills: Vec<String>,
    now: i64,
) -> bool {
    let refusal = create_user_refusal(pre, ctx, user_pda, name, email);
    match r {
        Ok(()) => refusal is None && user_created(
            pre,
            post,
            ctx,
            user_pda,
            name,
            email,
            skills,
            now,
        ),
        Err(e) => refusal == Some(e) && post == pre,
    }
}

/// Registers a worker, given the address derived for the record.
pub fn create_user_resolved(
    ledger: &mut Ledger,
    ctx: &CreateUser,
    user_pda: &Option<Pda>,
    name: String,
    email: String,
    skills: Vec<String>,
    now: i64,
) -> (r: Result<(), Error>)
    requires
        old(ledger).wf(),
    ensures
        final(ledger).wf(),
        final(ledger).program() == old(ledger).program(),
        create_user_done(
            r,
            old(ledger)@,
            final(ledger)@,
            *ctx,
            pda_view(*user_pda),
            name@,
            email@,
            skills,
            now,
        ),
{
    if !ledger.has_wallet(&ctx.authority) || !pda_is(user_pda, &ctx.user) {
        return Err(Error::User(UserError::InvalidUserAuthority));
    }
    if ledger.contains(&ctx.user) {
        return Err(Error::User(UserError::UserAlreadyExists));
    }
    if name.as_str().is_empty() {
        return Err(Error::User(UserError::InvalidNameFormat));
    }
    if email.as_str().is_empty() {
        return Err(Error::User(UserError::InvalidEmailFormat));
    }
    if stored_len(&name) > MAX_NAME_LEN {
        return Err(Error::User(UserError::InvalidNameFormat));
    }
    if stored_len(&email) > MAX_EMAIL_LEN {
        return Err(Error::User(UserError::InvalidEmailFormat));
    }
    let avatar = process_avatar(name.as_str());
    let user = User {
        authority: ctx.authority,
        name,
        email,
        avatar,
        bio: String::from_str("Hi I'm a new user"),
        skills,
        joined_at: to_unix_time(now),
        earned: 0,
        bounties_submitted: 0,
        bounties_completed: 0,
        bump: user_pda.unwrap().bump,
    };
    ledger.insert(ctx.user, Account { lamports: 0, record: Record::User(user) });
    Ok(())
}

/// Registers the signer as a worker: stores a user record at the address
/// derived for the signer, with empty totals and an avatar text made from
/// the name.
pub fn create_user(
    ledger: &mut Ledger,
    ctx: &CreateUser,
    name: String,
    email: String,
    skills: Vec<String>,
    now: i64,
) -> (r: Result<(), Error>)
    requires
        old(ledger).wf(),
    ensures
        final(ledger).wf(),
        final(ledger).program() == old(ledger).program(),
        create_user_done(
            r,
            old(ledger)@,
            final(ledger)@,
            *ctx,
            program_address(user_seeds(ctx.authority@), old(ledger).program()),
            name@,
            email@,
            skills,
            now,
        ),
{
    let program_id = ledger.program_id();
    let user_pda = user_address(&program_id, &ctx.authority);
    create_user_resolved(ledger, ctx, &user_pda, name, email, skills, now)
}

} // verus!
