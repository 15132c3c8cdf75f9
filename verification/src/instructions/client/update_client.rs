//! Editing the profile of a client.

use crate::address::Address;
use crate::deriver::{client_address, client_seeds, pda_view, program_address, Pda, PdaView};
use crate::errors::{ClientError, Error};
use crate::guard::{check_client, client_refusal};
use crate::instructions::avatar::{avatar_of, process_avatar};
use crate::instructions::client::create_client::{
    check_company_texts, company_texts_refusal, MAX_COMPANY_BIO_LEN,
};
use crate::ledger::{client_at, Account, Ledger, Record, State};
use crate::states::text::{byte_len, stored_len};
use crate::states::Client;
use vstd::prelude::*;

verus! {

/// The accounts that editing a client profile names.
#[derive(Clone, Copy, Debug, PartialEq, Eq)]
pub struct UpdateClient {
    /// Wallet of the client, who signs.
    pub authority: Address,
    /// The client record of `authority`.
    pub client: Address,
}

/// Why an edit of a client profile is refused, if it is. The checks come in
/// this order: the signer, the record, the texts.
pub open spec fn update_client_refusal(
    pre: State,
    ctx: UpdateClient,
    client_pda: PdaView,
    company_name: Seq<char>,
    company_email: Seq<char>,
    company_link: Seq<char>,
    company_bio: Seq<char>,
) -> Option<Error> {
    let texts = company_texts_refusal(company_name, company_email, company_link);
    let signer = client_refusal(pre, ctx.authority@, ctx.client@, client_pda);
    if signer is Some {
        signer
    } else if texts is Some {
        texts
    } else if byte_len(company_bio) > MAX_COMPANY_BIO_LEN {
        Some(Error::Client(ClientError::InvalidCompanyNameFormat))
    } else {
        None
    }
}

/// Whether `after` is `before` with the profile texts replaced and the
/// avatar text made anew; the totals and the date of joining stay.
pub open spec fn is_edited_client(
    before: Client,
    after: Client,
    ctx: UpdateClient,
    company_name: Seq<char>,
    company_email: Seq<char>,
    company_link: Seq<char>,
    company_bio: Seq<char>,
) -> bool {
    &&& after.authority == ctx.authority
    &&& after.company_name@ == company_name
    &&& after.company_email@ == company_email
    &&& after.company_avatar@ == avatar_of(company_name)
    &&& after.company_link@ == company_link
    &&& after.company_bio@ == company_bio
    &&& after.joined_at == before.joined_at
    &&& after.rewarded == before.rewarded
    &&& after.bounties_posted == before.bounties_posted
    &&& after.bump == before.bump
}

/// Whether `post` is `pre` with the client record at the address named
/// edited, its balance kept.
pub open spec fn client_edited(
    pre: State,
    post: State,
    ctx: UpdateClient,
    company_name: Seq<char>,
    company_email: Seq<char>,
    company_link: Seq<char>,
    company_bio: Seq<char>,
) -> bool {
    &&& post.dom().contains(ctx.client@)
    &&& post == pre.insert(ctx.client@, post[ctx.client@])
    &&& post[ctx.client@].lamports == pre[ctx.client@].lamports
    &&& match post[ctx.client@].record {
        Record::Client(after) => is_edited_client(
            client_at(pre, ctx.client@).unwrap(),
            after,
            ctx,
            company_name,
            company_email,
            company_link,
            company_bio,
        ),
        _ => false,
    }
}

/// Whether an edit that reports `r` did what it was to do: on success the
/// record is edited, on failure the error is that of the first check that
/// fails and the accounts are untouched.
pub open spec fn update_client_done(
    r: Result<(), Error>,
    pre: State,
    post: State,
    ctx: UpdateClient,
    client_pda: PdaView,
    company_name: Seq<char>,
    company_email: Seq<char>,
    company_link: Seq<char>,
    company_bio: Seq<char>,
) -> bool {
    let refusal = update_client_refusal(
        pre,
        ctx,
        client_pda,
        company_name,
        company_email,
        company_link,
        company_bio,
    );
    match r {
        Ok(()) => refusal is None && client_edited(
            pre,
            post,
            ctx,
            company_name,
            company_email,
            company_link,
            company_bio,
        ),
        Err(e) => refusal == Some(e) && post == pre,
    }
}

/// Edits a client profile, given the address derived for its record.
pub fn update_client_resolved(
    ledger: &mut Ledger,
    ctx: &UpdateClient,
    client_pda: &Option<Pda>,
    company_name: String,
    company_email: String,
    company_link: String,
    company_bio: String,
) -> (r: Result<(), Error>)
    requires
        old(ledger).wf(),
    ensures
        final(ledger).wf(),
        final(ledger).program() == old(ledger).program(),
        update_client_done(
            r,
            old(ledger)@,
            final(ledger)@,
            *ctx,
            pda_view(*client_pda),
            company_name@,
            company_email@,
            company_link@,
            company_bio@,
        ),
{
    match check_client(ledger, &ctx.authority, &ctx.client, client_pda) {
        Some(e) => {
            return Err(e);
        },
        None => {},
    }
    match check_company_texts(&company_name, &company_email, &company_link) {
        Some(e) => {
            return Err(e);
        },
        None => {},
    }
    if stored_len(&company_bio) > MAX_COMPANY_BIO_LEN {
        return Err(Error::Client(ClientError::InvalidCompanyNameFormat));
    }
    let company_avatar = process_avatar(company_name.as_str());
    let (balance, mut client) = ledger.take_client(&ctx.client);
    client.authority = ctx.authority;
    client.company_name = company_name;
    client.company_email = company_email;
    client.company_avatar = company_avatar;
    client.company_link = company_link;
    client.company_bio = company_bio;
    ledger.insert(ctx.client, Account { lamports: balance, record: Record::Client(client) });
    assert(ledger@ =~= old(ledger)@.insert(ctx.client@, ledger@[ctx.client@]));
    Ok(())
}

/// Replaces the profile texts of the signer's client record and makes its
/// avatar text anew from the company name.
pub fn update_client(
    ledger: &mut Ledger,
    ctx: &UpdateClient,
    company_name: String,
    company_email: String,
    company_link: String,
    company_bio: String,
) -> (r: Result<(), Error>)
    requires
        old(ledger).wf(),
    ensures
        final(ledger).wf(),
        final(ledger).program() == old(ledger).program(),
        update_client_done(
            r,
            old(ledger)@,
            final(ledger)@,
            *ctx,
            program_address(client_seeds(ctx.authority@), old(ledger).program()),
            company_name@,
            company_email@,
            company_link@,
            company_bio@,
        ),
{
    let program_id = ledger.program_id();
    let client_pda = client_address(&program_id, &ctx.authority);
    update_client_resolved(
        ledger,
        ctx,
        &client_pda,
        company_name,
        company_email,
        company_link,
        company_bio,
    )
}

} // verus!
