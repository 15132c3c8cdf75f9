//! Registering a client.

use crate::address::Address;
use crate::clock::{to_unix_time, unix_time};
use crate::deriver::{
    client_address, client_seeds, pda_is, pda_view, program_address, resolves_to, Pda, PdaView,
};
use crate::errors::{ClientError, Error};
use crate::instructions::avatar::{avatar_of, process_avatar};
use crate::ledger::{wallet_at, Account, Ledger, Record, State};
use crate::states::text::{byte_len, stored_len};
use crate::states::Client;
use vstd::prelude::*;
use vstd::string::StringExecFns;

verus! {

/// Largest stored size of a company name, in bytes.
pub const MAX_COMPANY_NAME_LEN: usize = 32;

/// Largest stored size of a company email address, in bytes.
pub const MAX_COMPANY_EMAIL_LEN: usize = 100;

/// Largest stored size of a company link, in bytes.
pub const MAX_COMPANY_LINK_LEN: usize = 100;

/// Largest stored size of the text a company says of itself, in bytes.
pub const MAX_COMPANY_BIO_LEN: usize = 280;

/// The accounts that registering a client names.
#[derive(Clone, Copy, Debug, PartialEq, Eq)]
pub struct CreateClient {
    /// Wallet of the client, who signs.
    pub authority: Address,
    /// Where the client record will be stored.
    pub client: Address,
}

/// Why the name, email address and link of a company are refused, if they
/// are: none may be empty, and each has its largest size.
pub open spec fn company_texts_refusal(
    company_name: Seq<char>,
    company_email: Seq<char>,
    company_link: Seq<char>,
) -> Option<Error> {
    if company_name.len() == 0 {
        Some(Error::Client(ClientError::InvalidCompanyNameFormat))
    } else if company_email.len() == 0 {
        Some(Error::Client(ClientError::InvalidCompanyEmailFormat))
    } else if company_link.len() == 0 {
        Some(Error::Client(ClientError::InvalidCompanyLinkFormat))
    } else if byte_len(company_name) > MAX_COMPANY_NAME_LEN {
        Some(Error::Client(ClientError::InvalidCompanyNameFormat))
    } else if byte_len(company_email) > MAX_COMPANY_EMAIL_LEN {
        Some(Error::Client(ClientError::InvalidCompanyEmailFormat))
    } else if byte_len(company_link) > MAX_COMPANY_LINK_LEN {
        Some(Error::Client(ClientError::InvalidCompanyLinkFormat))
    } else {
        None
    }
}

/// Checks the name, email address and link of a company.
pub fn check_company_texts(
    company_name: &String,
    company_email: &String,
    company_link: &String,
) -> (r: Option<Error>)
    ensures
        r == company_texts_refusal(company_name@, company_email@, company_link@),
{
    if company_name.as_str().is_empty() {
        Some(Error::Client(ClientError::InvalidCompanyNameFormat))
    } else if company_email.as_str().is_empty() {
        Some(Error::Client(ClientError::InvalidCompanyEmailFormat))
    } else if company_link.as_str().is_empty() {
        Some(Error::Client(ClientError::InvalidCompanyLinkFormat))
    } else if stored_len(company_name) > MAX_COMPANY_NAME_LEN {
        Some(Error::Client(ClientError::InvalidCompanyNameFormat))
    } else if stored_len(company_email) > MAX_COMPANY_EMAIL_LEN {
        Some(Error::Client(ClientError::InvalidCompanyEmailFormat))
    } else if stored_len(company_link) > MAX_COMPANY_LINK_LEN {
        Some(Error::Client(ClientError::InvalidCompanyLinkFormat))
    } else {
        None
    }
}

/// Why a registration is refused, if it is. The checks come in this order:
/// the signer, the address of the record, which must be free, the texts.
pub open spec fn create_client_refusal(
    pre: State,
    ctx: CreateClient,
    client_pda: PdaView,
    company_name: Seq<char>,
    company_email: Seq<char>,
    company_link: Seq<char>,
) -> Option<Error> {
    if !wallet_at(pre, ctx.authority@) || !resolves_to(client_pda, ctx.client@) {
        Some(Error::Client(ClientError::InvalidClientAuthority))
    } else if pre.dom().contains(ctx.client@) {
        Some(Error::Client(ClientError::ClientAlreadyExists))
    } else {
        company_texts_refusal(company_name, company_email, company_link)
    }
}

/// Whether `client` is the record of a client that has just registered.
pub open spec fn is_new_client(
    client: Client,
    ctx: CreateClient,
    bump: u8,
    company_name: Seq<char>,
    company_email: Seq<char>,
    company_link: Seq<char>,
    now: i64,
) -> bool {
    &&& client.authority == ctx.authority
    &&& client.company_name@ == company_name
    &&& client.company_email@ == company_email
    &&& client.company_avatar@ == avatar_of(company_name)
    &&& client.company_link@ == company_link
    &&& client.company_bio@ == "Hi I'm a new client"@
    &&& client.joined_at == unix_time(now)
    &&& client.rewarded == 0
    &&& client.bounties_posted == 0
    &&& client.bump == bump
}

/// Whether `post` is `pre` with one account more: the record of a client
/// that has just registered, at the address named, with no balance.
pub open spec fn client_created(
    pre: State,
    post: State,
    ctx: CreateClient,
    client_pda: PdaView,
    company_name: Seq<char>,
    company_email: Seq<char>,
    company_link: Seq<char>,
    now: i64,
) -> bool {
    &&& post.dom().contains(ctx.client@)
    &&& post == pre.insert(ctx.client@, post[ctx.client@])
    &&& post[ctx.client@].lamports == 0
    &&& match post[ctx.client@].record {
        Record::Client(client) => is_new_client(
            client,
            ctx,
            client_pda.unwrap().1,
            company_name,
            company_email,
            company_link,
            now,
        ),
        _ => false,
    }
}

/// Whether a registration that reports `r` did what it was to do: on success
/// the new record is stored, on failure the error is that of the first check
/// that fails and the accounts are untouched.
pub open spec fn create_client_done(
    r: Result<(), Error>,
    pre: State,
    post: State,
    ctx: CreateClient,
    client_pda: PdaView,
    company_name: Seq<char>,
    company_email: Seq<char>,
    company_link: Seq<char>,
    now: i64,
) -> bool {
    let refusal = create_client_refusal(
        pre,
        ctx,
        client_pda,
        company_name,
        company_email,
        company_link,
    );
    match r {
        Ok(()) => refusal is None && client_created(
            pre,
            post,
            ctx,
            client_pda,
            company_name,
            company_email,
            company_link,
            now,
        ),
        Err(e) => refusal == Some(e) && post == pre,
    }
}

/// Registers a client, given the address derived for its record.
pub fn create_client_resolved(
    ledger: &mut Ledger,
    ctx: &CreateClient,
    client_pda: &Option<Pda>,
    company_name: String,
    company_email: String,
    company_link: String,
    now: i64,
) -> (r: Result<(), Error>)
    requires
        old(ledger).wf(),
    ensures
        final(ledger).wf(),
        final(ledger).program() == old(ledger).program(),
        create_client_done(
            r,
            old(ledger)@,
            final(ledger)@,
            *ctx,
            pda_view(*client_pda),
            company_name@,
            company_email@,
            company_link@,
            now,
        ),
{
    if !ledger.has_wallet(&ctx.authority) || !pda_is(client_pda, &ctx.client) {
        return Err(Error::Client(ClientError::InvalidClientAuthority));
    }
    if ledger.contains(&ctx.client) {
        return Err(Error::Client(ClientError::ClientAlreadyExists));
    }
    match check_company_texts(&company_name, &company_email, &company_link) {
        Some(e) => {
            return Err(e);
        },
        None => {},
    }
    let company_avatar = process_avatar(company_name.as_str());
    let client = Client {
        authority: ctx.authority,
        company_name,
        company_email,
        company_avatar,
        company_link,
        company_bio: String::from_str("Hi I'm a new client"),
        joined_at: to_unix_time(now),
        rewarded: 0,
        bounties_posted: 0,
        bump: client_pda.unwrap().bump,
    };
    ledger.insert(ctx.client, Account { lamports: 0, record: Record::Client(client) });
    Ok(())
}

/// Registers the signer as a client: stores a client record at the address
/// derived for the signer, with empty totals and an avatar text made from
/// the company name.
pub fn create_client(
    ledger: &mut Ledger,
    ctx: &CreateClient,
    company_name: String,
    company_email: String,
    company_link: String,
    now: i64,
) -> (r: Result<(), Error>)
    requires
        old(ledger).wf(),
    ensures
        final(ledger).wf(),
        final(ledger).program() == old(ledger).program(),
        create_client_done(
            r,
            old(ledger)@,
            final(ledger)@,
            *ctx,
            program_address(client_seeds(ctx.authority@), old(ledger).program()),
            company_name@,
            company_email@,
            company_link@,
            now,
        ),
{
    let program_id = ledger.program_id();
    let client_pda = client_address(&program_id, &ctx.authority);
    create_client_resolved(
        ledger,
        ctx,
        &client_pda,
        company_name,
        company_email,
        company_link,
        now,
    )
}

} // verus!
