//! Derivation of record and escrow addresses from their seeds.
//!
//! Every record lives at an address computed from a tag and the keys or title
//! that identify it, so that the address itself says whom the record belongs
//! to. The hashing is done by `anchor_lang`; this module fixes the seeds.

use crate::address::Address;
use vstd::prelude::*;
use vstd::string::StrSliceExecFns;
use vstd::utf8::encode_utf8;

verus! {

/// A derived address together with the bump seed that produced it.
#[derive(Clone, Copy, Debug, PartialEq, Eq)]
pub struct Pda {
    pub address: Address,
    pub bump: u8,
}

/// The address and bump seed that `Pubkey::try_find_program_address` of
/// `anchor_lang` yields for `seeds` under `program_id`, or `None` where it
/// yields none. The function hashes the seeds, the program id and a marker,
/// trying bump seeds from 255 down, so its result depends on these
/// arguments alone.
pub uninterp spec fn program_address(
    seeds: Seq<Seq<u8>>,
    program_id: Seq<u8>,
) -> Option<(Seq<u8>, u8)>;

/// A derivation result as plain values: the bytes of the address and the
/// bump seed.
pub type PdaView = Option<(Seq<u8>, u8)>;

/// Whether a derivation gave the address `a`.
pub open spec fn resolves_to(p: PdaView, a: Seq<u8>) -> bool {
    match p {
        Some(found) => found.0 == a,
        None => false,
    }
}

/// Whether a derivation gave the address `a` with the bump seed `bump`.
pub open spec fn resolves_with_bump(p: PdaView, a: Seq<u8>, bump: u8) -> bool {
    match p {
        Some(found) => found.0 == a && found.1 == bump,
        None => false,
    }
}

/// A derivation result as plain values.
pub open spec fn pda_view(p: Option<Pda>) -> Option<(Seq<u8>, u8)> {
    match p {
        Some(pda) => Some((pda.address@, pda.bump)),
        None => None,
    }
}

/// The seeds held by a vector of byte vectors.
pub open spec fn seeds_view(seeds: &Vec<Vec<u8>>) -> Seq<Seq<u8>> {
    Seq::new(seeds@.len(), |i: int| seeds@[i]@)
}

/// Calls `anchor_lang::prelude::Pubkey::try_find_program_address`.
///
/// Not proved, but taken from that function: the result is `program_address`
/// of the seeds and the program id. Nothing is claimed about which address
/// that is, about when there is one, or about two lists of seeds giving
/// different addresses.
#[verifier::external_body]
pub(crate) fn try_find_program_address(
    seeds: &Vec<Vec<u8>>,
    program_id: &Address,
) -> (r: Option<Pda>)
    ensures
        pda_view(r) == program_address(seeds_view(seeds), program_id@),
{
    let slices: Vec<&[u8]> = seeds.iter().map(|s| s.as_slice()).collect();
    let program = anchor_lang::prelude::Pubkey::new_from_array(program_id.bytes);
    match anchor_lang::prelude::Pubkey::try_find_program_address(&slices, &program) {
        Some((key, bump)) => Some(Pda { address: Address { bytes: key.to_bytes() }, bump }),
        None => None,
    }
}

/// Checks that a derivation gave the address `a`.
pub fn pda_is(p: &Option<Pda>, a: &Address) -> (r: bool)
    ensures
        r == resolves_to(pda_view(*p), a@),
{
    match p {
        Some(pda) => pda.address.same(a),
        None => false,
    }
}

/// Checks that a derivation gave the address `a` with the bump seed `bump`.
pub fn pda_is_with_bump(p: &Option<Pda>, a: &Address, bump: u8) -> (r: bool)
    ensures
        r == resolves_with_bump(pda_view(*p), a@, bump),
{
    match p {
        Some(pda) => pda.address.same(a) && pda.bump == bump,
        None => false,
    }
}

/// Seed tag of client records: the bytes of `client`.
pub open spec fn client_tag() -> Seq<u8> {
    seq![99u8, 108u8, 105u8, 101u8, 110u8, 116u8]
}

/// Seed tag of user records: the bytes of `user`.
pub open spec fn user_tag() -> Seq<u8> {
    seq![117u8, 115u8, 101u8, 114u8]
}

/// Seed tag of bounty records: the bytes of `bounty`.
pub open spec fn bounty_tag() -> Seq<u8> {
    seq![98u8, 111u8, 117u8, 110u8, 116u8, 121u8]
}

/// Seed tag of escrow accounts: the bytes of `escrow`.
pub open spec fn escrow_tag() -> Seq<u8> {
    seq![101u8, 115u8, 99u8, 114u8, 111u8, 119u8]
}

/// Seed tag of submission records: the bytes of `submission`.
pub open spec fn submission_tag() -> Seq<u8> {
    seq![115u8, 117u8, 98u8, 109u8, 105u8, 115u8, 115u8, 105u8, 111u8, 110u8]
}

/// Seeds of the client record owned by `authority`.
pub open spec fn client_seeds(authority: Seq<u8>) -> Seq<Seq<u8>> {
    seq![client_tag(), authority]
}

/// Seeds of the user record owned by `authority`.
pub open spec fn user_seeds(authority: Seq<u8>) -> Seq<Seq<u8>> {
    seq![user_tag(), authority]
}

/// Seeds of the bounty that `creator` posted under `title`.
pub open spec fn bounty_seeds(title: Seq<char>, creator: Seq<u8>) -> Seq<Seq<u8>> {
    seq![bounty_tag(), encode_utf8(title), creator]
}

/// Seeds of the escrow account that backs the bounty at `bounty`.
pub open spec fn escrow_seeds(bounty: Seq<u8>) -> Seq<Seq<u8>> {
    seq![escrow_tag(), bounty]
}

/// Seeds of the submission of `worker` to the bounty at `bounty`.
pub open spec fn submission_seeds(worker: Seq<u8>, bounty: Seq<u8>) -> Seq<Seq<u8>> {
    seq![submission_tag(), worker, bounty]
}

fn two_seeds(tag: Vec<u8>, key: &Address) -> (r: Vec<Vec<u8>>)
    ensures
        seeds_view(&r) == seq![tag@, key@],
{
    let mut seeds: Vec<Vec<u8>> = Vec::new();
    seeds.push(tag);
    seeds.push(key.to_vec());
    assert(seeds_view(&seeds) =~= seq![tag@, key@]);
    seeds
}

fn three_seeds(tag: Vec<u8>, middle: Vec<u8>, key: &Address) -> (r: Vec<Vec<u8>>)
    ensures
        seeds_view(&r) == seq![tag@, middle@, key@],
{
    let mut seeds: Vec<Vec<u8>> = Vec::new();
    seeds.push(tag);
    seeds.push(middle);
    seeds.push(key.to_vec());
    assert(seeds_view(&seeds) =~= seq![tag@, middle@, key@]);
    seeds
}

/// Derives the address of the client record owned by `authority`.
pub fn client_address(program_id: &Address, authority: &Address) -> (r: Option<Pda>)
    ensures
        pda_view(r) == program_address(client_seeds(authority@), program_id@),
{
    let tag: Vec<u8> = vec![99u8, 108u8, 105u8, 101u8, 110u8, 116u8];
    assert(tag@ =~= client_tag());
    let seeds = two_seeds(tag, authority);
    try_find_program_address(&seeds, program_id)
}

/// Derives the address of the user record owned by `authority`.
pub fn user_address(program_id: &Address, authority: &Address) -> (r: Option<Pda>)
    ensures
        pda_view(r) == program_address(user_seeds(authority@), program_id@),
{
    let tag: Vec<u8> = vec![117u8, 115u8, 101u8, 114u8];
    assert(tag@ =~= user_tag());
    let seeds = two_seeds(tag, authority);
    try_find_program_address(&seeds, program_id)
}

/// Longest seed, in bytes, that a derivation takes. A title is a seed of
/// its bounty, so no title is longer.
pub const MAX_SEED_LEN: usize = 32;

/// The address derived for the bounty that `creator` posted under `title`:
/// none where the title is too long to be a seed.
pub open spec fn bounty_derivation(
    title: Seq<char>,
    creator: Seq<u8>,
    program_id: Seq<u8>,
) -> PdaView {
    if encode_utf8(title).len() > MAX_SEED_LEN {
        None
    } else {
        program_address(bounty_seeds(title, creator), program_id)
    }
}

/// Derives the address of the bounty that `creator` posted under `title`. A
/// title of more than 32 bytes is rejected before anything is derived.
pub fn bounty_address(program_id: &Address, title: &String, creator: &Address) -> (r: Option<Pda>)
    ensures
        pda_view(r) == bounty_derivation(title@, creator@, program_id@),
{
    let title_bytes = title.as_str().as_bytes_vec();
    if title_bytes.len() > MAX_SEED_LEN {
        return None;
    }
    let tag: Vec<u8> = vec![98u8, 111u8, 117u8, 110u8, 116u8, 121u8];
    assert(tag@ =~= bounty_tag());
    let seeds = three_seeds(tag, title_bytes, creator);
    try_find_program_address(&seeds, program_id)
}

/// Derives the address of the escrow account behind the bounty at `bounty`.
pub fn escrow_address(program_id: &Address, bounty: &Address) -> (r: Option<Pda>)
    ensures
        pda_view(r) == program_address(escrow_seeds(bounty@), program_id@),
{
    let tag: Vec<u8> = vec![101u8, 115u8, 99u8, 114u8, 111u8, 119u8];
    assert(tag@ =~= escrow_tag());
    let seeds = two_seeds(tag, bounty);
    try_find_program_address(&seeds, program_id)
}

/// Derives the address of the submission of `worker` to the bounty at `bounty`.
pub fn submission_address(
    program_id: &Address,
    worker: &Address,
    bounty: &Address,
) -> (r: Option<Pda>)
    ensures
        pda_view(r) == program_address(submission_seeds(worker@, bounty@), program_id@),
{
    let tag: Vec<u8> = vec![115u8, 117u8, 98u8, 109u8, 105u8, 115u8, 115u8, 105u8, 111u8, 110u8];
    assert(tag@ =~= submission_tag());
    let seeds = three_seeds(tag, worker.to_vec(), bounty);
    try_find_program_address(&seeds, program_id)
}

} // verus!
