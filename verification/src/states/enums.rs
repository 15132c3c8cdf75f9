//! Small value types of profiles and listings.

use vstd::prelude::*;

verus! {

/// Whether a bounty still takes submissions.
#[derive(Clone, Copy, Debug, PartialEq, Eq, Structural)]
pub enum BountyStatus {
    Open,
    Closed,
}

/// Whether a project still takes applications.
#[derive(Clone, Copy, Debug, PartialEq, Eq, Structural)]
pub enum ProjectStatus {
    Open,
    Closed,
}

/// Where an application to a project stands.
#[derive(Clone, Copy, Debug, PartialEq, Eq, Structural)]
pub enum ApplicationStatus {
    Pending,
    Approved,
    Rejected,
}

/// Country of a profile.
#[derive(Clone, Copy, Debug, PartialEq, Eq, Structural)]
pub enum Country {
    India,
    USA,
    UK,
    Canada,
    Australia,
    NewZealand,
    Other,
}

impl Default for Country {
    fn default() -> (r: Country)
        ensures
            r == Country::Other,
    {
        Country::Other
    }
}

/// Links of a profile to other sites, each at most 32 bytes when stored.
#[derive(Clone, Debug, PartialEq, Eq)]
pub struct Social {
    pub twitter: String,
    pub facebook: String,
    pub linkedin: String,
    pub website: String,
}

impl Default for Social {
    fn default() -> (r: Social)
        ensures
            r.twitter@ == Seq::<char>::empty(),
            r.facebook@ == Seq::<char>::empty(),
            r.linkedin@ == Seq::<char>::empty(),
            r.website@ == Seq::<char>::empty(),
    {
        Social {
            twitter: String::new(),
            facebook: String::new(),
            linkedin: String::new(),
            website: String::new(),
        }
    }
}

/// Industry of a client.
#[derive(Clone, Copy, Debug, PartialEq, Eq, Structural)]
pub enum Industries {
    DAO,
    Defi,
    Infrastructure,
    DePin,
    WalletAndPayment,
    Nfts,
    Other,
}

impl Default for Industries {
    fn default() -> (r: Industries)
        ensures
            r == Industries::Other,
    {
        Industries::Other
    }
}

} // verus!
