//! Why an operation on a client record was rejected.

use vstd::prelude::*;
use vstd::string::StringExecFns;

verus! {

/// Why an operation on a client record was rejected.
#[derive(Clone, Copy, Debug, PartialEq, Eq, Structural)]
pub enum ClientError {
    /// Client already exists.
    ClientAlreadyExists,
    /// Client not found.
    ClientNotFound,
    /// Invalid client authority.
    InvalidClientAuthority,
    /// Company username already taken.
    CompanyUsernameAlreadyTaken,
    /// Invalid company name format.
    InvalidCompanyNameFormat,
    /// Invalid company email format.
    InvalidCompanyEmailFormat,
    /// Invalid company link format.
    InvalidCompanyLinkFormat,
    /// Client profile is incomplete.
    IncompleteProfile,
    /// Client has no bounties.
    NoBounties,
    /// Client is not authorized for this bounty.
    NotAuthorizedForBounty,
}

impl ClientError {
    /// Position of the variant in the declaration, counted from zero.
    pub open spec fn index(self) -> nat {
        match self {
            ClientError::ClientAlreadyExists => 0,
            ClientError::ClientNotFound => 1,
            ClientError::InvalidClientAuthority => 2,
            ClientError::CompanyUsernameAlreadyTaken => 3,
            ClientError::InvalidCompanyNameFormat => 4,
            ClientError::InvalidCompanyEmailFormat => 5,
            ClientError::InvalidCompanyLinkFormat => 6,
            ClientError::IncompleteProfile => 7,
            ClientError::NoBounties => 8,
            ClientError::NotAuthorizedForBounty => 9,
        }
    }

    /// The text shown for the error.
    pub open spec fn message_text(self) -> Seq<char> {
        match self {
            ClientError::ClientAlreadyExists => "Client already exists"@,
            ClientError::ClientNotFound => "Client not found"@,
            ClientError::InvalidClientAuthority => "Invalid client authority"@,
            ClientError::CompanyUsernameAlreadyTaken => "Company username already taken"@,
            ClientError::InvalidCompanyNameFormat => "Invalid company name format"@,
            ClientError::InvalidCompanyEmailFormat => "Invalid company email format"@,
            ClientError::InvalidCompanyLinkFormat => "Invalid company link format"@,
            ClientError::IncompleteProfile => "Client profile is incomplete"@,
            ClientError::NoBounties => "Client has no bounties"@,
            ClientError::NotAuthorizedForBounty => "Client is not authorized for this bounty"@,
        }
    }

    /// The numeric code of the error: 6000 plus the variant's position.
    pub fn code(&self) -> (r: u32)
        ensures
            r == 6000 + self.index(),
    {
        match self {
            ClientError::ClientAlreadyExists => 6000u32,
            ClientError::ClientNotFound => 6001u32,
            ClientError::InvalidClientAuthority => 6002u32,
            ClientError::CompanyUsernameAlreadyTaken => 6003u32,
            ClientError::InvalidCompanyNameFormat => 6004u32,
            ClientError::InvalidCompanyEmailFormat => 6005u32,
            ClientError::InvalidCompanyLinkFormat => 6006u32,
            ClientError::IncompleteProfile => 6007u32,
            ClientError::NoBounties => 6008u32,
            ClientError::NotAuthorizedForBounty => 6009u32,
        }
    }

    /// The text shown for the error.
    pub fn message(&self) -> (r: String)
        ensures
            r@ == self.message_text(),
    {
        match self {
            ClientError::ClientAlreadyExists => String::from_str("Client already exists"),
            ClientError::ClientNotFound => String::from_str("Client not found"),
            ClientError::InvalidClientAuthority => String::from_str("Invalid client authority"),
            ClientError::CompanyUsernameAlreadyTaken => String::from_str(
                "Company username already taken",
            ),
            ClientError::InvalidCompanyNameFormat => String::from_str(
                "Invalid company name format",
            ),
            ClientError::InvalidCompanyEmailFormat => String::from_str(
                "Invalid company email format",
            ),
            ClientError::InvalidCompanyLinkFormat => String::from_str(
                "Invalid company link format",
            ),
            ClientError::IncompleteProfile => String::from_str("Client profile is incomplete"),
            ClientError::NoBounties => String::from_str("Client has no bounties"),
            ClientError::NotAuthorizedForBounty => String::from_str(
                "Client is not authorized for this bounty",
            ),
        }
    }
}

} // verus!
