//! Why an operation on a user record was rejected.

use vstd::prelude::*;
use vstd::string::StringExecFns;

verus! {

/// Why an operation on a user record was rejected.
#[derive(Clone, Copy, Debug, PartialEq, Eq, Structural)]
pub enum UserError {
    /// User already exists.
    UserAlreadyExists,
    /// User not found.
    UserNotFound,
    /// Invalid user authority.
    InvalidUserAuthority,
    /// Email already taken.
    EmailAlreadyTaken,
    /// Invalid email format.
    InvalidEmailFormat,
    /// Invalid name format.
    InvalidNameFormat,
    /// User profile is incomplete.
    IncompleteProfile,
    /// User does not have required skills.
    InsufficientSkills,
    /// User has no submissions.
    NoSubmissions,
    /// Invalid bio format.
    InvalidBioFormat,
}

impl UserError {
    /// Position of the variant in the declaration, counted from zero.
    pub open spec fn index(self) -> nat {
        match self {
            UserError::UserAlreadyExists => 0,
            UserError::UserNotFound => 1,
            UserError::InvalidUserAuthority => 2,
            UserError::EmailAlreadyTaken => 3,
            UserError::InvalidEmailFormat => 4,
            UserError::InvalidNameFormat => 5,
            UserError::IncompleteProfile => 6,
            UserError::InsufficientSkills => 7,
            UserError::NoSubmissions => 8,
            UserError::InvalidBioFormat => 9,
        }
    }

    /// The text shown for the error.
    pub open spec fn message_text(self) -> Seq<char> {
        match self {
            UserError::UserAlreadyExists => "User already exists"@,
            UserError::UserNotFound => "User not found"@,
            UserError::InvalidUserAuthority => "Invalid user authority"@,
            UserError::EmailAlreadyTaken => "Email already taken"@,
            UserError::InvalidEmailFormat => "Invalid email format"@,
            UserError::InvalidNameFormat => "Invalid name format"@,
            UserError::IncompleteProfile => "User profile is incomplete"@,
            UserError::InsufficientSkills => "User does not have required skills"@,
            UserError::NoSubmissions => "User has no submissions"@,
            UserError::InvalidBioFormat => "Invalid bio format"@,
        }
    }

    /// The numeric code of the error: 6000 plus the variant's position.
    pub fn code(&self) -> (r: u32)
        ensures
            r == 6000 + self.index(),
    {
        match self {
            UserError::UserAlreadyExists => 6000u32,
            UserError::UserNotFound => 6001u32,
            UserError::InvalidUserAuthority => 6002u32,
            UserError::EmailAlreadyTaken => 6003u32,
            UserError::InvalidEmailFormat => 6004u32,
            UserError::InvalidNameFormat => 6005u32,
            UserError::IncompleteProfile => 6006u32,
            UserError::InsufficientSkills => 6007u32,
            UserError::NoSubmissions => 6008u32,
            UserError::InvalidBioFormat => 6009u32,
        }
    }

    /// The text shown for the error.
    pub fn message(&self) -> (r: String)
        ensures
            r@ == self.message_text(),
    {
        match self {
            UserError::UserAlreadyExists => String::from_str("User already exists"),
            UserError::UserNotFound => String::from_str("User not found"),
            UserError::InvalidUserAuthority => String::from_str("Invalid user authority"),
            UserError::EmailAlreadyTaken => String::from_str("Email already taken"),
            UserError::InvalidEmailFormat => String::from_str("Invalid email format"),
            UserError::InvalidNameFormat => String::from_str("Invalid name format"),
            UserError::IncompleteProfile => String::from_str("User profile is incomplete"),
            UserError::InsufficientSkills => String::from_str("User does not have required skills"),
            UserError::NoSubmissions => String::from_str("User has no submissions"),
            UserError::InvalidBioFormat => String::from_str("Invalid bio format"),
        }
    }
}

} // verus!
