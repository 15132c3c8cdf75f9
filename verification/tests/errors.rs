use solearn::{
    AccountError, ApplicationError, BountyError, ClientError, Error, ProjectError,
    SubmissionError, UserError,
};

#[test]
fn codes_start_at_six_thousand() {
    assert_eq!(BountyError::BountyAlreadyClosed.code(), 6000);
    assert_eq!(ClientError::ClientAlreadyExists.code(), 6000);
    assert_eq!(UserError::UserAlreadyExists.code(), 6000);
    assert_eq!(SubmissionError::SubmissionAlreadyExists.code(), 6000);
    assert_eq!(ApplicationError::ApplicationAlreadyApproved.code(), 6000);
    assert_eq!(ProjectError::ProjectAlreadyClosed.code(), 6000);
    assert_eq!(AccountError::InvalidSeeds.code(), 6000);
}

#[test]
fn codes_follow_the_order_of_the_variants() {
    assert_eq!(BountyError::CannotUpdateWithSubmissions.code(), 6001);
    assert_eq!(BountyError::CannotDeleteWithSubmissions.code(), 6002);
    assert_eq!(BountyError::BountyDeadlinePassed.code(), 6003);
    assert_eq!(BountyError::BountyNotLive.code(), 6004);
    assert_eq!(BountyError::BountyAlreadyRewarded.code(), 6005);
    assert_eq!(BountyError::InvalidRewardAmount.code(), 6006);
    assert_eq!(BountyError::InvalidDeadline.code(), 6007);
    assert_eq!(BountyError::InsufficientSolBalance.code(), 6008);
    assert_eq!(BountyError::EscrowAccountNotFound.code(), 6009);
    assert_eq!(BountyError::InvalidEscrowAccount.code(), 6010);
    assert_eq!(ClientError::NotAuthorizedForBounty.code(), 6009);
    assert_eq!(UserError::InvalidBioFormat.code(), 6009);
    assert_eq!(SubmissionError::InvalidSubmission.code(), 6002);
    assert_eq!(SubmissionError::WrongBounty.code(), 6008);
    assert_eq!(ApplicationError::InvalidAdditionalFilesLink.code(), 6021);
    assert_eq!(ProjectError::InvalidProjectStatus.code(), 6014);
    assert_eq!(AccountError::ArithmeticOverflow.code(), 6005);
}

#[test]
fn bounty_messages() {
    assert_eq!(BountyError::BountyAlreadyClosed.message(), "Bounty is already closed");
    assert_eq!(
        BountyError::CannotUpdateWithSubmissions.message(),
        "Cannot update bounty that has submissions"
    );
    assert_eq!(
        BountyError::CannotDeleteWithSubmissions.message(),
        "Cannot delete bounty that has submissions"
    );
    assert_eq!(BountyError::BountyDeadlinePassed.message(), "Bounty deadline has passed");
    assert_eq!(BountyError::BountyNotLive.message(), "Bounty is not live");
    assert_eq!(BountyError::BountyAlreadyRewarded.message(), "Bounty has already been rewarded");
    assert_eq!(BountyError::InvalidRewardAmount.message(), "Invalid reward amount");
    assert_eq!(
        BountyError::InsufficientSolBalance.message(),
        "Insufficient SOL balance for reward"
    );
    assert_eq!(BountyError::InvalidEscrowAccount.message(), "Invalid escrow account");
}

#[test]
fn profile_and_submission_messages() {
    assert_eq!(ClientError::InvalidClientAuthority.message(), "Invalid client authority");
    assert_eq!(ClientError::InvalidCompanyNameFormat.message(), "Invalid company name format");
    assert_eq!(UserError::InvalidEmailFormat.message(), "Invalid email format");
    assert_eq!(UserError::InvalidBioFormat.message(), "Invalid bio format");
    assert_eq!(
        SubmissionError::InvalidSubmission.message(),
        "Invalid submission for selected user"
    );
    assert_eq!(
        SubmissionError::SubmissionAlreadyExists.message(),
        "Submission already exists"
    );
    assert_eq!(
        ApplicationError::CannotSubmitWorkForNonApprovedApplication.message(),
        "Cannot submit work for non-approved application"
    );
    assert_eq!(ProjectError::InvalidProjectTitle.message(), "Project title is empty");
    assert_eq!(AccountError::BountyNotFound.message(), "Bounty not found");
}

#[test]
fn wrapped_errors_keep_code_and_message() {
    let e = Error::Bounty(BountyError::BountyNotLive);
    assert_eq!(e.code(), 6004);
    assert_eq!(e.message(), "Bounty is not live");
    let e = Error::Client(ClientError::ClientNotFound);
    assert_eq!(e.code(), 6001);
    assert_eq!(e.message(), "Client not found");
    let e = Error::User(UserError::UserNotFound);
    assert_eq!(e.code(), 6001);
    assert_eq!(e.message(), "User not found");
    let e = Error::Submission(SubmissionError::DescriptionTooLong);
    assert_eq!(e.code(), 6005);
    assert_eq!(e.message(), "Submission description is too long");
    let e = Error::Account(AccountError::DataTooLarge);
    assert_eq!(e.code(), 6004);
    assert_eq!(e.message(), "Data is too large for its record");
}
