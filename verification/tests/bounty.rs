use solearn::deriver::{
    bounty_address, client_address, escrow_address, submission_address, user_address, Pda,
};
use solearn::program::id;
use solearn::{
    create_bounty, create_bounty_resolved, create_client, create_submission, create_user,
    delete_bounty, select_submission, select_submission_resolved, update_bounty, Account,
    AccountError, Address, BountyError, Client, ClientError, CreateBounty, CreateBountyPdas,
    CreateClient, CreateSubmission, CreateUser, DeleteBounty, Error, Ledger, Record,
    SelectSubmission, SelectSubmissionPdas, Submission, SubmissionError, UpdateBounty, User,
    UserError,
};

const UNIT: u64 = 1_000_000_000;
const T: i64 = 1_700_000_000;
const RETAINED: u64 = 890_880;

fn key(n: u8) -> Address {
    Address::new([n; 32])
}

fn register_client(ledger: &mut Ledger, wallet: Address, funds: u64) -> Address {
    ledger.deposit(&wallet, funds).unwrap();
    let client = client_address(&id(), &wallet).unwrap().address;
    create_client(
        ledger,
        &CreateClient { authority: wallet, client },
        "Acme".to_string(),
        "a@acme.example".to_string(),
        "https://acme.example".to_string(),
        T,
    )
    .unwrap();
    client
}

fn register_user(ledger: &mut Ledger, wallet: Address) -> Address {
    ledger.deposit(&wallet, 0).unwrap();
    let user = user_address(&id(), &wallet).unwrap().address;
    create_user(
        ledger,
        &CreateUser { authority: wallet, user },
        "Wanda".to_string(),
        "w@example.org".to_string(),
        vec![],
        T,
    )
    .unwrap();
    user
}

fn bounty_ctx(wallet: Address, title: &str) -> CreateBounty {
    let client = client_address(&id(), &wallet).unwrap().address;
    let bounty = bounty_address(&id(), &title.to_string(), &wallet).unwrap().address;
    let escrow_account = escrow_address(&id(), &bounty).unwrap().address;
    CreateBounty { authority: wallet, client, bounty, escrow_account }
}

fn post(ledger: &mut Ledger, ctx: &CreateBounty, title: &str, reward: u64) -> Result<(), Error> {
    create_bounty(
        ledger,
        ctx,
        title.to_string(),
        "description".to_string(),
        reward,
        (T + 1000) as u64,
        vec!["rust".to_string()],
        T,
    )
}

fn submit(ledger: &mut Ledger, worker: Address, bounty: Address, now: i64) -> Result<(), Error> {
    let user = user_address(&id(), &worker).unwrap().address;
    let submission = submission_address(&id(), &worker, &bounty).unwrap().address;
    create_submission(
        ledger,
        &CreateSubmission { authority: worker, user, bounty, submission },
        "work".to_string(),
        "https://example.org/w".to_string(),
        now,
    )
}

fn selection(ctx: &CreateBounty, worker: Address) -> SelectSubmission {
    SelectSubmission {
        authority: ctx.authority,
        client: ctx.client,
        bounty: ctx.bounty,
        submission: submission_address(&id(), &worker, &ctx.bounty).unwrap().address,
        selected_user: user_address(&id(), &worker).unwrap().address,
        escrow_account: ctx.escrow_account,
        selected_user_wallet: worker,
    }
}

/// A ledger with one client holding 10 units and one posted bounty of 2.
fn posted() -> (Ledger, CreateBounty) {
    let mut ledger = Ledger::new(id());
    register_client(&mut ledger, key(1), 10 * UNIT);
    let ctx = bounty_ctx(key(1), "task");
    post(&mut ledger, &ctx, "task", 2).unwrap();
    (ledger, ctx)
}

#[test]
fn new_bounty_holds_what_was_given() {
    let mut ledger = Ledger::new(id());
    register_client(&mut ledger, key(1), 10 * UNIT);
    let ctx = bounty_ctx(key(1), "task");
    create_bounty(
        &mut ledger,
        &ctx,
        "task".to_string(),
        "do it".to_string(),
        2,
        12345,
        vec!["a".to_string(), "b".to_string()],
        T,
    )
    .unwrap();
    let b = ledger.bounty(&ctx.bounty).unwrap();
    assert_eq!(b.creator_wallet_key, key(1));
    assert_eq!(b.client_key, ctx.client);
    assert_eq!(b.title, "task");
    assert_eq!(b.description, "do it");
    assert_eq!(b.reward, 2);
    assert!(b.live);
    assert_eq!(b.created_at, T as u64);
    assert_eq!(b.deadline, 12345);
    assert_eq!(b.required_skills, vec!["a".to_string(), "b".to_string()]);
    assert_eq!(b.no_of_submissions, 0);
    assert_eq!(b.selected_submission, Address::zero());
    assert_eq!(b.selected_user_wallet_key, Address::zero());
    assert_eq!(b.escrow_account, ctx.escrow_account);
    assert!(!b.bounty_rewarded);
    assert_eq!(b.bump, bounty_address(&id(), &"task".to_string(), &key(1)).unwrap().bump);
    assert!(b.is_wf());
    assert!(ledger.has_escrow(&ctx.escrow_account));
    assert_eq!(ledger.lamports(&ctx.escrow_account), 2 * UNIT);
    assert_eq!(ledger.lamports(&key(1)), 8 * UNIT);
    assert_eq!(ledger.lamports(&ctx.bounty), 0);
    assert_eq!(ledger.client(&ctx.client).unwrap().bounties_posted, 1);
}

#[test]
fn creation_before_the_epoch_wraps_the_time() {
    let mut ledger = Ledger::new(id());
    register_client(&mut ledger, key(1), 10 * UNIT);
    let ctx = bounty_ctx(key(1), "task");
    create_bounty(
        &mut ledger,
        &ctx,
        "task".to_string(),
        "d".to_string(),
        1,
        0,
        vec![],
        -1,
    )
    .unwrap();
    assert_eq!(ledger.bounty(&ctx.bounty).unwrap().created_at, u64::MAX);
}

#[test]
fn zero_reward_is_refused() {
    let mut ledger = Ledger::new(id());
    register_client(&mut ledger, key(1), 10 * UNIT);
    let ctx = bounty_ctx(key(1), "task");
    assert_eq!(
        post(&mut ledger, &ctx, "task", 0),
        Err(Error::Bounty(BountyError::InvalidRewardAmount))
    );
    assert!(!ledger.contains(&ctx.bounty));
    assert!(!ledger.contains(&ctx.escrow_account));
    assert_eq!(ledger.lamports(&key(1)), 10 * UNIT);
    assert_eq!(ledger.client(&ctx.client).unwrap().bounties_posted, 0);
}

#[test]
fn reward_above_the_balance_is_refused() {
    let mut ledger = Ledger::new(id());
    register_client(&mut ledger, key(1), 2 * UNIT - 1);
    let ctx = bounty_ctx(key(1), "task");
    assert_eq!(
        post(&mut ledger, &ctx, "task", 2),
        Err(Error::Bounty(BountyError::InsufficientSolBalance))
    );
    assert_eq!(ledger.lamports(&key(1)), 2 * UNIT - 1);
    assert!(!ledger.contains(&ctx.bounty));
}

#[test]
fn reward_equal_to_the_balance_is_accepted() {
    let mut ledger = Ledger::new(id());
    register_client(&mut ledger, key(1), 2 * UNIT);
    let ctx = bounty_ctx(key(1), "task");
    post(&mut ledger, &ctx, "task", 2).unwrap();
    assert_eq!(ledger.lamports(&key(1)), 0);
    assert_eq!(ledger.lamports(&ctx.escrow_account), 2 * UNIT);
}

#[test]
fn reward_beyond_the_range_of_minor_units_is_refused() {
    let mut ledger = Ledger::new(id());
    register_client(&mut ledger, key(1), u64::MAX);
    let ctx = bounty_ctx(key(1), "task");
    assert_eq!(
        post(&mut ledger, &ctx, "task", u64::MAX),
        Err(Error::Bounty(BountyError::InsufficientSolBalance))
    );
    assert_eq!(
        post(&mut ledger, &ctx, "task", 18_446_744_074),
        Err(Error::Bounty(BountyError::InsufficientSolBalance))
    );
    post(&mut ledger, &ctx, "task", 18_446_744_073).unwrap();
    assert_eq!(ledger.lamports(&ctx.escrow_account), 18_446_744_073 * UNIT);
}

#[test]
fn bounty_of_an_unregistered_client_is_refused() {
    let mut ledger = Ledger::new(id());
    ledger.deposit(&key(1), 10 * UNIT).unwrap();
    let ctx = bounty_ctx(key(1), "task");
    assert_eq!(
        post(&mut ledger, &ctx, "task", 1),
        Err(Error::Client(ClientError::ClientNotFound))
    );
    assert_eq!(ledger.lamports(&key(1)), 10 * UNIT);
}

#[test]
fn bounty_under_the_client_record_of_another_is_refused() {
    let mut ledger = Ledger::new(id());
    register_client(&mut ledger, key(1), 10 * UNIT);
    register_client(&mut ledger, key(2), 10 * UNIT);
    let mut ctx = bounty_ctx(key(2), "task");
    ctx.client = client_address(&id(), &key(1)).unwrap().address;
    assert_eq!(
        post(&mut ledger, &ctx, "task", 1),
        Err(Error::Client(ClientError::InvalidClientAuthority))
    );
}

#[test]
fn bounty_at_an_address_not_derived_from_its_title_is_refused() {
    let mut ledger = Ledger::new(id());
    register_client(&mut ledger, key(1), 10 * UNIT);
    let ctx = bounty_ctx(key(1), "task");
    assert_eq!(
        post(&mut ledger, &ctx, "other", 1),
        Err(Error::Account(AccountError::InvalidBountyAccount))
    );
}

#[test]
fn escrow_at_an_address_not_derived_from_the_bounty_is_refused() {
    let mut ledger = Ledger::new(id());
    register_client(&mut ledger, key(1), 10 * UNIT);
    let mut ctx = bounty_ctx(key(1), "task");
    ctx.escrow_account = key(50);
    assert_eq!(
        post(&mut ledger, &ctx, "task", 1),
        Err(Error::Bounty(BountyError::InvalidEscrowAccount))
    );
}

#[test]
fn title_is_unique_per_creator() {
    let (mut ledger, ctx) = posted();
    assert_eq!(
        post(&mut ledger, &ctx, "task", 1),
        Err(Error::Account(AccountError::BountyAlreadyExists))
    );
    assert_eq!(ledger.lamports(&key(1)), 8 * UNIT);
    assert_eq!(ledger.client(&ctx.client).unwrap().bounties_posted, 1);
    register_client(&mut ledger, key(2), 10 * UNIT);
    let other = bounty_ctx(key(2), "task");
    assert_ne!(other.bounty, ctx.bounty);
    post(&mut ledger, &other, "task", 1).unwrap();
}

#[test]
fn oversized_title_is_refused_at_derivation() {
    let mut ledger = Ledger::new(id());
    register_client(&mut ledger, key(1), 10 * UNIT);
    let title = "t".repeat(33);
    let ctx = CreateBounty {
        authority: key(1),
        client: client_address(&id(), &key(1)).unwrap().address,
        bounty: key(60),
        escrow_account: escrow_address(&id(), &key(60)).unwrap().address,
    };
    assert_eq!(
        post(&mut ledger, &ctx, &title, 1),
        Err(Error::Account(AccountError::InvalidSeeds))
    );
    assert_eq!(ledger.lamports(&key(1)), 10 * UNIT);
}

#[test]
fn oversized_texts_are_refused() {
    let mut ledger = Ledger::new(id());
    let client = register_client(&mut ledger, key(1), 10 * UNIT);
    let ctx = bounty_ctx(key(1), "task");
    let long = |description: String, skills: Vec<String>, ledger: &mut Ledger| {
        create_bounty(ledger, &ctx, "task".to_string(), description, 1, 0, skills, T)
    };
    assert_eq!(
        long("d".repeat(501), vec![], &mut ledger),
        Err(Error::Account(AccountError::DataTooLarge))
    );
    assert_eq!(
        long("d".to_string(), vec!["s".to_string(); 11], &mut ledger),
        Err(Error::Account(AccountError::DataTooLarge))
    );
    assert_eq!(
        long("d".to_string(), vec!["s".repeat(33)], &mut ledger),
        Err(Error::Account(AccountError::DataTooLarge))
    );
    assert_eq!(ledger.client(&client).unwrap().bounties_posted, 0);
    long("d".repeat(500), vec!["s".repeat(32); 10], &mut ledger).unwrap();
}

#[test]
fn resolved_creation_uses_the_addresses_handed_in() {
    let mut ledger = Ledger::new(id());
    ledger.deposit(&key(1), 3 * UNIT).unwrap();
    let client = client_address(&id(), &key(1)).unwrap().address;
    create_client(
        &mut ledger,
        &CreateClient { authority: key(1), client },
        "A".to_string(),
        "e".to_string(),
        "l".to_string(),
        T,
    )
    .unwrap();
    let ctx = CreateBounty { authority: key(1), client, bounty: key(70), escrow_account: key(71) };
    let pdas = CreateBountyPdas {
        client: Some(Pda { address: client, bump: 255 }),
        bounty: Some(Pda { address: key(70), bump: 200 }),
        escrow_account: Some(Pda { address: key(71), bump: 100 }),
    };
    create_bounty_resolved(
        &mut ledger,
        &ctx,
        &pdas,
        "x".repeat(33),
        "d".to_string(),
        1,
        0,
        vec![],
        T,
    )
    .unwrap_err();
    create_bounty_resolved(
        &mut ledger,
        &ctx,
        &pdas,
        "x".to_string(),
        "d".to_string(),
        1,
        0,
        vec![],
        T,
    )
    .unwrap();
    assert_eq!(ledger.bounty(&key(70)).unwrap().bump, 200);
    assert_eq!(ledger.lamports(&key(71)), UNIT);
    let same = CreateBounty { escrow_account: key(72), bounty: key(72), ..ctx };
    let same_pdas = CreateBountyPdas {
        bounty: Some(Pda { address: key(72), bump: 1 }),
        escrow_account: Some(Pda { address: key(72), bump: 1 }),
        ..pdas
    };
    assert_eq!(
        create_bounty_resolved(
            &mut ledger,
            &same,
            &same_pdas,
            "y".to_string(),
            "d".to_string(),
            1,
            0,
            vec![],
            T,
        ),
        Err(Error::Bounty(BountyError::InvalidEscrowAccount))
    );
    let none = CreateBountyPdas { bounty: None, ..pdas };
    assert_eq!(
        create_bounty_resolved(
            &mut ledger,
            &CreateBounty { bounty: key(73), ..ctx },
            &none,
            "z".to_string(),
            "d".to_string(),
            1,
            0,
            vec![],
            T,
        ),
        Err(Error::Account(AccountError::InvalidSeeds))
    );
}

#[test]
fn submission_is_recorded_and_counted() {
    let (mut ledger, ctx) = posted();
    ledger.deposit(&key(2), 0).unwrap();
    let user = register_user(&mut ledger, key(2));
    submit(&mut ledger, key(2), ctx.bounty, T + 10).unwrap();
    let address = submission_address(&id(), &key(2), &ctx.bounty).unwrap();
    let s = ledger.submission(&address.address).unwrap();
    assert_eq!(s.user_wallet_key, key(2));
    assert_eq!(s.user_key, user);
    assert_eq!(s.bounty_key, ctx.bounty);
    assert_eq!(s.description, "work");
    assert_eq!(s.work_url, "https://example.org/w");
    assert_eq!(s.bump, address.bump);
    assert_eq!(ledger.bounty(&ctx.bounty).unwrap().no_of_submissions, 1);
    assert_eq!(ledger.user(&user).unwrap().bounties_submitted, 1);
    assert_eq!(ledger.lamports(&ctx.escrow_account), 2 * UNIT);
    assert_eq!(ledger.lamports(&key(2)), 0);
}

#[test]
fn submission_at_the_deadline_is_accepted() {
    let (mut ledger, ctx) = posted();
    register_user(&mut ledger, key(2));
    submit(&mut ledger, key(2), ctx.bounty, T + 1000).unwrap();
}

#[test]
fn submission_after_the_deadline_is_refused() {
    let (mut ledger, ctx) = posted();
    let user = register_user(&mut ledger, key(2));
    assert_eq!(
        submit(&mut ledger, key(2), ctx.bounty, T + 1001),
        Err(Error::Bounty(BountyError::BountyDeadlinePassed))
    );
    assert_eq!(ledger.bounty(&ctx.bounty).unwrap().no_of_submissions, 0);
    assert_eq!(ledger.user(&user).unwrap().bounties_submitted, 0);
    let address = submission_address(&id(), &key(2), &ctx.bounty).unwrap().address;
    assert!(!ledger.contains(&address));
}

#[test]
fn second_submission_of_a_worker_is_refused() {
    let (mut ledger, ctx) = posted();
    let user = register_user(&mut ledger, key(2));
    submit(&mut ledger, key(2), ctx.bounty, T + 1).unwrap();
    assert_eq!(
        submit(&mut ledger, key(2), ctx.bounty, T + 2),
        Err(Error::Submission(SubmissionError::SubmissionAlreadyExists))
    );
    assert_eq!(ledger.bounty(&ctx.bounty).unwrap().no_of_submissions, 1);
    assert_eq!(ledger.user(&user).unwrap().bounties_submitted, 1);
    register_user(&mut ledger, key(3));
    submit(&mut ledger, key(3), ctx.bounty, T + 3).unwrap();
    assert_eq!(ledger.bounty(&ctx.bounty).unwrap().no_of_submissions, 2);
}

#[test]
fn signer_without_a_wallet_is_refused() {
    let (mut ledger, ctx) = posted();
    assert_eq!(
        submit(&mut ledger, key(2), ctx.bounty, T),
        Err(Error::User(UserError::InvalidUserAuthority))
    );
    let mut unsigned = Ledger::new(id());
    let names = bounty_ctx(key(1), "task");
    assert_eq!(
        post(&mut unsigned, &names, "task", 1),
        Err(Error::Client(ClientError::InvalidClientAuthority))
    );
}

#[test]
fn submission_needs_a_registered_worker_and_a_bounty() {
    let (mut ledger, ctx) = posted();
    ledger.deposit(&key(2), 0).unwrap();
    assert_eq!(
        submit(&mut ledger, key(2), ctx.bounty, T),
        Err(Error::User(UserError::UserNotFound))
    );
    register_user(&mut ledger, key(2));
    assert_eq!(
        submit(&mut ledger, key(2), key(99), T),
        Err(Error::Account(AccountError::BountyNotFound))
    );
}

#[test]
fn oversized_submission_texts_are_refused() {
    let (mut ledger, ctx) = posted();
    let user = register_user(&mut ledger, key(2));
    let submission = submission_address(&id(), &key(2), &ctx.bounty).unwrap().address;
    let sctx = CreateSubmission { authority: key(2), user, bounty: ctx.bounty, submission };
    assert_eq!(
        create_submission(&mut ledger, &sctx, "d".repeat(501), "l".to_string(), T),
        Err(Error::Submission(SubmissionError::DescriptionTooLong))
    );
    assert_eq!(
        create_submission(&mut ledger, &sctx, "d".to_string(), "l".repeat(281), T),
        Err(Error::Submission(SubmissionError::InvalidSubmissionLink))
    );
    create_submission(&mut ledger, &sctx, "d".repeat(500), "l".repeat(280), T).unwrap();
}

#[test]
fn update_replaces_description_and_deadline_only() {
    let (mut ledger, ctx) = posted();
    let uctx = UpdateBounty { authority: key(1), client: ctx.client, bounty: ctx.bounty };
    update_bounty(&mut ledger, &uctx, "task".to_string(), "new text".to_string(), 77).unwrap();
    let b = ledger.bounty(&ctx.bounty).unwrap();
    assert_eq!(b.description, "new text");
    assert_eq!(b.deadline, 77);
    assert_eq!(b.title, "task");
    assert_eq!(b.reward, 2);
    assert_eq!(b.escrow_account, ctx.escrow_account);
    assert!(b.live);
    assert_eq!(ledger.lamports(&ctx.escrow_account), 2 * UNIT);
    assert_eq!(ledger.lamports(&key(1)), 8 * UNIT);
}

#[test]
fn update_after_a_submission_is_refused() {
    let (mut ledger, ctx) = posted();
    register_user(&mut ledger, key(2));
    submit(&mut ledger, key(2), ctx.bounty, T + 1).unwrap();
    let uctx = UpdateBounty { authority: key(1), client: ctx.client, bounty: ctx.bounty };
    assert_eq!(
        update_bounty(&mut ledger, &uctx, "task".to_string(), "new".to_string(), 77),
        Err(Error::Bounty(BountyError::CannotUpdateWithSubmissions))
    );
    let b = ledger.bounty(&ctx.bounty).unwrap();
    assert_eq!(b.description, "description");
    assert_eq!(b.deadline, (T + 1000) as u64);
}

#[test]
fn update_by_another_client_is_refused() {
    let (mut ledger, ctx) = posted();
    let other = register_client(&mut ledger, key(2), 0);
    let uctx = UpdateBounty { authority: key(2), client: other, bounty: ctx.bounty };
    assert_eq!(
        update_bounty(&mut ledger, &uctx, "task".to_string(), "new".to_string(), 77),
        Err(Error::Client(ClientError::NotAuthorizedForBounty))
    );
    assert_eq!(ledger.bounty(&ctx.bounty).unwrap().description, "description");
}

#[test]
fn update_under_another_title_is_refused() {
    let (mut ledger, ctx) = posted();
    let uctx = UpdateBounty { authority: key(1), client: ctx.client, bounty: ctx.bounty };
    assert_eq!(
        update_bounty(&mut ledger, &uctx, "other".to_string(), "new".to_string(), 77),
        Err(Error::Account(AccountError::InvalidBountyAccount))
    );
    assert_eq!(
        update_bounty(&mut ledger, &uctx, "task".to_string(), "d".repeat(501), 77),
        Err(Error::Account(AccountError::DataTooLarge))
    );
}

#[test]
fn delete_after_a_submission_is_refused() {
    let (mut ledger, ctx) = posted();
    register_user(&mut ledger, key(2));
    submit(&mut ledger, key(2), ctx.bounty, T + 1).unwrap();
    let dctx = DeleteBounty {
        authority: key(1),
        client: ctx.client,
        bounty: ctx.bounty,
        escrow_account: ctx.escrow_account,
    };
    assert_eq!(
        delete_bounty(&mut ledger, &dctx, "task".to_string()),
        Err(Error::Bounty(BountyError::CannotDeleteWithSubmissions))
    );
    assert!(ledger.bounty(&ctx.bounty).unwrap().live);
    assert_eq!(ledger.lamports(&ctx.escrow_account), 2 * UNIT);
    assert_eq!(ledger.lamports(&key(1)), 8 * UNIT);
    assert_eq!(ledger.client(&ctx.client).unwrap().bounties_posted, 1);
}

#[test]
fn delete_refunds_what_the_escrow_holds_now() {
    let (mut ledger, ctx) = posted();
    ledger.deposit(&ctx.escrow_account, 5).unwrap();
    ledger.deposit(&ctx.bounty, 7).unwrap();
    let dctx = DeleteBounty {
        authority: key(1),
        client: ctx.client,
        bounty: ctx.bounty,
        escrow_account: ctx.escrow_account,
    };
    delete_bounty(&mut ledger, &dctx, "task".to_string()).unwrap();
    assert_eq!(ledger.lamports(&key(1)), 10 * UNIT + 12);
    assert_eq!(
        delete_bounty(&mut ledger, &dctx, "task".to_string()),
        Err(Error::Account(AccountError::BountyNotFound))
    );
}

#[test]
fn closed_bounty_takes_no_edit_cancellation_or_submission() {
    let (mut ledger, ctx) = posted();
    register_user(&mut ledger, key(2));
    register_user(&mut ledger, key(3));
    submit(&mut ledger, key(2), ctx.bounty, T + 1).unwrap();
    select_submission(&mut ledger, &selection(&ctx, key(2)), RETAINED).unwrap();
    assert_eq!(
        submit(&mut ledger, key(3), ctx.bounty, T + 2),
        Err(Error::Bounty(BountyError::BountyNotLive))
    );
    let uctx = UpdateBounty { authority: key(1), client: ctx.client, bounty: ctx.bounty };
    assert_eq!(
        update_bounty(&mut ledger, &uctx, "task".to_string(), "new".to_string(), 77),
        Err(Error::Bounty(BountyError::BountyAlreadyClosed))
    );
    let dctx = DeleteBounty {
        authority: key(1),
        client: ctx.client,
        bounty: ctx.bounty,
        escrow_account: ctx.escrow_account,
    };
    assert_eq!(
        delete_bounty(&mut ledger, &dctx, "task".to_string()),
        Err(Error::Bounty(BountyError::BountyAlreadyClosed))
    );
    assert_eq!(ledger.lamports(&ctx.escrow_account), RETAINED);
}

#[test]
fn selection_moves_the_balance_but_counts_the_nominal_reward() {
    let (mut ledger, ctx) = posted();
    register_user(&mut ledger, key(2));
    submit(&mut ledger, key(2), ctx.bounty, T + 1).unwrap();
    ledger.deposit(&ctx.escrow_account, 1_000).unwrap();
    ledger.deposit(&key(2), 40).unwrap();
    select_submission(&mut ledger, &selection(&ctx, key(2)), RETAINED).unwrap();
    assert_eq!(ledger.lamports(&ctx.escrow_account), RETAINED);
    assert_eq!(ledger.lamports(&key(2)), 40 + 2 * UNIT + 1_000 - RETAINED);
    let user = user_address(&id(), &key(2)).unwrap().address;
    assert_eq!(ledger.user(&user).unwrap().earned, 2 * UNIT);
    assert_eq!(ledger.client(&ctx.client).unwrap().rewarded, 2 * UNIT);
    assert_eq!(ledger.lamports(&key(1)), 8 * UNIT);
}

#[test]
fn selection_moves_nothing_from_an_escrow_below_the_minimum() {
    let (mut ledger, ctx) = posted();
    register_user(&mut ledger, key(2));
    submit(&mut ledger, key(2), ctx.bounty, T + 1).unwrap();
    select_submission(&mut ledger, &selection(&ctx, key(2)), 3 * UNIT).unwrap();
    assert_eq!(ledger.lamports(&ctx.escrow_account), 2 * UNIT);
    assert_eq!(ledger.lamports(&key(2)), 0);
    let user = user_address(&id(), &key(2)).unwrap().address;
    assert_eq!(ledger.user(&user).unwrap().earned, 2 * UNIT);
    assert!(ledger.bounty(&ctx.bounty).unwrap().bounty_rewarded);
}

#[test]
fn selection_with_no_retained_minimum_empties_the_escrow() {
    let (mut ledger, ctx) = posted();
    register_user(&mut ledger, key(2));
    submit(&mut ledger, key(2), ctx.bounty, T + 1).unwrap();
    select_submission(&mut ledger, &selection(&ctx, key(2)), 0).unwrap();
    assert_eq!(ledger.lamports(&ctx.escrow_account), 0);
    assert_eq!(ledger.lamports(&key(2)), 2 * UNIT);
}

#[test]
fn selection_of_a_submission_by_someone_else_is_refused() {
    let (mut ledger, ctx) = posted();
    register_user(&mut ledger, key(2));
    register_user(&mut ledger, key(3));
    submit(&mut ledger, key(2), ctx.bounty, T + 1).unwrap();
    let mut select = selection(&ctx, key(3));
    select.submission = submission_address(&id(), &key(2), &ctx.bounty).unwrap().address;
    assert_eq!(
        select_submission(&mut ledger, &select, RETAINED),
        Err(Error::Submission(SubmissionError::InvalidSubmission))
    );
    assert!(ledger.bounty(&ctx.bounty).unwrap().live);
    assert_eq!(ledger.lamports(&ctx.escrow_account), 2 * UNIT);
    assert_eq!(ledger.lamports(&key(3)), 0);
}

#[test]
fn selection_paying_another_wallet_is_refused() {
    let (mut ledger, ctx) = posted();
    register_user(&mut ledger, key(2));
    submit(&mut ledger, key(2), ctx.bounty, T + 1).unwrap();
    let mut select = selection(&ctx, key(2));
    select.selected_user_wallet = key(9);
    assert_eq!(
        select_submission(&mut ledger, &select, RETAINED),
        Err(Error::User(UserError::InvalidUserAuthority))
    );
    assert_eq!(ledger.lamports(&key(9)), 0);
    assert_eq!(ledger.lamports(&ctx.escrow_account), 2 * UNIT);
}

#[test]
fn selection_by_another_client_is_refused() {
    let (mut ledger, ctx) = posted();
    let other = register_client(&mut ledger, key(5), 0);
    register_user(&mut ledger, key(2));
    submit(&mut ledger, key(2), ctx.bounty, T + 1).unwrap();
    let mut select = selection(&ctx, key(2));
    select.authority = key(5);
    select.client = other;
    assert_eq!(
        select_submission(&mut ledger, &select, RETAINED),
        Err(Error::Client(ClientError::NotAuthorizedForBounty))
    );
    assert!(ledger.bounty(&ctx.bounty).unwrap().live);
}

#[test]
fn selection_of_a_submission_to_another_bounty_is_refused() {
    let (mut ledger, ctx) = posted();
    let second = bounty_ctx(key(1), "second");
    post(&mut ledger, &second, "second", 1).unwrap();
    register_user(&mut ledger, key(2));
    submit(&mut ledger, key(2), second.bounty, T + 1).unwrap();
    let mut select = selection(&ctx, key(2));
    select.submission = submission_address(&id(), &key(2), &second.bounty).unwrap().address;
    assert_eq!(
        select_submission(&mut ledger, &select, RETAINED),
        Err(Error::Submission(SubmissionError::WrongBounty))
    );
    select.submission = key(88);
    assert_eq!(
        select_submission(&mut ledger, &select, RETAINED),
        Err(Error::Submission(SubmissionError::SubmissionNotFound))
    );
}

#[test]
fn selection_without_the_escrow_of_the_bounty_is_refused() {
    let (mut ledger, ctx) = posted();
    let second = bounty_ctx(key(1), "second");
    post(&mut ledger, &second, "second", 1).unwrap();
    register_user(&mut ledger, key(2));
    submit(&mut ledger, key(2), ctx.bounty, T + 1).unwrap();
    let mut select = selection(&ctx, key(2));
    select.escrow_account = second.escrow_account;
    assert_eq!(
        select_submission(&mut ledger, &select, RETAINED),
        Err(Error::Bounty(BountyError::InvalidEscrowAccount))
    );
    assert_eq!(ledger.lamports(&second.escrow_account), UNIT);
}

#[test]
fn full_counters_refuse_the_operation() {
    let (mut ledger, ctx) = posted();
    register_user(&mut ledger, key(2));
    submit(&mut ledger, key(2), ctx.bounty, T + 1).unwrap();
    ledger.deposit(&key(2), u64::MAX).unwrap();
    assert_eq!(
        select_submission(&mut ledger, &selection(&ctx, key(2)), RETAINED),
        Err(Error::Account(AccountError::ArithmeticOverflow))
    );
    assert!(ledger.bounty(&ctx.bounty).unwrap().live);
    assert_eq!(ledger.lamports(&ctx.escrow_account), 2 * UNIT);
    assert_eq!(ledger.lamports(&key(2)), u64::MAX);
}

#[test]
fn operations_on_a_bounty_need_its_escrow_account() {
    let (mut ledger, ctx) = posted();
    register_user(&mut ledger, key(2));
    submit(&mut ledger, key(2), ctx.bounty, T + 1).unwrap();
    let escrow = ledger.remove(&ctx.escrow_account).unwrap();
    assert_eq!(escrow, Account { lamports: 2 * UNIT, record: Record::Escrow });
    assert_eq!(
        select_submission(&mut ledger, &selection(&ctx, key(2)), RETAINED),
        Err(Error::Bounty(BountyError::EscrowAccountNotFound))
    );
    assert!(ledger.bounty(&ctx.bounty).unwrap().live);

    let (mut ledger, ctx) = posted();
    ledger.remove(&ctx.escrow_account).unwrap();
    ledger.deposit(&ctx.escrow_account, 5).unwrap();
    let dctx = DeleteBounty {
        authority: key(1),
        client: ctx.client,
        bounty: ctx.bounty,
        escrow_account: ctx.escrow_account,
    };
    assert_eq!(
        delete_bounty(&mut ledger, &dctx, "task".to_string()),
        Err(Error::Bounty(BountyError::EscrowAccountNotFound))
    );
    assert!(ledger.contains(&ctx.bounty));
    assert_eq!(ledger.lamports(&key(1)), 8 * UNIT);
}

fn client_record(authority: Address, bounties_posted: u64, rewarded: u64) -> Record {
    Record::Client(Client {
        authority,
        company_name: "A".to_string(),
        company_email: "e".to_string(),
        company_avatar: "A".to_string(),
        company_link: "l".to_string(),
        company_bio: "b".to_string(),
        joined_at: 0,
        rewarded,
        bounties_posted,
        bump: 255,
    })
}

#[test]
fn full_counter_of_posted_bounties_refuses_another() {
    let mut ledger = Ledger::new(id());
    ledger.deposit(&key(1), 10 * UNIT).unwrap();
    let ctx = bounty_ctx(key(1), "task");
    assert!(ledger.open_account(
        ctx.client,
        Account { lamports: 0, record: client_record(key(1), u64::MAX, 0) }
    ));
    assert_eq!(
        post(&mut ledger, &ctx, "task", 1),
        Err(Error::Account(AccountError::ArithmeticOverflow))
    );
    assert_eq!(ledger.lamports(&key(1)), 10 * UNIT);
    assert!(!ledger.contains(&ctx.bounty));
    assert!(!ledger.contains(&ctx.escrow_account));
    assert_eq!(ledger.client(&ctx.client).unwrap().bounties_posted, u64::MAX);
}

#[test]
fn empty_counter_of_posted_bounties_refuses_a_cancellation() {
    let (mut ledger, ctx) = posted();
    let account = ledger.remove(&ctx.client).unwrap();
    assert_eq!(account.lamports, 0);
    assert!(ledger.open_account(
        ctx.client,
        Account { lamports: 0, record: client_record(key(1), 0, 0) }
    ));
    let dctx = DeleteBounty {
        authority: key(1),
        client: ctx.client,
        bounty: ctx.bounty,
        escrow_account: ctx.escrow_account,
    };
    assert_eq!(
        delete_bounty(&mut ledger, &dctx, "task".to_string()),
        Err(Error::Account(AccountError::ArithmeticOverflow))
    );
    assert!(ledger.contains(&ctx.bounty));
    assert_eq!(ledger.lamports(&ctx.escrow_account), 2 * UNIT);
}

#[test]
fn full_totals_refuse_a_selection() {
    let (mut ledger, ctx) = posted();
    register_user(&mut ledger, key(2));
    submit(&mut ledger, key(2), ctx.bounty, T + 1).unwrap();
    ledger.remove(&ctx.client).unwrap();
    assert!(ledger.open_account(
        ctx.client,
        Account { lamports: 0, record: client_record(key(1), 1, u64::MAX - 2 * UNIT + 1) }
    ));
    let select = selection(&ctx, key(2));
    assert_eq!(
        select_submission(&mut ledger, &select, RETAINED),
        Err(Error::Account(AccountError::ArithmeticOverflow))
    );
    assert_eq!(ledger.lamports(&ctx.escrow_account), 2 * UNIT);
    assert_eq!(ledger.user(&select.selected_user).unwrap().earned, 0);
    ledger.remove(&ctx.client).unwrap();
    assert!(ledger.open_account(
        ctx.client,
        Account { lamports: 0, record: client_record(key(1), 1, u64::MAX - 2 * UNIT) }
    ));
    select_submission(&mut ledger, &select, RETAINED).unwrap();
    assert_eq!(ledger.client(&ctx.client).unwrap().rewarded, u64::MAX);
}

#[test]
fn resolved_selection_checks_who_wrote_the_submission() {
    let (mut ledger, ctx) = posted();
    ledger.deposit(&key(2), 0).unwrap();
    let user = Record::User(User {
        authority: key(2),
        name: "W".to_string(),
        email: "e".to_string(),
        avatar: "W".to_string(),
        bio: "b".to_string(),
        skills: vec![],
        joined_at: 0,
        earned: 10,
        bounties_submitted: 1,
        bounties_completed: 4,
        bump: 250,
    });
    let submission = Record::Submission(Submission {
        user_wallet_key: key(3),
        user_key: key(20),
        bounty_key: ctx.bounty,
        description: "d".to_string(),
        work_url: "l".to_string(),
        bump: 251,
    });
    assert!(ledger.open_account(key(20), Account { lamports: 0, record: user }));
    assert!(ledger.open_account(key(21), Account { lamports: 0, record: submission }));
    let select = SelectSubmission {
        authority: key(1),
        client: ctx.client,
        bounty: ctx.bounty,
        submission: key(21),
        selected_user: key(20),
        escrow_account: ctx.escrow_account,
        selected_user_wallet: key(2),
    };
    let stored = ledger.bounty(&ctx.bounty).unwrap().bump;
    let pdas = SelectSubmissionPdas {
        client: Some(Pda { address: ctx.client, bump: 255 }),
        bounty: Some(Pda { address: ctx.bounty, bump: stored }),
        submission: Some(Pda { address: key(21), bump: 251 }),
        selected_user: Some(Pda { address: key(20), bump: 250 }),
        escrow_account: Some(Pda { address: ctx.escrow_account, bump: 255 }),
    };
    assert_eq!(
        select_submission_resolved(&mut ledger, &select, &pdas, RETAINED),
        Err(Error::Submission(SubmissionError::InvalidSubmission))
    );
    assert_eq!(ledger.lamports(&ctx.escrow_account), 2 * UNIT);
    let wrong_bump = SelectSubmissionPdas {
        bounty: Some(Pda { address: ctx.bounty, bump: stored.wrapping_sub(1) }),
        ..pdas
    };
    assert_eq!(
        select_submission_resolved(&mut ledger, &select, &wrong_bump, RETAINED),
        Err(Error::Account(AccountError::InvalidBountyAccount))
    );
}
