use solearn::deriver::{client_address, user_address, Pda};
use solearn::program::id;
use solearn::{
    create_client, create_client_resolved, create_user, delete_client, delete_user,
    process_avatar, update_client, update_user, Address, ClientError, CreateClient, CreateUser,
    DeleteClient, DeleteUser, Error, Ledger, UpdateClient, UpdateUser, UserError,
};

const T: i64 = 1_700_000_000;

fn key(n: u8) -> Address {
    Address::new([n; 32])
}

fn avatar_by_the_text_functions(input: &str) -> String {
    let trimmed = input.trim();
    if trimmed.contains(' ') {
        trimmed.split_whitespace().filter_map(|word| word.chars().next()).collect()
    } else {
        trimmed.chars().take(2).collect()
    }
}

fn funded() -> Ledger {
    let mut ledger = Ledger::new(id());
    ledger.deposit(&key(1), 0).unwrap();
    ledger.deposit(&key(2), 0).unwrap();
    ledger.deposit(&key(3), 0).unwrap();
    ledger
}

fn client_ctx(wallet: Address) -> CreateClient {
    CreateClient { authority: wallet, client: client_address(&id(), &wallet).unwrap().address }
}

fn user_ctx(wallet: Address) -> CreateUser {
    CreateUser { authority: wallet, user: user_address(&id(), &wallet).unwrap().address }
}

fn new_client(ledger: &mut Ledger, name: &str, email: &str, link: &str) -> Result<(), Error> {
    create_client(
        ledger,
        &client_ctx(key(1)),
        name.to_string(),
        email.to_string(),
        link.to_string(),
        T,
    )
}

fn new_user(ledger: &mut Ledger, name: &str, email: &str) -> Result<(), Error> {
    create_user(
        ledger,
        &user_ctx(key(2)),
        name.to_string(),
        email.to_string(),
        vec!["rust".to_string()],
        T,
    )
}

#[test]
fn avatar_of_several_words_is_their_initials() {
    assert_eq!(process_avatar("Acme Corp"), "AC");
    assert_eq!(process_avatar("John Ronald Reuel Tolkien"), "JRRT");
    assert_eq!(process_avatar("  Acme   Widget\tWorks  "), "AWW");
    assert_eq!(process_avatar("a b"), "ab");
    assert_eq!(process_avatar("Élan Vital"), "ÉV");
}

#[test]
fn avatar_of_one_word_is_its_first_two_characters() {
    assert_eq!(process_avatar("solana"), "so");
    assert_eq!(process_avatar("  solana\n"), "so");
    assert_eq!(process_avatar("x"), "x");
    assert_eq!(process_avatar("  x  "), "x");
    assert_eq!(process_avatar("ab"), "ab");
    assert_eq!(process_avatar("日本語"), "日本");
}

#[test]
fn avatar_of_nothing_is_empty() {
    assert_eq!(process_avatar(""), "");
    assert_eq!(process_avatar("   "), "");
    assert_eq!(process_avatar("\t\n"), "");
}

#[test]
fn avatar_looks_for_a_space_not_for_any_whitespace() {
    assert_eq!(process_avatar("a\tb"), "a\t");
    assert_eq!(process_avatar("ab\tcd ef"), "ace");
    assert_eq!(process_avatar("a\u{a0}b"), "a\u{a0}");
    assert_eq!(process_avatar("a\u{3000}b c"), "abc");
}

#[test]
fn avatar_agrees_with_the_text_functions() {
    let inputs = [
        "",
        " ",
        "a",
        " a",
        "a ",
        "ab",
        "abc",
        "a b",
        "a  b",
        " a b ",
        "\ta b\n",
        "a\tb",
        "one two three",
        "x\u{2003}y z",
        "\u{2003}x y\u{2003}",
        "Zoë Åström-Öberg",
        "🙂 smile",
        "🙂🙂🙂",
        "a\u{85}b c",
        "\u{feff}a b",
    ];
    for input in inputs {
        assert_eq!(process_avatar(input), avatar_by_the_text_functions(input), "{:?}", input);
    }
}

#[test]
fn new_client_has_empty_totals() {
    let mut ledger = funded();
    new_client(&mut ledger, "Acme Corp", "mail@acme.example", "https://acme.example").unwrap();
    let ctx = client_ctx(key(1));
    let c = ledger.client(&ctx.client).unwrap();
    assert_eq!(c.authority, key(1));
    assert_eq!(c.company_name, "Acme Corp");
    assert_eq!(c.company_email, "mail@acme.example");
    assert_eq!(c.company_avatar, "AC");
    assert_eq!(c.company_link, "https://acme.example");
    assert_eq!(c.company_bio, "Hi I'm a new client");
    assert_eq!(c.joined_at, T as u64);
    assert_eq!(c.rewarded, 0);
    assert_eq!(c.bounties_posted, 0);
    assert_eq!(c.bump, client_address(&id(), &key(1)).unwrap().bump);
    assert_eq!(ledger.lamports(&ctx.client), 0);
}

#[test]
fn registration_needs_the_wallet_of_the_signer() {
    let mut ledger = Ledger::new(id());
    assert_eq!(
        new_client(&mut ledger, "Acme", "m", "l"),
        Err(Error::Client(ClientError::InvalidClientAuthority))
    );
    assert_eq!(new_user(&mut ledger, "W", "m"), Err(Error::User(UserError::InvalidUserAuthority)));
    assert!(!ledger.contains(&client_ctx(key(1)).client));
    assert!(!ledger.contains(&user_ctx(key(2)).user));
}

#[test]
fn client_registers_once() {
    let mut ledger = funded();
    new_client(&mut ledger, "Acme", "m", "l").unwrap();
    assert_eq!(
        new_client(&mut ledger, "Other", "m", "l"),
        Err(Error::Client(ClientError::ClientAlreadyExists))
    );
    assert_eq!(ledger.client(&client_ctx(key(1)).client).unwrap().company_name, "Acme");
}

#[test]
fn client_record_lives_at_the_address_of_its_signer() {
    let mut ledger = funded();
    let ctx = CreateClient { authority: key(1), client: client_ctx(key(2)).client };
    assert_eq!(
        create_client(&mut ledger, &ctx, "A".to_string(), "m".to_string(), "l".to_string(), T),
        Err(Error::Client(ClientError::InvalidClientAuthority))
    );
    assert!(!ledger.contains(&ctx.client));
    assert_eq!(
        create_client_resolved(
            &mut ledger,
            &CreateClient { authority: key(1), client: key(1) },
            &Some(Pda { address: key(1), bump: 3 }),
            "A".to_string(),
            "m".to_string(),
            "l".to_string(),
            T,
        ),
        Err(Error::Client(ClientError::ClientAlreadyExists))
    );
    create_client_resolved(
        &mut ledger,
        &CreateClient { authority: key(1), client: key(8) },
        &Some(Pda { address: key(8), bump: 3 }),
        "A".to_string(),
        "m".to_string(),
        "l".to_string(),
        T,
    )
    .unwrap();
    assert_eq!(ledger.client(&key(8)).unwrap().bump, 3);
}

#[test]
fn client_texts_are_checked_in_order() {
    let mut ledger = funded();
    let name = Err(Error::Client(ClientError::InvalidCompanyNameFormat));
    let email = Err(Error::Client(ClientError::InvalidCompanyEmailFormat));
    let link = Err(Error::Client(ClientError::InvalidCompanyLinkFormat));
    assert_eq!(new_client(&mut ledger, "", "", ""), name);
    assert_eq!(new_client(&mut ledger, "n", "", ""), email);
    assert_eq!(new_client(&mut ledger, "n", "m", ""), link);
    assert_eq!(new_client(&mut ledger, &"n".repeat(33), &"m".repeat(101), "l"), name);
    assert_eq!(new_client(&mut ledger, "n", &"m".repeat(101), &"l".repeat(101)), email);
    assert_eq!(new_client(&mut ledger, "n", "m", &"l".repeat(101)), link);
    assert_eq!(new_client(&mut ledger, &"é".repeat(17), "m", "l"), name);
    assert!(!ledger.contains(&client_ctx(key(1)).client));
    new_client(&mut ledger, &"n".repeat(32), &"m".repeat(100), &"l".repeat(100)).unwrap();
}

#[test]
fn client_update_replaces_the_texts_and_keeps_the_totals() {
    let mut ledger = funded();
    new_client(&mut ledger, "Acme Corp", "m", "l").unwrap();
    let address = client_ctx(key(1)).client;
    let ctx = UpdateClient { authority: key(1), client: address };
    update_client(
        &mut ledger,
        &ctx,
        "Bolt".to_string(),
        "b@bolt.example".to_string(),
        "https://bolt.example".to_string(),
        "We bolt".to_string(),
    )
    .unwrap();
    let c = ledger.client(&address).unwrap();
    assert_eq!(c.company_name, "Bolt");
    assert_eq!(c.company_email, "b@bolt.example");
    assert_eq!(c.company_avatar, "Bo");
    assert_eq!(c.company_link, "https://bolt.example");
    assert_eq!(c.company_bio, "We bolt");
    assert_eq!(c.joined_at, T as u64);
    assert_eq!(c.authority, key(1));
    assert_eq!(
        update_client(
            &mut ledger,
            &ctx,
            "Bolt".to_string(),
            "b".to_string(),
            "l".to_string(),
            "b".repeat(281),
        ),
        Err(Error::Client(ClientError::InvalidCompanyNameFormat))
    );
    assert_eq!(
        update_client(
            &mut ledger,
            &ctx,
            "Bolt".to_string(),
            "".to_string(),
            "l".to_string(),
            "b".to_string(),
        ),
        Err(Error::Client(ClientError::InvalidCompanyEmailFormat))
    );
    assert_eq!(ledger.client(&address).unwrap().company_bio, "We bolt");
    let stranger = UpdateClient { authority: key(2), client: address };
    assert_eq!(
        update_client(
            &mut ledger,
            &stranger,
            "X".to_string(),
            "b".to_string(),
            "l".to_string(),
            "b".to_string(),
        ),
        Err(Error::Client(ClientError::InvalidClientAuthority))
    );
    let absent = UpdateClient { authority: key(3), client: client_ctx(key(3)).client };
    assert_eq!(
        update_client(
            &mut ledger,
            &absent,
            "X".to_string(),
            "b".to_string(),
            "l".to_string(),
            "b".to_string(),
        ),
        Err(Error::Client(ClientError::ClientNotFound))
    );
}

#[test]
fn deleted_client_hands_its_balance_to_the_signer() {
    let mut ledger = funded();
    new_client(&mut ledger, "Acme", "m", "l").unwrap();
    let address = client_ctx(key(1)).client;
    ledger.deposit(&address, 500).unwrap();
    ledger.deposit(&key(1), 20).unwrap();
    let ctx = DeleteClient { authority: key(1), client: address };
    assert_eq!(
        delete_client(&mut ledger, &DeleteClient { authority: key(2), client: address }),
        Err(Error::Client(ClientError::InvalidClientAuthority))
    );
    delete_client(&mut ledger, &ctx).unwrap();
    assert!(!ledger.contains(&address));
    assert_eq!(ledger.lamports(&key(1)), 520);
    assert_eq!(delete_client(&mut ledger, &ctx), Err(Error::Client(ClientError::ClientNotFound)));
    new_client(&mut ledger, "Again", "m", "l").unwrap();
}

#[test]
fn new_user_has_empty_totals() {
    let mut ledger = funded();
    new_user(&mut ledger, "Wanda Worker", "w@example.org").unwrap();
    let ctx = user_ctx(key(2));
    let u = ledger.user(&ctx.user).unwrap();
    assert_eq!(u.authority, key(2));
    assert_eq!(u.name, "Wanda Worker");
    assert_eq!(u.email, "w@example.org");
    assert_eq!(u.avatar, "WW");
    assert_eq!(u.bio, "Hi I'm a new user");
    assert_eq!(u.skills, vec!["rust".to_string()]);
    assert_eq!(u.joined_at, T as u64);
    assert_eq!(u.earned, 0);
    assert_eq!(u.bounties_submitted, 0);
    assert_eq!(u.bounties_completed, 0);
    assert_eq!(u.bump, user_address(&id(), &key(2)).unwrap().bump);
}

#[test]
fn user_texts_are_checked_in_order() {
    let mut ledger = funded();
    let name = Err(Error::User(UserError::InvalidNameFormat));
    let email = Err(Error::User(UserError::InvalidEmailFormat));
    assert_eq!(new_user(&mut ledger, "", ""), name);
    assert_eq!(new_user(&mut ledger, "n", ""), email);
    assert_eq!(new_user(&mut ledger, &"n".repeat(33), &"m".repeat(101)), name);
    assert_eq!(new_user(&mut ledger, "n", &"m".repeat(101)), email);
    new_user(&mut ledger, &"n".repeat(32), &"m".repeat(100)).unwrap();
    assert_eq!(new_user(&mut ledger, "n", "m"), Err(Error::User(UserError::UserAlreadyExists)));
}

#[test]
fn user_update_replaces_texts_and_skills() {
    let mut ledger = funded();
    new_user(&mut ledger, "Wanda Worker", "w@example.org").unwrap();
    let address = user_ctx(key(2)).user;
    let ctx = UpdateUser { authority: key(2), user: address };
    update_user(
        &mut ledger,
        &ctx,
        "Wendy".to_string(),
        "m".repeat(150),
        "I work".to_string(),
        vec!["go".to_string(), "c".to_string()],
    )
    .unwrap();
    let u = ledger.user(&address).unwrap();
    assert_eq!(u.name, "Wendy");
    assert_eq!(u.email, "m".repeat(150));
    assert_eq!(u.avatar, "We");
    assert_eq!(u.bio, "I work");
    assert_eq!(u.skills, vec!["go".to_string(), "c".to_string()]);
    assert_eq!(u.joined_at, T as u64);
    let refused = |name: &str, email: &str, bio: String, ledger: &mut Ledger| {
        update_user(ledger, &ctx, name.to_string(), email.to_string(), bio, vec![])
    };
    assert_eq!(
        refused("", "m", "b".to_string(), &mut ledger),
        Err(Error::User(UserError::InvalidNameFormat))
    );
    assert_eq!(
        refused("n", "", "b".to_string(), &mut ledger),
        Err(Error::User(UserError::InvalidEmailFormat))
    );
    assert_eq!(
        refused(&"n".repeat(33), "m", "b".repeat(281), &mut ledger),
        Err(Error::User(UserError::InvalidNameFormat))
    );
    assert_eq!(
        refused("n", "m", "b".repeat(281), &mut ledger),
        Err(Error::User(UserError::InvalidBioFormat))
    );
    assert_eq!(ledger.user(&address).unwrap().name, "Wendy");
    assert_eq!(
        update_user(
            &mut ledger,
            &UpdateUser { authority: key(3), user: address },
            "n".to_string(),
            "m".to_string(),
            "b".to_string(),
            vec![],
        ),
        Err(Error::User(UserError::InvalidUserAuthority))
    );
}

#[test]
fn deleted_user_is_gone() {
    let mut ledger = funded();
    new_user(&mut ledger, "Wanda", "w").unwrap();
    let address = user_ctx(key(2)).user;
    ledger.deposit(&address, 9).unwrap();
    let ctx = DeleteUser { authority: key(2), user: address };
    delete_user(&mut ledger, &ctx).unwrap();
    assert!(ledger.user(&address).is_none());
    assert_eq!(ledger.lamports(&key(2)), 9);
    assert_eq!(delete_user(&mut ledger, &ctx), Err(Error::User(UserError::UserNotFound)));
}
