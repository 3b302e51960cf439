use live_code_lib::accounts::{AccountStore, InsertReply, Lookup};
use live_code_lib::coordinator::{
    answer, availability, check_email_available, check_field_available_internal,
    check_username_available, register_user_internal,
};
use live_code_lib::models::{Field, RegisterRequest, RegisterResponse, TRY_AGAIN};
use live_code_lib::password::verify_password;
use live_code_lib::register::{
    violated_column, Phase, Registration, Step, StoreReply, StoreRequest,
};

fn request(email: &str, username: &str, password: &str) -> RegisterRequest {
    RegisterRequest {
        email: email.to_string(),
        username: username.to_string(),
        password: password.to_string(),
    }
}

fn conflicts(response: &RegisterResponse) -> Vec<(Field, String)> {
    response
        .field_errors
        .as_ref()
        .map(|errors| errors.iter().map(|e| (e.field, e.message.clone())).collect())
        .unwrap_or_default()
}

fn finished(step: Step) -> Result<RegisterResponse, String> {
    match step {
        Step::Finish(result) => result,
        Step::Ask(_) => panic!("the registration asked for more"),
    }
}

#[test]
fn test_register_user_success() {
    let mut store = AccountStore::new();
    let payload = request("test@example1.com", "@testuser1", "TestPass123!");

    let result = register_user_internal(payload, &mut store);

    assert!(result.is_ok());
    let response = result.unwrap();
    assert_eq!(response.success, true);
}

#[test]
fn first_registration_on_an_empty_store_succeeds() {
    let mut store = AccountStore::new();
    let response =
        register_user_internal(request("a@b.com", "alice", "Secret1!"), &mut store).unwrap();
    assert!(response.success);
    assert!(response.field_errors.is_none());
    assert_eq!(response.message, "Account created.");
    let user = response.user.unwrap();
    assert_eq!(user.id, "1");
    assert_eq!(user.username, "alice");
    assert_eq!(user.email, "a@b.com");
    assert_eq!(store.len(), 1);
    let row = store.row(0).unwrap();
    assert_eq!(row.id, "1");
    assert_eq!(row.email, "a@b.com");
    assert_eq!(row.username, "alice");
    assert_ne!(row.password_hash, "Secret1!");
    assert!(verify_password("Secret1!", &row.password_hash));
    assert!(store.row(1).is_none());
}

#[test]
fn registering_an_email_twice_reports_the_email_and_writes_no_row() {
    let mut store = AccountStore::new();
    let first =
        register_user_internal(request("a@b.com", "alice", "Secret1!"), &mut store).unwrap();
    assert!(first.success);
    assert!(first.field_errors.is_none());

    let second =
        register_user_internal(request("a@b.com", "bob", "Secret1!"), &mut store).unwrap();
    assert!(!second.success);
    assert_eq!(conflicts(&second), vec![(Field::Email, "already taken".to_string())]);
    assert_eq!(second.field_errors.as_ref().unwrap()[0].field.as_str(), "email");
    assert_eq!(second.message, "Account could not be created.");
    assert!(second.user.is_none());
    assert_eq!(store.len(), 1);
}

#[test]
fn registering_a_username_twice_reports_the_username() {
    let mut store = AccountStore::new();
    register_user_internal(request("a@b.com", "alice", "Secret1!"), &mut store).unwrap();
    let second =
        register_user_internal(request("c@d.com", "alice", "Secret1!"), &mut store).unwrap();
    assert!(!second.success);
    assert_eq!(conflicts(&second), vec![(Field::Username, "already taken".to_string())]);
    assert_eq!(second.field_errors.as_ref().unwrap()[0].field.as_str(), "username");
    assert_eq!(store.len(), 1);
}

#[test]
fn both_conflicts_are_reported_together() {
    let mut store = AccountStore::new();
    register_user_internal(request("a@b.com", "alice", "Secret1!"), &mut store).unwrap();
    register_user_internal(request("c@d.com", "carol", "Secret1!"), &mut store).unwrap();
    let third =
        register_user_internal(request("a@b.com", "carol", "Secret1!"), &mut store).unwrap();
    assert!(!third.success);
    assert_eq!(
        conflicts(&third),
        vec![
            (Field::Email, "already taken".to_string()),
            (Field::Username, "already taken".to_string()),
        ]
    );
    assert_eq!(store.len(), 2);
}

#[test]
fn second_account_gets_the_next_id() {
    let mut store = AccountStore::new();
    register_user_internal(request("a@b.com", "alice", "Secret1!"), &mut store).unwrap();
    let second =
        register_user_internal(request("c@d.com", "carol", "Secret2!"), &mut store).unwrap();
    assert_eq!(second.user.unwrap().id, "2");
    assert_eq!(store.len(), 2);
    assert_eq!(store.row(1).unwrap().email, "c@d.com");
}

#[test]
fn registration_against_an_unreachable_store_fails_generically() {
    let mut store = AccountStore::new();
    store.set_online(false);
    assert!(!store.is_online());
    let result = register_user_internal(request("a@b.com", "alice", "Secret1!"), &mut store);
    assert_eq!(result.err(), Some(TRY_AGAIN.to_string()));
    assert_eq!(store.len(), 0);
}

#[test]
fn availability_follows_registration() {
    let mut store = AccountStore::new();
    assert_eq!(
        check_field_available_internal("username", "unused".to_string(), &store),
        Some(true)
    );
    assert_eq!(
        check_field_available_internal("email", "u@x.org".to_string(), &store),
        Some(true)
    );
    register_user_internal(request("u@x.org", "unused", "Secret1!"), &mut store).unwrap();
    assert_eq!(
        check_field_available_internal("username", "unused".to_string(), &store),
        Some(false)
    );
    assert_eq!(
        check_field_available_internal("email", "u@x.org".to_string(), &store),
        Some(false)
    );
    assert_eq!(
        check_field_available_internal("username", "other".to_string(), &store),
        Some(true)
    );
    store.set_online(false);
    assert_eq!(check_field_available_internal("username", "unused".to_string(), &store), None);
    assert_eq!(check_field_available_internal("username", "other".to_string(), &store), None);
}

#[test]
fn availability_of_an_unknown_field_is_unknown() {
    let store = AccountStore::new();
    assert_eq!(check_field_available_internal("password_hash", "x".to_string(), &store), None);
    assert_eq!(
        check_field_available_internal("email = '' OR id", "x".to_string(), &store),
        None
    );
    assert_eq!(check_field_available_internal("", "x".to_string(), &store), None);
    assert_eq!(check_field_available_internal("Email", "x".to_string(), &store), None);
}

#[test]
fn availability_reads_a_lookup() {
    assert_eq!(availability(Lookup::Free), Some(true));
    assert_eq!(availability(Lookup::Taken), Some(false));
    assert_eq!(availability(Lookup::Unavailable), None);
}

#[test]
fn field_names_are_the_closed_set() {
    assert_eq!(Field::parse("email"), Some(Field::Email));
    assert_eq!(Field::parse("username"), Some(Field::Username));
    assert_eq!(Field::parse("id"), None);
    assert_eq!(Field::Email.as_str(), "email");
    assert_eq!(Field::Username.as_str(), "username");
}

#[test]
fn store_lookup_and_insert_enforce_uniqueness() {
    let mut store = AccountStore::new();
    assert_eq!(store.lookup(Field::Email, "a@b.com"), Lookup::Free);
    let created = store.insert("a@b.com".to_string(), "alice".to_string(), "$h".to_string());
    assert!(matches!(created, InsertReply::Created(id) if id == "1"));
    assert_eq!(store.lookup(Field::Email, "a@b.com"), Lookup::Taken);
    assert_eq!(store.lookup(Field::Username, "alice"), Lookup::Taken);
    assert_eq!(store.lookup(Field::Username, "a@b.com"), Lookup::Free);

    let by_email = store.insert("a@b.com".to_string(), "bob".to_string(), "$h".to_string());
    assert!(
        matches!(by_email, InsertReply::UniqueViolation(Some(name)) if name == "users_email_key")
    );
    let by_username = store.insert("c@d.com".to_string(), "alice".to_string(), "$h".to_string());
    assert!(matches!(
        by_username,
        InsertReply::UniqueViolation(Some(name)) if name == "users_username_key"
    ));
    assert_eq!(store.len(), 1);

    store.set_online(false);
    assert_eq!(store.lookup(Field::Email, "a@b.com"), Lookup::Unavailable);
    let failed = store.insert("e@f.com".to_string(), "eve".to_string(), "$h".to_string());
    assert!(matches!(failed, InsertReply::Failed));
    assert_eq!(store.len(), 1);
}

#[test]
fn answer_dispatches_requests_to_the_store() {
    let mut store = AccountStore::new();
    let lookup = answer(
        &mut store,
        StoreRequest::Lookup { field: Field::Email, value: "a@b.com".to_string() },
    );
    assert!(matches!(lookup, StoreReply::Lookup(Lookup::Free)));
    let insert = answer(
        &mut store,
        StoreRequest::Insert {
            email: "a@b.com".to_string(),
            username: "alice".to_string(),
            password_hash: "$h".to_string(),
        },
    );
    assert!(matches!(insert, StoreReply::Insert(InsertReply::Created(_))));
    assert_eq!(store.len(), 1);
}

#[test]
fn machine_asks_email_then_username_then_insert() {
    let (mut session, first) = Registration::start(request("a@b.com", "alice", "Secret1!"));
    assert_eq!(session.phase(), Phase::CheckEmail);
    assert!(matches!(
        first,
        StoreRequest::Lookup { field: Field::Email, ref value } if value == "a@b.com"
    ));

    let second = session.advance_with(StoreReply::Lookup(Lookup::Free), Err(String::new()));
    assert_eq!(session.phase(), Phase::CheckUsername { email_taken: false });
    assert!(matches!(
        second,
        Step::Ask(StoreRequest::Lookup { field: Field::Username, ref value }) if value == "alice"
    ));

    let third = session.advance_with(StoreReply::Lookup(Lookup::Free), Ok("$hash".to_string()));
    assert_eq!(session.phase(), Phase::Insert);
    match third {
        Step::Ask(StoreRequest::Insert { email, username, password_hash }) => {
            assert_eq!(email, "a@b.com");
            assert_eq!(username, "alice");
            assert_eq!(password_hash, "$hash");
        }
        _ => panic!("expected the insert"),
    }

    let done = session.advance_with(
        StoreReply::Insert(InsertReply::Created("42".to_string())),
        Err(String::new()),
    );
    assert_eq!(session.phase(), Phase::Done);
    let response = finished(done).unwrap();
    assert!(response.success);
    assert!(response.field_errors.is_none());
    assert_eq!(response.message, "Account created.");
    let user = response.user.unwrap();
    assert_eq!((user.id.as_str(), user.username.as_str(), user.email.as_str()), ("42", "alice", "a@b.com"));
}

#[test]
fn machine_hashes_the_password_itself() {
    let (mut session, _) = Registration::start(request("a@b.com", "alice", "Secret1!"));
    session.advance(StoreReply::Lookup(Lookup::Free));
    match session.advance(StoreReply::Lookup(Lookup::Free)) {
        Step::Ask(StoreRequest::Insert { email, username, password_hash }) => {
            assert_eq!(email, "a@b.com");
            assert_eq!(username, "alice");
            assert!(verify_password("Secret1!", &password_hash));
        }
        _ => panic!("expected the insert"),
    }
    assert_eq!(session.phase(), Phase::Insert);
}

#[test]
fn machine_checks_the_username_even_when_the_email_is_taken() {
    let (mut session, _) = Registration::start(request("a@b.com", "alice", "Secret1!"));
    let second = session.advance(StoreReply::Lookup(Lookup::Taken));
    assert_eq!(session.phase(), Phase::CheckUsername { email_taken: true });
    assert!(matches!(second, Step::Ask(StoreRequest::Lookup { field: Field::Username, .. })));
    let response = finished(session.advance(StoreReply::Lookup(Lookup::Taken))).unwrap();
    assert!(!response.success);
    assert_eq!(
        conflicts(&response),
        vec![
            (Field::Email, "already taken".to_string()),
            (Field::Username, "already taken".to_string()),
        ]
    );
    assert_eq!(session.phase(), Phase::Done);
}

#[test]
fn machine_fails_generically_when_a_lookup_is_unavailable() {
    let (mut session, _) = Registration::start(request("a@b.com", "alice", "Secret1!"));
    let result = finished(session.advance(StoreReply::Lookup(Lookup::Unavailable)));
    assert_eq!(result.err(), Some(TRY_AGAIN.to_string()));
    assert_eq!(session.phase(), Phase::Done);

    let (mut session, _) = Registration::start(request("a@b.com", "alice", "Secret1!"));
    session.advance(StoreReply::Lookup(Lookup::Taken));
    let result = finished(session.advance(StoreReply::Lookup(Lookup::Unavailable)));
    assert_eq!(result.err(), Some(TRY_AGAIN.to_string()));
}

#[test]
fn machine_passes_a_hashing_failure_on() {
    let (mut session, _) = Registration::start(request("a@b.com", "alice", "Secret1!"));
    session.advance_with(StoreReply::Lookup(Lookup::Free), Err(String::new()));
    let result = finished(
        session.advance_with(StoreReply::Lookup(Lookup::Free), Err(TRY_AGAIN.to_string())),
    );
    assert_eq!(result.err(), Some(TRY_AGAIN.to_string()));
    assert_eq!(session.phase(), Phase::Done);
}

fn at_insert() -> Registration {
    let (mut session, _) = Registration::start(request("a@b.com", "alice", "Secret1!"));
    session.advance_with(StoreReply::Lookup(Lookup::Free), Err(String::new()));
    session.advance_with(StoreReply::Lookup(Lookup::Free), Ok("$hash".to_string()));
    session
}

#[test]
fn lost_race_on_the_email_becomes_a_field_error() {
    let mut session = at_insert();
    let reply = InsertReply::UniqueViolation(Some("users_email_key".to_string()));
    let response =
        finished(session.advance_with(StoreReply::Insert(reply), Err(String::new()))).unwrap();
    assert!(!response.success);
    assert_eq!(conflicts(&response), vec![(Field::Email, "already taken".to_string())]);
    assert_eq!(response.message, "Account could not be created.");
    assert!(response.user.is_none());
}

#[test]
fn lost_race_on_the_username_becomes_a_field_error() {
    let mut session = at_insert();
    let reply = InsertReply::UniqueViolation(Some("users_username_key".to_string()));
    let response =
        finished(session.advance_with(StoreReply::Insert(reply), Err(String::new()))).unwrap();
    assert_eq!(conflicts(&response), vec![(Field::Username, "already taken".to_string())]);
}

#[test]
fn unidentified_violation_and_other_insert_failures_are_generic() {
    let mut session = at_insert();
    let reply = InsertReply::UniqueViolation(Some("users_pkey".to_string()));
    let result = finished(session.advance_with(StoreReply::Insert(reply), Err(String::new())));
    assert_eq!(result.err(), Some(TRY_AGAIN.to_string()));

    let mut session = at_insert();
    let reply = InsertReply::UniqueViolation(None);
    let result = finished(session.advance_with(StoreReply::Insert(reply), Err(String::new())));
    assert_eq!(result.err(), Some(TRY_AGAIN.to_string()));

    let mut session = at_insert();
    let result = finished(
        session.advance_with(StoreReply::Insert(InsertReply::Failed), Err(String::new())),
    );
    assert_eq!(result.err(), Some(TRY_AGAIN.to_string()));
}

#[test]
fn reply_of_the_wrong_kind_ends_the_registration() {
    let (mut session, _) = Registration::start(request("a@b.com", "alice", "Secret1!"));
    let result = finished(
        session.advance(StoreReply::Insert(InsertReply::Created("1".to_string()))),
    );
    assert_eq!(result.err(), Some(TRY_AGAIN.to_string()));
    assert_eq!(session.phase(), Phase::Done);

    let result = finished(session.advance(StoreReply::Lookup(Lookup::Free)));
    assert_eq!(result.err(), Some(TRY_AGAIN.to_string()));

    let mut session = at_insert();
    let result = finished(session.advance(StoreReply::Lookup(Lookup::Free)));
    assert_eq!(result.err(), Some(TRY_AGAIN.to_string()));
}

#[test]
fn violated_column_names_the_field_of_a_constraint() {
    assert_eq!(violated_column(&Some("users_email_key".to_string())), Some(Field::Email));
    assert_eq!(violated_column(&Some("users_username_key".to_string())), Some(Field::Username));
    assert_eq!(violated_column(&Some("users_pkey".to_string())), None);
    assert_eq!(violated_column(&None), None);
}

#[test]
fn racing_registrations_of_one_email_give_one_success() {
    let mut store = AccountStore::new();
    let (mut one, ask_one) = Registration::start(request("a@b.com", "alice", "Secret1!"));
    let (mut two, ask_two) = Registration::start(request("a@b.com", "bob", "Secret2!"));

    let ask_one = match one.advance(answer(&mut store, ask_one)) {
        Step::Ask(next) => next,
        _ => panic!(),
    };
    let ask_two = match two.advance(answer(&mut store, ask_two)) {
        Step::Ask(next) => next,
        _ => panic!(),
    };
    let insert_one = match one.advance(answer(&mut store, ask_one)) {
        Step::Ask(next) => next,
        _ => panic!(),
    };
    let insert_two = match two.advance(answer(&mut store, ask_two)) {
        Step::Ask(next) => next,
        _ => panic!(),
    };
    let second = finished(two.advance(answer(&mut store, insert_two))).unwrap();
    let first = finished(one.advance(answer(&mut store, insert_one))).unwrap();

    assert!(second.success);
    assert!(!first.success);
    assert_eq!(conflicts(&first), vec![(Field::Email, "already taken".to_string())]);
    assert_eq!(store.len(), 1);
    assert_eq!(store.row(0).unwrap().username, "bob");
}

#[test]
fn email_and_username_checks_fix_their_field() {
    let mut store = AccountStore::new();
    assert_eq!(check_email_available("a@b.com".to_string(), &store), Some(true));
    assert_eq!(check_username_available("alice".to_string(), &store), Some(true));
    register_user_internal(request("a@b.com", "alice", "Secret1!"), &mut store).unwrap();
    assert_eq!(check_email_available("a@b.com".to_string(), &store), Some(false));
    assert_eq!(check_username_available("alice".to_string(), &store), Some(false));
    assert_eq!(check_email_available("alice".to_string(), &store), Some(true));
    assert_eq!(check_username_available("a@b.com".to_string(), &store), Some(true));
    store.set_online(false);
    assert_eq!(check_email_available("a@b.com".to_string(), &store), None);
    assert_eq!(check_username_available("alice".to_string(), &store), None);
}
