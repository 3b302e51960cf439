//! Registration and availability checks run against an account store.

use crate::accounts::{
    lemma_created_row_is_held, lemma_insert_keeps_wf, AccountStore, Lookup, StoreView,
};
use crate::models::{
    lemma_field_name_round_trip, Field, FieldError, RegisterRequest, RegisterRequestView,
    RegisterResponse, RegisterResponseView, UserDataView, TRY_AGAIN,
};
use crate::password::{hashable, hashing_outcome, password_matches};
use crate::register::{
    first_request, next_step, Phase, Registration, Step, StoreReply, StoreReplyView,
    StoreRequest, StoreRequestView,
};
use vstd::prelude::*;
use vstd::string::*;

verus! {

/// What a store answers to a request.
pub open spec fn store_reply(store: StoreView, request: StoreRequestView) -> StoreReplyView {
    match request {
        StoreRequestView::Lookup { field, value } => StoreReplyView::Lookup(
            store.lookup(field, value),
        ),
        StoreRequestView::Insert { email, username, password_hash } => StoreReplyView::Insert(
            store.insert_reply(email, username),
        ),
    }
}

/// What a store holds once it has answered a request.
pub open spec fn store_after(store: StoreView, request: StoreRequestView) -> StoreView {
    match request {
        StoreRequestView::Lookup { field, value } => store,
        StoreRequestView::Insert { email, username, password_hash } => store.after_insert(
            email,
            username,
            password_hash,
        ),
    }
}

/// Puts one request to the store.
pub fn answer(store: &mut AccountStore, request: StoreRequest) -> (reply: StoreReply)
    ensures
        reply@ == store_reply(old(store)@, request@),
        final(store)@ == store_after(old(store)@, request@),
        old(store)@.wf(),
        final(store)@.wf(),
{
    match request {
        StoreRequest::Lookup { field, value } => StoreReply::Lookup(
            store.lookup(field, value.as_str()),
        ),
        StoreRequest::Insert { email, username, password_hash } => StoreReply::Insert(
            store.insert(email, username, password_hash),
        ),
    }
}

/// What an availability query tells the caller: `Some(true)` for a free
/// value, `Some(false)` for one in use, `None` where the store gave no
/// answer.
pub open spec fn availability_of(answer: Lookup) -> Option<bool> {
    match answer {
        Lookup::Free => Some(true),
        Lookup::Taken => Some(false),
        Lookup::Unavailable => None,
    }
}

pub fn availability(answer: Lookup) -> (available: Option<bool>)
    ensures
        available == availability_of(answer),
{
    match answer {
        Lookup::Free => Some(true),
        Lookup::Taken => Some(false),
        Lookup::Unavailable => None,
    }
}

/// The answer to "is this value still free?" for a field given by name. A
/// name that is neither of the two fields reaches no column and gets no
/// answer.
pub open spec fn field_available(store: StoreView, field_name: Seq<char>, value: Seq<char>) -> Option<
    bool,
> {
    match Field::named(field_name) {
        Some(field) => availability_of(store.lookup(field, value)),
        None => None,
    }
}

/// Tells whether `value` is still free in the field named `field_name`.
pub fn check_field_available_internal(field_name: &str, value: String, store: &AccountStore) -> (available:
    Option<bool>)
    ensures
        available == field_available(store@, field_name@, value@),
{
    match Field::parse(field_name) {
        Some(field) => availability(store.lookup(field, value.as_str())),
        None => None,
    }
}

/// Tells whether an email is still free.
pub fn check_email_available(email: String, store: &AccountStore) -> (available: Option<bool>)
    ensures
        available == availability_of(store@.lookup(Field::Email, email@)),
{
    availability(store.lookup(Field::Email, email.as_str()))
}

/// Tells whether a username is still free.
pub fn check_username_available(username: String, store: &AccountStore) -> (available: Option<
    bool,
>)
    ensures
        available == availability_of(store@.lookup(Field::Username, username@)),
{
    availability(store.lookup(Field::Username, username.as_str()))
}

/// The result of a registration that runs alone against `store`, where
/// hashing the password yields `hash`: the store afterwards and the answer.
pub open spec fn register_outcome(
    store: StoreView,
    request: RegisterRequestView,
    hash: Result<Seq<char>, Seq<char>>,
) -> (StoreView, Result<RegisterResponseView, Seq<char>>) {
    if !store.online {
        (store, Err(TRY_AGAIN@))
    } else {
        let email_taken = store.holds(Field::Email, request.email);
        let username_taken = store.holds(Field::Username, request.username);
        if email_taken || username_taken {
            (
                store,
                Ok(
                    RegisterResponseView::rejected(
                        RegisterResponseView::conflicts(email_taken, username_taken),
                    ),
                ),
            )
        } else {
            match hash {
                Ok(h) => (
                    store.after_insert(request.email, request.username, h),
                    Ok(
                        RegisterResponseView::created(
                            UserDataView {
                                id: store.next_id(),
                                username: request.username,
                                email: request.email,
                            },
                        ),
                    ),
                ),
                Err(m) => (store, Err(m)),
            }
        }
    }
}

/// Whether a registration that runs alone against `store` reads the
/// password hash: the store is reachable and both values are free.
pub open spec fn reads_hash(store: StoreView, request: RegisterRequestView) -> bool {
    &&& store.online
    &&& !store.holds(Field::Email, request.email)
    &&& !store.holds(Field::Username, request.username)
}

/// How many replies a registration in the given phase can still take.
pub open spec fn replies_left(phase: Phase) -> nat {
    match phase {
        Phase::CheckEmail => 3,
        Phase::CheckUsername { .. } => 2,
        Phase::Insert => 1,
        Phase::Done => 0,
    }
}

/// What holds while a lone registration waits for the store: the request
/// that is out belongs to the phase, and the store is as it was found.
pub open spec fn in_flight(
    found: StoreView,
    now: StoreView,
    request: RegisterRequestView,
    phase: Phase,
    asked: StoreRequestView,
    hash: Result<Seq<char>, Seq<char>>,
) -> bool {
    &&& now == found
    &&& match phase {
        Phase::CheckEmail => asked == first_request(request),
        Phase::CheckUsername { email_taken } => {
            &&& found.online
            &&& email_taken == found.holds(Field::Email, request.email)
            &&& asked == StoreRequestView::Lookup { field: Field::Username, value: request.username }
        },
        Phase::Insert => {
            &&& found.online
            &&& !found.holds(Field::Email, request.email)
            &&& !found.holds(Field::Username, request.username)
            &&& hash matches Ok(h)
            &&& asked == StoreRequestView::Insert {
                email: request.email,
                username: request.username,
                password_hash: h,
            }
        },
        Phase::Done => false,
    }
}

/// Registers a new account: both availability checks, then the hash, then
/// the insert.
///
/// Both conflicts are reported where both values are in use, and then the
/// store is left as it was. The salt is drawn at random, so the result is
/// that of [`register_outcome`] under what hashing the password under some
/// salt comes to. Where no hash is read, the result is the same under every
/// hash. A reachable store, free values and a password within the hasher's
/// length limit give a new account.
pub fn register_user_internal(payload: RegisterRequest, store: &mut AccountStore) -> (res: Result<
    RegisterResponse,
    String,
>)
    ensures
        old(store)@.wf(),
        final(store)@.wf(),
        reads_hash(old(store)@, payload@) && hashable(payload@.password) ==> (res matches Ok(
            response,
        ) && response.success),
        exists|hash: Result<Seq<char>, Seq<char>>|
            {
                &&& reads_hash(old(store)@, payload@) ==> hashing_outcome(payload@.password, hash)
                &&& #[trigger] register_outcome(old(store)@, payload@, hash) == (
                    final(store)@,
                    match res {
                        Ok(response) => Ok::<RegisterResponseView, Seq<char>>(response@),
                        Err(message) => Err(message@),
                    },
                )
            },
{
    let ghost request = payload@;
    let ghost found = store@;
    let ghost mut hash: Result<Seq<char>, Seq<char>> = Err(TRY_AGAIN@);
    let (mut session, mut asked) = Registration::start(payload);
    loop
        invariant
            request == payload@,
            found == old(store)@,
            session.request() == request,
            session.phase() is Insert ==> hashing_outcome(request.password, hash),
            in_flight(found, store@, request, session.phase(), asked@, hash),
        decreases replies_left(session.phase()),
    {
        let ghost phase = session.phase();
        let ghost asked_view = asked@;
        let reply = answer(store, asked);
        let ghost reply_view = reply@;
        let step = session.advance(reply);
        proof {
            let drawn = choose|drawn: Result<Seq<char>, Seq<char>>|
                {
                    &&& Registration::needs_hash(phase, reply_view) ==> hashing_outcome(
                        request.password,
                        drawn,
                    )
                    &&& #[trigger] next_step(phase, request, reply_view, drawn) == (
                        session.phase(),
                        step@,
                    )
                };
            if phase is CheckUsername && session.phase() is Insert {
                hash = drawn;
            }
            if step is Finish {
                let closing = if phase is Insert {
                    hash
                } else {
                    drawn
                };
                assert(reads_hash(found, request) ==> hashing_outcome(request.password, closing));
                assert(register_outcome(found, request, closing) == (
                    store@,
                    match step {
                        Step::Finish(Ok(response)) => Ok::<RegisterResponseView, Seq<char>>(
                            response@,
                        ),
                        Step::Finish(Err(message)) => Err(message@),
                        Step::Ask(_) => arbitrary(),
                    },
                ));
            }
        }
        match step {
            Step::Ask(next) => {
                asked = next;
            },
            Step::Finish(res) => {
                return res;
            },
        }
    }
}

/// The answer of a registration is well formed, a registration that does
/// not succeed leaves the store as it was, and one that succeeds adds
/// exactly the row of the new account, under a hash that accepts the
/// password.
pub proof fn lemma_outcome_is_sound(
    store: StoreView,
    request: RegisterRequestView,
    hash: Result<Seq<char>, Seq<char>>,
)
    requires
        store.wf(),
        hash matches Ok(h) ==> password_matches(request.password, h),
    ensures
        register_outcome(store, request, hash).0.wf(),
        register_outcome(store, request, hash).1 matches Ok(response) ==> response.wf(),
        !(register_outcome(store, request, hash).1 matches Ok(response) && response.success)
            ==> register_outcome(store, request, hash).0 == store,
        register_outcome(store, request, hash).1 matches Ok(response) && response.success ==> {
            let after = register_outcome(store, request, hash).0;
            &&& after.rows.len() == store.rows.len() + 1
            &&& after.rows.drop_last() == store.rows
            &&& after.rows.last().email == request.email
            &&& after.rows.last().username == request.username
            &&& password_matches(request.password, after.rows.last().password_hash)
            &&& register_outcome(store, request, hash).1 matches Ok(response)
            &&& response.user matches Some(user)
            &&& user.id == after.rows.last().id
        },
{
    if store.online && !store.holds(Field::Email, request.email) && !store.holds(
        Field::Username,
        request.username,
    ) {
        if let Ok(h) = hash {
            lemma_insert_keeps_wf(store, request.email, request.username, h);
            let after = store.after_insert(request.email, request.username, h);
            assert(after.rows.drop_last() =~= store.rows);
        }
    }
}

/// Once an account is registered, its email and its username are no longer
/// available.
pub proof fn lemma_registered_values_are_taken(
    store: StoreView,
    request: RegisterRequestView,
    hash: Result<Seq<char>, Seq<char>>,
)
    requires
        register_outcome(store, request, hash).1 matches Ok(response) && response.success,
    ensures
        field_available(register_outcome(store, request, hash).0, "email"@, request.email) == Some(
            false,
        ),
        field_available(register_outcome(store, request, hash).0, "username"@, request.username)
            == Some(false),
{
    lemma_field_name_round_trip(Field::Email);
    lemma_field_name_round_trip(Field::Username);
    if let Ok(h) = hash {
        lemma_created_row_is_held(store, request.email, request.username, h);
    }
}

/// A second registration under an email that has just been registered, with
/// a username that is still free, is turned down with the email conflict
/// alone and writes nothing.
pub proof fn lemma_repeated_email_is_rejected(
    store: StoreView,
    first: RegisterRequestView,
    first_hash: Result<Seq<char>, Seq<char>>,
    second: RegisterRequestView,
    second_hash: Result<Seq<char>, Seq<char>>,
)
    requires
        register_outcome(store, first, first_hash).1 matches Ok(response) && response.success,
        second.email == first.email,
        !register_outcome(store, first, first_hash).0.holds(Field::Username, second.username),
    ensures
        register_outcome(register_outcome(store, first, first_hash).0, second, second_hash) == (
            register_outcome(store, first, first_hash).0,
            Ok::<RegisterResponseView, Seq<char>>(
                RegisterResponseView::rejected(seq![FieldError::taken_view(Field::Email)]),
            ),
        ),
{
    if let Ok(h) = first_hash {
        lemma_created_row_is_held(store, first.email, first.username, h);
    }
    assert(RegisterResponseView::conflicts(true, false) =~= seq![
        FieldError::taken_view(Field::Email),
    ]);
}

/// Where both the email and the username are in use, both conflicts are
/// reported, the email first.
pub proof fn lemma_both_conflicts_are_reported(
    store: StoreView,
    request: RegisterRequestView,
    hash: Result<Seq<char>, Seq<char>>,
)
    requires
        store.online,
        store.holds(Field::Email, request.email),
        store.holds(Field::Username, request.username),
    ensures
        register_outcome(store, request, hash) == (
            store,
            Ok::<RegisterResponseView, Seq<char>>(
                RegisterResponseView::rejected(
                    seq![
                        FieldError::taken_view(Field::Email),
                        FieldError::taken_view(Field::Username),
                    ],
                ),
            ),
        ),
{
    assert(RegisterResponseView::conflicts(true, true) =~= seq![
        FieldError::taken_view(Field::Email),
        FieldError::taken_view(Field::Username),
    ]);
}

} // verus!
