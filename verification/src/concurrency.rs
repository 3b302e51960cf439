//! Registrations that run side by side against one account store.
//!
//! Each registration puts its requests to the store one at a time, and the
//! store answers each request atomically. Nothing else orders them: between
//! two requests of one registration any number of requests of the others may
//! be answered, and the store may drop out and come back. The model below is
//! every such run; what is proved of it holds however the registrations are
//! scheduled.

use crate::accounts::{
    lemma_created_row_is_held, lemma_insert_keeps_rows, lemma_insert_keeps_wf, StoreView,
};
use crate::coordinator::{store_after, store_reply};
use crate::models::{Field, RegisterRequestView, RegisterResponseView};
use crate::register::{first_request, next_step, Phase, StepView, StoreRequestView};
use vstd::prelude::*;

verus! {

/// One registration among many.
pub struct Session {
    /// What the user submitted.
    pub request: RegisterRequestView,
    /// The phase of its coordinator.
    pub phase: Phase,
    /// The request it has out with the store, if it has one.
    pub asked: Option<StoreRequestView>,
    /// The answer it gave the user, once it has finished.
    pub answer: Option<Result<RegisterResponseView, Seq<char>>>,
}

impl Session {
    /// A registration that has just been opened.
    pub open spec fn opened(request: RegisterRequestView) -> Session {
        Session {
            request,
            phase: Phase::CheckEmail,
            asked: Some(first_request(request)),
            answer: None,
        }
    }

    /// The registration told its user that the account was created.
    pub open spec fn succeeded(self) -> bool {
        self.answer matches Some(Ok(response)) && response.success
    }

    /// The request that is out is the one its phase names.
    pub open spec fn coherent(self) -> bool {
        &&& self.answer is Some ==> self.asked is None
        &&& match self.asked {
            Some(StoreRequestView::Insert { email, username, password_hash }) => {
                &&& self.phase == Phase::Insert
                &&& email == self.request.email
                &&& username == self.request.username
            },
            Some(StoreRequestView::Lookup { field, value }) => self.phase != Phase::Insert,
            None => true,
        }
    }
}

/// One event of a run.
pub struct Move {
    /// The registration whose request the store answers next.
    pub who: int,
    /// What hashing yields, should this registration hash its password now.
    pub hash: Result<Seq<char>, Seq<char>>,
    /// Whether the store can be reached when the request arrives.
    pub online: bool,
}

/// The store answers the request that `session` has out, and the session
/// takes the reply. A session with nothing out stays as it is.
pub open spec fn serve(store: StoreView, session: Session, hash: Result<Seq<char>, Seq<char>>) -> (
    StoreView,
    Session,
) {
    match session.asked {
        Some(asked) => {
            let (phase, step) = next_step(
                session.phase,
                session.request,
                store_reply(store, asked),
                hash,
            );
            (
                store_after(store, asked),
                match step {
                    StepView::Ask(next) => Session {
                        request: session.request,
                        phase,
                        asked: Some(next),
                        answer: session.answer,
                    },
                    StepView::Finish(answer) => Session {
                        request: session.request,
                        phase,
                        asked: None,
                        answer: Some(answer),
                    },
                },
            )
        },
        None => (store, session),
    }
}

/// One move of the whole system.
pub open spec fn apply(store: StoreView, sessions: Seq<Session>, m: Move) -> (
    StoreView,
    Seq<Session>,
) {
    if 0 <= m.who < sessions.len() {
        let reached = StoreView { rows: store.rows, online: m.online };
        let (after, session) = serve(reached, sessions[m.who], m.hash);
        (after, sessions.update(m.who, session))
    } else {
        (store, sessions)
    }
}

/// The system after a sequence of moves.
pub open spec fn run(store: StoreView, sessions: Seq<Session>, moves: Seq<Move>) -> (
    StoreView,
    Seq<Session>,
)
    decreases moves.len(),
{
    if moves.len() == 0 {
        (store, sessions)
    } else {
        let (before, waiting) = run(store, sessions, moves.drop_last());
        apply(before, waiting, moves.last())
    }
}

/// All registrations opened, none served yet.
pub open spec fn all_opened(requests: Seq<RegisterRequestView>) -> Seq<Session> {
    Seq::new(requests.len(), |i: int| Session::opened(requests[i]))
}

/// What every reachable state satisfies: each session still serves its own
/// request, what a successful session registered is held by the store, and
/// no two successful sessions registered the same email or username.
pub open spec fn settled(
    store: StoreView,
    sessions: Seq<Session>,
    requests: Seq<RegisterRequestView>,
) -> bool {
    &&& sessions.len() == requests.len()
    &&& forall|i: int|
        0 <= i < sessions.len() ==> (#[trigger] sessions[i]).request == requests[i]
            && sessions[i].coherent()
    &&& forall|i: int|
        0 <= i < sessions.len() && (#[trigger] sessions[i]).succeeded() ==> store.holds(
            Field::Email,
            requests[i].email,
        ) && store.holds(Field::Username, requests[i].username)
    &&& forall|i: int, j: int|
        #![trigger sessions[i], sessions[j]]
        0 <= i < sessions.len() && 0 <= j < sessions.len() && i != j && sessions[i].succeeded()
            && sessions[j].succeeded() ==> requests[i].email != requests[j].email
            && requests[i].username != requests[j].username
}

/// Serving a session loses no row.
pub proof fn lemma_serve_keeps_rows(
    store: StoreView,
    session: Session,
    hash: Result<Seq<char>, Seq<char>>,
    field: Field,
    value: Seq<char>,
)
    requires
        store.holds(field, value),
    ensures
        serve(store, session, hash).0.holds(field, value),
{
    match session.asked {
        Some(StoreRequestView::Insert { email, username, password_hash }) => {
            lemma_insert_keeps_rows(store, email, username, password_hash, field, value);
        },
        _ => {},
    }
}

/// A session becomes successful only by an insert that the store accepted:
/// neither value was held before, and both are held after.
pub proof fn lemma_serve_success(
    store: StoreView,
    session: Session,
    hash: Result<Seq<char>, Seq<char>>,
)
    requires
        session.coherent(),
    ensures
        serve(store, session, hash).1.coherent(),
        serve(store, session, hash).1.request == session.request,
        session.succeeded() ==> serve(store, session, hash) == (store, session),
        !session.succeeded() && serve(store, session, hash).1.succeeded() ==> {
            &&& !store.holds(Field::Email, session.request.email)
            &&& !store.holds(Field::Username, session.request.username)
            &&& serve(store, session, hash).0.holds(Field::Email, session.request.email)
            &&& serve(store, session, hash).0.holds(Field::Username, session.request.username)
        },
{
    match session.asked {
        Some(StoreRequestView::Insert { email, username, password_hash }) => {
            if store.insert_reply(email, username) is Created {
                lemma_created_row_is_held(store, email, username, password_hash);
            }
        },
        _ => {},
    }
}

/// One move keeps a settled system settled.
pub proof fn lemma_apply_keeps_settled(
    store: StoreView,
    sessions: Seq<Session>,
    requests: Seq<RegisterRequestView>,
    m: Move,
)
    requires
        settled(store, sessions, requests),
    ensures
        settled(apply(store, sessions, m).0, apply(store, sessions, m).1, requests),
{
    if 0 <= m.who < sessions.len() {
        let reached = StoreView { rows: store.rows, online: m.online };
        let (after, served) = serve(reached, sessions[m.who], m.hash);
        let moved = sessions.update(m.who, served);
        lemma_serve_success(reached, sessions[m.who], m.hash);
        assert forall|f: Field, v: Seq<char>| store.holds(f, v) implies after.holds(f, v) by {
            assert(reached.holds(f, v));
            lemma_serve_keeps_rows(reached, sessions[m.who], m.hash, f, v);
        }
        assert forall|f: Field, v: Seq<char>| reached.holds(f, v) implies store.holds(f, v) by {}
        assert forall|i: int| 0 <= i < moved.len() && (#[trigger] moved[i]).succeeded() implies
            after.holds(Field::Email, requests[i].email) && after.holds(
            Field::Username,
            requests[i].username,
        ) by {
            if i != m.who {
                assert(sessions[i].succeeded());
            } else if sessions[i].succeeded() {
            }
        }
        assert forall|i: int, j: int|
            #![trigger moved[i], moved[j]]
            0 <= i < moved.len() && 0 <= j < moved.len() && i != j && moved[i].succeeded()
                && moved[j].succeeded() implies requests[i].email != requests[j].email
            && requests[i].username != requests[j].username by {
            if i != m.who && j != m.who {
                assert(sessions[i].succeeded() && sessions[j].succeeded());
            } else if i == m.who {
                assert(sessions[j].succeeded());
                if sessions[i].succeeded() {
                } else {
                    assert(store.holds(Field::Email, requests[j].email));
                    assert(store.holds(Field::Username, requests[j].username));
                    assert(reached.holds(Field::Email, requests[j].email));
                    assert(reached.holds(Field::Username, requests[j].username));
                }
            } else {
                assert(sessions[i].succeeded());
                if sessions[j].succeeded() {
                } else {
                    assert(store.holds(Field::Email, requests[i].email));
                    assert(store.holds(Field::Username, requests[i].username));
                    assert(reached.holds(Field::Email, requests[i].email));
                    assert(reached.holds(Field::Username, requests[i].username));
                }
            }
        }
    }
}

/// Every run from freshly opened registrations ends in a settled system.
pub proof fn lemma_run_is_settled(
    store: StoreView,
    requests: Seq<RegisterRequestView>,
    moves: Seq<Move>,
)
    ensures
        settled(
            run(store, all_opened(requests), moves).0,
            run(store, all_opened(requests), moves).1,
            requests,
        ),
    decreases moves.len(),
{
    if moves.len() == 0 {
    } else {
        lemma_run_is_settled(store, requests, moves.drop_last());
        let (before, waiting) = run(store, all_opened(requests), moves.drop_last());
        lemma_apply_keeps_settled(before, waiting, requests, moves.last());
    }
}

/// However many registrations run side by side and however their requests
/// interleave, no two of them that name the same email both report success,
/// and no two that name the same username do.
pub proof fn lemma_at_most_one_success(
    store: StoreView,
    requests: Seq<RegisterRequestView>,
    moves: Seq<Move>,
    i: int,
    j: int,
)
    requires
        0 <= i < requests.len(),
        0 <= j < requests.len(),
        i != j,
        requests[i].email == requests[j].email || requests[i].username == requests[j].username,
    ensures
        !(run(store, all_opened(requests), moves).1[i].succeeded() && run(
            store,
            all_opened(requests),
            moves,
        ).1[j].succeeded()),
{
    lemma_run_is_settled(store, requests, moves);
}

/// A registration reports success only for a row that the store holds from
/// then on.
pub proof fn lemma_success_is_stored(
    store: StoreView,
    requests: Seq<RegisterRequestView>,
    moves: Seq<Move>,
    i: int,
)
    requires
        0 <= i < requests.len(),
        run(store, all_opened(requests), moves).1[i].succeeded(),
    ensures
        run(store, all_opened(requests), moves).0.holds(Field::Email, requests[i].email),
        run(store, all_opened(requests), moves).0.holds(Field::Username, requests[i].username),
{
    lemma_run_is_settled(store, requests, moves);
}

/// However the registrations interleave, the store never comes to hold two
/// rows with one email or two rows with one username.
pub proof fn lemma_run_keeps_rows_unique(
    store: StoreView,
    sessions: Seq<Session>,
    moves: Seq<Move>,
)
    requires
        store.wf(),
    ensures
        run(store, sessions, moves).0.wf(),
    decreases moves.len(),
{
    if moves.len() > 0 {
        lemma_run_keeps_rows_unique(store, sessions, moves.drop_last());
        let (before, waiting) = run(store, sessions, moves.drop_last());
        let m = moves.last();
        if 0 <= m.who < waiting.len() {
            let reached = StoreView { rows: before.rows, online: m.online };
            assert(reached.wf());
            match waiting[m.who].asked {
                Some(StoreRequestView::Insert { email, username, password_hash }) => {
                    lemma_insert_keeps_wf(reached, email, username, password_hash);
                },
                _ => {},
            }
        }
    }
}

} // verus!
