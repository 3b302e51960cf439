//! Registration: uniqueness checks, hashing and the insert of a new account.
//!
//! The coordinator never talks to the account store itself. It is a machine
//! that names the next request for the store and, given the store's reply,
//! either names the one after or finishes with the answer for the user.

use crate::accounts::{
    InsertReply, InsertReplyView, Lookup, EMAIL_CONSTRAINT, USERNAME_CONSTRAINT,
};
use crate::models::{
    Field, FieldError, RegisterRequest, RegisterRequestView, RegisterResponse,
    RegisterResponseView, UserData, UserDataView, TRY_AGAIN,
};
use crate::password::{hash_password, hash_view, hashing_outcome};
use vstd::prelude::*;
use vstd::string::*;

verus! {

/// What the coordinator asks of the account store.
pub enum StoreRequest {
    /// Does any row hold `value` in the column of `field`?
    Lookup { field: Field, value: String },
    /// Write a row.
    Insert { email: String, username: String, password_hash: String },
}

pub enum StoreRequestView {
    Lookup { field: Field, value: Seq<char> },
    Insert { email: Seq<char>, username: Seq<char>, password_hash: Seq<char> },
}

impl View for StoreRequest {
    type V = StoreRequestView;

    open spec fn view(&self) -> StoreRequestView {
        match self {
            StoreRequest::Lookup { field, value } => StoreRequestView::Lookup {
                field: *field,
                value: value@,
            },
            StoreRequest::Insert { email, username, password_hash } => StoreRequestView::Insert {
                email: email@,
                username: username@,
                password_hash: password_hash@,
            },
        }
    }
}

/// What the account store answers.
pub enum StoreReply {
    Lookup(Lookup),
    Insert(InsertReply),
}

pub enum StoreReplyView {
    Lookup(Lookup),
    Insert(InsertReplyView),
}

impl View for StoreReply {
    type V = StoreReplyView;

    open spec fn view(&self) -> StoreReplyView {
        match self {
            StoreReply::Lookup(answer) => StoreReplyView::Lookup(*answer),
            StoreReply::Insert(reply) => StoreReplyView::Insert(reply@),
        }
    }
}

/// Where a registration stands.
#[derive(Clone, Copy, Debug, PartialEq, Eq, Structural)]
pub enum Phase {
    /// The email lookup is out.
    CheckEmail,
    /// The username lookup is out; the email lookup said `email_taken`.
    CheckUsername { email_taken: bool },
    /// The insert is out.
    Insert,
    /// The answer has been given.
    Done,
}

/// What the coordinator does next.
pub enum Step {
    /// Put this request to the store and come back with its reply.
    Ask(StoreRequest),
    /// The registration is over, with this answer.
    Finish(Result<RegisterResponse, String>),
}

pub enum StepView {
    Ask(StoreRequestView),
    Finish(Result<RegisterResponseView, Seq<char>>),
}

impl View for Step {
    type V = StepView;

    open spec fn view(&self) -> StepView {
        match self {
            Step::Ask(request) => StepView::Ask(request@),
            Step::Finish(Ok(response)) => StepView::Finish(Ok(response@)),
            Step::Finish(Err(message)) => StepView::Finish(Err(message@)),
        }
    }
}

/// The field whose unique constraint has the given name.
pub open spec fn violated_field(constraint: Option<Seq<char>>) -> Option<Field> {
    match constraint {
        Some(name) => if name == EMAIL_CONSTRAINT@ {
            Some(Field::Email)
        } else if name == USERNAME_CONSTRAINT@ {
            Some(Field::Username)
        } else {
            None
        },
        None => None,
    }
}

/// The failure that tells the user no more than to try again.
pub open spec fn failed() -> (Phase, StepView) {
    (Phase::Done, StepView::Finish(Err(TRY_AGAIN@)))
}

/// The first request of every registration: the email lookup.
pub open spec fn first_request(request: RegisterRequestView) -> StoreRequestView {
    StoreRequestView::Lookup { field: Field::Email, value: request.email }
}

/// The transition of the coordinator: from the phase and the store's reply
/// to the next phase and step. `hash` is what hashing the password yields; it
/// is read only where both lookups found the values free.
pub open spec fn next_step(
    phase: Phase,
    request: RegisterRequestView,
    reply: StoreReplyView,
    hash: Result<Seq<char>, Seq<char>>,
) -> (Phase, StepView) {
    match (phase, reply) {
        (Phase::CheckEmail, StoreReplyView::Lookup(answer)) => if answer == Lookup::Unavailable {
            failed()
        } else {
            (
                Phase::CheckUsername { email_taken: answer == Lookup::Taken },
                StepView::Ask(
                    StoreRequestView::Lookup { field: Field::Username, value: request.username },
                ),
            )
        },
        (Phase::CheckUsername { email_taken }, StoreReplyView::Lookup(answer)) => if answer
            == Lookup::Unavailable {
            failed()
        } else if email_taken || answer == Lookup::Taken {
            (
                Phase::Done,
                StepView::Finish(
                    Ok(
                        RegisterResponseView::rejected(
                            RegisterResponseView::conflicts(email_taken, answer == Lookup::Taken),
                        ),
                    ),
                ),
            )
        } else {
            match hash {
                Ok(h) => (
                    Phase::Insert,
                    StepView::Ask(
                        StoreRequestView::Insert {
                            email: request.email,
                            username: request.username,
                            password_hash: h,
                        },
                    ),
                ),
                Err(m) => (Phase::Done, StepView::Finish(Err(m))),
            }
        },
        (Phase::Insert, StoreReplyView::Insert(InsertReplyView::Created(id))) => (
            Phase::Done,
            StepView::Finish(
                Ok(
                    RegisterResponseView::created(
                        UserDataView { id, username: request.username, email: request.email },
                    ),
                ),
            ),
        ),
        (
            Phase::Insert,
            StoreReplyView::Insert(InsertReplyView::UniqueViolation(constraint)),
        ) => match violated_field(constraint) {
            Some(field) => (
                Phase::Done,
                StepView::Finish(
                    Ok(RegisterResponseView::rejected(seq![FieldError::taken_view(field)])),
                ),
            ),
            None => failed(),
        },
        _ => failed(),
    }
}

/// Names the field behind a violated unique constraint, where the store
/// reported the constraint and it is one of the two.
pub fn violated_column(constraint: &Option<String>) -> (field: Option<Field>)
    ensures
        field == violated_field(
            match constraint {
                Some(name) => Some(name@),
                None => None,
            },
        ),
{
    match constraint {
        Some(name) => {
            if *name == EMAIL_CONSTRAINT.to_owned() {
                Some(Field::Email)
            } else if *name == USERNAME_CONSTRAINT.to_owned() {
                Some(Field::Username)
            } else {
                None
            }
        },
        None => None,
    }
}

/// One registration in progress.
pub struct Registration {
    request: RegisterRequest,
    phase: Phase,
}

impl Registration {
    /// The request being served. It never changes.
    pub closed spec fn request(&self) -> RegisterRequestView {
        self.request@
    }

    /// The phase the registration is in.
    pub closed spec fn spec_phase(&self) -> Phase {
        self.phase
    }

    #[verifier::when_used_as_spec(spec_phase)]
    pub fn phase(&self) -> (phase: Phase)
        ensures
            phase == self.spec_phase(),
    {
        self.phase
    }

    /// Opens a registration. The store is to be asked whether the email is
    /// in use.
    pub fn start(request: RegisterRequest) -> (opened: (Registration, StoreRequest))
        ensures
            opened.0.request() == request@,
            opened.0.phase() == Phase::CheckEmail,
            opened.1@ == first_request(request@),
    {
        let ask = StoreRequest::Lookup { field: Field::Email, value: request.email.clone() };
        (Registration { request, phase: Phase::CheckEmail }, ask)
    }

    fn fail(&mut self) -> (step: Step)
        ensures
            final(self).request() == old(self).request(),
            (final(self).phase(), step@) == failed(),
    {
        self.phase = Phase::Done;
        Step::Finish(Err(TRY_AGAIN.to_owned()))
    }

    /// Takes the store's reply and decides what comes next, given what
    /// hashing the password yields.
    pub fn advance_with(&mut self, reply: StoreReply, hash: Result<String, String>) -> (step: Step)
        ensures
            final(self).request() == old(self).request(),
            (final(self).phase(), step@) == next_step(
                old(self).phase(),
                old(self).request(),
                reply@,
                hash_view(hash),
            ),
    {
        match (self.phase, reply) {
            (Phase::CheckEmail, StoreReply::Lookup(answer)) => {
                match answer {
                    Lookup::Unavailable => self.fail(),
                    Lookup::Taken => {
                        self.phase = Phase::CheckUsername { email_taken: true };
                        Step::Ask(
                            StoreRequest::Lookup {
                                field: Field::Username,
                                value: self.request.username.clone(),
                            },
                        )
                    },
                    Lookup::Free => {
                        self.phase = Phase::CheckUsername { email_taken: false };
                        Step::Ask(
                            StoreRequest::Lookup {
                                field: Field::Username,
                                value: self.request.username.clone(),
                            },
                        )
                    },
                }
            },
            (Phase::CheckUsername { email_taken }, StoreReply::Lookup(answer)) => {
                let username_taken = match answer {
                    Lookup::Unavailable => { return self.fail(); },
                    Lookup::Taken => true,
                    Lookup::Free => false,
                };
                if email_taken || username_taken {
                    let mut errors: Vec<FieldError> = Vec::new();
                    if email_taken {
                        errors.push(FieldError::taken(Field::Email));
                    }
                    if username_taken {
                        errors.push(FieldError::taken(Field::Username));
                    }
                    proof {
                        assert(errors@.map_values(|e: FieldError| e@)
                            =~= RegisterResponseView::conflicts(email_taken, username_taken));
                    }
                    self.phase = Phase::Done;
                    Step::Finish(Ok(RegisterResponse::rejected(errors)))
                } else {
                    match hash {
                        Ok(password_hash) => {
                            self.phase = Phase::Insert;
                            Step::Ask(
                                StoreRequest::Insert {
                                    email: self.request.email.clone(),
                                    username: self.request.username.clone(),
                                    password_hash,
                                },
                            )
                        },
                        Err(message) => {
                            self.phase = Phase::Done;
                            Step::Finish(Err(message))
                        },
                    }
                }
            },
            (Phase::Insert, StoreReply::Insert(InsertReply::Created(id))) => {
                self.phase = Phase::Done;
                Step::Finish(
                    Ok(
                        RegisterResponse::created(
                            UserData {
                                id,
                                username: self.request.username.clone(),
                                email: self.request.email.clone(),
                            },
                        ),
                    ),
                )
            },
            (Phase::Insert, StoreReply::Insert(InsertReply::UniqueViolation(constraint))) => {
                match violated_column(&constraint) {
                    Some(field) => {
                        let mut errors: Vec<FieldError> = Vec::new();
                        errors.push(FieldError::taken(field));
                        proof {
                            assert(errors@.map_values(|e: FieldError| e@)
                                =~= seq![FieldError::taken_view(field)]);
                        }
                        self.phase = Phase::Done;
                        Step::Finish(Ok(RegisterResponse::rejected(errors)))
                    },
                    None => self.fail(),
                }
            },
            _ => self.fail(),
        }
    }

    /// Whether the next step reads the password hash: only once both
    /// lookups have found the values free.
    pub open spec fn needs_hash(phase: Phase, reply: StoreReplyView) -> bool {
        phase == (Phase::CheckUsername { email_taken: false }) && reply == StoreReplyView::Lookup(
            Lookup::Free,
        )
    }

    /// Takes the store's reply and decides what comes next, hashing the
    /// password where the next step is the insert.
    ///
    /// The salt is drawn at random, so the hash is not a function of the
    /// request: the step is the transition under what hashing the password
    /// under some salt comes to. Where no hash is read, the step is the
    /// same under every hash.
    pub fn advance(&mut self, reply: StoreReply) -> (step: Step)
        ensures
            final(self).request() == old(self).request(),
            exists|hash: Result<Seq<char>, Seq<char>>|
                {
                    &&& Self::needs_hash(old(self).phase(), reply@) ==> hashing_outcome(
                        old(self).request().password,
                        hash,
                    )
                    &&& #[trigger] next_step(old(self).phase(), old(self).request(), reply@, hash)
                        == (final(self).phase(), step@)
                },
    {
        let wanted = match (self.phase, &reply) {
            (Phase::CheckUsername { email_taken }, StoreReply::Lookup(Lookup::Free)) => !email_taken,
            _ => false,
        };
        let ghost before = (self.phase, self.request@, reply@);
        assert(wanted == Self::needs_hash(before.0, before.2));
        let hash = if wanted {
            hash_password(self.request.password.as_str())
        } else {
            Err(String::new())
        };
        let ghost drawn = hash_view(hash);
        let step = self.advance_with(reply, hash);
        proof {
            assert(next_step(before.0, before.1, before.2, drawn) == (self.phase, step@));
        }
        step
    }
}

} // verus!
