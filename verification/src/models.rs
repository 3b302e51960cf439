//! The records that cross the boundary of the core, each with the
//! mathematical value that contracts speak of.

use vstd::prelude::*;
use vstd::string::*;

verus! {

/// Message of a field error: the value is already in use by another account.
pub const ALREADY_TAKEN: &'static str = "already taken";

/// Message of a response that reports field conflicts.
pub const ACCOUNT_NOT_CREATED: &'static str = "Account could not be created.";

/// Message of a successful registration.
pub const ACCOUNT_CREATED: &'static str = "Account created.";

/// The one message for failures that are not the user's to fix.
pub const TRY_AGAIN: &'static str = "An unexpected error occurred. Please try again.";

/// The two account fields that must be unique. The set is closed: a column of
/// the account store is only ever named through a value of this type.
#[derive(Clone, Copy, Debug, PartialEq, Eq, Structural)]
pub enum Field {
    Email,
    Username,
}

impl Field {
    /// The name of the field, which is also the name of its column.
    pub open spec fn name(self) -> Seq<char> {
        match self {
            Field::Email => "email"@,
            Field::Username => "username"@,
        }
    }

    /// The field that a name denotes, if it denotes one.
    pub open spec fn named(name: Seq<char>) -> Option<Field> {
        if name == "email"@ {
            Some(Field::Email)
        } else if name == "username"@ {
            Some(Field::Username)
        } else {
            None
        }
    }

    pub fn as_str(self) -> (name: &'static str)
        ensures
            name@ == self.name(),
    {
        match self {
            Field::Email => "email",
            Field::Username => "username",
        }
    }

    /// Recognises the two field names and nothing else.
    pub fn parse(name: &str) -> (field: Option<Field>)
        ensures
            field == Field::named(name@),
    {
        let name = name.to_owned();
        if name == "email".to_owned() {
            Some(Field::Email)
        } else if name == "username".to_owned() {
            Some(Field::Username)
        } else {
            None
        }
    }
}

/// Every field is found again under its own name.
pub proof fn lemma_field_name_round_trip(field: Field)
    ensures
        Field::named(field.name()) == Some(field),
{
    reveal_strlit("email");
    reveal_strlit("username");
    assert("email"@.len() != "username"@.len());
}

/// What a new user submits.
pub struct RegisterRequest {
    pub email: String,
    pub username: String,
    pub password: String,
}

pub struct RegisterRequestView {
    pub email: Seq<char>,
    pub username: Seq<char>,
    pub password: Seq<char>,
}

impl View for RegisterRequest {
    type V = RegisterRequestView;

    open spec fn view(&self) -> RegisterRequestView {
        RegisterRequestView {
            email: self.email@,
            username: self.username@,
            password: self.password@,
        }
    }
}

/// Why one submitted field was rejected.
pub struct FieldError {
    pub field: Field,
    pub message: String,
}

pub struct FieldErrorView {
    pub field: Field,
    pub message: Seq<char>,
}

impl View for FieldError {
    type V = FieldErrorView;

    open spec fn view(&self) -> FieldErrorView {
        FieldErrorView { field: self.field, message: self.message@ }
    }
}

impl FieldError {
    /// The error that reports `field` as already in use.
    pub open spec fn taken_view(field: Field) -> FieldErrorView {
        FieldErrorView { field, message: ALREADY_TAKEN@ }
    }

    pub fn taken(field: Field) -> (error: FieldError)
        ensures
            error@ == Self::taken_view(field),
    {
        FieldError { field, message: ALREADY_TAKEN.to_owned() }
    }
}

/// The public part of an account: never the password hash.
pub struct UserData {
    pub id: String,
    pub username: String,
    pub email: String,
}

pub struct UserDataView {
    pub id: Seq<char>,
    pub username: Seq<char>,
    pub email: Seq<char>,
}

impl View for UserData {
    type V = UserDataView;

    open spec fn view(&self) -> UserDataView {
        UserDataView { id: self.id@, username: self.username@, email: self.email@ }
    }
}

/// The answer to a registration request.
pub struct RegisterResponse {
    pub success: bool,
    pub field_errors: Option<Vec<FieldError>>,
    pub message: String,
    pub user: Option<UserData>,
}

pub struct RegisterResponseView {
    pub success: bool,
    pub field_errors: Option<Seq<FieldErrorView>>,
    pub message: Seq<char>,
    pub user: Option<UserDataView>,
}

impl View for RegisterResponse {
    type V = RegisterResponseView;

    open spec fn view(&self) -> RegisterResponseView {
        RegisterResponseView {
            success: self.success,
            field_errors: match self.field_errors {
                Some(errors) => Some(errors@.map_values(|e: FieldError| e@)),
                None => None,
            },
            message: self.message@,
            user: match self.user {
                Some(user) => Some(user@),
                None => None,
            },
        }
    }
}

impl RegisterResponseView {
    /// A success carries a user and no field errors; a failure carries no user.
    pub open spec fn wf(self) -> bool {
        &&& self.success ==> self.field_errors is None && self.user is Some
        &&& !self.success ==> self.user is None
    }

    /// The conflicts found, email first, in the order they are reported.
    pub open spec fn conflicts(email_taken: bool, username_taken: bool) -> Seq<FieldErrorView> {
        let email = if email_taken {
            seq![FieldError::taken_view(Field::Email)]
        } else {
            seq![]
        };
        let username = if username_taken {
            seq![FieldError::taken_view(Field::Username)]
        } else {
            seq![]
        };
        email + username
    }

    /// The response that turns a registration down for the given conflicts.
    pub open spec fn rejected(errors: Seq<FieldErrorView>) -> RegisterResponseView {
        RegisterResponseView {
            success: false,
            field_errors: Some(errors),
            message: ACCOUNT_NOT_CREATED@,
            user: None,
        }
    }

    /// The response that reports the account created.
    pub open spec fn created(user: UserDataView) -> RegisterResponseView {
        RegisterResponseView {
            success: true,
            field_errors: None,
            message: ACCOUNT_CREATED@,
            user: Some(user),
        }
    }
}

impl RegisterResponse {
    pub fn rejected(errors: Vec<FieldError>) -> (response: RegisterResponse)
        ensures
            response@ == RegisterResponseView::rejected(errors@.map_values(|e: FieldError| e@)),
            response@.wf(),
    {
        RegisterResponse {
            success: false,
            field_errors: Some(errors),
            message: ACCOUNT_NOT_CREATED.to_owned(),
            user: None,
        }
    }

    pub fn created(user: UserData) -> (response: RegisterResponse)
        ensures
            response@ == RegisterResponseView::created(user@),
            response@.wf(),
    {
        RegisterResponse {
            success: true,
            field_errors: None,
            message: ACCOUNT_CREATED.to_owned(),
            user: Some(user),
        }
    }
}

/// One record of the telemetry sink.
#[derive(Debug)]
pub struct ClientErrorLog {
    pub timestamp: String,
    pub error_type: String,
    pub error_message: String,
    pub app_version: String,
    pub os: String,
}

pub struct ClientErrorLogView {
    pub timestamp: Seq<char>,
    pub error_type: Seq<char>,
    pub error_message: Seq<char>,
    pub app_version: Seq<char>,
    pub os: Seq<char>,
}

impl View for ClientErrorLog {
    type V = ClientErrorLogView;

    open spec fn view(&self) -> ClientErrorLogView {
        ClientErrorLogView {
            timestamp: self.timestamp@,
            error_type: self.error_type@,
            error_message: self.error_message@,
            app_version: self.app_version@,
            os: self.os@,
        }
    }
}

} // verus!
