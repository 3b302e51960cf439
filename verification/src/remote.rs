//! The client side of the remote account service: what is asked of it, and
//! what its answers come to. Sending and receiving is the caller's part.

use crate::errors::{
    classify, network_error_category, network_error_report, user_message, ErrorReport,
    ErrorReportView, NetworkError,
};
use crate::models::{Field, TRY_AGAIN};
use vstd::prelude::*;
use vstd::string::*;

verus! {

/// Endpoint that registers an account.
pub const REGISTER_ENDPOINT: &'static str = "register";

/// Endpoint that opens a session.
pub const LOGIN_ENDPOINT: &'static str = "login";

/// Endpoint that tells whether a field's value is still free.
pub const CHECK_FIELD_ENDPOINT: &'static str = "check-field";

pub const FIELD_PARAMETER: &'static str = "field";

pub const VALUE_PARAMETER: &'static str = "value";

/// The query of an availability check: the field by its name, then the
/// value.
pub open spec fn availability_query_view(field: Field, value: Seq<char>) -> Seq<
    (Seq<char>, Seq<char>),
> {
    seq![(FIELD_PARAMETER@, field.name()), (VALUE_PARAMETER@, value)]
}

/// The query parameters of an availability check.
pub fn availability_query(field: Field, value: &str) -> (query: Vec<(String, String)>)
    ensures
        query@.map_values(|pair: (String, String)| (pair.0@, pair.1@)) == availability_query_view(
            field,
            value@,
        ),
{
    let mut query: Vec<(String, String)> = Vec::new();
    query.push((FIELD_PARAMETER.to_owned(), field.as_str().to_owned()));
    query.push((VALUE_PARAMETER.to_owned(), value.to_owned()));
    assert(query@.map_values(|pair: (String, String)| (pair.0@, pair.1@))
        =~= availability_query_view(field, value@));
    query
}

/// What an answer of the service comes to.
///
/// A body that decodes is handed on, whatever the status: the service
/// explains a refusal in the body. A body that does not decode is a network
/// failure under a success status, and under any other status tells the
/// user no more than to try again.
pub fn settle_response<T>(success_status: bool, decoded: Result<T, NetworkError>) -> (res: Result<
    T,
    String,
>)
    ensures
        decoded matches Ok(body) ==> res == Ok::<T, String>(body),
        decoded matches Err(error) ==> (res matches Err(message) && message@ == if success_status {
            user_message(error@.category())
        } else {
            TRY_AGAIN@
        }),
{
    match decoded {
        Ok(body) => Ok(body),
        Err(error) => {
            if success_status {
                Err(classify(network_error_category(&error)))
            } else {
                Err(TRY_AGAIN.to_owned())
            }
        },
    }
}

/// What telemetry is told of an answer of the service: the failure to decode
/// a body that came under a success status, and nothing else. A body that
/// does not decode under any other status is the service's refusal, not a
/// fault of the transport.
pub open spec fn response_report(success_status: bool, failure: Option<NetworkError>) -> Option<
    ErrorReportView,
> {
    match failure {
        Some(error) => if success_status {
            error@.report()
        } else {
            None
        },
        None => None,
    }
}

/// What telemetry is told of an answer of the service, given the failure to
/// decode its body, if there was one.
pub fn settle_report(success_status: bool, failure: Option<&NetworkError>) -> (report: Option<
    ErrorReport,
>)
    ensures
        match report {
            Some(r) => response_report(
                success_status,
                match failure {
                    Some(error) => Some(*error),
                    None => None,
                },
            ) == Some(r@),
            None => response_report(
                success_status,
                match failure {
                    Some(error) => Some(*error),
                    None => None,
                },
            ) is None,
        },
{
    match failure {
        Some(error) => {
            if success_status {
                network_error_report(error)
            } else {
                None
            }
        },
        None => None,
    }
}

} // verus!
