use crate::account::{CreatePlan, LoginOutcome};
use crate::authorize::{form_keys, names_required, validate};
use vstd::prelude::*;
use vstd::string::StringExecFns;

verus! {

broadcast use vstd::string::group_string_axioms;

/// Largest request body accepted, in bytes.
pub const MAX_BODY_BYTES: u64 = 65536;

pub const STATUS_OK: u16 = 200;
pub const STATUS_BAD_REQUEST: u16 = 400;
pub const STATUS_NOT_FOUND: u16 = 404;
pub const STATUS_PAYLOAD_TOO_LARGE: u16 = 413;
pub const STATUS_INTERNAL_SERVER_ERROR: u16 = 500;

/// The request methods the server tells apart.
#[derive(Clone, Copy, Debug, PartialEq, Eq, Structural)]
pub enum Method {
    Get,
    Post,
    Other,
}

/// Where a request goes.
#[derive(Clone, Copy, Debug, PartialEq, Eq, Structural)]
pub enum Route {
    /// The advertised body is larger than allowed, or unbounded.
    PayloadTooLarge,
    Authorize,
    Login,
    CreateAccount,
    NotFound,
}

/// A response: status code and body text.
pub struct Reply {
    pub status: u16,
    pub body: String,
}

/// Routing: the body limit first, then method and path, matched exactly.
pub open spec fn route_of(method: Method, path: Seq<char>, body_upper: Option<u64>) -> Route {
    if body_upper is None || body_upper->Some_0 > MAX_BODY_BYTES {
        Route::PayloadTooLarge
    } else if method == Method::Get && path == "/authorize"@ {
        Route::Authorize
    } else if method == Method::Post && path == "/Login"@ {
        Route::Login
    } else if method == Method::Post && path == "/CreateAccount"@ {
        Route::CreateAccount
    } else {
        Route::NotFound
    }
}

/// Chooses the route of a request from its method, its path and the upper
/// bound its body advertises (`None`: no bound).
pub fn route(method: Method, path: &String, body_upper: Option<u64>) -> (r: Route)
    ensures
        r == route_of(method, path@, body_upper),
{
    let too_large = match body_upper {
        Some(n) => n > MAX_BODY_BYTES,
        None => true,
    };
    if too_large {
        return Route::PayloadTooLarge;
    }
    let authorize = String::from_str("/authorize");
    let login = String::from_str("/Login");
    let create = String::from_str("/CreateAccount");
    match method {
        Method::Get => {
            if *path == authorize {
                Route::Authorize
            } else {
                Route::NotFound
            }
        },
        Method::Post => {
            if *path == login {
                Route::Login
            } else if *path == create {
                Route::CreateAccount
            } else {
                Route::NotFound
            }
        },
        Method::Other => Route::NotFound,
    }
}

/// The reply to an authorize request with this query string, if any.
pub fn authorize_reply(query: Option<&str>) -> (r: Reply)
    ensures
        ({
            let ok = match query {
                Some(q) => names_required(form_keys(q@)),
                None => false,
            };
            &&& ok ==> r.status == STATUS_OK && r.body@ == "Has All Params"@
            &&& !ok ==> r.status == STATUS_BAD_REQUEST && r.body@ == Seq::<char>::empty()
        }),
{
    if validate(query) {
        Reply { status: STATUS_OK, body: String::from_str("Has All Params") }
    } else {
        Reply { status: STATUS_BAD_REQUEST, body: String::new() }
    }
}

/// The reply to a body over the limit.
pub fn payload_too_large_reply() -> (r: Reply)
    ensures
        r.status == STATUS_PAYLOAD_TOO_LARGE,
        r.body@ == "Body too big"@,
{
    Reply { status: STATUS_PAYLOAD_TOO_LARGE, body: String::from_str("Body too big") }
}

/// Status of an account-creation request: `None` is a body that is not the
/// expected JSON; `persisted` says whether storing the account succeeded,
/// and counts only where the plan was to store it. A password the policy
/// rejects is a validation failure of the client's request.
pub fn create_account_status(plan: Option<&CreatePlan>, persisted: bool) -> (r: u16)
    ensures
        r == match plan {
            None => STATUS_BAD_REQUEST,
            Some(CreatePlan::Malformed) => STATUS_BAD_REQUEST,
            Some(CreatePlan::PolicyRejected) => STATUS_BAD_REQUEST,
            Some(CreatePlan::HashFailed) => STATUS_INTERNAL_SERVER_ERROR,
            Some(CreatePlan::Persist { .. }) => if persisted {
                STATUS_OK
            } else {
                STATUS_INTERNAL_SERVER_ERROR
            },
        },
{
    match plan {
        None => STATUS_BAD_REQUEST,
        Some(CreatePlan::Malformed) => STATUS_BAD_REQUEST,
        Some(CreatePlan::PolicyRejected) => STATUS_BAD_REQUEST,
        Some(CreatePlan::HashFailed) => STATUS_INTERNAL_SERVER_ERROR,
        Some(CreatePlan::Persist { .. }) => if persisted {
            STATUS_OK
        } else {
            STATUS_INTERNAL_SERVER_ERROR
        },
    }
}

/// Status of a login request: `None` is a body that is not the expected
/// JSON. A rejection does not tell an unknown user from a wrong password.
pub fn login_status(outcome: Option<&LoginOutcome>) -> (r: u16)
    ensures
        r == match outcome {
            None => STATUS_BAD_REQUEST,
            Some(LoginOutcome::Authenticated(_)) => STATUS_OK,
            Some(LoginOutcome::Rejected) => STATUS_NOT_FOUND,
            Some(LoginOutcome::SessionUnavailable) => STATUS_INTERNAL_SERVER_ERROR,
        },
{
    match outcome {
        None => STATUS_BAD_REQUEST,
        Some(LoginOutcome::Authenticated(_)) => STATUS_OK,
        Some(LoginOutcome::Rejected) => STATUS_NOT_FOUND,
        Some(LoginOutcome::SessionUnavailable) => STATUS_INTERNAL_SERVER_ERROR,
    }
}

} // verus!
