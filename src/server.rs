use vstd::prelude::*;
use vstd::string::StringExecFns;

use crate::authentication::{authenticate, login_outcome, LoginOutcome};
use crate::cookie::{is_header_value_char, session_cookie, set_session_cookie};
use crate::errors::{AuthError, RegistrationError};
use crate::forms::{FieldIssue, LoginFormData, RegistrationFormData};
use crate::password::password_bytes;
use crate::registration::{register_user, registered};
use crate::sessions::{create_session, SESSION_DURATION_SECS};
use crate::store::{after_session_created, identifier_taken, AuthStore, StoreView};

verus! {

pub const STATUS_OK: u16 = 200;
pub const STATUS_UNAUTHORIZED: u16 = 401;
pub const STATUS_CONFLICT: u16 = 409;
pub const STATUS_UNPROCESSABLE_ENTITY: u16 = 422;
pub const STATUS_INTERNAL_SERVER_ERROR: u16 = 500;

/// The payload of a reply: a confirmation or an error message.
#[derive(Debug)]
pub struct ApiResponse<T> {
    pub data: Option<T>,
    pub error: Option<String>,
}

/// A reply to the presentation layer: a status, a payload, and the session
/// cookie to set, if any. The token travels only in the cookie.
#[derive(Debug)]
pub struct ServerReply {
    pub status: u16,
    pub body: ApiResponse<String>,
    pub set_cookie: Option<String>,
}

/// A failure below the payload: the transport reports a server error.
#[derive(Debug)]
pub enum ServerFnError {
    ServerError(String),
}

/// One line per issue, `field, message`, joined by newlines.
pub open spec fn issues_text(issues: Seq<FieldIssue>) -> Seq<char>
    decreases issues.len(),
{
    if issues.len() == 0 {
        Seq::empty()
    } else if issues.len() == 1 {
        issue_line(issues[0])
    } else {
        issues_text(issues.drop_last()) + "\n"@ + issue_line(issues.last())
    }
}

pub open spec fn issue_line(issue: FieldIssue) -> Seq<char> {
    issue.spec_field() + ", "@ + issue.spec_message()
}

pub open spec fn not_unique_message(field: Seq<char>) -> Seq<char> {
    field + " already registered"@
}

pub open spec fn invalid_credentials_message() -> Seq<char> {
    "Invalid username or password."@
}

pub open spec fn internal_error_message() -> Seq<char> {
    "An internal error occurred."@
}

/// The store after a registration followed by the creation of a session for
/// the new user, whose token is that of the newest session.
pub open spec fn registered_with_session(
    old: StoreView,
    new: StoreView,
    form: RegistrationFormData,
    now: i64,
) -> bool {
    exists|mid: StoreView, uid: u64|
        registered(old, mid, form.name@, form.identifier@, form.password@, now, uid)
            && #[trigger] after_session_created(
            mid,
            uid,
            new.sessions.last().session_token,
            (now + SESSION_DURATION_SECS) as i64,
            now,
        ) == new
}

pub open spec fn error_reply(rep: ServerReply, status: u16, message: Seq<char>) -> bool {
    &&& rep.status == status
    &&& rep.body.data is None
    &&& rep.body.error matches Some(m) && m@ == message
    &&& rep.set_cookie is None
}

pub open spec fn registered_message() -> Seq<char> {
    "The user have been registered successfully"@
}

pub open spec fn logged_in_message() -> Seq<char> {
    "The user have been logged in successfully"@
}

pub open spec fn register_failed_message() -> Seq<char> {
    "Failed to register the user"@
}

pub open spec fn session_failed_message() -> Seq<char> {
    "Failed to generate session tokens for the registered user"@
}

pub open spec fn cookie_failed_message() -> Seq<char> {
    "Failed to create appropriate cookies after registration"@
}

pub open spec fn success_reply(rep: ServerReply, token: Seq<char>, message: Seq<char>) -> bool {
    &&& rep.status == STATUS_OK
    &&& rep.body.data matches Some(d) && d@ == message
    &&& rep.body.error is None
    &&& rep.set_cookie matches Some(c) && c@ == session_cookie(token)
}

fn reply(status: u16, message: String) -> (r: ServerReply)
    ensures
        error_reply(r, status, message@),
{
    ServerReply {
        status,
        body: ApiResponse { data: None, error: Some(message) },
        set_cookie: None,
    }
}

fn field_issues_text(issues: &Vec<FieldIssue>) -> (r: String)
    ensures
        r@ == issues_text(issues@),
{
    let mut text = String::new();
    let mut k: usize = 0;
    while k < issues.len()
        invariant
            k <= issues@.len(),
            text@ == issues_text(issues@.take(k as int)),
        decreases issues@.len() - k,
    {
        proof {
            assert(issues@.take(k + 1).drop_last() =~= issues@.take(k as int));
        }
        if k > 0 {
            text = text.concat("\n");
        }
        let issue = issues[k];
        text = text.concat(issue.field());
        text = text.concat(", ");
        text = text.concat(issue.message());
        proof {
            if k == 0 {
                assert(text@ =~= issue_line(issues@[0]));
            } else {
                assert(text@ =~= issues_text(issues@.take(k as int)) + "\n"@ + issue_line(issues@[k as int]));
            }
        }
        k = k + 1;
    }
    proof {
        assert(issues@.take(issues@.len() as int) =~= issues@);
    }
    text
}

/// The registration operation: validation failures give 422 with one line
/// per field, a registered identifier gives 409, success registers the user,
/// opens a session and sets its cookie; internal failures are transport
/// errors with a generic message.
pub fn register(store: &mut AuthStore, form: RegistrationFormData, now: i64) -> (r: Result<
    ServerReply,
    ServerFnError,
>)
    requires
        old(store).wf(),
        now <= i64::MAX - SESSION_DURATION_SECS,
    ensures
        final(store).wf(),
        form.spec_issues().len() > 0 ==> (r matches Ok(rep) && error_reply(
            rep,
            STATUS_UNPROCESSABLE_ENTITY,
            issues_text(form.spec_issues()),
        ) && final(store)@ == old(store)@),
        form.spec_issues().len() == 0 && identifier_taken(old(store)@, form.identifier@) ==> (r matches Ok(rep)
            && error_reply(
            rep,
            STATUS_CONFLICT,
            not_unique_message(form.identifier@.0.spec_name()),
        ) && final(store)@ == old(store)@),
        form.spec_issues().len() == 0 && !identifier_taken(old(store)@, form.identifier@)
            && old(store)@.next_id < u64::MAX - 1 && password_bytes(form.password@).len()
            <= u32::MAX ==> (r matches Ok(rep) && rep.status == STATUS_OK),
        form.spec_issues().len() == 0 && !identifier_taken(old(store)@, form.identifier@)
            && old(store)@.next_id == u64::MAX ==> (r matches Err(ServerFnError::ServerError(m))
            && m@ == register_failed_message() && final(store)@ == old(store)@),
        r matches Ok(rep) ==> (rep.status == STATUS_OK ==> success_reply(
            rep,
            final(store)@.sessions.last().session_token,
            registered_message(),
        ) && registered_with_session(old(store)@, final(store)@, form, now)),
        r matches Ok(rep) ==> (rep.status == STATUS_UNPROCESSABLE_ENTITY ==> form.spec_issues().len()
            > 0),
        r matches Ok(rep) ==> (rep.status == STATUS_CONFLICT ==> form.spec_issues().len() == 0
            && identifier_taken(old(store)@, form.identifier@)),
        r matches Ok(rep) ==> rep.status == STATUS_OK || rep.status == STATUS_UNPROCESSABLE_ENTITY
            || rep.status == STATUS_CONFLICT,
        r matches Err(ServerFnError::ServerError(m)) ==> (m@ == register_failed_message() || m@
            == session_failed_message() || m@ == cookie_failed_message()),
{
    let ghost old_v = store@;
    let ghost form_v = form;
    let uid = match register_user(store, form, now) {
        Ok(uid) => uid,
        Err(RegistrationError::InvalidData(issues)) => {
            return Ok(reply(STATUS_UNPROCESSABLE_ENTITY, field_issues_text(&issues)));
        },
        Err(RegistrationError::NotUniqueError(field)) => {
            let message = field.concat(" already registered");
            return Ok(reply(STATUS_CONFLICT, message));
        },
        Err(_) => {
            return Err(ServerFnError::ServerError("Failed to register the user".to_owned()));
        },
    };
    let ghost mid = store@;
    let session_token = match create_session(store, uid, now) {
        Ok(t) => t,
        Err(_) => {
            return Err(
                ServerFnError::ServerError(
                    "Failed to generate session tokens for the registered user".to_owned(),
                ),
            );
        },
    };
    assert forall|i: int| 0 <= i < session_token@.len() implies is_header_value_char(
        #[trigger] session_token@[i],
    ) by {
        assert(crate::token::is_url_safe_char(session_token@[i]));
    }
    let cookie = match set_session_cookie(session_token.as_str()) {
        Ok(c) => c,
        Err(_) => {
            return Err(
                ServerFnError::ServerError(
                    "Failed to create appropriate cookies after registration".to_owned(),
                ),
            );
        },
    };
    proof {
        assert(store@.sessions.last().session_token == session_token@);
        assert(registered(old_v, mid, form_v.name@, form_v.identifier@, form_v.password@, now, uid));
        assert(after_session_created(
            mid,
            uid,
            store@.sessions.last().session_token,
            (now + SESSION_DURATION_SECS) as i64,
            now,
        ) == store@);
    }
    Ok(
        ServerReply {
            status: STATUS_OK,
            body: ApiResponse {
                data: Some("The user have been registered successfully".to_owned()),
                error: None,
            },
            set_cookie: Some(cookie),
        },
    )
}

/// The login operation: an unknown identifier and a wrong password give the
/// same 401 reply; a malformed stored hash gives a generic 500; success opens
/// a session for the user and sets its cookie.
pub fn login(store: &mut AuthStore, form: LoginFormData, now: i64) -> (r: Result<
    ServerReply,
    ServerFnError,
>)
    requires
        old(store).wf(),
        now <= i64::MAX - SESSION_DURATION_SECS,
    ensures
        final(store).wf(),
        r is Ok,
        match login_outcome(old(store)@, form.identifier@, form.password@) {
            LoginOutcome::UnknownUser | LoginOutcome::WrongPassword => r matches Ok(rep)
                && error_reply(rep, STATUS_UNAUTHORIZED, invalid_credentials_message())
                && final(store)@ == old(store)@,
            LoginOutcome::MalformedHash => r matches Ok(rep) && error_reply(
                rep,
                STATUS_INTERNAL_SERVER_ERROR,
                internal_error_message(),
            ) && final(store)@ == old(store)@,
            LoginOutcome::Accepted(uid) => old(store)@.next_id < u64::MAX ==> (r matches Ok(rep)
                && success_reply(
                rep,
                final(store)@.sessions.last().session_token,
                logged_in_message(),
            )
                && final(store)@ == after_session_created(
                old(store)@,
                uid,
                final(store)@.sessions.last().session_token,
                (now + SESSION_DURATION_SECS) as i64,
                now,
            )),
        },
{
    let uid = match authenticate(store, form) {
        Ok(uid) => uid,
        Err(AuthError::UserNotFound) | Err(AuthError::PasswordVerificationError(_)) => {
            return Ok(reply(STATUS_UNAUTHORIZED, "Invalid username or password.".to_owned()));
        },
        Err(_) => {
            return Ok(reply(STATUS_INTERNAL_SERVER_ERROR, "An internal error occurred.".to_owned()));
        },
    };
    let session_token = match create_session(store, uid, now) {
        Ok(t) => t,
        Err(_) => {
            return Ok(
                reply(STATUS_INTERNAL_SERVER_ERROR, "Failed to create user session.".to_owned()),
            );
        },
    };
    let cookie = match set_session_cookie(session_token.as_str()) {
        Ok(c) => c,
        Err(_) => {
            return Ok(
                reply(STATUS_INTERNAL_SERVER_ERROR, "Failed to set session cookie.".to_owned()),
            );
        },
    };
    Ok(
        ServerReply {
            status: STATUS_OK,
            body: ApiResponse {
                data: Some("The user have been logged in successfully".to_owned()),
                error: None,
            },
            set_cookie: Some(cookie),
        },
    )
}

} // verus!
