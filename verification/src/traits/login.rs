//! Logging in: the decisions of the handshake with the portal.
//!
//! The library sends nothing itself. It says what to send next, is told
//! what came back, and decides from that.

use vstd::prelude::*;
use vstd::string::StringExecFns;

use crate::edupage::{
    extract_snapshot_json, snapshot_json, Edupage, EdupageError, EdupageErrorView, Request,
    RequestType, Response,
};
use crate::text::{between, contains, contains_text, cut_between};
use crate::types::UserData;

verus! {

/// The error of the form encoder.
#[verifier::external_type_specification]
#[verifier::external_body]
pub struct ExFormError(serde_urlencoded::ser::Error);

/// What `serde_urlencoded` writes for the three fields `username`,
/// `password` and `csrfauth`, in this order, as a form body; `None` where it
/// refuses.
pub uninterp spec fn login_form(
    username: Seq<char>,
    password: Seq<char>,
    csrfauth: Seq<char>,
) -> Option<Seq<char>>;

/// What the login form carries.
#[derive(Debug, PartialEq, Eq)]
pub struct LoginCredentials {
    pub username: String,
    pub password: String,
    pub csrfauth: String,
}

/// `serde_urlencoded::to_string` on the three fields as pairs of name and
/// value. The contract only names the outcome.
#[verifier::external_body]
pub(crate) fn encode_login_form(c: &LoginCredentials) -> (r: Result<
    String,
    serde_urlencoded::ser::Error,
>)
    ensures
        match r {
            Ok(form) => login_form(c.username@, c.password@, c.csrfauth@) == Some(form@),
            Err(_) => login_form(c.username@, c.password@, c.csrfauth@) is None,
        },
{
    serde_urlencoded::to_string(
        &[
            ("username", c.username.as_str()),
            ("password", c.password.as_str()),
            ("csrfauth", c.csrfauth.as_str()),
        ],
    )
}

/// The message of a form encoder's error, from its `Display`. Nothing is
/// claimed of the text.
#[verifier::external_body]
pub(crate) fn form_error_text(e: &serde_urlencoded::ser::Error) -> String {
    e.to_string()
}

/// Where a login that is under way stands, by what it waits for.
#[derive(Debug, PartialEq, Eq)]
pub enum Handshake {
    /// The login page, which carries the token that the form must repeat.
    LoginPage { subdomain: String, username: String, password: String },
    /// The portal's answer to the credentials.
    Credentials { subdomain: String },
    /// The decoded snapshot of the page that answered the credentials.
    Snapshot { subdomain: String, page: String },
}

/// What the caller reports back.
#[derive(Debug, PartialEq, Eq)]
pub enum LoginEvent {
    /// The request was answered, or the transport failed with a message.
    Responded(Result<Response, String>),
    /// The snapshot was decoded, or the decoder failed with a message.
    Decoded(Result<UserData, String>),
}

/// What the caller is to do next.
#[derive(Debug, PartialEq, Eq)]
pub enum LoginAction {
    /// Send the request and report the response.
    Send(Request),
    /// Decode the snapshot from this JSON text and report it.
    Decode(String),
    /// The login is over.
    Done(Result<(), EdupageError>),
}

/// What one event makes of a login, as mathematical values.
pub enum Step {
    /// The credentials go out, in this form body.
    Submit { form: Seq<char> },
    /// The form encoder refused the credentials.
    Refused,
    /// The page carries a snapshot, in this JSON text.
    Decode { json: Seq<char> },
    /// The session is logged in.
    Enter { gsec_hash: Seq<char>, data: UserData },
    /// The login failed.
    Fail(EdupageErrorView),
}

/// The address of the portal's login page.
pub open spec fn login_page_url(subdomain: Seq<char>) -> Seq<char> {
    "https://"@ + subdomain + ".edupage.org/login/index.php"@
}

/// The address that takes the credentials.
pub open spec fn login_submit_url(subdomain: Seq<char>) -> Seq<char> {
    "https://"@ + subdomain + ".edupage.org/login/edubarLogin.php"@
}

/// The token of a login page: what its `csrfauth` field holds.
pub open spec fn csrf_token(page: Seq<char>) -> Option<Seq<char>> {
    between(page, "name=\"csrfauth\" value=\""@, "\""@)
}

/// The security token that a page assigns.
pub open spec fn page_security_token(page: Seq<char>) -> Option<Seq<char>> {
    between(page, "ASC.gsechash=\""@, "\""@)
}

/// The subdomain that a login is made to.
pub open spec fn stage_subdomain(stage: Handshake) -> Seq<char> {
    match stage {
        Handshake::LoginPage { subdomain, .. } => subdomain@,
        Handshake::Credentials { subdomain } => subdomain@,
        Handshake::Snapshot { subdomain, .. } => subdomain@,
    }
}

/// The body of the response that an event reports; empty where it reports
/// none.
pub open spec fn response_page(event: LoginEvent) -> Seq<char> {
    match event {
        LoginEvent::Responded(Ok(response)) => match response.text {
            Ok(page) => page@,
            Err(_) => Seq::empty(),
        },
        _ => Seq::empty(),
    }
}

/// What the body of a response makes of a login that waits for the login
/// page.
pub open spec fn login_page_step(username: Seq<char>, password: Seq<char>, page: Seq<char>) -> Step {
    if !contains(page, "csrfauth"@) {
        Step::Fail(EdupageErrorView::InvalidResponse)
    } else {
        match csrf_token(page) {
            None => Step::Fail(EdupageErrorView::ParseError("Failed to parse csrf token."@)),
            Some(token) => match login_form(username, password, token) {
                Some(form) => Step::Submit { form },
                None => Step::Refused,
            },
        }
    }
}

/// What a response makes of a login that waits for the answer to the
/// credentials.
pub open spec fn credentials_step(response: Response) -> Step {
    if contains(response.url@, "bad=1"@) {
        Step::Fail(EdupageErrorView::InvalidCredentials)
    } else {
        match response.text {
            Err(message) => Step::Fail(EdupageErrorView::HTTPError(message@)),
            Ok(page) => match snapshot_json(page@) {
                None => Step::Fail(EdupageErrorView::ParseError("Bad data!"@)),
                Some(json) => Step::Decode { json },
            },
        }
    }
}

/// What one event makes of a login at `stage`.
pub open spec fn login_step(stage: Handshake, event: LoginEvent) -> Step {
    match stage {
        Handshake::LoginPage { subdomain, username, password } => match event {
            LoginEvent::Responded(Ok(response)) => match response.text {
                Ok(page) => login_page_step(username@, password@, page@),
                Err(message) => Step::Fail(EdupageErrorView::HTTPError(message@)),
            },
            LoginEvent::Responded(Err(message)) => Step::Fail(
                EdupageErrorView::HTTPError(message@),
            ),
            LoginEvent::Decoded(_) => Step::Fail(EdupageErrorView::Other("Unexpected event."@)),
        },
        Handshake::Credentials { subdomain } => match event {
            LoginEvent::Responded(Ok(response)) => credentials_step(response),
            LoginEvent::Responded(Err(message)) => Step::Fail(
                EdupageErrorView::HTTPError(message@),
            ),
            LoginEvent::Decoded(_) => Step::Fail(EdupageErrorView::Other("Unexpected event."@)),
        },
        Handshake::Snapshot { subdomain, page } => match event {
            LoginEvent::Decoded(Ok(data)) => match page_security_token(page@) {
                None => Step::Fail(EdupageErrorView::ParseError("No gsechash in response!"@)),
                Some(gsec_hash) => Step::Enter { gsec_hash, data },
            },
            LoginEvent::Decoded(Err(message)) => Step::Fail(
                EdupageErrorView::ParseError(message@),
            ),
            LoginEvent::Responded(_) => Step::Fail(
                EdupageErrorView::Other("Unexpected event."@),
            ),
        },
    }
}

/// `request` asks for the login page of `subdomain`.
pub open spec fn is_login_page_request(request: Request, subdomain: Seq<char>) -> bool {
    &&& request.request_type == RequestType::GET
    &&& request.url@ == login_page_url(subdomain)
    &&& request.headers@.len() == 0
    &&& request.post_data is None
}

/// `request` posts the form body `form` to `subdomain`.
pub open spec fn is_submit_request(request: Request, subdomain: Seq<char>, form: Seq<char>) -> bool {
    &&& request.request_type == RequestType::POST
    &&& request.url@ == login_submit_url(subdomain)
    &&& request.headers@.len() == 1
    &&& request.headers@[0].0@ == "Content-Type"@
    &&& request.headers@[0].1@ == "application/x-www-form-urlencoded"@
    &&& request.post_data matches Some(body) && body@ == form
}

/// Two sessions are logged in alike: both not at all, or both with the same
/// snapshot, token and subdomain.
pub open spec fn same_session(a: Edupage, b: Edupage) -> bool {
    &&& a.is_authenticated() == b.is_authenticated()
    &&& a.snapshot() == b.snapshot()
    &&& a.security_token() == b.security_token()
    &&& a.portal() == b.portal()
}

/// The session `before` and `event` lead to the session `after` and the
/// action `action`.
pub open spec fn advanced(before: Edupage, event: LoginEvent, after: Edupage, action: LoginAction) -> bool {
    match before.login_stage() {
        None => {
            &&& action matches LoginAction::Done(Err(e)) && e@ == EdupageErrorView::Other(
                "No login is under way."@,
            )
            &&& after.login_stage() is None
            &&& same_session(before, after)
        },
        Some(stage) => match login_step(stage, event) {
            Step::Submit { form } => {
                &&& action matches LoginAction::Send(request) && is_submit_request(
                    request,
                    stage_subdomain(stage),
                    form,
                )
                &&& after.login_stage() matches Some(Handshake::Credentials { subdomain })
                    && subdomain@ == stage_subdomain(stage)
                &&& same_session(before, after)
            },
            Step::Refused => {
                &&& action matches LoginAction::Done(Err(EdupageError::SerializationError(_)))
                &&& after.login_stage() is None
                &&& same_session(before, after)
            },
            Step::Decode { json } => {
                &&& action matches LoginAction::Decode(text) && text@ == json
                &&& after.login_stage() matches Some(Handshake::Snapshot { subdomain, page })
                    && subdomain@ == stage_subdomain(stage) && page@ == response_page(event)
                &&& same_session(before, after)
            },
            Step::Enter { gsec_hash, data } => {
                &&& action matches LoginAction::Done(Ok(_))
                &&& after.login_stage() is None
                &&& after.is_authenticated()
                &&& after.snapshot() == Some(data)
                &&& after.security_token() == Some(gsec_hash)
                &&& after.portal() == Some(stage_subdomain(stage))
            },
            Step::Fail(e) => {
                &&& action matches LoginAction::Done(Err(error)) && error@ == e
                &&& after.login_stage() is None
                &&& same_session(before, after)
            },
        },
    }
}

/// How many events a login at `stage` can still take.
pub open spec fn steps_left(stage: Option<Handshake>) -> nat {
    match stage {
        Some(Handshake::LoginPage { .. }) => 3,
        Some(Handshake::Credentials { .. }) => 2,
        Some(Handshake::Snapshot { .. }) => 1,
        None => 0,
    }
}

/// Every event brings a login nearer to its end, so a login is over after
/// three events at most.
pub proof fn lemma_login_comes_to_an_end(
    before: Edupage,
    event: LoginEvent,
    after: Edupage,
    action: LoginAction,
)
    requires
        advanced(before, event, after, action),
        before.login_stage() is Some,
    ensures
        steps_left(after.login_stage()) < steps_left(before.login_stage()),
        action is Done <==> after.login_stage() is None,
{
}

/// A login that ends well leaves the session logged in, and one that ends
/// badly leaves it as it was.
pub proof fn lemma_login_ends_in_or_unchanged(
    before: Edupage,
    event: LoginEvent,
    after: Edupage,
    action: LoginAction,
)
    requires
        advanced(before, event, after, action),
    ensures
        action matches LoginAction::Done(Ok(_)) ==> after.is_authenticated() && after.snapshot()
            is Some,
        !(action matches LoginAction::Done(Ok(_))) ==> same_session(before, after),
{
}

/// What a step that is decided apart from the session hands back to it.
enum Transition {
    Continue(Handshake, LoginAction),
    Enter(String, String, UserData),
    Fail(EdupageError),
}

impl LoginCredentials {
    pub fn new(username: String, password: String, csrfauth: String) -> (r: Self)
        ensures
            r == (LoginCredentials { username, password, csrfauth }),
    {
        Self { username, password, csrfauth }
    }

    /// The body of the login form.
    pub fn to_form(&self) -> (r: Result<String, EdupageError>)
        ensures
            match login_form(self.username@, self.password@, self.csrfauth@) {
                Some(form) => r matches Ok(body) && body@ == form,
                None => r matches Err(EdupageError::SerializationError(_)),
            },
    {
        match encode_login_form(self) {
            Ok(body) => Ok(body),
            Err(e) => Err(EdupageError::SerializationError(form_error_text(&e))),
        }
    }
}

/// The request for the login page of `subdomain`.
pub fn login_page_request(subdomain: &str) -> (r: Request)
    ensures
        is_login_page_request(r, subdomain@),
{
    let url = String::from_str("https://").concat(subdomain).concat(
        ".edupage.org/login/index.php",
    );
    Request { url, request_type: RequestType::GET, headers: Vec::new(), post_data: None }
}

/// The request that posts the form body `form` to `subdomain`.
pub fn submit_request(subdomain: &str, form: String) -> (r: Request)
    ensures
        is_submit_request(r, subdomain@, form@),
{
    let url = String::from_str("https://").concat(subdomain).concat(
        ".edupage.org/login/edubarLogin.php",
    );
    let mut headers: Vec<(String, String)> = Vec::new();
    headers.push(
        (String::from_str("Content-Type"), String::from_str("application/x-www-form-urlencoded")),
    );
    Request { url, request_type: RequestType::POST, headers, post_data: Some(form) }
}

/// Decides one step of a login from where it stands and what came back.
fn login_transition(stage: Handshake, event: LoginEvent) -> (r: Transition)
    ensures
        match login_step(stage, event) {
            Step::Submit { form } => r matches Transition::Continue(
                Handshake::Credentials { subdomain },
                LoginAction::Send(request),
            ) && subdomain@ == stage_subdomain(stage) && is_submit_request(
                request,
                stage_subdomain(stage),
                form,
            ),
            Step::Refused => r matches Transition::Fail(EdupageError::SerializationError(_)),
            Step::Decode { json } => r matches Transition::Continue(
                Handshake::Snapshot { subdomain, page },
                LoginAction::Decode(text),
            ) && subdomain@ == stage_subdomain(stage) && text@ == json && page@ == response_page(
                event,
            ),
            Step::Enter { gsec_hash, data } => r matches Transition::Enter(
                subdomain,
                token,
                snapshot,
            ) && subdomain@ == stage_subdomain(stage) && token@ == gsec_hash && snapshot == data,
            Step::Fail(e) => r matches Transition::Fail(error) && error@ == e,
        },
{
    match stage {
        Handshake::LoginPage { subdomain, username, password } => {
            let page = match event {
                LoginEvent::Responded(Ok(response)) => match response.text {
                    Ok(page) => page,
                    Err(message) => {
                        return Transition::Fail(EdupageError::HTTPError(message));
                    },
                },
                LoginEvent::Responded(Err(message)) => {
                    return Transition::Fail(EdupageError::HTTPError(message));
                },
                LoginEvent::Decoded(_) => {
                    return Transition::Fail(
                        EdupageError::Other(String::from_str("Unexpected event.")),
                    );
                },
            };
            if !contains_text(page.as_str(), "csrfauth") {
                return Transition::Fail(EdupageError::InvalidResponse);
            }
            let token = match cut_between(page.as_str(), "name=\"csrfauth\" value=\"", "\"") {
                Some(token) => token,
                None => {
                    return Transition::Fail(
                        EdupageError::ParseError(String::from_str("Failed to parse csrf token.")),
                    );
                },
            };
            let credentials = LoginCredentials::new(username, password, token);
            match credentials.to_form() {
                Ok(form) => {
                    let request = submit_request(subdomain.as_str(), form);
                    Transition::Continue(
                        Handshake::Credentials { subdomain },
                        LoginAction::Send(request),
                    )
                },
                Err(e) => Transition::Fail(e),
            }
        },
        Handshake::Credentials { subdomain } => {
            let response = match event {
                LoginEvent::Responded(Ok(response)) => response,
                LoginEvent::Responded(Err(message)) => {
                    return Transition::Fail(EdupageError::HTTPError(message));
                },
                LoginEvent::Decoded(_) => {
                    return Transition::Fail(
                        EdupageError::Other(String::from_str("Unexpected event.")),
                    );
                },
            };
            if contains_text(response.url.as_str(), "bad=1") {
                return Transition::Fail(EdupageError::InvalidCredentials);
            }
            let page = match response.text {
                Ok(page) => page,
                Err(message) => {
                    return Transition::Fail(EdupageError::HTTPError(message));
                },
            };
            match extract_snapshot_json(page.as_str()) {
                Some(json) => Transition::Continue(
                    Handshake::Snapshot { subdomain, page },
                    LoginAction::Decode(json),
                ),
                None => Transition::Fail(EdupageError::ParseError(String::from_str("Bad data!"))),
            }
        },
        Handshake::Snapshot { subdomain, page } => {
            let data = match event {
                LoginEvent::Decoded(Ok(data)) => data,
                LoginEvent::Decoded(Err(message)) => {
                    return Transition::Fail(EdupageError::ParseError(message));
                },
                LoginEvent::Responded(_) => {
                    return Transition::Fail(
                        EdupageError::Other(String::from_str("Unexpected event.")),
                    );
                },
            };
            match cut_between(page.as_str(), "ASC.gsechash=\"", "\"") {
                Some(token) => Transition::Enter(subdomain, token, data),
                None => Transition::Fail(
                    EdupageError::ParseError(String::from_str("No gsechash in response!")),
                ),
            }
        },
    }
}

impl Edupage {
    /// Starts a login to `subdomain`, dropping one that was under way. The
    /// session keeps what it holds until the login succeeds.
    pub fn begin_login(&mut self, subdomain: &str, username: &str, password: &str) -> (r: Request)
        ensures
            is_login_page_request(r, subdomain@),
            final(self).login_stage() matches Some(
                Handshake::LoginPage { subdomain: s, username: u, password: p },
            ) && s@ == subdomain@ && u@ == username@ && p@ == password@,
            same_session(*old(self), *final(self)),
    {
        self.set_login_stage(
            Some(
                Handshake::LoginPage {
                    subdomain: String::from_str(subdomain),
                    username: String::from_str(username),
                    password: String::from_str(password),
                },
            ),
        );
        login_page_request(subdomain)
    }

    /// Takes the login one step further with what came back.
    ///
    /// A step that fails ends the login and leaves the session as it was; so
    /// does an event while no login is under way. The step that enters puts
    /// the snapshot, the security token and the subdomain into the session.
    pub fn advance_login(&mut self, event: LoginEvent) -> (r: LoginAction)
        ensures
            advanced(*old(self), event, *final(self), r),
    {
        let stage = match self.take_login_stage() {
            Some(stage) => stage,
            None => {
                return LoginAction::Done(
                    Err(EdupageError::Other(String::from_str("No login is under way."))),
                );
            },
        };
        match login_transition(stage, event) {
            Transition::Continue(next, action) => {
                self.set_login_stage(Some(next));
                action
            },
            Transition::Enter(subdomain, gsec_hash, data) => {
                self.enter(subdomain, gsec_hash, data);
                LoginAction::Done(Ok(()))
            },
            Transition::Fail(e) => LoginAction::Done(Err(e)),
        }
    }
}

} // verus!
