//! The session with the portal, and what can go wrong with it.

use vstd::prelude::*;

use crate::text::{after_first, before_last_two, chars_of, find_in, rfind_in, without_breaks};
use crate::traits::login::Handshake;
use crate::types::timetable::text_view;
use crate::types::UserData;

verus! {

/// A session with the portal. It starts logged out; a login that succeeds
/// fills it with the snapshot, the security token and the subdomain, all at
/// once. While a login is under way the session keeps what it had.
pub struct Edupage {
    pub(crate) is_logged_in: bool,
    pub(crate) data: Option<UserData>,
    pub(crate) gsec_hash: Option<String>,
    pub(crate) subdomain: Option<String>,
    pub(crate) handshake: Option<Handshake>,
}

/// Why an operation of the library failed.
#[derive(Debug, PartialEq, Eq)]
pub enum EdupageError {
    InvalidCredentials,
    HTTPError(String),
    InvalidResponse,
    ParseError(String),
    SerializationError(String),
    NotLoggedIn,
    MissingData,
    Other(String),
}

/// An `EdupageError` with its detail as characters.
pub enum EdupageErrorView {
    InvalidCredentials,
    HTTPError(Seq<char>),
    InvalidResponse,
    ParseError(Seq<char>),
    SerializationError(Seq<char>),
    NotLoggedIn,
    MissingData,
    Other(Seq<char>),
}

/// The two kinds of request that the portal is asked with.
#[derive(Clone, Copy, Debug, PartialEq, Eq, Structural)]
pub enum RequestType {
    GET,
    POST,
}

/// A request for the transport to send.
#[derive(Clone, Debug, PartialEq, Eq)]
pub struct Request {
    pub url: String,
    pub request_type: RequestType,
    pub headers: Vec<(String, String)>,
    pub post_data: Option<String>,
}

/// What the transport brought back: the address that answered, after any
/// redirect, and the body, or the transport's message where the body could
/// not be read.
#[derive(Debug, PartialEq, Eq)]
pub struct Response {
    pub url: String,
    pub text: Result<String, String>,
}

impl View for EdupageError {
    type V = EdupageErrorView;

    open spec fn view(&self) -> EdupageErrorView {
        match *self {
            EdupageError::InvalidCredentials => EdupageErrorView::InvalidCredentials,
            EdupageError::HTTPError(detail) => EdupageErrorView::HTTPError(detail@),
            EdupageError::InvalidResponse => EdupageErrorView::InvalidResponse,
            EdupageError::ParseError(detail) => EdupageErrorView::ParseError(detail@),
            EdupageError::SerializationError(detail) => EdupageErrorView::SerializationError(
                detail@,
            ),
            EdupageError::NotLoggedIn => EdupageErrorView::NotLoggedIn,
            EdupageError::MissingData => EdupageErrorView::MissingData,
            EdupageError::Other(detail) => EdupageErrorView::Other(detail@),
        }
    }
}

impl Default for Edupage {
    fn default() -> (r: Self)
        ensures
            !r.is_authenticated(),
            r.login_stage() is None,
    {
        Edupage::new()
    }
}

impl Clone for EdupageError {
    fn clone(&self) -> (r: Self)
        ensures
            r == *self,
    {
        match self {
            EdupageError::InvalidCredentials => EdupageError::InvalidCredentials,
            EdupageError::HTTPError(detail) => EdupageError::HTTPError(detail.clone()),
            EdupageError::InvalidResponse => EdupageError::InvalidResponse,
            EdupageError::ParseError(detail) => EdupageError::ParseError(detail.clone()),
            EdupageError::SerializationError(detail) => EdupageError::SerializationError(
                detail.clone(),
            ),
            EdupageError::NotLoggedIn => EdupageError::NotLoggedIn,
            EdupageError::MissingData => EdupageError::MissingData,
            EdupageError::Other(detail) => EdupageError::Other(detail.clone()),
        }
    }
}

/// The snapshot that a page of the portal carries: what stands after the
/// first `userhome(`, up to the next one, before the last but one `);` of
/// that stretch, without tabs and line ends. `None` where the page has no
/// `userhome(` or fewer than two `);` after it.
pub open spec fn snapshot_json(page: Seq<char>) -> Option<Seq<char>> {
    match after_first(page, "userhome("@) {
        None => None,
        Some(segment) => match before_last_two(segment, ");"@) {
            None => None,
            Some(payload) => Some(without_breaks(payload)),
        },
    }
}

/// The text of the snapshot that `page` carries.
pub fn extract_snapshot_json(page: &str) -> (r: Option<String>)
    ensures
        match r {
            Some(json) => snapshot_json(page@) == Some(json@),
            None => snapshot_json(page@) is None,
        },
{
    let v = chars_of(page);
    let opening = chars_of("userhome(");
    let closing = chars_of(");");
    assert(v@.subrange(0, v@.len() as int) =~= v@);
    let start = match find_in(&v, &opening, 0, v.len()) {
        Some(i) => i + opening.len(),
        None => {
            return None;
        },
    };
    assert(v@.skip(start as int) =~= v@.subrange(start as int, v@.len() as int));
    let segment_end = match find_in(&v, &opening, start, v.len()) {
        Some(j) => j,
        None => v.len(),
    };
    let ghost segment = v@.subrange(start as int, segment_end as int);
    assert(after_first(v@, opening@) == Some(segment)) by {
        assert(v@.skip(start as int).take(segment_end - start) =~= segment);
    }
    let last = match rfind_in(&v, &closing, start, segment_end, segment_end) {
        Some(p) => p,
        None => {
            return None;
        },
    };
    let cut = match rfind_in(&v, &closing, start, segment_end, last) {
        Some(p) => p,
        None => {
            return None;
        },
    };
    let ghost payload = v@.subrange(start as int, cut as int);
    assert(segment.take(cut - start) =~= payload);
    let mut out = String::new();
    let mut i: usize = start;
    assert(v@.subrange(start as int, start as int) =~= Seq::<char>::empty());
    while i < cut
        invariant
            start <= i <= cut <= v.len(),
            out@ == without_breaks(v@.subrange(start as int, i as int)),
        decreases cut - i,
    {
        let c = v[i];
        proof {
            let grown = v@.subrange(start as int, i + 1);
            assert(grown.drop_last() =~= v@.subrange(start as int, i as int));
            assert(grown.last() == c);
        }
        if c != '\t' && c != '\n' && c != '\r' {
            out.push(c);
        }
        i += 1;
    }
    Some(out)
}

impl Edupage {
    /// A session that is logged in holds all that a login brings.
    #[verifier::type_invariant]
    pub open(crate) spec fn complete(&self) -> bool {
        self.is_logged_in ==> self.data is Some && self.gsec_hash is Some && self.subdomain
            is Some
    }

    /// Whether the session is logged in.
    pub open(crate) spec fn is_authenticated(&self) -> bool {
        self.is_logged_in
    }

    /// The snapshot of a session that is logged in.
    pub open(crate) spec fn snapshot(&self) -> Option<UserData> {
        if self.is_logged_in {
            self.data
        } else {
            None
        }
    }

    /// The security token of a session that is logged in.
    pub open(crate) spec fn security_token(&self) -> Option<Seq<char>> {
        if self.is_logged_in {
            text_view(self.gsec_hash)
        } else {
            None
        }
    }

    /// The subdomain of the portal that the session is logged in to.
    pub open(crate) spec fn portal(&self) -> Option<Seq<char>> {
        if self.is_logged_in {
            text_view(self.subdomain)
        } else {
            None
        }
    }

    /// Where a login that is under way stands.
    pub open(crate) spec fn login_stage(&self) -> Option<Handshake> {
        self.handshake
    }

    /// A session that is logged out, with no login under way.
    pub fn new() -> (r: Self)
        ensures
            !r.is_authenticated(),
            r.snapshot() is None,
            r.security_token() is None,
            r.portal() is None,
            r.login_stage() is None,
    {
        Edupage {
            is_logged_in: false,
            data: None,
            gsec_hash: None,
            subdomain: None,
            handshake: None,
        }
    }

    /// Puts a login where `stage` says, or ends it.
    pub(crate) fn set_login_stage(&mut self, stage: Option<Handshake>)
        ensures
            final(self).login_stage() == stage,
            final(self).is_authenticated() == old(self).is_authenticated(),
            final(self).snapshot() == old(self).snapshot(),
            final(self).security_token() == old(self).security_token(),
            final(self).portal() == old(self).portal(),
    {
        proof {
            use_type_invariant(&*self);
        }
        self.handshake = stage;
    }

    /// Takes the stage of the login out of the session, which ends the
    /// login.
    pub(crate) fn take_login_stage(&mut self) -> (r: Option<Handshake>)
        ensures
            r == old(self).login_stage(),
            final(self).login_stage() is None,
            final(self).is_authenticated() == old(self).is_authenticated(),
            final(self).snapshot() == old(self).snapshot(),
            final(self).security_token() == old(self).security_token(),
            final(self).portal() == old(self).portal(),
    {
        let mut session = Edupage::new();
        core::mem::swap(self, &mut session);
        proof {
            use_type_invariant(&session);
        }
        let Edupage { is_logged_in, data, gsec_hash, subdomain, handshake } = session;
        *self = Edupage { is_logged_in, data, gsec_hash, subdomain, handshake: None };
        handshake
    }

    /// Logs the session in.
    pub(crate) fn enter(&mut self, subdomain: String, gsec_hash: String, data: UserData)
        ensures
            final(self).login_stage() == old(self).login_stage(),
            final(self).is_authenticated(),
            final(self).snapshot() == Some(data),
            final(self).security_token() == Some(gsec_hash@),
            final(self).portal() == Some(subdomain@),
    {
        proof {
            use_type_invariant(&*self);
        }
        self.data = Some(data);
        self.gsec_hash = Some(gsec_hash);
        self.subdomain = Some(subdomain);
        self.is_logged_in = true;
    }

    /// Whether the session is logged in, which is whether it has a snapshot.
    pub fn logged_in(&self) -> (r: bool)
        ensures
            r == self.is_authenticated(),
            r == self.snapshot() is Some,
            r == self.security_token() is Some,
            r == self.portal() is Some,
    {
        proof {
            use_type_invariant(self);
        }
        self.is_logged_in
    }

    /// Whether a login is under way.
    pub fn login_in_progress(&self) -> (r: bool)
        ensures
            r == self.login_stage() is Some,
    {
        self.handshake.is_some()
    }

    /// The subdomain that the session is logged in to.
    pub fn subdomain(&self) -> (r: Option<&String>)
        ensures
            match r {
                Some(s) => self.portal() == Some(s@),
                None => self.portal() is None,
            },
    {
        if !self.is_logged_in {
            return None;
        }
        self.subdomain.as_ref()
    }

    /// The security token of the session, which some requests must carry.
    pub fn gsec_hash(&self) -> (r: Option<&String>)
        ensures
            match r {
                Some(s) => self.security_token() == Some(s@),
                None => self.security_token() is None,
            },
    {
        if !self.is_logged_in {
            return None;
        }
        self.gsec_hash.as_ref()
    }

    /// The request that an authenticated call to the portal sends. A `GET`
    /// carries no body, whatever `post_data` holds. Outside a login there is
    /// nothing to send.
    pub fn request(
        &self,
        url: String,
        request_type: RequestType,
        headers: Option<Vec<(String, String)>>,
        post_data: Option<String>,
    ) -> (r: Result<Request, EdupageError>)
        ensures
            !self.is_authenticated() ==> r == Err::<Request, EdupageError>(
                EdupageError::NotLoggedIn,
            ),
            self.is_authenticated() ==> (r matches Ok(req) && req.url == url && req.request_type
                == request_type && req.headers@ == (match headers {
                Some(list) => list@,
                None => Seq::empty(),
            }) && req.post_data == (match request_type {
                RequestType::GET => None,
                RequestType::POST => post_data,
            })),
    {
        if !self.is_logged_in {
            return Err(EdupageError::NotLoggedIn);
        }
        let headers = match headers {
            Some(list) => list,
            None => Vec::new(),
        };
        let post_data = match request_type {
            RequestType::GET => None,
            RequestType::POST => post_data,
        };
        Ok(Request { url, request_type, headers, post_data })
    }
}

} // verus!
