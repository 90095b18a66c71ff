//! Asking for the substitution notices of a day.

use vstd::prelude::*;
use vstd::string::StringExecFns;

use crate::calendar::{date_text, format_date};
use crate::edupage::{Edupage, EdupageError, EdupageErrorView, Request, RequestType};
use crate::types::time::Date;

verus! {

/// The address that answers with the notices.
pub open spec fn substitution_url(subdomain: Seq<char>) -> Seq<char> {
    "https://"@ + subdomain
        + ".edupage.org/substitution/server/viewer.js?__func=getSubstViewerDayDataHtml"@
}

/// The body that asks for the notices of the day written `day`, signed
/// with the security token `gsec_hash`.
pub open spec fn substitution_body(day: Seq<char>, gsec_hash: Seq<char>) -> Seq<char> {
    "{\"__args\":[null,{\"date\":\""@ + day + "\",\"mode\":\"classes\"}],\"__gsh\":\""@
        + gsec_hash + "\"}"@
}

/// `request` posts `body` as JSON to `url`.
pub open spec fn is_json_post(request: Request, url: Seq<char>, body: Seq<char>) -> bool {
    &&& request.request_type == RequestType::POST
    &&& request.url@ == url
    &&& request.headers@.len() == 1
    &&& request.headers@[0].0@ == "Content-Type"@
    &&& request.headers@[0].1@ == "application/json"@
    &&& request.post_data matches Some(text) && text@ == body
}

/// The request that posts `body` as JSON to `url`.
pub fn json_post(url: String, body: String) -> (r: Request)
    ensures
        is_json_post(r, url@, body@),
{
    let mut headers: Vec<(String, String)> = Vec::new();
    headers.push((String::from_str("Content-Type"), String::from_str("application/json")));
    Request { url, request_type: RequestType::POST, headers, post_data: Some(body) }
}

impl Edupage {
    /// The request for the notices of the day written `day`, as
    /// `YYYY-MM-DD`, at the portal of `subdomain`. It carries the session's
    /// security token, so it takes a session that is logged in.
    pub fn substitution_request_on(&self, day: &str, subdomain: &str) -> (r: Result<
        Request,
        EdupageError,
    >)
        ensures
            match self.security_token() {
                Some(gsec_hash) => r matches Ok(request) && is_json_post(
                    request,
                    substitution_url(subdomain@),
                    substitution_body(day@, gsec_hash),
                ),
                None => r == Err::<Request, EdupageError>(EdupageError::NotLoggedIn),
            },
    {
        let gsec_hash = match self.gsec_hash() {
            Some(gsec_hash) => gsec_hash,
            None => {
                return Err(EdupageError::NotLoggedIn);
            },
        };
        let url = String::from_str("https://").concat(subdomain).concat(
            ".edupage.org/substitution/server/viewer.js?__func=getSubstViewerDayDataHtml",
        );
        let body = String::from_str("{\"__args\":[null,{\"date\":\"").concat(day).concat(
            "\",\"mode\":\"classes\"}],\"__gsh\":\"",
        ).concat(gsec_hash.as_str()).concat("\"}");
        Ok(json_post(url, body))
    }

    /// The request for the notices of `date` at the portal of `subdomain`.
    /// A date that is no day of the calendar cannot be asked for.
    pub fn substitution_request(&self, date: Date, subdomain: &str) -> (r: Result<
        Request,
        EdupageError,
    >)
        ensures
            match self.security_token() {
                Some(gsec_hash) => match date_text(date.year, date.month, date.day) {
                    Some(day) => r matches Ok(request) && is_json_post(
                        request,
                        substitution_url(subdomain@),
                        substitution_body(day, gsec_hash),
                    ),
                    None => r matches Err(error) && error@ == EdupageErrorView::Other(
                        "No such day"@,
                    ),
                },
                None => r == Err::<Request, EdupageError>(EdupageError::NotLoggedIn),
            },
    {
        if !self.logged_in() {
            return Err(EdupageError::NotLoggedIn);
        }
        match format_date(&date) {
            Some(day) => self.substitution_request_on(day.as_str(), subdomain),
            None => Err(EdupageError::Other(String::from_str("No such day"))),
        }
    }
}

} // verus!
