//! Uploading to the portal's cloud: where the file goes.

use vstd::prelude::*;
use vstd::string::StringExecFns;

use crate::edupage::{Edupage, EdupageError};

verus! {

/// The address that takes an upload.
pub open spec fn upload_url(subdomain: Seq<char>) -> Seq<char> {
    "https://"@ + subdomain + ".edupage.org/timeline/?akcia=uploadAtt"@
}

impl Edupage {
    /// The address that takes an upload of this session.
    pub fn upload_url(&self) -> (r: Result<String, EdupageError>)
        ensures
            match self.portal() {
                Some(subdomain) => r matches Ok(url) && url@ == upload_url(subdomain),
                None => r == Err::<String, EdupageError>(EdupageError::NotLoggedIn),
            },
    {
        match self.subdomain() {
            Some(subdomain) => Ok(
                String::from_str("https://").concat(subdomain.as_str()).concat(
                    ".edupage.org/timeline/?akcia=uploadAtt",
                ),
            ),
            None => Err(EdupageError::NotLoggedIn),
        }
    }
}

} // verus!
