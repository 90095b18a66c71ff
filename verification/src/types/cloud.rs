//! Files in the portal's cloud.

use vstd::prelude::*;
use vstd::string::StringExecFns;

use crate::edupage::{Edupage, EdupageError, EdupageErrorView};

verus! {

/// A file that the portal keeps.
#[derive(Clone, Debug, PartialEq, Eq)]
pub struct CloudFile {
    pub cloud_id: String,
    pub extension: String,
    pub file_type: String,
    pub file: String,
    pub name: String,
}

/// How the portal answered an upload: with `ok`, or with any other word.
#[derive(Clone, Debug, PartialEq, Eq)]
pub enum EdupageCloudResponseStatus {
    Okay,
    Other(String),
}

/// The portal's answer to an upload.
#[derive(Clone, Debug, PartialEq, Eq)]
pub struct EdupageCloudResponse {
    pub status: EdupageCloudResponseStatus,
    pub response: Option<CloudFile>,
}

/// The address of a file kept at `path` by the portal of `subdomain`.
pub open spec fn file_url(subdomain: Seq<char>, path: Seq<char>) -> Seq<char> {
    "https://"@ + subdomain + ".edupage.org"@ + path
}

/// What an answer to an upload comes to: the file of an `ok` answer that
/// carries one, else an error that names the status.
pub open spec fn upload_outcome(answer: EdupageCloudResponse) -> Result<
    CloudFile,
    EdupageErrorView,
> {
    match answer.status {
        EdupageCloudResponseStatus::Okay => match answer.response {
            Some(file) => Ok(file),
            None => Err(EdupageErrorView::InvalidResponse),
        },
        EdupageCloudResponseStatus::Other(status) => Err(
            EdupageErrorView::Other("Edupage returned a "@ + status@ + " status"@),
        ),
    }
}

impl CloudFile {
    /// The address of the file. It is made of the session's subdomain, so it
    /// takes a session that is logged in.
    pub fn get_url(&self, edupage: &Edupage) -> (r: Result<String, EdupageError>)
        ensures
            match edupage.portal() {
                Some(subdomain) => r matches Ok(url) && url@ == file_url(subdomain, self.file@),
                None => r == Err::<String, EdupageError>(EdupageError::NotLoggedIn),
            },
    {
        match edupage.subdomain() {
            Some(subdomain) => Ok(
                String::from_str("https://").concat(subdomain.as_str()).concat(
                    ".edupage.org",
                ).concat(self.file.as_str()),
            ),
            None => Err(EdupageError::NotLoggedIn),
        }
    }
}

impl EdupageCloudResponse {
    /// The file that an upload brought, or why it brought none.
    pub fn into_file(self) -> (r: Result<CloudFile, EdupageError>)
        ensures
            match upload_outcome(self) {
                Ok(file) => r == Ok::<CloudFile, EdupageError>(file),
                Err(e) => r matches Err(error) && error@ == e,
            },
    {
        match self.status {
            EdupageCloudResponseStatus::Okay => match self.response {
                Some(file) => Ok(file),
                None => Err(EdupageError::InvalidResponse),
            },
            EdupageCloudResponseStatus::Other(status) => Err(
                EdupageError::Other(
                    String::from_str("Edupage returned a ").concat(status.as_str()).concat(
                        " status",
                    ),
                ),
            ),
        }
    }
}

} // verus!
