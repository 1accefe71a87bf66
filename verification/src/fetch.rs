//! Where the snapshot archive is downloaded from, and when a response
//! counts as the archive.
//!
//! The request itself is the caller's to make: a `GET` of
//! [`download_url`] that names itself [`USER_AGENT`].

use vstd::prelude::*;
use vstd::string::*;

verus! {

/// The endpoint that serves the archives.
pub const BASE_URL: &'static str = "https://download.companieshouse.gov.uk";

/// What stands between the endpoint and the name of the archive.
pub const URL_SEPARATOR: &'static str = "/";

/// The name under which the client makes its request.
pub const USER_AGENT: &'static str = "reqwest";

/// Why a download gave no archive.
#[derive(Clone, Copy, Debug, PartialEq, Eq, Structural)]
pub enum FetchError {
    /// The request did not get a response.
    Transport,
    /// The response came with a status other than success.
    Status(u16),
}

/// The address of the archive of the given name.
pub open spec fn archive_url(fname: Seq<char>) -> Seq<char> {
    BASE_URL@ + URL_SEPARATOR@ + fname
}

/// Whether an HTTP status code reports success (the 2xx class).
pub open spec fn status_is_success(status: u16) -> bool {
    200 <= status < 300
}

/// What a download gives, where `None` stands for a request that got no
/// response, and a response is its status and its body: the body, if the
/// status reports success.
pub open spec fn downloaded(response: Option<(u16, Seq<u8>)>) -> Result<Seq<u8>, FetchError> {
    match response {
        None => Err(FetchError::Transport),
        Some((status, body)) => if status_is_success(status) {
            Ok(body)
        } else {
            Err(FetchError::Status(status))
        },
    }
}

/// Builds the address to download the archive of the given name from.
pub fn download_url(fname: &str) -> (url: String)
    ensures
        url@ == archive_url(fname@),
{
    let mut url = String::from_str(BASE_URL);
    url.append(URL_SEPARATOR);
    url.append(fname);
    url
}

/// Tells whether a response with this status may be stored as the archive.
pub fn is_success_status(status: u16) -> (ok: bool)
    ensures
        ok == status_is_success(status),
{
    200 <= status && status < 300
}

/// A response as a mathematical value.
pub open spec fn response_view(response: Option<(u16, Vec<u8>)>) -> Option<(u16, Seq<u8>)> {
    match response {
        Some((status, body)) => Some((status, body@)),
        None => None,
    }
}

/// Judges the outcome of a request: the bytes to store as the archive,
/// which are the whole body of a response that reports success.
pub fn download_zip_file(response: Option<(u16, Vec<u8>)>) -> (r: Result<Vec<u8>, FetchError>)
    ensures
        match r {
            Ok(bytes) => downloaded(response_view(response)) == Ok::<Seq<u8>, FetchError>(bytes@),
            Err(error) => downloaded(response_view(response)) == Err::<Seq<u8>, FetchError>(
                error,
            ),
        },
{
    match response {
        None => Err(FetchError::Transport),
        Some((status, body)) => if is_success_status(status) {
            Ok(body)
        } else {
            Err(FetchError::Status(status))
        },
    }
}

} // verus!
