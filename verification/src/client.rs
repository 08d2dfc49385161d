//! Request-side logic around the HTTP transport: the error taxonomy, URL
//! construction, and status-code handling.
//!
//! The transport itself — performing the GET — is outside this crate. A
//! caller builds the URL with [`build_url`], performs the request, hands the
//! status code and body to [`check_status`], and passes a successful body to
//! the decoders in [`crate::decode`].

use vstd::prelude::*;

verus! {

use crate::parameters::{QueryParameters, spec_query_string};
use crate::text::{dec_digits, str_to_chars, u64_to_string};

/// Everything that can go wrong between building a request and decoding its
/// response.
#[derive(Debug, Clone, PartialEq, Eq)]
pub enum ClientError {
    /// The HTTP request itself failed (network, DNS, connection); carries
    /// the transport's description.
    Request(String),
    /// The HTTP response carried a non-success status code; carries the
    /// code and the raw body text.
    StatusCode(u16, String),
    /// The response body was not valid JSON or did not match the expected
    /// document shape; carries a description.
    Deserialization(String),
    /// The caller supplied a malformed endpoint path.
    UrlConstruction(String),
    /// Any other client-side failure.
    Other(String),
}

/// The human-readable description of an error.
pub open spec fn spec_message(e: ClientError) -> Seq<char> {
    match e {
        ClientError::Request(m) => "HTTP request failed: "@ + m@,
        ClientError::StatusCode(c, m) => "HTTP "@ + dec_digits(c as nat) + ": "@ + m@,
        ClientError::Deserialization(m) => "JSON deserialization failed: "@ + m@,
        ClientError::UrlConstruction(m) => "URL construction error: "@ + m@,
        ClientError::Other(m) => "Client error: "@ + m@,
    }
}

impl ClientError {
    /// A human-readable description of the error.
    pub fn message(&self) -> (r: String)
        ensures
            r@ == spec_message(*self),
    {
        match self {
            ClientError::Request(m) => {
                let mut s = "HTTP request failed: ".to_owned();
                s.append(m.as_str());
                s
            },
            ClientError::StatusCode(c, m) => {
                let mut s = "HTTP ".to_owned();
                let num = u64_to_string(*c as u64);
                s.append(num.as_str());
                s.append(": ");
                s.append(m.as_str());
                s
            },
            ClientError::Deserialization(m) => {
                let mut s = "JSON deserialization failed: ".to_owned();
                s.append(m.as_str());
                s
            },
            ClientError::UrlConstruction(m) => {
                let mut s = "URL construction error: ".to_owned();
                s.append(m.as_str());
                s
            },
            ClientError::Other(m) => {
                let mut s = "Client error: ".to_owned();
                s.append(m.as_str());
                s
            },
        }
    }
}

/// An endpoint path is well formed when it begins with `/`.
pub open spec fn path_well_formed(endpoint: Seq<char>) -> bool {
    endpoint.len() > 0 && endpoint[0] == '/'
}

/// Builds the request URL `base + endpoint + query`. A path that does not
/// begin with `/` is a programmer error, rejected before any network call.
pub fn build_url(base: &str, endpoint: &str, params: &QueryParameters) -> (r: Result<
    String,
    ClientError,
>)
    ensures
        match r {
            Ok(u) => path_well_formed(endpoint@) && u@ == base@ + endpoint@ + spec_query_string(
                params@,
            ),
            Err(e) => !path_well_formed(endpoint@) && e is UrlConstruction,
        },
{
    let chars = str_to_chars(endpoint);
    if chars.len() == 0 || chars[0] != '/' {
        return Err(ClientError::UrlConstruction("Endpoint must start with '/'".to_owned()));
    }
    let mut url = base.to_owned();
    url.append(endpoint);
    let query = params.to_query_string();
    url.append(query.as_str());
    proof {
        assert(url@ =~= base@ + endpoint@ + spec_query_string(params@));
    }
    Ok(url)
}

/// Whether an HTTP status code counts as success.
pub open spec fn is_success_status(status: u16) -> bool {
    200 <= status < 300
}

/// Separates success responses from failures: a success status hands the
/// body on for decoding, any other status becomes a [`ClientError::StatusCode`]
/// carrying the code and the raw body — which is then never decoded.
pub fn check_status(status: u16, body: String) -> (r: Result<String, ClientError>)
    ensures
        match r {
            Ok(b) => is_success_status(status) && b == body,
            Err(e) => !is_success_status(status) && e == (ClientError::StatusCode(status, body)),
        },
{
    if 200 <= status && status < 300 {
        Ok(body)
    } else {
        Err(ClientError::StatusCode(status, body))
    }
}

} // verus!
