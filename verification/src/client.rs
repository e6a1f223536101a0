//! Endpoint configuration and the request/response logic of a remote call.
//!
//! [`Mta`] holds the connection parameters of one server endpoint and derives
//! the base URI and the per-call URL.  The response side is classified by
//! [`classify_response`] and [`transmission_failure`]: a `200 OK` response
//! yields the body as text, any other status a [`Errors::ServerStatus`], and
//! a transport-level failure a [`Errors::Transmission`].

use vstd::prelude::*;
use vstd::string::StringExecFns;

use crate::error::Errors;
use crate::numeral::dec_rep;
use crate::numeral::dec_string;

verus! {

/// Authentication credentials, passed verbatim to HTTP basic authentication.
pub struct Auth {
    /// The username for authentication.
    pub username: String,
    /// The password for authentication.
    pub password: String,
}

/// The configuration of one MTA server endpoint.
pub struct Mta {
    /// The host address of the MTA server.
    pub ip: String,
    /// The port number of the MTA server.
    pub port: u16,
    /// The authentication credentials for accessing the MTA server.
    pub auth: Auth,
    /// `true` selects plain HTTP for requests, `false` selects HTTPS.
    pub http: bool,
}

impl Mta {
    /// A well-formed configuration has a non-empty host.
    pub open spec fn wf(self) -> bool {
        self.ip@.len() > 0
    }

    /// The scheme prefix of the base URI.
    pub open spec fn scheme_view(self) -> Seq<char> {
        if self.http {
            "http://"@
        } else {
            "https://"@
        }
    }

    /// The base URI of this endpoint: `scheme://host:port/`.
    pub open spec fn base_uri_view(self) -> Seq<char> {
        self.scheme_view() + self.ip@ + ":"@ + dec_rep(self.port as nat) + "/"@
    }

    /// Creates a new `Mta` configuration.  Construction never fails; the
    /// fields are stored verbatim.
    pub fn new(ip: String, port: u16, auth: Auth, http: bool) -> (r: Mta)
        requires
            ip@.len() > 0,
        ensures
            r.ip == ip,
            r.port == port,
            r.auth == auth,
            r.http == http,
            r.wf(),
    {
        Mta { ip, port, auth, http }
    }

    /// The base URI, derived afresh on each use: `http://host:port/` when
    /// `http` is set, `https://host:port/` otherwise.
    pub fn get_uri(&self) -> (r: String)
        ensures
            r@ == self.base_uri_view(),
    {
        let mut s = if self.http {
            String::from_str("http://")
        } else {
            String::from_str("https://")
        };
        s.append(self.ip.as_str());
        s.append(":");
        let port = dec_string(self.port);
        s.append(port.as_str());
        s.append("/");
        s
    }

    /// The URL of one call: the base URI followed by `resource`, the fixed
    /// segment `/call/`, and `function`.  The segments are concatenated
    /// verbatim, without URL-escaping, as the endpoint expects them.
    pub fn call_url(&self, resource: &str, function: &str) -> (r: String)
        ensures
            r@ == self.base_uri_view() + resource@ + "/call/"@ + function@,
    {
        let mut s = self.get_uri();
        s.append(resource);
        s.append("/call/");
        s.append(function);
        s
    }
}

/// True exactly when `status` is the success status line `200 OK`.
pub fn status_is_success(status: &str) -> (r: bool)
    ensures
        r <==> status@ == "200 OK"@,
{
    let received: String = status.to_owned();
    let expected: String = String::from_str("200 OK");
    received == expected
}

/// Classifies a received response from its status line and body text: status
/// `200 OK` yields the body as the successful payload, any other status a
/// [`Errors::ServerStatus`] carrying the status line.  The body is returned
/// unparsed; no distinction is made among non-success statuses.
pub fn classify_response(status: String, body: String) -> (r: Result<String, Errors>)
    ensures
        status@ == "200 OK"@ ==> r == Ok::<String, Errors>(body),
        status@ != "200 OK"@ ==> r == Err::<String, Errors>(Errors::ServerStatus(status)),
{
    if status_is_success(status.as_str()) {
        Ok(body)
    } else {
        Err(Errors::ServerStatus(status))
    }
}

/// The fixed caller-facing note of a transport-level failure.
pub open spec fn transmission_note() -> Seq<char> {
    "There was a failure in transmitting your request to the server. We recommend checking the connection and trying again."@
}

/// The error reported when the transport never produced a classifiable
/// response.  The low-level cause is deliberately discarded; the note is the
/// same for every such failure and carries no HTTP status text.
pub fn transmission_failure() -> (r: Errors)
    ensures
        r matches Errors::Transmission(note) && note@ == transmission_note(),
{
    Errors::Transmission(
        String::from_str(
            "There was a failure in transmitting your request to the server. We recommend checking the connection and trying again.",
        ),
    )
}

} // verus!
