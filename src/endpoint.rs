//! Where and how the method `/me` is called, and how the server's answer is
//! interpreted. Both the blocking and the non-blocking transport follow this.

use crate::error::{ClientError, JsonFault};
use crate::responses::{identity_of, GetMeResponse, IdentityModel};
use vstd::prelude::*;

verus! {

/// The production base URL of the bot API.
pub open spec fn default_base_url() -> Seq<char> {
    "https://botapi.max.ru"@
}

/// Whether `status` is an HTTP success status (2xx).
pub open spec fn is_success(status: u16) -> bool {
    200 <= status <= 299
}

/// An [`Endpoint`] as a mathematical value.
pub struct EndpointModel {
    pub base_url: Seq<char>,
    pub access_token: Seq<char>,
    pub https_only: bool,
}

/// The URL of the method `/me`, with the access token as a query parameter.
pub open spec fn me_url_of(e: EndpointModel) -> Seq<char> {
    e.base_url + "/me?access_token="@ + e.access_token
}

/// The settings of a client, fixed at construction: the base URL of the API, the
/// bot's access token, and whether the transport accepts HTTPS URLs only.
#[derive(Debug, Clone)]
pub struct Endpoint {
    base_url: String,
    access_token: String,
    https_only: bool,
}

impl View for Endpoint {
    type V = EndpointModel;

    closed spec fn view(&self) -> EndpointModel {
        EndpointModel {
            base_url: self.base_url@,
            access_token: self.access_token@,
            https_only: self.https_only,
        }
    }
}

impl Endpoint {
    /// Settings for the production API, over HTTPS only.
    pub fn new(access_token: &str) -> (r: Endpoint)
        ensures
            r@ == (EndpointModel {
                base_url: default_base_url(),
                access_token: access_token@,
                https_only: true,
            }),
    {
        Endpoint {
            base_url: String::from_str("https://botapi.max.ru"),
            access_token: String::from_str(access_token),
            https_only: true,
        }
    }

    /// Settings for the API at `base_url` (another deployment, or a test double),
    /// with any URL scheme accepted.
    pub fn with_base_url(access_token: &str, base_url: &str) -> (r: Endpoint)
        ensures
            r@ == (EndpointModel {
                base_url: base_url@,
                access_token: access_token@,
                https_only: false,
            }),
    {
        Endpoint {
            base_url: String::from_str(base_url),
            access_token: String::from_str(access_token),
            https_only: false,
        }
    }

    /// The same settings with HTTPS enforcement switched on or off.
    pub fn with_https_only(self, https_only: bool) -> (r: Endpoint)
        ensures
            r@ == (EndpointModel { https_only, ..self@ }),
    {
        Endpoint { https_only, ..self }
    }

    pub fn base_url(&self) -> (r: &str)
        ensures
            r@ == self@.base_url,
    {
        self.base_url.as_str()
    }

    pub fn access_token(&self) -> (r: &str)
        ensures
            r@ == self@.access_token,
    {
        self.access_token.as_str()
    }

    pub fn https_only(&self) -> (r: bool)
        ensures
            r == self@.https_only,
    {
        self.https_only
    }

    /// The URL of the method `/me`: `{base_url}/me?access_token={token}`, the
    /// token written verbatim.
    pub fn me_url(&self) -> (r: String)
        ensures
            r@ == me_url_of(self@),
    {
        let mut url = self.base_url.clone();
        url.append("/me?access_token=");
        url.append(self.access_token.as_str());
        url
    }
}

/// Whether `status` is an HTTP success status (200 to 299).
pub fn is_success_status(status: u16) -> (r: bool)
    ensures
        r == is_success(status),
{
    200 <= status && status <= 299
}

/// Interprets the status of the answer to `/me`: a status outside 2xx ends the
/// call with that exact code, whatever body came with it, and the body is then not
/// to be read.
pub fn check_status(status: u16) -> (r: Result<(), ClientError>)
    ensures
        r is Ok <==> is_success(status),
        r is Err ==> r == Err::<(), ClientError>(ClientError::StatusError(status)),
{
    if is_success_status(status) {
        Ok(())
    } else {
        Err(ClientError::StatusError(status))
    }
}

/// Interprets the body of a successful answer to `/me`: the bot identity it
/// holds, or a JSON error saying what is wrong with it.
pub fn read_get_me(body: &str) -> (r: Result<GetMeResponse, ClientError>)
    ensures
        match r {
            Ok(v) => identity_of(body@) == Ok::<IdentityModel, JsonFault>(v@),
            Err(e) => e is JsonError && identity_of(body@) == Err::<IdentityModel, JsonFault>(
                e->JsonError_0@,
            ),
        },
{
    match GetMeResponse::from_json(body) {
        Ok(v) => Ok(v),
        Err(e) => Err(ClientError::JsonError(e)),
    }
}

} // verus!
