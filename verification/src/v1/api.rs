use crate::v1::error::APIError;
use vstd::prelude::*;
use vstd::string::StringExecFns;

verus! {

/// Where the provider is reached and the key that opens it. A client sends
/// nothing by itself: it says how a request is addressed and authorised.
#[derive(Debug, Clone, PartialEq)]
pub struct Client {
    /// The address in front of every route, without a trailing slash.
    pub base_url: String,
    /// The secret that the provider issued.
    pub api_key: String,
}

/// The verb of a request.
#[derive(Debug, Clone, Copy, PartialEq, Eq, Structural)]
pub enum Method {
    Get,
    Post,
    Delete,
}

/// A request that is ready to be sent: the verb, the route below the base
/// address, and what goes along. With `Get` the payload is the query, with
/// `Post` it is the body.
#[derive(Debug, PartialEq)]
pub struct Request<P> {
    pub method: Method,
    pub path: String,
    pub payload: P,
}

impl Client {
    /// The provider's public address.
    pub open spec fn default_base_url() -> Seq<char> {
        "https://api.openai.com/v1"@
    }

    /// A client for the provider's public address.
    pub fn new(api_key: String) -> (client: Client)
        ensures
            client.base_url@ == Self::default_base_url(),
            client.api_key == api_key,
    {
        Client { base_url: String::from_str("https://api.openai.com/v1"), api_key }
    }

    /// The full address of a route: the base address followed by the route.
    pub fn url(&self, path: &str) -> (url: String)
        ensures
            url@ == self.base_url@ + path@,
    {
        self.base_url.clone().concat(path)
    }

    /// The value of the authorisation header: the word `Bearer`, a space,
    /// and the key.
    pub fn authorization(&self) -> (header: String)
        ensures
            header@ == "Bearer "@ + self.api_key@,
    {
        String::from_str("Bearer ").concat(self.api_key.as_str())
    }
}

/// Whether a status code reports success: the codes from 200 to 299 do.
pub open spec fn is_success(status: u16) -> bool {
    200 <= status <= 299
}

/// Sorts a response by its status. A successful response yields its body;
/// any other yields a `StatusError` that carries the status and the body
/// that the provider sent with it.
pub fn check_status(status: u16, body: String) -> (result: Result<String, APIError>)
    ensures
        is_success(status) ==> result == Ok::<String, APIError>(body),
        !is_success(status) ==> result == Err::<String, APIError>(
            APIError::StatusError { status, body },
        ),
{
    if 200 <= status && status <= 299 {
        Ok(body)
    } else {
        Err(APIError::StatusError { status, body })
    }
}

} // verus!
