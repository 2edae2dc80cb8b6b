//! The messages exchanged between the core, the authentication plugins and the
//! communication plugins.
use vstd::prelude::*;
use crate::weburl::WebUrl;
use crate::text::str_eq;

verus! {

/// The view of an optional value.
pub open spec fn option_view<T: View>(o: Option<T>) -> Option<T::V> {
    match o {
        Some(t) => Some(t@),
        None => None,
    }
}

/// The view of an optional string.
pub open spec fn option_text(o: Option<String>) -> Option<Seq<char>> {
    match o {
        Some(t) => Some(t@),
        None => None,
    }
}

/// A method (authentication or communication) that a session may offer.
#[derive(Debug, Clone)]
pub struct MethodProperties {
    pub tag: String,
    pub name: String,
}

/// The methods that a session offers.
#[derive(Debug, Clone)]
pub struct SessionOptions {
    pub auth_methods: Vec<MethodProperties>,
    pub comm_methods: Vec<MethodProperties>,
}

/// A request to start authentication only, with the communication plugin's URL.
#[derive(Debug, Clone)]
pub struct StartRequestAuthOnly {
    pub purpose: String,
    pub auth_method: String,
    pub comm_url: WebUrl,
    pub attr_url: Option<WebUrl>,
}

/// The view of a [`StartRequestAuthOnly`].
pub struct StartRequestAuthOnlyView {
    pub purpose: Seq<char>,
    pub auth_method: Seq<char>,
    pub comm_url: Seq<char>,
    pub attr_url: Option<Seq<char>>,
}

impl View for StartRequestAuthOnly {
    type V = StartRequestAuthOnlyView;

    open spec fn view(&self) -> StartRequestAuthOnlyView {
        StartRequestAuthOnlyView {
            purpose: self.purpose@,
            auth_method: self.auth_method@,
            comm_url: self.comm_url@,
            attr_url: option_view(self.attr_url),
        }
    }
}

/// The answer of a plugin: where to send the user.
#[derive(Debug, Clone)]
pub struct ClientUrlResponse {
    pub client_url: WebUrl,
}

/// How a [`ClientUrlResponse`] is answered over HTTP.
#[derive(Debug)]
pub enum ClientUrlReply {
    /// The response itself as JSON.
    Json(ClientUrlResponse),
    /// A redirect to the client URL.
    Redirect(String),
}

/// The request that starts a communication session.
#[derive(Debug, Clone)]
pub struct StartCommRequest {
    pub purpose: String,
    pub auth_result: Option<String>,
}

/// The view of a [`StartCommRequest`].
pub struct StartCommRequestView {
    pub purpose: Seq<char>,
    pub auth_result: Option<Seq<char>>,
}

impl View for StartCommRequest {
    type V = StartCommRequestView;

    open spec fn view(&self) -> StartCommRequestView {
        StartCommRequestView { purpose: self.purpose@, auth_result: option_text(self.auth_result) }
    }
}

/// The answer to a [`StartCommRequest`].
#[derive(Debug, Clone)]
pub struct StartCommResponse {
    pub client_url: WebUrl,
    pub attr_url: Option<WebUrl>,
}

/// The view of a [`StartCommResponse`].
pub struct StartCommResponseView {
    pub client_url: Seq<char>,
    pub attr_url: Option<Seq<char>>,
}

impl View for StartCommResponse {
    type V = StartCommResponseView;

    open spec fn view(&self) -> StartCommResponseView {
        StartCommResponseView {
            client_url: self.client_url@,
            attr_url: option_view(self.attr_url),
        }
    }
}

impl ClientUrlResponse {
    /// Answers with JSON when the request's `Accept` header is exactly
    /// `application/json`, and with a redirect to the client URL otherwise.
    pub fn respond_to(self, accept: Option<&str>) -> (r: ClientUrlReply)
        ensures
            (accept matches Some(a) && a@ == "application/json"@) ==> (r matches ClientUrlReply::Json(j)
                && j.client_url@ == self.client_url@),
            !(accept matches Some(a) && a@ == "application/json"@) ==> (r matches ClientUrlReply::Redirect(
                to,
            ) && to@ == self.client_url@),
    {
        let wants_json = match accept {
            Some(a) => str_eq(a, "application/json"),
            None => false,
        };
        if wants_json {
            ClientUrlReply::Json(ClientUrlResponse { client_url: self.client_url })
        } else {
            ClientUrlReply::Redirect(self.client_url.to_string())
        }
    }
}

} // verus!
