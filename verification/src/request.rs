//! The two requests the widget makes of its server, as values: what to ask
//! for, where, and with which headers and body. Issuing them is left to the
//! host.

use crate::endpoint::messages_url;
use crate::message::{Message, MessageView};
use vstd::prelude::*;

verus! {

/// Name of the header that says what kind of body a request carries.
pub const CONTENT_TYPE: &'static str = "Content-Type";

/// The kind of body a request with a message carries.
pub const JSON: &'static str = "application/json";

/// The HTTP method of a request.
#[derive(Clone, Copy, Debug, PartialEq, Eq, Structural)]
pub enum Method {
    Get,
    Post,
}

/// The name of a method as it is written in a request.
pub open spec fn method_name(method: Method) -> Seq<char> {
    match method {
        Method::Get => "GET"@,
        Method::Post => "POST"@,
    }
}

impl Method {
    /// Computes [`method_name`].
    pub fn as_str(&self) -> (name: &'static str)
        ensures
            name@ == method_name(*self),
    {
        match self {
            Method::Get => "GET",
            Method::Post => "POST",
        }
    }
}

/// One request header.
#[derive(Debug)]
pub struct Header {
    pub name: String,
    pub value: String,
}

/// The mathematical value of a [`Header`].
pub struct HeaderView {
    pub name: Seq<char>,
    pub value: Seq<char>,
}

impl View for Header {
    type V = HeaderView;

    open spec fn view(&self) -> HeaderView {
        HeaderView { name: self.name@, value: self.value@ }
    }
}

impl DeepView for Header {
    type V = HeaderView;

    open spec fn deep_view(&self) -> HeaderView {
        self@
    }
}

/// A request to the server.
#[derive(Debug)]
pub struct Request {
    pub method: Method,
    pub url: String,
    pub headers: Vec<Header>,
    /// The message to put in the body as JSON, if the request has a body.
    pub body: Option<Message>,
}

/// The mathematical value of a [`Request`].
pub struct RequestView {
    pub method: Method,
    pub url: Seq<char>,
    pub headers: Seq<HeaderView>,
    pub body: Option<MessageView>,
}

impl View for Request {
    type V = RequestView;

    open spec fn view(&self) -> RequestView {
        RequestView {
            method: self.method,
            url: self.url@,
            headers: self.headers.deep_view(),
            body: self.body.deep_view(),
        }
    }
}

/// The request that fetches the full message list for a page served by `host`:
/// a plain `GET` of the message endpoint.
pub open spec fn poll_request(host: Seq<char>) -> RequestView {
    RequestView {
        method: Method::Get,
        url: messages_url(host),
        headers: Seq::empty(),
        body: None,
    }
}

/// The request that hands `message` to the server for a page served by `host`:
/// a `POST` to the message endpoint with the message as its JSON body.
pub open spec fn send_request(message: MessageView, host: Seq<char>) -> RequestView {
    RequestView {
        method: Method::Post,
        url: messages_url(host),
        headers: seq![HeaderView { name: CONTENT_TYPE@, value: JSON@ }],
        body: Some(message),
    }
}

} // verus!
