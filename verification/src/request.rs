//! What the user asks for: a URL, a method and, for POST, a body.

use vstd::prelude::*;

verus! {

/// The HTTP method of a request.
#[derive(Clone, Copy, Debug, PartialEq, Eq, Structural)]
pub enum Method {
    Get,
    Post,
}

/// A request as it is handed to the transport. Only a POST carries a body.
pub struct Request {
    url: String,
    method: Method,
    body: Vec<u8>,
}

impl Request {
    /// A GET request has an empty body.
    #[verifier::type_invariant]
    pub closed spec fn wf(self) -> bool {
        self.method == Method::Get ==> self.body@.len() == 0
    }

    pub closed spec fn spec_url(&self) -> Seq<char> {
        self.url@
    }

    pub closed spec fn spec_method(&self) -> Method {
        self.method
    }

    pub closed spec fn spec_body(&self) -> Seq<u8> {
        self.body@
    }

    /// A GET of `url`.
    pub fn get(url: &str) -> (request: Request)
        ensures
            request.spec_url() == url@,
            request.spec_method() == Method::Get,
            request.spec_body() == Seq::<u8>::empty(),
            request.wf(),
    {
        Request { url: url.to_owned(), method: Method::Get, body: Vec::new() }
    }

    /// A POST of `body` to `url`.
    pub fn post(url: &str, body: Vec<u8>) -> (request: Request)
        ensures
            request.spec_url() == url@,
            request.spec_method() == Method::Post,
            request.spec_body() == body@,
            request.wf(),
    {
        Request { url: url.to_owned(), method: Method::Post, body }
    }

    pub fn url(&self) -> (url: &String)
        ensures
            url@ == self.spec_url(),
    {
        &self.url
    }

    #[verifier::when_used_as_spec(spec_method)]
    pub fn method(&self) -> (method: Method)
        ensures
            method == self.spec_method(),
    {
        self.method
    }

    /// The body; empty for a GET.
    pub fn body(&self) -> (body: &Vec<u8>)
        ensures
            body@ == self.spec_body(),
            self.spec_method() == Method::Get ==> body@.len() == 0,
    {
        proof {
            use_type_invariant(self);
        }
        &self.body
    }
}

} // verus!
