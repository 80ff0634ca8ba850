use vstd::prelude::*;

use crate::body::Request;
use crate::exchange::Exchange;
use crate::group::{All, InRequestGroup};
use crate::method::HttpMethod;
use reqwest::Client as Transport;
use std::marker::PhantomData;

verus! {

#[verifier::external_type_specification]
#[verifier::external_body]
pub struct ExTransport(Transport);

/// Relies on reqwest::Client::new: a fresh handle with its own connection
/// pool. It panics only where no TLS backend or resolver configuration can be
/// set up on the machine, which no argument decides.
pub assume_specification[ Transport::new ]() -> Transport;

/// Relies on the derived `Clone` of reqwest::Client: the copy shares the
/// connection pool of the handle it was cloned from. Nothing is stated of it.
pub assume_specification[ <Transport as Clone>::clone ](transport: &Transport) -> Transport;

/// The url that a request is sent to: the base, then the infix, then the path.
pub fn compose_url(base: &str, infix: &str, path: &str) -> (r: String)
    ensures
        r@ == base@ + infix@ + path@,
{
    let mut url = String::from_str(base);
    url.append(infix);
    url.append(path);
    url
}

/// Starts the exchange for `request`, sent to `base_url` followed by the
/// request's path. The free-standing counterpart of [`Client::prepare`].
pub fn prepare_send<Req: Request>(base_url: &str, request: &Req) -> (r: Exchange)
    ensures
        r matches Exchange::Encoding { method, url } && method == request.method_spec() && url@
            == base_url@ + request.path_spec(),
{
    let path = request.path();
    let url = compose_url(base_url, "", path.as_str());
    proof {
        reveal_strlit("");
        assert(url@ == base_url@ + path@);
    }
    Exchange::new(request.method(), url)
}

/// Sends requests to a base url over one shared transport handle.
///
/// `RequestGroup` limits which request types the client accepts: only those
/// that implement [`InRequestGroup`] for it. With the default, [`All`], every
/// request type is accepted. Clones share the transport's connection pool.
#[derive(Debug)]
pub struct Client<RequestGroup = All> {
    base_url: String,
    inner: Transport,
    _p: PhantomData<RequestGroup>,
}

impl<RequestGroup> Client<RequestGroup> {
    /// The base url that every request of this client starts with.
    pub closed spec fn base(&self) -> Seq<char> {
        self.base_url@
    }

    /// A client for `base_url` with a fresh transport handle.
    pub fn new(base_url: String) -> (r: Self)
        ensures
            r.base() == base_url@,
    {
        Client { base_url, inner: Transport::new(), _p: PhantomData }
    }

    /// The base url that every request of this client starts with.
    pub fn base_url(&self) -> (r: &str)
        ensures
            r@ == self.base(),
    {
        self.base_url.as_str()
    }

    /// The shared transport handle that requests go through.
    pub fn transport(&self) -> &Transport {
        &self.inner
    }

    /// Starts the exchange for `request`, sent to this client's base url
    /// followed by the request's path. Only request types of the client's
    /// group are accepted.
    pub fn prepare<Req>(&self, request: &Req) -> (r: Exchange) where
        Req: Request + InRequestGroup<RequestGroup>,
        ensures
            r matches Exchange::Encoding { method, url } && method == request.method_spec() && url@
                == self.base() + request.path_spec(),
    {
        let path = request.path();
        self.prepare_custom(path.as_str(), request.method())
    }

    /// Starts the exchange for `request`, sent to this client's base url,
    /// then `url_infix`, then the request's path. Only request types of the
    /// client's group are accepted.
    pub fn prepare_to<Req>(&self, url_infix: &str, request: &Req) -> (r: Exchange) where
        Req: Request + InRequestGroup<RequestGroup>,
        ensures
            r matches Exchange::Encoding { method, url } && method == request.method_spec() && url@
                == self.base() + url_infix@ + request.path_spec(),
    {
        let path = request.path();
        let url = compose_url(self.base_url.as_str(), url_infix, path.as_str());
        Exchange::new(request.method(), url)
    }

    /// Starts an exchange with an explicit method, sent to this client's base
    /// url followed by `path`. Any body source can be sent this way.
    pub fn prepare_custom(&self, path: &str, method: HttpMethod) -> (r: Exchange)
        ensures
            r matches Exchange::Encoding { method: m, url } && m == method && url@ == self.base()
                + path@,
    {
        let url = compose_url(self.base_url.as_str(), "", path);
        proof {
            reveal_strlit("");
            assert(url@ == self.base() + path@);
        }
        Exchange::new(method, url)
    }
}

impl<RequestGroup> Default for Client<RequestGroup> {
    /// A client with an empty base url, so that each call names the whole url.
    fn default() -> (r: Self)
        ensures
            r.base() == Seq::<char>::empty(),
    {
        Client { base_url: String::new(), inner: Transport::new(), _p: PhantomData }
    }
}

impl<RequestGroup> Clone for Client<RequestGroup> {
    /// A client with the same base url that shares this one's transport.
    fn clone(&self) -> (r: Self)
        ensures
            r.base() == self.base(),
    {
        Client { base_url: self.base_url.clone(), inner: self.inner.clone(), _p: PhantomData }
    }
}

} // verus!
