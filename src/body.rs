use vstd::pervasive::arbitrary;
use vstd::prelude::*;

use crate::method::HttpMethod;
use std::convert::Infallible;

verus! {

/// Describes a kind of request once, so that any value of it can be sent.
///
/// The method and the body encoding are facts about the type; the path may
/// differ from one value to the next.
pub trait Request: Sized {
    /// How the request body is encoded, for example [`NoBody`].
    type Serializer: SerializeBody<Self>;

    /// The type that the response body decodes into.
    type Response;

    /// The HTTP method that the request is sent with. An impl verified with
    /// this crate defines it; one written outside Verus may leave it, and its
    /// `method` is then taken on trust.
    open spec fn method_spec(&self) -> HttpMethod {
        arbitrary()
    }

    /// What is appended to the url when sending this request. Defined as
    /// `method_spec` is.
    open spec fn path_spec(&self) -> Seq<char> {
        arbitrary()
    }

    /// The HTTP method that the request is sent with.
    fn method(&self) -> (r: HttpMethod)
        ensures
            r == self.method_spec(),
    ;

    /// What is appended to the url when sending this request.
    fn path(&self) -> (r: String)
        ensures
            r@ == self.path_spec(),
    ;
}

/// Sends no body: encoding always yields no bytes and cannot fail.
pub struct NoBody;

/// A way to encode a request body.
pub trait SerializeBody<T> {
    type Error;

    fn serialize_body(request: &T) -> Result<Vec<u8>, Self::Error>;
}

impl<T> SerializeBody<T> for NoBody {
    type Error = Infallible;

    fn serialize_body(request: &T) -> (r: Result<Vec<u8>, Infallible>)
        ensures
            r is Ok,
            r->Ok_0@.len() == 0,
    {
        Ok(Vec::new())
    }
}

/// The least a value needs to be sent: a fallible way to produce its body.
///
/// Every [`Request`] has it through its serializer; other types may implement
/// it directly to be sent with an explicit method and path.
pub trait SimpleBody {
    type Error;

    fn simple_body(&self) -> Result<Vec<u8>, Self::Error>;
}

impl<T: Request> SimpleBody for T {
    type Error = <<T as Request>::Serializer as SerializeBody<T>>::Error;

    /// What the request's serializer makes of it.
    fn simple_body(&self) -> (r: Result<Vec<u8>, Self::Error>)
        ensures
            call_ensures(<T as Request>::Serializer::serialize_body, (self,), r),
    {
        <T as Request>::Serializer::serialize_body(self)
    }
}

} // verus!
