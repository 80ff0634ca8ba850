use vstd::prelude::*;

verus! {

/// States that a request type belongs to a request group, so that a client
/// of that group accepts it. Membership is declared once per request type
/// with an empty impl:
///
/// ```ignore
/// pub struct MyApi;
/// impl InRequestGroup<MyApi> for MyRequest {}
/// ```
pub trait InRequestGroup<Group> {}

/// The default group: every type belongs to it.
pub struct All;

impl<T> InRequestGroup<All> for T {}

} // verus!
