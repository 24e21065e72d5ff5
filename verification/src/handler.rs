//! What a method handler hands back: the response, and the session that signs it, if any.

use vstd::prelude::*;

use crate::call::CallResponse;

verus! {

/// A handler's answer. `S` is the session whose user key encrypts the response;
/// without one the shared key is used.
pub struct HandlerResponse<C, S> {
    pub response: CallResponse<C>,
    /// Which session to use for signing the response, if any.
    pub signing_session: Option<S>,
}

impl<C, S> HandlerResponse<C, S> {
    pub fn unsigned(response: CallResponse<C>) -> (r: Self)
        ensures
            r.response == response,
            r.signing_session is None,
    {
        HandlerResponse { response, signing_session: None }
    }

    pub fn signed(response: CallResponse<C>, signing_session: S) -> (r: Self)
        ensures
            r.response == response,
            r.signing_session == Some(signing_session),
    {
        HandlerResponse { response, signing_session: Some(signing_session) }
    }
}

/// A response that goes out encrypted with the shared key.
pub struct Unsigned<T>(pub T);

/// A response that goes out encrypted with the user key of the session.
pub struct Signed<T, S>(pub T, pub S);

impl<C, S> HandlerResponse<C, S> {
    /// `Unsigned(response)` as the handler returns it.
    pub fn from_unsigned(u: Unsigned<CallResponse<C>>) -> (r: Self)
        ensures
            r.response == u.0,
            r.signing_session is None,
    {
        Self::unsigned(u.0)
    }

    /// `Signed(response, session)` as the handler returns it.
    pub fn from_signed(s: Signed<CallResponse<C>, S>) -> (r: Self)
        ensures
            r.response == s.0,
            r.signing_session == Some(s.1),
    {
        Self::signed(s.0, s.1)
    }
}

} // verus!
