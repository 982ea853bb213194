use vstd::prelude::*;
use crate::errors::{Rejection, RejectionView};

verus! {

/// The request went through.
pub const OK: u16 = 200;

/// The request went through and made something new.
pub const CREATED: u16 = 201;

/// The service behind the endpoint cannot be reached.
pub const SERVICE_UNAVAILABLE: u16 = 503;

/// An answer that an endpoint gives: the transport status and the body.
#[derive(Debug)]
pub struct Reply<T> {
    pub status: u16,
    pub body: T,
}

impl<T> Reply<T> {
    /// An answer with status 200.
    pub fn ok(body: T) -> (reply: Self)
        ensures
            reply.status == OK,
            reply.body == body,
    {
        Reply { status: OK, body }
    }

    /// An answer with status 201.
    pub fn created(body: T) -> (reply: Self)
        ensures
            reply.status == CREATED,
            reply.body == body,
    {
        Reply { status: CREATED, body }
    }
}

impl<T: View> View for Reply<T> {
    type V = Reply<T::V>;

    open spec fn view(&self) -> Reply<T::V> {
        Reply { status: self.status, body: self.body@ }
    }
}

/// The mathematical value of an endpoint's answer or rejection.
pub open spec fn answer_value<T: View>(answer: Result<Reply<T>, Rejection>) -> Result<
    Reply<T::V>,
    RejectionView,
> {
    match answer {
        Ok(reply) => Ok(reply@),
        Err(r) => Err(r@),
    }
}

} // verus!
