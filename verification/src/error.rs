use vstd::prelude::*;

verus! {

/// Errors produced by the command/response protocol and the
/// orchestration helpers.
///
/// - `Send` / `Recv` are channel errors: the reactor thread is gone, or
///   it closed without answering.
/// - `UnexpectedPwResponse` is a protocol violation: a reply whose kind
///   does not match the request's kind.
/// - `LinkNotFound` reports removal of a link handle that was never
///   minted or was already removed.
/// - `LinkHandlesExhausted` reports that the handle counter reached its
///   maximum, so no further link can be registered in this run.
/// - `ApplicationNodeNotFound` / `ApplicationOutputPortNotFound` are
///   identification errors: the caller's own stream endpoint could not
///   be located in the registry snapshot.
#[derive(Debug, Clone, Copy, PartialEq, Eq, Structural)]
pub enum Error {
    Send,
    Recv,
    UnexpectedPwResponse,
    LinkNotFound,
    LinkHandlesExhausted,
    ApplicationNodeNotFound,
    ApplicationOutputPortNotFound,
}

pub type Result<T> = core::result::Result<T, Error>;

} // verus!
