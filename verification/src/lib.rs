//! Poll-based datagram I/O.
//!
//! [`AsyncDatagram`] is the capability a connectionless transport offers: one
//! non-blocking attempt to send a datagram and one to receive one.
//! [`AsyncDatagramExt`] turns either into a request object that a cooperative
//! scheduler polls until it completes.
//!
//! Every attempt is described by a relation that the transport defines for
//! itself ([`AsyncDatagram::send_attempt`], [`AsyncDatagram::recv_attempt`]).
//! The request objects are specified against those relations: one poll of a
//! request is exactly one attempt of the transport behind it.

use vstd::prelude::*;
use core::task::Context;
use core::task::Poll;

pub mod ext;
pub mod run;

pub use ext::AsyncDatagramExt;
pub use ext::RecvFrom;
pub use ext::SendTo;

verus! {

/// `core::task::Context`, the scheduler's handle through which a transport
/// registers its wake-up. Nothing is known of its contents; it is only
/// passed on.
#[verifier::external_type_specification]
#[verifier::external_body]
pub struct ExContext<'a>(Context<'a>);

/// `core::pin::Pin`, the pointer through which a scheduler polls a future.
/// Nothing is known of its contents.
#[verifier::external_type_specification]
#[verifier::external_body]
#[verifier::reject_recursive_types(P)]
pub struct ExPin<P>(core::pin::Pin<P>);

/// `core::task::Poll`, with its two variants `Ready` and `Pending` as the
/// standard library defines them.
#[verifier::external_type_specification]
#[verifier::reject_recursive_types(T)]
pub struct ExPoll<T>(Poll<T>);

/// What one send attempt returns.
pub type SendOutcome<T> = Poll<Result<usize, <T as AsyncDatagram>::Err>>;

/// What one receive attempt returns.
pub type RecvOutcome<T> = Poll<
    Result<(usize, <T as AsyncDatagram>::Sender), <T as AsyncDatagram>::Err>,
>;

/// Implement a datagram protocol.
pub trait AsyncDatagram {
    /// Identifies where a received datagram came from.
    type Sender;

    /// Identifies where a datagram is sent to.
    type Receiver;

    /// The type of failures yielded by this trait.
    type Err;

    /// The transport's own account of one send attempt: whether a transport
    /// in state `pre`, asked to send `buf` to `receiver`, may end in state
    /// `post` and return `outcome`.
    ///
    /// A transport that says nothing of itself keeps the default, which
    /// admits every attempt.
    open spec fn send_attempt(
        pre: &Self,
        buf: Seq<u8>,
        receiver: &Self::Receiver,
        post: &Self,
        outcome: SendOutcome<Self>,
    ) -> bool {
        true
    }

    /// The transport's own account of one receive attempt: whether a
    /// transport in state `pre`, handed a buffer holding `buf`, may end in
    /// state `post` with the buffer holding `filled` and return `outcome`.
    ///
    /// A transport that says nothing of itself keeps the default, which
    /// admits every attempt.
    open spec fn recv_attempt(
        pre: &Self,
        buf: Seq<u8>,
        post: &Self,
        filled: Seq<u8>,
        outcome: RecvOutcome<Self>,
    ) -> bool {
        true
    }

    /// Sends data on the IO interface to the specified target.
    ///
    /// Returns `Ready(Ok(n))` when `n` bytes were sent, `Ready(Err(e))` when
    /// the attempt failed, and `Pending` when the transport is not ready; in
    /// that case it has registered the waker of `cx`.
    fn poll_send_to(
        &mut self,
        cx: &mut Context<'_>,
        buf: &[u8],
        receiver: &Self::Receiver,
    ) -> (outcome: SendOutcome<Self>)
        ensures
            Self::send_attempt(old(self), buf@, receiver, final(self), outcome),
            outcome matches Poll::Ready(Ok(n)) ==> n <= buf@.len(),
    ;

    /// Receives data from the IO interface.
    ///
    /// Returns `Ready(Ok((n, sender)))` when `n` bytes from `sender` were
    /// written to the front of `buf`, `Ready(Err(e))` when the attempt
    /// failed, and `Pending` when the transport is not ready; in that case
    /// it has registered the waker of `cx`.
    fn poll_recv_from(
        &mut self,
        cx: &mut Context<'_>,
        buf: &mut [u8],
    ) -> (outcome: RecvOutcome<Self>)
        ensures
            Self::recv_attempt(old(self), old(buf)@, final(self), final(buf)@, outcome),
            final(buf)@.len() == old(buf)@.len(),
            outcome matches Poll::Ready(Ok(got)) ==> got.0 <= old(buf)@.len(),
    ;
}

/// One send attempt as [`AsyncDatagram::poll_send_to`] owes it: the
/// transport's own account holds, and a successful attempt reports no more
/// bytes than it was given.
pub open spec fn send_step<T: AsyncDatagram + ?Sized>(
    pre: &T,
    buf: Seq<u8>,
    receiver: &T::Receiver,
    post: &T,
    outcome: SendOutcome<T>,
) -> bool {
    &&& T::send_attempt(pre, buf, receiver, post, outcome)
    &&& outcome matches Poll::Ready(Ok(n)) ==> n <= buf.len()
}

/// One receive attempt as [`AsyncDatagram::poll_recv_from`] owes it: the
/// transport's own account holds, the buffer keeps its length, and a
/// successful attempt reports no more bytes than the buffer holds.
pub open spec fn recv_step<T: AsyncDatagram + ?Sized>(
    pre: &T,
    buf: Seq<u8>,
    post: &T,
    filled: Seq<u8>,
    outcome: RecvOutcome<T>,
) -> bool {
    &&& T::recv_attempt(pre, buf, post, filled, outcome)
    &&& filled.len() == buf.len()
    &&& outcome matches Poll::Ready(Ok(got)) ==> got.0 <= buf.len()
}

} // verus!
