use vstd::prelude::*;
use core::future::Future;
use core::pin::Pin;
use core::task::Context;
use core::task::Poll;
use crate::AsyncDatagram;
use crate::RecvOutcome;
use crate::SendOutcome;
use crate::recv_step;
use crate::send_step;

verus! {

/// An extension trait that adds utility methods to [`AsyncDatagram`] types.
pub trait AsyncDatagramExt: AsyncDatagram {
    /// Creates a future that will send a given message to the specified
    /// target.
    ///
    /// The returned future will resolve to the number of bytes actually sent
    /// once the operation completes. Nothing is sent here: the request only
    /// holds what it was given, and the transport exclusively, until it is
    /// dropped.
    fn send_to<'a>(
        &'a mut self,
        buf: &'a [u8],
        receiver: &'a Self::Receiver,
    ) -> (request: SendTo<'a, Self>) where Self: Unpin
        ensures
            &*request.socket == &*old(self),
            &*final(request.socket) == &*final(self),
            request.buf == buf,
            request.receiver == receiver,
    {
        SendTo { socket: self, buf, receiver }
    }

    /// Creates a future that will receive a message into the provided buffer.
    ///
    /// The returned future will resolve to the number of bytes received and
    /// the target from whence the data came once the operation completes.
    /// Nothing is received here: the request only holds the buffer and the
    /// transport, both exclusively, until it is dropped.
    fn recv_from<'a>(&'a mut self, buf: &'a mut [u8]) -> (request: RecvFrom<'a, Self>) where
        Self: Unpin,
        ensures
            &*request.socket == &*old(self),
            &*final(request.socket) == &*final(self),
            request.buf@ == old(buf)@,
            final(request.buf)@ == final(buf)@,
    {
        RecvFrom { socket: self, buf }
    }
}

impl<T: AsyncDatagram + ?Sized> AsyncDatagramExt for T {
}

/// Future for the [`send_to`](AsyncDatagramExt::send_to) method.
#[derive(Debug)]
#[must_use]
pub struct SendTo<'a, T: AsyncDatagram + ?Sized> {
    /// The transport, borrowed exclusively for as long as the request lives.
    pub socket: &'a mut T,
    /// The bytes to send.
    pub buf: &'a [u8],
    /// Where to send them.
    pub receiver: &'a T::Receiver,
}

/// Future for the [`recv_from`](AsyncDatagramExt::recv_from) method.
#[derive(Debug)]
#[must_use]
pub struct RecvFrom<'a, T: AsyncDatagram + ?Sized> {
    /// The transport, borrowed exclusively for as long as the request lives.
    pub socket: &'a mut T,
    /// The buffer to fill.
    pub buf: &'a mut [u8],
}

impl<'a, T: AsyncDatagram + ?Sized> SendTo<'a, T> {
    /// Whether one poll may take this request to `next` and return
    /// `outcome`: the transport made one send attempt with the request's
    /// bytes and receiver, and the request still holds both.
    pub open spec fn polled(&self, next: &Self, outcome: SendOutcome<T>) -> bool {
        &&& send_step::<T>(&*self.socket, self.buf@, self.receiver, &*next.socket, outcome)
        &&& next.buf == self.buf
        &&& next.receiver == self.receiver
    }

    /// Makes one send attempt on the transport, with the bytes and the
    /// receiver the request was built with, and returns what the transport
    /// returned: `Ready` with the final result, or `Pending` when the
    /// request is to be polled again after the wake-up.
    ///
    /// The transport is left as that one attempt left it, and stays borrowed
    /// by the request.
    pub fn poll(&mut self, cx: &mut Context<'_>) -> (outcome: SendOutcome<T>)
        ensures
            old(self).polled(final(self), outcome),
            &*final(final(self).socket) == &*final(old(self).socket),
    {
        self.socket.poll_send_to(cx, self.buf, self.receiver)
    }
}

impl<'a, T: AsyncDatagram + ?Sized> RecvFrom<'a, T> {
    /// Whether one poll may take this request to `next` and return
    /// `outcome`: the transport made one receive attempt into the request's
    /// buffer.
    pub open spec fn polled(&self, next: &Self, outcome: RecvOutcome<T>) -> bool {
        recv_step::<T>(&*self.socket, self.buf@, &*next.socket, next.buf@, outcome)
    }

    /// Makes one receive attempt on the transport, into the buffer the
    /// request was built with, and returns what the transport returned:
    /// `Ready` with the final result, or `Pending` when the request is to be
    /// polled again after the wake-up.
    ///
    /// The transport and the buffer are left as that one attempt left them,
    /// and stay borrowed by the request.
    pub fn poll(&mut self, cx: &mut Context<'_>) -> (outcome: RecvOutcome<T>)
        ensures
            old(self).polled(final(self), outcome),
            &*final(final(self).socket) == &*final(old(self).socket),
            final(final(self).buf)@ == final(old(self).buf)@,
    {
        self.socket.poll_recv_from(cx, self.buf)
    }
}

/// `Pin::get_mut` on a pinned send request: hands out the request behind the
/// pin. A request holds only references, so it may be moved freely. Nothing
/// is claimed of the result.
#[verifier::external_body]
fn send_request_mut<'p, 'a, T: AsyncDatagram + ?Sized>(
    request: Pin<&'p mut SendTo<'a, T>>,
) -> &'p mut SendTo<'a, T> {
    Pin::get_mut(request)
}

/// `Pin::get_mut` on a pinned receive request: hands out the request behind
/// the pin. A request holds only references, so it may be moved freely.
/// Nothing is claimed of the result.
#[verifier::external_body]
fn recv_request_mut<'p, 'a, T: AsyncDatagram + ?Sized>(
    request: Pin<&'p mut RecvFrom<'a, T>>,
) -> &'p mut RecvFrom<'a, T> {
    Pin::get_mut(request)
}

impl<T: AsyncDatagram + Unpin + ?Sized> Future for SendTo<'_, T> {
    type Output = Result<usize, T::Err>;

    /// One [`SendTo::poll`] of the pinned request.
    ///
    /// The pin hides which request it holds, so the outcome is stated of the
    /// request that the pin hands out, whichever it is: it is what one poll
    /// took that request through, one send attempt of its transport on its
    /// bytes and receiver.
    fn poll(self: Pin<&mut Self>, cx: &mut Context<'_>) -> (outcome: Poll<Self::Output>)
        ensures
            exists|before: Self, after: Self| before.polled(&after, outcome),
    {
        send_request_mut(self).poll(cx)
    }
}

impl<T: AsyncDatagram + Unpin + ?Sized> Future for RecvFrom<'_, T> {
    type Output = Result<(usize, T::Sender), T::Err>;

    /// One [`RecvFrom::poll`] of the pinned request.
    ///
    /// The pin hides which request it holds, so the outcome is stated of the
    /// request that the pin hands out, whichever it is: it is what one poll
    /// took that request through, one receive attempt of its transport into
    /// its buffer.
    fn poll(self: Pin<&mut Self>, cx: &mut Context<'_>) -> (outcome: Poll<Self::Output>)
        ensures
            exists|before: Self, after: Self| before.polled(&after, outcome),
    {
        recv_request_mut(self).poll(cx)
    }
}

} // verus!
