//! Requests polled more than once.
//!
//! A scheduler polls a request until it returns `Ready`. The history of such
//! a request is the sequence of its successive values and of what each poll
//! returned; the laws below say what every history has, whatever the
//! transport.

use vstd::prelude::*;
use core::task::Poll;
use crate::AsyncDatagram;
use crate::RecvFrom;
use crate::RecvOutcome;
use crate::SendOutcome;
use crate::SendTo;
use crate::recv_step;
use crate::send_step;

verus! {

/// A send request polled once for each entry of `outcomes`: `requests[i]` is
/// the request before poll `i` and `requests[i + 1]` the request after it.
pub open spec fn send_polls<'a, T: AsyncDatagram + ?Sized>(
    requests: Seq<SendTo<'a, T>>,
    outcomes: Seq<SendOutcome<T>>,
) -> bool {
    &&& requests.len() == outcomes.len() + 1
    &&& forall|i: int|
        0 <= i < outcomes.len() ==> requests[i].polled(&requests[i + 1], #[trigger] outcomes[i])
}

/// A receive request polled once for each entry of `outcomes`: `requests[i]`
/// is the request before poll `i` and `requests[i + 1]` the request after it.
pub open spec fn recv_polls<'a, T: AsyncDatagram + ?Sized>(
    requests: Seq<RecvFrom<'a, T>>,
    outcomes: Seq<RecvOutcome<T>>,
) -> bool {
    &&& requests.len() == outcomes.len() + 1
    &&& forall|i: int|
        0 <= i < outcomes.len() ==> requests[i].polled(&requests[i + 1], #[trigger] outcomes[i])
}

/// The outcomes of a request driven to completion: the scheduler polled
/// again after every `Pending` and stopped at the first `Ready`.
pub open spec fn driven_to_completion<V>(outcomes: Seq<Poll<V>>) -> bool {
    &&& outcomes.len() > 0
    &&& outcomes.last() is Ready
    &&& forall|i: int| 0 <= i < outcomes.len() - 1 ==> #[trigger] outcomes[i] is Pending
}

/// However often a send request is polled, every poll is one send attempt of
/// the transport, in the same order, on the bytes and the receiver the
/// request was built with: no attempt is left out and none is made twice.
pub proof fn lemma_send_polls_are_attempts<'a, T: AsyncDatagram + ?Sized>(
    requests: Seq<SendTo<'a, T>>,
    outcomes: Seq<SendOutcome<T>>,
)
    requires
        send_polls(requests, outcomes),
    ensures
        forall|i: int|
            0 <= i <= outcomes.len() ==> (#[trigger] requests[i]).buf == requests[0].buf
                && requests[i].receiver == requests[0].receiver,
        forall|i: int|
            0 <= i < outcomes.len() ==> send_step::<T>(
                &*requests[i].socket,
                requests[0].buf@,
                requests[0].receiver,
                &*requests[i + 1].socket,
                #[trigger] outcomes[i],
            ),
    decreases outcomes.len(),
{
    if outcomes.len() > 0 {
        let k = outcomes.len() - 1;
        let earlier = requests.drop_last();
        assert forall|i: int| 0 <= i < k implies earlier[i].polled(
            &earlier[i + 1],
            #[trigger] outcomes.drop_last()[i],
        ) by {
            assert(outcomes.drop_last()[i] == outcomes[i]);
        }
        lemma_send_polls_are_attempts(earlier, outcomes.drop_last());
        assert(earlier[k] == requests[k]);
        assert(requests[k].polled(&requests[k + 1], outcomes[k]));
        assert forall|i: int| 0 <= i <= k implies (#[trigger] requests[i]) == earlier[i] by {}
    }
}

/// A send request driven to completion on any transport completes exactly
/// once, with the last poll, and yields either `Ok(n)` with `n` no larger
/// than the number of bytes it was given, or an error.
pub proof fn lemma_send_completes_within_payload<'a, T: AsyncDatagram + ?Sized>(
    requests: Seq<SendTo<'a, T>>,
    outcomes: Seq<SendOutcome<T>>,
)
    requires
        send_polls(requests, outcomes),
        driven_to_completion(outcomes),
    ensures
        forall|i: int|
            0 <= i < outcomes.len() ==> (#[trigger] outcomes[i] is Ready <==> i == outcomes.len()
                - 1),
        match outcomes.last() {
            Poll::Ready(Ok(n)) => n <= requests[0].buf@.len(),
            Poll::Ready(Err(_)) => true,
            Poll::Pending => false,
        },
{
    lemma_send_polls_are_attempts(requests, outcomes);
}

/// However often a receive request is polled, every poll is one receive
/// attempt of the transport, in the same order, into a buffer of the
/// capacity the request was built with: no attempt is left out and none is
/// made twice.
pub proof fn lemma_recv_polls_are_attempts<'a, T: AsyncDatagram + ?Sized>(
    requests: Seq<RecvFrom<'a, T>>,
    outcomes: Seq<RecvOutcome<T>>,
)
    requires
        recv_polls(requests, outcomes),
    ensures
        forall|i: int|
            0 <= i <= outcomes.len() ==> (#[trigger] requests[i]).buf@.len()
                == requests[0].buf@.len(),
        forall|i: int|
            0 <= i < outcomes.len() ==> recv_step::<T>(
                &*requests[i].socket,
                requests[i].buf@,
                &*requests[i + 1].socket,
                requests[i + 1].buf@,
                #[trigger] outcomes[i],
            ),
    decreases outcomes.len(),
{
    if outcomes.len() > 0 {
        let k = outcomes.len() - 1;
        let earlier = requests.drop_last();
        assert forall|i: int| 0 <= i < k implies earlier[i].polled(
            &earlier[i + 1],
            #[trigger] outcomes.drop_last()[i],
        ) by {
            assert(outcomes.drop_last()[i] == outcomes[i]);
        }
        lemma_recv_polls_are_attempts(earlier, outcomes.drop_last());
        assert(earlier[k] == requests[k]);
        assert(requests[k].polled(&requests[k + 1], outcomes[k]));
        assert forall|i: int| 0 <= i <= k implies (#[trigger] requests[i]) == earlier[i] by {}
    }
}

/// A receive request driven to completion on any transport completes exactly
/// once, with the last poll, and yields either `Ok((n, sender))` with `n` no
/// larger than the capacity of the buffer it was given, or an error.
pub proof fn lemma_recv_completes_within_capacity<'a, T: AsyncDatagram + ?Sized>(
    requests: Seq<RecvFrom<'a, T>>,
    outcomes: Seq<RecvOutcome<T>>,
)
    requires
        recv_polls(requests, outcomes),
        driven_to_completion(outcomes),
    ensures
        forall|i: int|
            0 <= i < outcomes.len() ==> (#[trigger] outcomes[i] is Ready <==> i == outcomes.len()
                - 1),
        match outcomes.last() {
            Poll::Ready(Ok(got)) => got.0 <= requests[0].buf@.len(),
            Poll::Ready(Err(_)) => true,
            Poll::Pending => false,
        },
{
    lemma_recv_polls_are_attempts(requests, outcomes);
}

} // verus!
