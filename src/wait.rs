//! The decisions of an event wait and of an event flush.
//!
//! The readiness poll and the reads of event records are made by the
//! caller, who hands their results to these functions.
use vstd::prelude::*;

use crate::error::GpioError;
use crate::records::GpioEvent;

verus! {

/// Largest number of event handles that one wait watches.
pub const MAX_EVENT_HANDLES: usize = 64;

/// Bit `i` of `x` is set.
pub open spec fn bit_set(x: u64, i: u64) -> bool {
    (x >> i) & 1u64 == 1u64
}

/// `x` has bit `i` set exactly for the positions `i` of `revents` that
/// report any readiness.
pub open spec fn is_ready_bitmap(x: u64, revents: Seq<i16>) -> bool {
    forall|i: u64| i < 64 ==> #[trigger] bit_set(x, i) == (i < revents.len() && revents[i as int] != 0)
}

proof fn lemma_no_bits()
    ensures
        forall|i: u64| i < 64 ==> !#[trigger] bit_set(0u64, i),
{
    assert forall|i: u64| i < 64 implies !#[trigger] bit_set(0u64, i) by {
        assert((0u64 >> i) & 1u64 == 0u64) by (bit_vector);
    }
}

proof fn lemma_set_bit(x: u64, i: u64, j: u64)
    requires
        i < 64,
        j < 64,
    ensures
        bit_set(x | (1u64 << i), j) == (bit_set(x, j) || i == j),
{
    assert((((x | (1u64 << i)) >> j) & 1u64 == 1u64) == (((x >> j) & 1u64 == 1u64) || i == j))
        by (bit_vector)
        requires
            i < 64,
            j < 64,
    ;
}

/// Decides, from the number of handles, whether a wait polls. Fails with
/// `InvalidInput` above `MAX_EVENT_HANDLES` handles; with none there is
/// nothing to poll, and the wait reports an empty bitmap at once.
pub fn check_wait(count: usize) -> (r: Result<bool, GpioError>)
    ensures
        count > MAX_EVENT_HANDLES ==> r == Err::<bool, GpioError>(GpioError::InvalidInput),
        count == 0 ==> r == Ok::<bool, GpioError>(false),
        0 < count <= MAX_EVENT_HANDLES ==> r == Ok::<bool, GpioError>(true),
{
    if count > MAX_EVENT_HANDLES {
        Err(GpioError::InvalidInput)
    } else {
        Ok(count > 0)
    }
}

/// The bitmap of the handles that reported readiness: bit `i` is set iff
/// the poll entry at position `i` reported any event.
pub fn ready_bitmap(revents: &[i16]) -> (r: u64)
    requires
        revents.len() <= MAX_EVENT_HANDLES,
    ensures
        is_ready_bitmap(r, revents@),
        (forall|i: int| 0 <= i < revents@.len() ==> revents@[i] == 0) ==> r == 0,
{
    let mut result: u64 = 0;
    let mut i: usize = 0;
    proof {
        lemma_no_bits();
    }
    while i < revents.len()
        invariant
            i <= revents@.len(),
            revents@.len() <= 64,
            forall|j: u64| j < 64 ==> #[trigger] bit_set(result, j) == (j < i && revents@[j as int] != 0),
            (forall|j: int| 0 <= j < i ==> revents@[j] == 0) ==> result == 0,
        decreases revents@.len() - i,
    {
        if revents[i] != 0 {
            let ghost old_result = result;
            result = result | (1u64 << (i as u64));
            proof {
                assert forall|j: u64| j < 64 implies #[trigger] bit_set(result, j) == (j < i + 1
                    && revents@[j as int] != 0) by {
                    lemma_set_bit(old_result, i as u64, j);
                }
            }
        }
        i = i + 1;
    }
    result
}

/// The outcome of a wait, from the poll's result and the readiness that
/// each entry reported: a failed poll fails the wait, a poll that timed
/// out gives an empty bitmap, and otherwise the bitmap marks by position
/// the handles that reported readiness.
pub fn wait_result(polled: Result<i32, GpioError>, revents: &[i16]) -> (r: Result<u64, GpioError>)
    requires
        revents.len() <= MAX_EVENT_HANDLES,
    ensures
        polled is Err ==> r == Err::<u64, GpioError>(polled->Err_0),
        polled == Ok::<i32, GpioError>(0) ==> r == Ok::<u64, GpioError>(0),
        polled is Ok && polled->Ok_0 != 0 ==> r is Ok && is_ready_bitmap(r->Ok_0, revents@),
        polled is Ok && (forall|i: int| 0 <= i < revents@.len() ==> revents@[i] == 0) ==> r
            == Ok::<u64, GpioError>(0),
{
    match polled {
        Err(e) => Err(e),
        Ok(n) => {
            if n == 0 {
                Ok(0)
            } else {
                Ok(ready_bitmap(revents))
            }
        },
    }
}

/// The next step of a flush, which drains the events that an event handle
/// holds.
#[derive(Clone, Copy, Debug, PartialEq, Eq, Structural)]
pub enum FlushAction {
    /// Poll the handle without waiting.
    Poll,
    /// Read one event and discard it.
    Read,
    /// Nothing is pending: the flush is done.
    Finish,
    /// The flush failed with this error.
    Fail(GpioError),
}

pub open spec fn flush_after_poll_spec(polled: Result<u64, GpioError>) -> FlushAction {
    match polled {
        Err(e) => FlushAction::Fail(e),
        Ok(bitmap) => if bitmap == 0 {
            FlushAction::Finish
        } else {
            FlushAction::Read
        },
    }
}

pub open spec fn flush_after_read_spec(read: Result<GpioEvent, GpioError>) -> FlushAction {
    match read {
        Err(e) => FlushAction::Fail(e),
        Ok(_) => FlushAction::Poll,
    }
}

/// The step of a flush after a poll: read while the handle is ready,
/// finish when it is not.
pub fn flush_after_poll(polled: Result<u64, GpioError>) -> (r: FlushAction)
    ensures
        r == flush_after_poll_spec(polled),
{
    match polled {
        Err(e) => FlushAction::Fail(e),
        Ok(bitmap) => if bitmap == 0 {
            FlushAction::Finish
        } else {
            FlushAction::Read
        },
    }
}

/// The step of a flush after a read: poll again.
pub fn flush_after_read(read: Result<GpioEvent, GpioError>) -> (r: FlushAction)
    ensures
        r == flush_after_read_spec(read),
{
    match read {
        Err(e) => FlushAction::Fail(e),
        Ok(_) => FlushAction::Poll,
    }
}

/// The events left, and the events read, when a flush runs against a
/// source that holds `pending` events, whose poll reports readiness
/// exactly while an event is pending, and whose reads each hand out one
/// pending event `e`.
pub open spec fn flush_against(pending: nat, e: GpioEvent) -> (nat, nat)
    decreases pending,
{
    let polled = Ok::<u64, GpioError>(if pending > 0 { 1u64 } else { 0u64 });
    match flush_after_poll_spec(polled) {
        FlushAction::Read => if pending > 0 && flush_after_read_spec(Ok(e)) == FlushAction::Poll {
            let (left, reads) = flush_against((pending - 1) as nat, e);
            (left, reads + 1)
        } else {
            (pending, 0)
        },
        _ => (pending, 0),
    }
}

/// A flush drains its source: against a source as `flush_against`
/// describes, it reads each pending event once and finishes with none
/// left.
pub proof fn lemma_flush_drains(pending: nat, e: GpioEvent)
    ensures
        flush_against(pending, e) == (0nat, pending),
    decreases pending,
{
    if pending > 0 {
        lemma_flush_drains((pending - 1) as nat, e);
    }
}

} // verus!
