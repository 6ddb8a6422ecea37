//! The two gates of a connection, seen over all the calls in progress.
//!
//! Each direction has one gate, and the driver grants it to a waiting call
//! only while no other call of that direction holds it. Under that one rule
//! the calls of a direction take their turns, and the two directions do not
//! wait for each other.

use vstd::prelude::*;

use crate::raw::transfer::holds_gate;
use crate::raw::transfer::io_step;
use crate::raw::transfer::starting;
use crate::raw::transfer::CallState;
use crate::raw::transfer::Direction;
use crate::raw::transfer::IoEvent;
use crate::raw::transfer::IoProgressView;

verus! {

/// Whether the `direction` gate is held by no call.
pub open spec fn gate_free(calls: Seq<CallState>, direction: Direction) -> bool {
    forall|i: int|
        0 <= i < calls.len() && (#[trigger] calls[i]).direction == direction ==> !holds_gate(
            calls[i],
        )
}

/// Whether each gate is held by at most one call.
pub open spec fn serialized(calls: Seq<CallState>) -> bool {
    forall|i: int, j: int|
        0 <= i < calls.len() && 0 <= j < calls.len() && (#[trigger] calls[i]).direction == (
        #[trigger] calls[j]).direction && holds_gate(calls[i]) && holds_gate(calls[j]) ==> i == j
}

/// Whether `event` may reach the call at `index`: any event may, except that
/// a gate is granted to a waiting call only while it is free.
pub open spec fn deliverable(calls: Seq<CallState>, index: int, event: IoEvent) -> bool {
    &&& 0 <= index < calls.len()
    &&& event is GateAcquired && !holds_gate(calls[index]) ==> gate_free(
        calls,
        calls[index].direction,
    )
}

/// The calls in progress after `event` reached the call at `index`: that
/// call has moved on, or is done and gone.
pub open spec fn deliver(calls: Seq<CallState>, index: int, event: IoEvent) -> Seq<CallState> {
    match io_step(calls[index], event) {
        IoProgressView::Pending(next) => calls.update(index, next),
        IoProgressView::Done(_) => calls.remove(index),
    }
}

/// The calls in progress after one more call has begun.
pub open spec fn begin(calls: Seq<CallState>, direction: Direction, fd: i32, len: usize) -> Seq<
    CallState,
> {
    calls.push(starting(direction, fd, len))
}

/// Calls of one direction take their turns: if each gate is held by at most
/// one call, it still is after any event that may be delivered, and after
/// any further call has begun.
pub proof fn lemma_gates_serialize(calls: Seq<CallState>, index: int, event: IoEvent)
    requires
        serialized(calls),
        deliverable(calls, index, event),
    ensures
        serialized(deliver(calls, index, event)),
        forall|direction: Direction, fd: i32, len: usize|
            serialized(#[trigger] begin(calls, direction, fd, len)),
{
    let after = deliver(calls, index, event);
    assert forall|i: int, j: int|
        0 <= i < after.len() && 0 <= j < after.len() && (#[trigger] after[i]).direction == (
        #[trigger] after[j]).direction && holds_gate(after[i]) && holds_gate(after[j]) implies i
        == j by {
        match io_step(calls[index], event) {
            IoProgressView::Pending(next) => {
                assert(next.direction == calls[index].direction);
                if i != index && j != index {
                    assert(after[i] == calls[i] && after[j] == calls[j]);
                } else if i == index && j != index {
                    assert(after[j] == calls[j]);
                    assert(calls[j].direction == calls[index].direction);
                } else if j == index && i != index {
                    assert(after[i] == calls[i]);
                    assert(calls[i].direction == calls[index].direction);
                }
            },
            IoProgressView::Done(_) => {
                let before_i = if i < index { i } else { i + 1 };
                let before_j = if j < index { j } else { j + 1 };
                assert(after[i] == calls[before_i] && after[j] == calls[before_j]);
            },
        }
    }
    assert forall|direction: Direction, fd: i32, len: usize|
        serialized(#[trigger] begin(calls, direction, fd, len)) by {
        let more = begin(calls, direction, fd, len);
        assert forall|i: int, j: int|
            0 <= i < more.len() && 0 <= j < more.len() && (#[trigger] more[i]).direction == (
            #[trigger] more[j]).direction && holds_gate(more[i]) && holds_gate(more[j]) implies i
            == j by {
            assert(!holds_gate(more[calls.len() as int]));
            assert(more[i] == calls[i] && more[j] == calls[j]);
        }
    }
}

/// At most one system call of a direction is in flight: two calls of the
/// same direction that are both attempting are one and the same call.
pub proof fn lemma_one_attempt_per_direction(calls: Seq<CallState>, i: int, j: int)
    requires
        serialized(calls),
        0 <= i < calls.len(),
        0 <= j < calls.len(),
        calls[i].direction == calls[j].direction,
        calls[i].stage is Attempting,
        calls[j].stage is Attempting,
    ensures
        i == j,
{
}

/// A read and a write do not wait for each other: whether one direction's
/// gate is free does not change when an event reaches a call of the
/// other direction, and the grant of a gate depends only on the calls of
/// its own direction.
pub proof fn lemma_directions_are_independent(
    calls: Seq<CallState>,
    index: int,
    event: IoEvent,
    other: Direction,
)
    requires
        0 <= index < calls.len(),
        calls[index].direction != other,
    ensures
        gate_free(deliver(calls, index, event), other) == gate_free(calls, other),
{
    let after = deliver(calls, index, event);
    match io_step(calls[index], event) {
        IoProgressView::Pending(next) => {
            assert(next.direction == calls[index].direction);
            if gate_free(calls, other) {
                assert forall|i: int|
                    0 <= i < after.len() && (#[trigger] after[i]).direction
                        == other implies !holds_gate(after[i]) by {
                    assert(after[i] == calls[i]);
                }
            }
            if gate_free(after, other) {
                assert forall|i: int|
                    0 <= i < calls.len() && (#[trigger] calls[i]).direction
                        == other implies !holds_gate(calls[i]) by {
                    assert(after[i] == calls[i]);
                }
            }
        },
        IoProgressView::Done(_) => {
            if gate_free(calls, other) {
                assert forall|i: int|
                    0 <= i < after.len() && (#[trigger] after[i]).direction
                        == other implies !holds_gate(after[i]) by {
                    let before = if i < index { i } else { i + 1 };
                    assert(after[i] == calls[before]);
                }
            }
            if gate_free(after, other) {
                assert forall|i: int|
                    0 <= i < calls.len() && (#[trigger] calls[i]).direction
                        == other implies !holds_gate(calls[i]) by {
                    let later = if i < index { i } else { i - 1 };
                    assert(calls[i] == after[later]);
                }
            }
        },
    }
}

} // verus!
