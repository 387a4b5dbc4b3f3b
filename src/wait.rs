//! Waiting for an event: what the outcome of a readiness poll means.
//!
//! The caller arms the events (with the mask of `event::get_mask`), polls
//! the device for readability, and, when told to, reads one event and
//! decodes it with `PollData::from_event_bytes`.

use vstd::prelude::*;
use crate::event::{decodes_to, event_decode_error, event_frame_ok, event_type_of, EcMkbpEvent};
use crate::status::EcError;

verus! {

/// The readiness flag that says an event can be read.
pub const POLL_IN: i16 = 0x001;

/// How a wait ended.
#[derive(Debug, Clone, Copy, PartialEq, Eq)]
pub enum PollData {
    EventHappened(EcMkbpEvent),
    Timeout,
    /// The device became ready with flags other than readability.
    SomethingElseHappened(i16),
}

/// What to do after a readiness poll.
#[derive(Debug, Clone, Copy, PartialEq, Eq, Structural)]
pub enum WaitStep {
    /// Read one event and decode it.
    ReadEvent,
    /// No descriptor became ready before the timeout.
    Timeout,
    /// The descriptor became ready with these other flags.
    SomethingElseHappened(i16),
}

/// Interprets a readiness poll on one descriptor: `ready` is the number of
/// ready descriptors the poll returned, `revents` the flags it reported.
/// A count other than zero or one is the poll's own failure, returned as it
/// came.
pub fn after_poll(ready: i32, revents: i16) -> (r: Result<WaitStep, i32>)
    ensures
        ready == 0 ==> r == Ok::<WaitStep, i32>(WaitStep::Timeout),
        ready == 1 && revents == POLL_IN ==> r == Ok::<WaitStep, i32>(WaitStep::ReadEvent),
        ready == 1 && revents != POLL_IN ==> r == Ok::<WaitStep, i32>(WaitStep::SomethingElseHappened(revents)),
        ready != 0 && ready != 1 ==> r == Err::<WaitStep, i32>(ready),
{
    match ready {
        0 => Ok(WaitStep::Timeout),
        1 => {
            if revents == POLL_IN {
                Ok(WaitStep::ReadEvent)
            } else {
                Ok(WaitStep::SomethingElseHappened(revents))
            }
        },
        _ => Err(ready),
    }
}

impl PollData {
    /// The outcome of a wait whose read returned `bytes`.
    pub fn from_event_bytes(bytes: &[u8]) -> (r: Result<PollData, EcError>)
        ensures
            r is Ok <==> event_frame_ok(bytes@),
            r matches Ok(d) ==> (d matches PollData::EventHappened(e) && decodes_to(
                event_type_of(bytes@[0])->Some_0,
                bytes@.subrange(1, bytes@.len() as int),
                e,
            )),
            r matches Err(e) ==> e == event_decode_error(bytes@),
    {
        match EcMkbpEvent::from_bytes(bytes) {
            Ok(e) => Ok(PollData::EventHappened(e)),
            Err(e) => Err(e),
        }
    }
}

} // verus!
