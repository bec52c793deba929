//! The life of the staging buffer's mapping, from the request to the
//! release.
//!
//! The host asks for the mapping, drives the device until its outstanding
//! work is done, learns how the request ended, copies the mapped bytes out
//! and releases the mapping. [`Readback`] follows these steps and refuses any
//! that comes out of turn, so that a mapping is never asked for twice and
//! bytes are never read that the device has not handed over.

use vstd::prelude::*;
use crate::error::PipelineError;
use crate::resources::ENTRY_BYTES;

verus! {

/// Where the mapping of the staging buffer stands.
#[derive(Clone, Copy, Debug, PartialEq, Eq, Structural)]
pub enum MapState {
    /// Never mapped, no request outstanding.
    Idle,
    /// A request was issued and the device has not answered.
    MapRequested,
    /// The device granted the request; the bytes may be read.
    MapReady,
    /// The request ended badly. Nothing more can be done with the buffer.
    MapFailed,
    /// The bytes were copied into host memory; the mapping is still in force.
    Mapped,
    /// The mapping was released.
    Unmapped,
}

/// How the device answered a map request.
#[derive(Clone, Copy, Debug, PartialEq, Eq, Structural)]
pub enum MapOutcome {
    /// The range is mapped.
    Ready,
    /// The device turned the request down.
    Rejected,
    /// The device went away before it answered.
    DeviceLost,
}

/// What the host did, or learned, next.
#[derive(Clone, Copy, Debug, PartialEq, Eq, Structural)]
pub enum MapEvent {
    /// The host issues a request to map the whole buffer for reading.
    Request,
    /// The host has driven the device until its outstanding work was done.
    Polled,
    /// The host received the device's answer to the request.
    Resolved(MapOutcome),
    /// The host copies the mapped bytes into a matrix of its own.
    Acquire,
    /// The host releases the mapping.
    Release,
}

/// The mapping of one staging buffer.
#[derive(Clone, Copy, Debug, PartialEq, Eq, Structural)]
pub struct Readback {
    pub state: MapState,
    /// Whether the device was driven to completion since the request.
    pub polled: bool,
    /// Length of the buffer; the whole of it is mapped.
    pub byte_len: u64,
}

impl Readback {
    /// Whether `event` is in turn. A request is in turn when no mapping was
    /// ever asked for or the last one was released. The device's answer can
    /// only have arrived once the device was polled, unless the answer is
    /// that the device is gone.
    pub open spec fn accepts(self, event: MapEvent) -> bool {
        match event {
            MapEvent::Request => self.state == MapState::Idle || self.state == MapState::Unmapped,
            MapEvent::Polled => true,
            MapEvent::Resolved(outcome) => self.state == MapState::MapRequested && (self.polled
                || outcome == MapOutcome::DeviceLost),
            MapEvent::Acquire => self.state == MapState::MapReady,
            MapEvent::Release => self.state == MapState::Mapped,
        }
    }

    /// The mapping after `event`. An event out of turn changes nothing.
    pub open spec fn after(self, event: MapEvent) -> Readback {
        if !self.accepts(event) {
            self
        } else {
            match event {
                MapEvent::Request => Readback {
                    state: MapState::MapRequested,
                    polled: false,
                    byte_len: self.byte_len,
                },
                MapEvent::Polled => Readback {
                    state: self.state,
                    polled: self.polled || self.state == MapState::MapRequested,
                    byte_len: self.byte_len,
                },
                MapEvent::Resolved(outcome) => Readback {
                    state: if outcome == MapOutcome::Ready {
                        MapState::MapReady
                    } else {
                        MapState::MapFailed
                    },
                    polled: self.polled,
                    byte_len: self.byte_len,
                },
                MapEvent::Acquire => Readback {
                    state: MapState::Mapped,
                    polled: self.polled,
                    byte_len: self.byte_len,
                },
                MapEvent::Release => Readback {
                    state: MapState::Unmapped,
                    polled: self.polled,
                    byte_len: self.byte_len,
                },
            }
        }
    }

    /// What the host is told about `event`: an event out of turn is a failed
    /// map request, and so is a request that the device turned down; a lost
    /// device is reported as such.
    pub open spec fn verdict(self, event: MapEvent) -> Result<(), PipelineError> {
        if !self.accepts(event) {
            Err(PipelineError::MapRequestFailed)
        } else {
            match event {
                MapEvent::Resolved(MapOutcome::Rejected) => Err(PipelineError::MapRequestFailed),
                MapEvent::Resolved(MapOutcome::DeviceLost) => Err(PipelineError::DeviceLost),
                _ => Ok(()),
            }
        }
    }

    /// The mapping after all of `events`, in order.
    pub open spec fn after_all(self, events: Seq<MapEvent>) -> Readback
        decreases events.len(),
    {
        if events.len() == 0 {
            self
        } else {
            self.after_all(events.drop_last()).after(events.last())
        }
    }

    /// The mapping of a fresh staging buffer of `byte_len` bytes.
    pub fn new(byte_len: u64) -> (readback: Readback)
        ensures
            readback == (Readback { state: MapState::Idle, polled: false, byte_len }),
    {
        Readback { state: MapState::Idle, polled: false, byte_len }
    }

    /// The byte range that a request asks to map, for reading: the whole
    /// buffer, from its first byte to its end.
    pub fn mapped_range(&self) -> (range: (u64, u64))
        ensures
            range == (0u64, self.byte_len),
    {
        (0, self.byte_len)
    }

    /// Number of 32-bit entries that the mapped bytes hold.
    pub fn entries(&self) -> (count: u64)
        ensures
            count == self.byte_len / ENTRY_BYTES,
    {
        self.byte_len / ENTRY_BYTES
    }

    /// Takes note of `event` and says whether the run may go on.
    pub fn handle(&mut self, event: MapEvent) -> (verdict: Result<(), PipelineError>)
        ensures
            *final(self) == old(self).after(event),
            verdict == old(self).verdict(event),
    {
        match event {
            MapEvent::Request => {
                if self.state == MapState::Idle || self.state == MapState::Unmapped {
                    self.state = MapState::MapRequested;
                    self.polled = false;
                    Ok(())
                } else {
                    Err(PipelineError::MapRequestFailed)
                }
            },
            MapEvent::Polled => {
                if self.state == MapState::MapRequested {
                    self.polled = true;
                }
                Ok(())
            },
            MapEvent::Resolved(outcome) => {
                if self.state != MapState::MapRequested {
                    return Err(PipelineError::MapRequestFailed);
                }
                match outcome {
                    MapOutcome::DeviceLost => {
                        self.state = MapState::MapFailed;
                        Err(PipelineError::DeviceLost)
                    },
                    MapOutcome::Rejected => {
                        if self.polled {
                            self.state = MapState::MapFailed;
                        }
                        Err(PipelineError::MapRequestFailed)
                    },
                    MapOutcome::Ready => {
                        if self.polled {
                            self.state = MapState::MapReady;
                            Ok(())
                        } else {
                            Err(PipelineError::MapRequestFailed)
                        }
                    },
                }
            },
            MapEvent::Acquire => {
                if self.state == MapState::MapReady {
                    self.state = MapState::Mapped;
                    Ok(())
                } else {
                    Err(PipelineError::MapRequestFailed)
                }
            },
            MapEvent::Release => {
                if self.state == MapState::Mapped {
                    self.state = MapState::Unmapped;
                    Ok(())
                } else {
                    Err(PipelineError::MapRequestFailed)
                }
            },
        }
    }
}

/// Once a map request was accepted, every further request is refused until
/// the mapping is released: whatever else happens in between, the request
/// fails and leaves the mapping as it was.
pub proof fn lemma_no_second_request_before_release(readback: Readback, between: Seq<MapEvent>)
    requires
        readback.accepts(MapEvent::Request),
        forall|k: int| 0 <= k < between.len() ==> between[k] != MapEvent::Release,
    ensures
        ({
            let later = readback.after(MapEvent::Request).after_all(between);
            &&& later.state != MapState::Idle
            &&& later.state != MapState::Unmapped
            &&& later.verdict(MapEvent::Request) == Err::<(), PipelineError>(
                PipelineError::MapRequestFailed,
            )
            &&& later.after(MapEvent::Request) == later
        }),
    decreases between.len(),
{
    if between.len() > 0 {
        lemma_no_second_request_before_release(readback, between.drop_last());
    }
}

/// The mapped bytes can only be read after the device was polled and then
/// granted the request: a step that makes the bytes readable is the answer
/// `Ready` to a pending request, taken after a poll.
pub proof fn lemma_ready_only_after_poll(readback: Readback, event: MapEvent)
    requires
        readback.state != MapState::MapReady,
        readback.after(event).state == MapState::MapReady,
    ensures
        event == MapEvent::Resolved(MapOutcome::Ready),
        readback.state == MapState::MapRequested,
        readback.polled,
{
}

/// A request that ended badly is final: no event brings the mapping out of
/// the failed state.
pub proof fn lemma_failure_is_final(readback: Readback, events: Seq<MapEvent>)
    requires
        readback.state == MapState::MapFailed,
    ensures
        readback.after_all(events).state == MapState::MapFailed,
    decreases events.len(),
{
    if events.len() > 0 {
        lemma_failure_is_final(readback, events.drop_last());
    }
}

} // verus!
