//! Bus frames, and the two planes that use them: objects ([`sdo`]) and process data ([`tpdo`]).
use crate::errors::{bump_lost, Counters, ErrorCounter};
use vstd::prelude::*;

pub mod canopen;
pub mod sdo;
pub mod tpdo;

pub use crate::proto::ids;

verus! {

/// The bytes of one frame, held in a [`heapless::Vec`] with room for eight.
#[verifier::external_body]
pub struct FrameBody {
    bytes: heapless::Vec<u8, 8>,
}

/// What a frame body holds.
pub uninterp spec fn frame_bytes(body: FrameBody) -> Seq<u8>;

/// Calls [`heapless::Vec::from_slice`]. It is claimed to copy the slice, and to fail exactly when
/// the slice is longer than the eight bytes that there is room for.
#[verifier::external_body]
fn body_from_slice(bytes: &[u8]) -> (r: Option<FrameBody>)
    ensures
        r is Some <==> bytes@.len() <= 8,
        r matches Some(body) ==> frame_bytes(body) == bytes@,
{
    match heapless::Vec::from_slice(bytes) {
        Ok(bytes) => Some(FrameBody { bytes }),
        Err(_) => None,
    }
}

/// Calls [`heapless::Vec::as_slice`]. It is claimed to give the bytes held, of which there are at
/// most eight.
#[verifier::external_body]
fn body_as_slice(body: &FrameBody) -> (r: &[u8])
    ensures
        r@ == frame_bytes(*body),
        r@.len() <= 8,
{
    body.bytes.as_slice()
}

impl FrameBody {
    /// A body with these bytes; `None` if there are more than a frame carries.
    pub fn from_slice(bytes: &[u8]) -> (r: Option<Self>)
        ensures
            r is Some <==> bytes@.len() <= 8,
            r matches Some(body) ==> frame_bytes(body) == bytes@,
    {
        body_from_slice(bytes)
    }

    pub fn as_slice(&self) -> (r: &[u8])
        ensures
            r@ == frame_bytes(*self),
            r@.len() <= 8,
    {
        body_as_slice(self)
    }
}

/// A standard-identifier frame, reduced to what this firmware ever cares about.
pub type CanFrame = (u16, FrameBody);

/// What a subscriber got: a frame, or the number of frames that it was too slow for.
pub enum Received {
    Message(CanFrame),
    Lagged(u64),
}

/// Takes what a subscriber got. Frames that were dropped on the way are counted against `lost`, and
/// the caller waits for the next one.
pub fn next_frame(counters: &mut Counters, lost: ErrorCounter, got: Received) -> (r: Option<CanFrame>)
    ensures
        match got {
            Received::Message(frame) => r == Some(frame) && *final(counters) == *old(counters),
            Received::Lagged(n) => {
                &&& r is None
                &&& final(counters).moved() == (old(counters).moved() || n > 0)
                &&& forall|which: ErrorCounter| #[trigger]
                    final(counters).reading(which) == if which == lost {
                        crate::errors::wrapped_sum(
                            old(counters).reading(which),
                            if n > u32::MAX {
                                u32::MAX
                            } else {
                                n as u32
                            },
                        )
                    } else {
                        old(counters).reading(which)
                    }
            },
        },
{
    match got {
        Received::Message(frame) => Some(frame),
        Received::Lagged(n) => {
            bump_lost(counters, lost, n);
            None
        },
    }
}

} // verus!
