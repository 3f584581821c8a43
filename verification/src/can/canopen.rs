//! Messages of a protocol stack as frames of this bus.
use crate::can::{frame_bytes, CanFrame, FrameBody};
use vstd::prelude::*;

verus! {

/// The identifier of a message.
#[derive(Clone, Copy, PartialEq, Eq, Debug, Structural)]
pub enum MessageId {
    Extended(u32),
    Std(u16),
}

/// The frame of a message: none for an extended identifier, which this bus does not carry, or for
/// more data than a frame holds.
pub fn from_message(id: MessageId, data: &[u8]) -> (r: Option<CanFrame>)
    ensures
        r is Some <==> id is Std && data@.len() <= 8,
        r matches Some((cob_id, body)) ==> id == MessageId::Std(cob_id) && frame_bytes(body) == data@,
{
    let id: u16 = match id {
        MessageId::Std(id) => id,
        MessageId::Extended(_) => return None,
    };
    match FrameBody::from_slice(data) {
        Some(body) => Some((id, body)),
        None => None,
    }
}

} // verus!
