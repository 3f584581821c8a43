//! The config plane: a deliberately small object server.
//!
//! Only expedited transfers are supported: no object is wider than four bytes, so every read and
//! write is one frame each way. Segmented and block transfers are refused rather than mishandled.
use crate::bytes::{byte_of, le16};
use crate::can::{frame_bytes, CanFrame, FrameBody};
use crate::index::ValveId;
use crate::proto::ids::{HEARTBEAT_BASE, SDO_REQUEST_BASE, SDO_RESPONSE_BASE};
use crate::store::Pending;
use vstd::prelude::*;
use zencan_common::sdo::SdoRequest as Request;

verus! {

/// Why a transfer is refused.
#[derive(Clone, Copy, PartialEq, Eq, Debug, Structural)]
pub enum AbortCode {
    ToggleNotAlternated,
    SdoTimeout,
    InvalidCommandSpecifier,
    InvalidBlockSize,
    InvalidSequenceNumber,
    CrcError,
    OutOfMemory,
    UnsupportedAccess,
    WriteOnly,
    ReadOnly,
    NoSuchObject,
    UnnallowedPdo,
    PdoTooLong,
    IncompatibleParameter,
    HardwareError,
    DataTypeMismatch,
    DataTypeMismatchLengthHigh,
    DataTypeMismatchLengthLow,
    NoSuchSubIndex,
    InvalidValue,
    ValueTooHigh,
    ValueTooLow,
    ResourceNotAvailable,
    GeneralError,
    CantStore,
    CantStoreLocalControl,
    CantStoreDeviceState,
    NoObjectDict,
    NoData,
}

impl AbortCode {
    /// The number that stands for the reason on the bus.
    pub open spec fn number(self) -> u32 {
        match self {
            AbortCode::ToggleNotAlternated => 0x0503_0000,
            AbortCode::SdoTimeout => 0x0504_0000,
            AbortCode::InvalidCommandSpecifier => 0x0504_0001,
            AbortCode::InvalidBlockSize => 0x0504_0002,
            AbortCode::InvalidSequenceNumber => 0x0504_0003,
            AbortCode::CrcError => 0x0504_0004,
            AbortCode::OutOfMemory => 0x0504_0005,
            AbortCode::UnsupportedAccess => 0x0601_0000,
            AbortCode::WriteOnly => 0x0601_0001,
            AbortCode::ReadOnly => 0x0601_0002,
            AbortCode::NoSuchObject => 0x0602_0000,
            AbortCode::UnnallowedPdo => 0x0604_0041,
            AbortCode::PdoTooLong => 0x0604_0042,
            AbortCode::IncompatibleParameter => 0x0604_0043,
            AbortCode::HardwareError => 0x0606_0000,
            AbortCode::DataTypeMismatch => 0x0607_0010,
            AbortCode::DataTypeMismatchLengthHigh => 0x0607_0012,
            AbortCode::DataTypeMismatchLengthLow => 0x0607_0013,
            AbortCode::NoSuchSubIndex => 0x0609_0011,
            AbortCode::InvalidValue => 0x0609_0030,
            AbortCode::ValueTooHigh => 0x0609_0031,
            AbortCode::ValueTooLow => 0x0609_0032,
            AbortCode::ResourceNotAvailable => 0x060A_0023,
            AbortCode::GeneralError => 0x0800_0000,
            AbortCode::CantStore => 0x0800_0020,
            AbortCode::CantStoreLocalControl => 0x0800_0021,
            AbortCode::CantStoreDeviceState => 0x0800_0022,
            AbortCode::NoObjectDict => 0x0800_0023,
            AbortCode::NoData => 0x0800_0024,
        }
    }

    pub fn code(self) -> (r: u32)
        ensures
            r == self.number(),
    {
        match self {
            AbortCode::ToggleNotAlternated => 0x0503_0000,
            AbortCode::SdoTimeout => 0x0504_0000,
            AbortCode::InvalidCommandSpecifier => 0x0504_0001,
            AbortCode::InvalidBlockSize => 0x0504_0002,
            AbortCode::InvalidSequenceNumber => 0x0504_0003,
            AbortCode::CrcError => 0x0504_0004,
            AbortCode::OutOfMemory => 0x0504_0005,
            AbortCode::UnsupportedAccess => 0x0601_0000,
            AbortCode::WriteOnly => 0x0601_0001,
            AbortCode::ReadOnly => 0x0601_0002,
            AbortCode::NoSuchObject => 0x0602_0000,
            AbortCode::UnnallowedPdo => 0x0604_0041,
            AbortCode::PdoTooLong => 0x0604_0042,
            AbortCode::IncompatibleParameter => 0x0604_0043,
            AbortCode::HardwareError => 0x0606_0000,
            AbortCode::DataTypeMismatch => 0x0607_0010,
            AbortCode::DataTypeMismatchLengthHigh => 0x0607_0012,
            AbortCode::DataTypeMismatchLengthLow => 0x0607_0013,
            AbortCode::NoSuchSubIndex => 0x0609_0011,
            AbortCode::InvalidValue => 0x0609_0030,
            AbortCode::ValueTooHigh => 0x0609_0031,
            AbortCode::ValueTooLow => 0x0609_0032,
            AbortCode::ResourceNotAvailable => 0x060A_0023,
            AbortCode::GeneralError => 0x0800_0000,
            AbortCode::CantStore => 0x0800_0020,
            AbortCode::CantStoreLocalControl => 0x0800_0021,
            AbortCode::CantStoreDeviceState => 0x0800_0022,
            AbortCode::NoObjectDict => 0x0800_0023,
            AbortCode::NoData => 0x0800_0024,
        }
    }
}

/// A request, as far as this server tells requests apart.
#[derive(Clone, Copy, PartialEq, Eq, Debug)]
pub enum SdoRequest {
    /// Read an object.
    InitiateUpload { index: u16, sub: u8 },
    /// Write an object: `n` unused bytes in `data`, `e` for expedited, `s` if `n` is valid.
    InitiateDownload { n: u8, e: bool, s: bool, index: u16, sub: u8, data: [u8; 4] },
    /// Block and segmented transfers, and anything else the framing can express.
    Other,
}

/// Whether a request is what some bytes ask for. The top three bits of the first byte say what is
/// asked; the object is named by the three bytes behind it.
pub open spec fn asks(bytes: Seq<u8>, request: SdoRequest) -> bool {
    match request {
        SdoRequest::InitiateUpload { index, sub } => {
            &&& bytes[0] / 32 == 2
            &&& index == le16(bytes[1], bytes[2])
            &&& sub == bytes[3]
        },
        SdoRequest::InitiateDownload { n, e, s, index, sub, data } => {
            &&& bytes[0] / 32 == 1
            &&& n == bytes[0] / 4 % 4
            &&& e == (bytes[0] / 2 % 2 == 1)
            &&& s == (bytes[0] % 2 == 1)
            &&& index == le16(bytes[1], bytes[2])
            &&& sub == bytes[3]
            &&& data@ == bytes.subrange(4, 8)
        },
        SdoRequest::Other => bytes[0] / 32 != 1 && bytes[0] / 32 != 2,
    }
}

/// Whether some bytes are a request at all: eight of them, with a command that exists.
pub open spec fn is_request(bytes: Seq<u8>) -> bool {
    bytes.len() >= 8 && bytes[0] / 32 != 7
}

/// Calls `SdoRequest::try_from` of [`zencan_common::sdo`]. The contract claims what it makes of the
/// two requests that this server answers, that it accepts every other command but the unassigned
/// one, and that it refuses fewer than eight bytes.
#[verifier::external_body]
fn decode_request(bytes: &[u8]) -> (r: Option<SdoRequest>)
    ensures
        r is Some <==> is_request(bytes@),
        r matches Some(request) ==> asks(bytes@, request),
{
    match Request::try_from(bytes) {
        Ok(Request::InitiateUpload { index, sub }) => Some(SdoRequest::InitiateUpload { index, sub }),
        Ok(Request::InitiateDownload { n, e, s, index, sub, data }) => Some(
            SdoRequest::InitiateDownload { n, e, s, index, sub, data },
        ),
        Ok(_) => Some(SdoRequest::Other),
        Err(_) => None,
    }
}

/// The bytes that name an object.
pub open spec fn object_name(index: u16, sub: u8) -> Seq<u8> {
    seq![byte_of(index as int, 0), byte_of(index as int, 1), sub]
}

/// The answer to a read: the size in the command byte, then the value, padded to four bytes.
pub open spec fn upload_answer(index: u16, sub: u8, value: Seq<u8>) -> Seq<u8> {
    seq![
        if value.len() == 0 {
            0x42u8
        } else {
            (0x43 + 4 * (4 - value.len())) as u8
        },
    ] + object_name(index, sub) + value + Seq::new((4 - value.len()) as nat, |i: int| 0u8)
}

/// The answer to a write.
pub open spec fn download_answer(index: u16, sub: u8) -> Seq<u8> {
    seq![0x60u8] + object_name(index, sub) + seq![0u8, 0, 0, 0]
}

/// The answer that refuses a request.
pub open spec fn abort_answer(index: u16, sub: u8, code: u32) -> Seq<u8> {
    seq![0x80u8] + object_name(index, sub) + seq![
        byte_of(code as int, 0),
        byte_of(code as int, 1),
        byte_of(code as int, 2),
        byte_of(code as int, 3),
    ]
}

/// Calls `SdoResponse::expedited_upload` of [`zencan_common::sdo`], and `to_bytes` on its result.
/// It panics on more than four bytes, which are left out.
#[verifier::external_body]
fn encode_upload(index: u16, sub: u8, value: &[u8]) -> (r: [u8; 8])
    requires
        value@.len() <= 4,
    ensures
        r@ == upload_answer(index, sub, value@),
{
    zencan_common::sdo::SdoResponse::expedited_upload(index, sub, value).to_bytes()
}

/// Calls `SdoResponse::download_acknowledge` of [`zencan_common::sdo`], and `to_bytes` on its
/// result.
#[verifier::external_body]
fn encode_download(index: u16, sub: u8) -> (r: [u8; 8])
    ensures
        r@ == download_answer(index, sub),
{
    zencan_common::sdo::SdoResponse::download_acknowledge(index, sub).to_bytes()
}

/// Calls `to_bytes` on an abort of [`zencan_common::sdo`]'s `SdoResponse`.
#[verifier::external_body]
fn encode_abort(index: u16, sub: u8, abort_code: u32) -> (r: [u8; 8])
    ensures
        r@ == abort_answer(index, sub, abort_code),
{
    zencan_common::sdo::SdoResponse::Abort { index, sub, abort_code }.to_bytes()
}

/// What a received frame means to the server.
pub enum SdoEvent {
    /// The master is alive.
    MasterHeartbeat,
    /// Nothing to do with this node, or not decodable.
    Ignored,
    Request(SdoRequest),
}

/// Whether an event is what a frame means to the server of a node.
pub open spec fn means(
    node_id: u8,
    master_node_id: u8,
    cob_id: u16,
    bytes: Seq<u8>,
    event: SdoEvent,
) -> bool {
    if cob_id == HEARTBEAT_BASE + master_node_id {
        event is MasterHeartbeat
    } else if cob_id == SDO_REQUEST_BASE + node_id && is_request(bytes) {
        event matches SdoEvent::Request(request) && asks(bytes, request)
    } else {
        event is Ignored
    }
}

/// What a request asks of the dictionary.
#[derive(Clone, Copy, PartialEq, Eq, Debug)]
pub enum SdoStep {
    Read { index: u16, sub: u8 },
    /// The first `len` bytes of `data` are to be written.
    Write { index: u16, sub: u8, data: [u8; 4], len: usize },
    /// Nothing: the request is refused.
    Refuse { index: u16, sub: u8, code: AbortCode },
}

/// Which task a write that was accepted has to wake.
#[derive(Clone, Copy, PartialEq, Eq, Debug, Structural)]
pub struct Wakes {
    pub control: bool,
    pub persistence: bool,
}

/// Which tasks a write wakes: none if it was refused.
pub open spec fn woken(taken: bool, pending: Pending) -> Wakes {
    Wakes {
        control: taken && pending.concerns_control(),
        persistence: taken && (pending.save || pending.restore),
    }
}

/// What a request asks of the dictionary: reads and sized expedited writes go through, everything
/// else is refused with its own reason.
pub open spec fn step_for(request: SdoRequest) -> SdoStep {
    match request {
        SdoRequest::InitiateUpload { index, sub } => SdoStep::Read { index, sub },
        SdoRequest::InitiateDownload { n, e, s, index, sub, data } => if !e {
            SdoStep::Refuse { index, sub, code: AbortCode::UnsupportedAccess }
        } else if !s {
            SdoStep::Refuse { index, sub, code: AbortCode::DataTypeMismatch }
        } else if n > 3 {
            SdoStep::Refuse { index, sub, code: AbortCode::DataTypeMismatchLengthLow }
        } else {
            SdoStep::Write { index, sub, data, len: (4 - n) as usize }
        },
        SdoRequest::Other => SdoStep::Refuse {
            index: 0,
            sub: 0,
            code: AbortCode::UnsupportedAccess,
        },
    }
}

pub struct SdoServer {
    node_id: u8,
}

impl SdoServer {
    pub closed spec fn node(self) -> u8 {
        self.node_id
    }

    pub fn new(node_id: u8) -> (r: Self)
        ensures
            r.node() == node_id,
    {
        Self { node_id }
    }

    /// Sorts a received frame: the configured master's heartbeat, a request to this node, or
    /// neither.
    pub fn receive(&self, master_node_id: u8, cob_id: u16, body: &FrameBody) -> (r: SdoEvent)
        ensures
            r is MasterHeartbeat <==> cob_id == HEARTBEAT_BASE + master_node_id,
            r is Request <==> cob_id != HEARTBEAT_BASE + master_node_id && cob_id
                == SDO_REQUEST_BASE + self.node() && is_request(frame_bytes(*body)),
            r matches SdoEvent::Request(request) ==> asks(frame_bytes(*body), request),
            means(self.node(), master_node_id, cob_id, frame_bytes(*body), r),
    {
        if cob_id == HEARTBEAT_BASE + master_node_id as u16 {
            return SdoEvent::MasterHeartbeat;
        }
        if cob_id != SDO_REQUEST_BASE + self.node_id as u16 {
            return SdoEvent::Ignored;
        }
        match decode_request(body.as_slice()) {
            Some(request) => SdoEvent::Request(request),
            None => SdoEvent::Ignored,
        }
    }

    /// Decides what a request asks of the dictionary. The caller does it and answers with
    /// [`Self::uploaded`], [`Self::downloaded`] or [`Self::refused`].
    pub fn handle(&self, request: SdoRequest) -> (r: SdoStep)
        ensures
            r == step_for(request),
    {
        match request {
            SdoRequest::InitiateUpload { index, sub } => SdoStep::Read { index, sub },
            SdoRequest::InitiateDownload { n, e, s, index, sub, data } => {
                if !e {
                    return SdoStep::Refuse { index, sub, code: AbortCode::UnsupportedAccess };
                }
                if !s {
                    return SdoStep::Refuse { index, sub, code: AbortCode::DataTypeMismatch };
                }
                if n > 3 {
                    return SdoStep::Refuse { index, sub, code: AbortCode::DataTypeMismatchLengthLow };
                }
                SdoStep::Write { index, sub, data, len: 4 - n as usize }
            },
            SdoRequest::Other => SdoStep::Refuse {
                index: 0,
                sub: 0,
                code: AbortCode::UnsupportedAccess,
            },
        }
    }

    /// The answer to a read, once the dictionary has been asked.
    pub fn uploaded(&self, index: u16, sub: u8, value: Result<&[u8], AbortCode>) -> (r: Option<CanFrame>)
        requires
            value matches Ok(bytes) ==> bytes@.len() <= 4,
        ensures
            r matches Some((cob_id, body)) && cob_id == SDO_RESPONSE_BASE + self.node() && frame_bytes(
                body,
            ) == match value {
                Ok(bytes) => upload_answer(index, sub, bytes@),
                Err(code) => abort_answer(index, sub, code.number()),
            },
    {
        match value {
            Ok(bytes) => self.reply(encode_upload(index, sub, bytes)),
            Err(code) => self.refused(index, sub, code),
        }
    }

    /// The answer to a write, once the dictionary has taken or refused it, and which tasks to wake:
    /// `pending` is what the writes so far have left to act on.
    pub fn downloaded(&self, index: u16, sub: u8, result: Result<(), AbortCode>, pending: &Pending) -> (r: (
        Option<CanFrame>,
        Wakes,
    ))
        ensures
            r.0 matches Some((cob_id, body)) && cob_id == SDO_RESPONSE_BASE + self.node()
                && frame_bytes(body) == match result {
                Ok(()) => download_answer(index, sub),
                Err(code) => abort_answer(index, sub, code.number()),
            },
            r.1.control == (result is Ok && pending.concerns_control()),
            r.1.persistence == (result is Ok && (pending.save || pending.restore)),
            r.1 == woken(result is Ok, *pending),
    {
        match result {
            Ok(()) => (
                self.reply(encode_download(index, sub)),
                Wakes {
                    control: pending.wakes_control(),
                    persistence: pending.wakes_persistence(),
                },
            ),
            Err(code) => (
                self.refused(index, sub, code),
                Wakes { control: false, persistence: false },
            ),
        }
    }

    /// The answer to a request that is refused.
    pub fn refused(&self, index: u16, sub: u8, code: AbortCode) -> (r: Option<CanFrame>)
        ensures
            r matches Some((cob_id, body)) && cob_id == SDO_RESPONSE_BASE + self.node() && frame_bytes(
                body,
            ) == abort_answer(index, sub, code.number()),
    {
        self.reply(encode_abort(index, sub, code.code()))
    }

    fn reply(&self, response: [u8; 8]) -> (r: Option<CanFrame>)
        ensures
            r matches Some((cob_id, body)) && cob_id == SDO_RESPONSE_BASE + self.node() && frame_bytes(
                body,
            ) == response@,
    {
        let cob_id: u16 = SDO_RESPONSE_BASE + self.node_id as u16;
        match FrameBody::from_slice(response.as_slice()) {
            Some(body) => Some((cob_id, body)),
            None => None,
        }
    }
}

/// The node state byte that a heartbeat carries: this node is either running or not on the bus.
pub const OPERATIONAL: u8 = 0x05;

/// What the heartbeat task does next.
pub enum HeartbeatStep {
    /// Send this frame, then wait for the period.
    Send { frame: CanFrame, then_wait_ms: u64 },
    /// Disabled: look again later.
    Wait { wait_ms: u64 },
}

/// What a node's heartbeat task does next: the identifier and the bytes to send, if any, and how long to
/// wait after that.
pub open spec fn beat_of(node_id: u8, period_ms: u16) -> (Option<(int, Seq<u8>)>, int) {
    if period_ms == 0 {
        (None, 1000)
    } else {
        (Some((HEARTBEAT_BASE + node_id, seq![OPERATIONAL])), period_ms as int)
    }
}

/// One turn of our own heartbeat, so that the master can tell a silent node from an absent one. A
/// period of 0 disables it; it is looked at again once a second.
pub fn heartbeat_step(node_id: u8, period_ms: u16) -> (r: HeartbeatStep)
    ensures
        period_ms == 0 ==> r == (HeartbeatStep::Wait { wait_ms: 1000 }),
        period_ms != 0 ==> r is Send && r->then_wait_ms == period_ms && r->frame.0 == HEARTBEAT_BASE
            + node_id && frame_bytes(r->frame.1) == seq![OPERATIONAL],
        beat_of(node_id, period_ms) == match r {
            HeartbeatStep::Send { frame, then_wait_ms } => (
                Some((frame.0 as int, frame_bytes(frame.1))),
                then_wait_ms as int,
            ),
            HeartbeatStep::Wait { wait_ms } => (None, wait_ms as int),
        },
{
    if period_ms == 0 {
        return HeartbeatStep::Wait { wait_ms: 1000 };
    }
    let cob_id: u16 = HEARTBEAT_BASE + node_id as u16;
    let state = [OPERATIONAL];
    assert(state@ =~= seq![OPERATIONAL]);
    match FrameBody::from_slice(state.as_slice()) {
        Some(body) => HeartbeatStep::Send { frame: (cob_id, body), then_wait_ms: period_ms as u64 },
        None => HeartbeatStep::Wait { wait_ms: period_ms as u64 },
    }
}

/// Every request to this node is acted on or refused, and a refusal names the object it refuses
/// wherever the request named one.
pub proof fn a_refusal_names_its_object(bytes: Seq<u8>, request: SdoRequest)
    requires
        is_request(bytes),
        asks(bytes, request),
    ensures
        step_for(request) matches SdoStep::Refuse { index, sub, code } ==> {
            &&& bytes[0] / 32 == 1 ==> index == le16(bytes[1], bytes[2]) && sub == bytes[3]
            &&& bytes[0] / 32 != 1 ==> index == 0 && sub == 0 && code == AbortCode::UnsupportedAccess
        },
        step_for(request) matches SdoStep::Read { index, sub } ==> index == le16(bytes[1], bytes[2])
            && sub == bytes[3],
        step_for(request) matches SdoStep::Write { index, sub, .. } ==> index == le16(
            bytes[1],
            bytes[2],
        ) && sub == bytes[3],
{
}

/// Only an expedited write of a stated size reaches the dictionary, and with exactly the bytes it
/// states: one to four of them.
pub proof fn a_write_has_its_stated_width(bytes: Seq<u8>, request: SdoRequest)
    requires
        is_request(bytes),
        asks(bytes, request),
    ensures
        step_for(request) is Write <==> bytes[0] / 32 == 1 && bytes[0] % 4 == 3,
        step_for(request) matches SdoStep::Write { data, len, .. } ==> len == 4 - bytes[0] / 4 % 4
            && 1 <= len <= 4 && data@.take(len as int) == bytes.subrange(4, 4 + len as int),
{
    if let SdoStep::Write { data, len, .. } = step_for(request) {
        assert(data@.take(len as int) =~= bytes.subrange(4, 4 + len as int));
    }
}

/// The three answers are told apart by their first byte, and all of them fill a frame.
pub proof fn answers_are_told_apart(index: u16, sub: u8, value: Seq<u8>, code: u32)
    requires
        value.len() <= 4,
    ensures
        upload_answer(index, sub, value).len() == 8,
        download_answer(index, sub).len() == 8,
        abort_answer(index, sub, code).len() == 8,
        upload_answer(index, sub, value)[0] / 32 == 2,
        download_answer(index, sub)[0] / 32 == 3,
        abort_answer(index, sub, code)[0] / 32 == 4,
{
}

/// A value that was read comes back out of the answer: its size from the command byte, its bytes
/// from behind the object's name.
pub proof fn a_read_value_comes_back(index: u16, sub: u8, value: Seq<u8>)
    requires
        1 <= value.len() <= 4,
    ensures
        ({
            let answer = upload_answer(index, sub, value);
            &&& 4 - answer[0] / 4 % 4 == value.len()
            &&& answer.subrange(4, 4 + value.len() as int) == value
            &&& le16(answer[1], answer[2]) == index
            &&& answer[3] == sub
        }),
{
    let answer = upload_answer(index, sub, value);
    assert(answer.subrange(4, 4 + value.len() as int) =~= value);
}

/// A request that names an object carries its index, the low byte first, and its sub-index behind the
/// command byte; a download carries four bytes of data behind those, and says in its command byte how
/// many are unused, whether it is expedited and whether the number is valid.
pub proof fn a_request_is_taken_from_its_frame(bytes: Seq<u8>, request: SdoRequest)
    requires
        bytes.len() >= 8,
        asks(bytes, request),
    ensures
        request is InitiateUpload <==> bytes[0] / 32 == 2,
        request is InitiateDownload <==> bytes[0] / 32 == 1,
        request matches SdoRequest::InitiateUpload { index, sub } ==> index == bytes[1] + 256
            * bytes[2] && sub == bytes[3],
        request matches SdoRequest::InitiateDownload { n, e, s, index, sub, data } ==> {
            &&& index == bytes[1] + 256 * bytes[2]
            &&& sub == bytes[3]
            &&& bytes[0] == 32 + 16 * (bytes[0] / 16 % 2) + 4 * n + (if e {
                2int
            } else {
                0
            }) + (if s {
                1int
            } else {
                0
            })
            &&& forall|i: int| 0 <= i < 4 ==> #[trigger] data@[i] == bytes[4 + i]
        },
{
    if let SdoRequest::InitiateDownload { data, .. } = request {
        assert forall|i: int| 0 <= i < 4 implies #[trigger] data@[i] == bytes[4 + i] by {
            assert(bytes.subrange(4, 8)[i] == bytes[4 + i]);
        }
    }
}

/// What becomes of a request: a read is done, and so is an expedited write of a stated size. A
/// segmented write, one without its size and one without data are refused, each for its own reason,
/// and so is everything else.
pub proof fn each_request_has_its_answer(
    index: u16,
    sub: u8,
    n: u8,
    e: bool,
    s: bool,
    data: [u8; 4],
)
    ensures
        step_for(SdoRequest::InitiateUpload { index, sub }) == (SdoStep::Read { index, sub }),
        ({
            let step = step_for(SdoRequest::InitiateDownload { n, e, s, index, sub, data });
            &&& !e ==> step == (SdoStep::Refuse { index, sub, code: AbortCode::UnsupportedAccess })
            &&& e && !s ==> step == (SdoStep::Refuse {
                index,
                sub,
                code: AbortCode::DataTypeMismatch,
            })
            &&& e && s && n > 3 ==> step == (SdoStep::Refuse {
                index,
                sub,
                code: AbortCode::DataTypeMismatchLengthLow,
            })
            &&& e && s && n <= 3 ==> (step matches SdoStep::Write { index: i, sub: k, data: d, len }
                && i == index && k == sub && d == data && len + n == 4)
        }),
        step_for(SdoRequest::Other) == (SdoStep::Refuse {
            index: 0,
            sub: 0,
            code: AbortCode::UnsupportedAccess,
        }),
{
}

/// Every answer names its object behind its first byte; an acknowledgement is empty behind the name,
/// and a refusal gives its reason there, the low byte first.
pub proof fn an_answer_is_laid_out(index: u16, sub: u8, code: u32, value: Seq<u8>)
    requires
        value.len() <= 4,
    ensures
        ({
            let answer = download_answer(index, sub);
            &&& answer.len() == 8 && answer[0] == 0x60
            &&& answer[1] + 256 * answer[2] == index && answer[3] == sub
            &&& answer[4] == 0 && answer[5] == 0 && answer[6] == 0 && answer[7] == 0
        }),
        ({
            let answer = abort_answer(index, sub, code);
            &&& answer.len() == 8 && answer[0] == 0x80
            &&& answer[1] + 256 * answer[2] == index && answer[3] == sub
            &&& answer[4] + 256 * answer[5] + 65536 * answer[6] + 16777216 * answer[7] == code
        }),
        ({
            let answer = upload_answer(index, sub, value);
            &&& answer.len() == 8
            &&& value.len() == 0 ==> answer[0] == 0x42
            &&& value.len() == 1 ==> answer[0] == 0x4f
            &&& value.len() == 2 ==> answer[0] == 0x4b
            &&& value.len() == 3 ==> answer[0] == 0x47
            &&& value.len() == 4 ==> answer[0] == 0x43
            &&& answer[1] + 256 * answer[2] == index && answer[3] == sub
            &&& forall|i: int| 0 <= i < value.len() ==> answer[4 + i] == #[trigger] value[i]
            &&& forall|i: int| 4 + value.len() <= i < 8 ==> #[trigger] answer[i] == 0
        }),
{
}

/// No two reasons share a number.
pub proof fn each_reason_has_its_own_number(a: AbortCode, b: AbortCode)
    requires
        a.number() == b.number(),
    ensures
        a == b,
{
}

/// The numbers of the reasons that this server gives of itself, and of those that an object server
/// gives for an object that is not there, is only read or does not take the value.
pub proof fn the_reasons_have_their_numbers()
    ensures
        AbortCode::UnsupportedAccess.number() == 0x0601_0000,
        AbortCode::WriteOnly.number() == 0x0601_0001,
        AbortCode::ReadOnly.number() == 0x0601_0002,
        AbortCode::NoSuchObject.number() == 0x0602_0000,
        AbortCode::DataTypeMismatch.number() == 0x0607_0010,
        AbortCode::DataTypeMismatchLengthHigh.number() == 0x0607_0012,
        AbortCode::DataTypeMismatchLengthLow.number() == 0x0607_0013,
        AbortCode::NoSuchSubIndex.number() == 0x0609_0011,
        AbortCode::InvalidValue.number() == 0x0609_0030,
        AbortCode::ValueTooHigh.number() == 0x0609_0031,
        AbortCode::ValueTooLow.number() == 0x0609_0032,
{
}

/// The two servers and the heartbeats have ranges of their own: a node's heartbeat, requests to it and
/// answers from it are never mistaken for one another, nor for those of another node.
pub proof fn identifiers_of_nodes_are_told_apart(a: u8, b: u8)
    requires
        a < 16,
        b < 16,
    ensures
        SDO_RESPONSE_BASE == 0x580 && SDO_REQUEST_BASE == 0x600 && HEARTBEAT_BASE == 0x700,
        SDO_RESPONSE_BASE + a != SDO_REQUEST_BASE + b,
        SDO_REQUEST_BASE + a != HEARTBEAT_BASE + b,
        SDO_RESPONSE_BASE + a != HEARTBEAT_BASE + b,
        a != b ==> SDO_REQUEST_BASE + a != SDO_REQUEST_BASE + b && SDO_RESPONSE_BASE + a
            != SDO_RESPONSE_BASE + b && HEARTBEAT_BASE + a != HEARTBEAT_BASE + b,
{
}

/// The master is heard by its own heartbeat, 0x700 and its node id, and by no one else's; a request
/// is one to this node, 0x600 and its id. A frame that is neither, or that is no request, is ignored.
pub proof fn a_frame_means_what_its_identifier_says(
    node_id: u8,
    master_node_id: u8,
    cob_id: u16,
    bytes: Seq<u8>,
    event: SdoEvent,
)
    requires
        means(node_id, master_node_id, cob_id, bytes, event),
    ensures
        event is MasterHeartbeat <==> cob_id == 0x700 + master_node_id,
        event is Request ==> cob_id == 0x600 + node_id && bytes.len() >= 8,
        cob_id == 0x600 + node_id && cob_id != 0x700 + master_node_id && bytes.len() >= 8 && bytes[0]
            < 0xe0 ==> event is Request,
        event matches SdoEvent::Request(SdoRequest::InitiateUpload { index, sub }) ==> index
            == bytes[1] + 256 * bytes[2] && sub == bytes[3] && 0x40 <= bytes[0] < 0x60,
        event matches SdoEvent::Request(SdoRequest::InitiateDownload { .. }) ==> 0x20 <= bytes[0]
            < 0x40,
{
}

/// A node with a period sends its own heartbeat, 0x700 and its id with the one byte that says it is
/// running, and waits for the period; one without looks again in a second.
pub proof fn a_node_beats_by_its_period(node_id: u8, period_ms: u16)
    ensures
        beat_of(node_id, 0) == (None::<(int, Seq<u8>)>, 1000int),
        period_ms > 0 ==> beat_of(node_id, period_ms).1 == period_ms,
        period_ms > 0 ==> (beat_of(node_id, period_ms).0 matches Some((cob_id, bytes)) && cob_id
            == 0x700 + node_id && bytes == seq![5u8]),
{
}

/// A write that was taken wakes the control task for a commanded valve, a written output or a changed
/// configuration, and the persistence task for a commit or a reset; one that was refused wakes nobody.
pub proof fn a_write_wakes_who_has_to_act(pending: Pending, valve: ValveId)
    ensures
        pending.valves.at(valve) ==> woken(true, pending).control,
        pending.outputs || pending.config ==> woken(true, pending).control,
        pending.is_clear() ==> !woken(true, pending).control && !woken(true, pending).persistence,
        pending.save || pending.restore <==> woken(true, pending).persistence,
        !woken(false, pending).control && !woken(false, pending).persistence,
{
    crate::store::a_command_or_a_write_wakes_control(pending, valve);
}

} // verus!
