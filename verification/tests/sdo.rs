use io_board::can::canopen::{from_message, MessageId};
use io_board::can::sdo::{heartbeat_step, AbortCode, HeartbeatStep, SdoEvent, SdoRequest, SdoServer, SdoStep, Wakes};
use io_board::can::{next_frame, FrameBody, Received};
use io_board::errors::{count, Counters, ErrorCounter};
use io_board::store::Pending;
use zencan_common::sdo::AbortCode as Outside;

fn body(bytes: &[u8]) -> FrameBody {
    FrameBody::from_slice(bytes).unwrap()
}

fn request(server: &SdoServer, bytes: [u8; 8]) -> Option<SdoRequest> {
    match server.receive(1, 0x606, &body(&bytes)) {
        SdoEvent::Request(request) => Some(request),
        _ => None,
    }
}

#[test]
fn frames_are_sorted_by_their_identifier() {
    let server = SdoServer::new(6);
    let read = [0x40, 0x10, 0x20, 2, 0, 0, 0, 0];
    assert!(matches!(server.receive(1, 0x701, &body(&[5])), SdoEvent::MasterHeartbeat));
    assert!(matches!(server.receive(1, 0x702, &body(&[5])), SdoEvent::Ignored));
    assert!(matches!(server.receive(1, 0x607, &body(&read)), SdoEvent::Ignored));
    assert!(matches!(server.receive(1, 0x606, &body(&read[..7])), SdoEvent::Ignored));
    assert!(matches!(server.receive(1, 0x606, &body(&[])), SdoEvent::Ignored));
    assert_eq!(request(&server, read), Some(SdoRequest::InitiateUpload { index: 0x2010, sub: 2 }));
    assert_eq!(request(&server, [0xE0, 0, 0, 0, 0, 0, 0, 0]), None, "no such command");
}

#[test]
fn a_sized_expedited_write_reaches_the_dictionary() {
    let server = SdoServer::new(6);
    let write = request(&server, [0x2B, 0x10, 0x20, 1, 0xE8, 0x03, 0, 0]).unwrap();
    assert_eq!(
        write,
        SdoRequest::InitiateDownload { n: 2, e: true, s: true, index: 0x2010, sub: 1, data: [0xE8, 0x03, 0, 0] }
    );
    assert_eq!(
        server.handle(write),
        SdoStep::Write { index: 0x2010, sub: 1, data: [0xE8, 0x03, 0, 0], len: 2 }
    );
}

#[test]
fn every_other_write_is_refused_with_its_own_reason() {
    let server = SdoServer::new(6);
    let refuse = |bytes: [u8; 8]| server.handle(request(&server, bytes).unwrap());
    let at = |code| SdoStep::Refuse { index: 0x2010, sub: 1, code };
    assert_eq!(refuse([0x21, 0x10, 0x20, 1, 9, 0, 0, 0]), at(AbortCode::UnsupportedAccess), "segmented");
    assert_eq!(refuse([0x22, 0x10, 0x20, 1, 9, 0, 0, 0]), at(AbortCode::DataTypeMismatch), "no size");
    let odd = SdoRequest::InitiateDownload { n: 4, e: true, s: true, index: 0x2010, sub: 1, data: [0; 4] };
    assert_eq!(server.handle(odd), at(AbortCode::DataTypeMismatchLengthLow));
    for command in [0x00, 0x60, 0x80, 0xA0, 0xA1, 0xA2, 0xA3, 0xC0, 0xC1] {
        assert_eq!(
            refuse([command, 0x10, 0x20, 1, 0, 0, 0, 0]),
            SdoStep::Refuse { index: 0, sub: 0, code: AbortCode::UnsupportedAccess }
        );
    }
}

#[test]
fn answers_have_their_layout() {
    let server = SdoServer::new(6);
    let (id, body) = server.uploaded(0x2010, 2, Ok(&[0xE8, 0x03])).unwrap();
    assert_eq!(id, 0x586);
    assert_eq!(body.as_slice(), [0x4B, 0x10, 0x20, 2, 0xE8, 0x03, 0, 0]);
    let (_, body) = server.uploaded(0x1000, 0, Ok(&[1, 2, 3, 4])).unwrap();
    assert_eq!(body.as_slice(), [0x43, 0x00, 0x10, 0, 1, 2, 3, 4]);
    let (_, body) = server.uploaded(0x1000, 0, Ok(&[])).unwrap();
    assert_eq!(body.as_slice(), [0x42, 0x00, 0x10, 0, 0, 0, 0, 0]);
    let (_, body) = server.uploaded(0x1000, 3, Err(AbortCode::NoSuchSubIndex)).unwrap();
    assert_eq!(body.as_slice(), [0x80, 0x00, 0x10, 3, 0x11, 0x00, 0x09, 0x06]);
    let (id, body) = server.refused(0, 0, AbortCode::UnsupportedAccess).unwrap();
    assert_eq!(id, 0x586);
    assert_eq!(body.as_slice(), [0x80, 0, 0, 0, 0x00, 0x00, 0x01, 0x06]);
}

#[test]
fn an_accepted_write_wakes_whoever_it_concerns() {
    let server = SdoServer::new(6);
    let mut pending = Pending::default();
    let (frame, wakes) = server.downloaded(0x2010, 1, Ok(()), &pending);
    assert_eq!(frame.unwrap().1.as_slice(), [0x60, 0x10, 0x20, 1, 0, 0, 0, 0]);
    assert_eq!(wakes, Wakes { control: false, persistence: false });

    pending.config = true;
    pending.save = true;
    let (_, wakes) = server.downloaded(0x3000, 1, Ok(()), &pending);
    assert_eq!(wakes, Wakes { control: true, persistence: true });
    let (frame, wakes) = server.downloaded(0x3000, 1, Err(AbortCode::ValueTooHigh), &pending);
    assert_eq!(frame.unwrap().1.as_slice()[0], 0x80);
    assert_eq!(wakes, Wakes { control: false, persistence: false });
}

#[test]
fn abort_codes_are_the_ones_of_the_framing() {
    assert_eq!(AbortCode::ToggleNotAlternated.code(), Outside::ToggleNotAlternated as u32);
    assert_eq!(AbortCode::ReadOnly.code(), Outside::ReadOnly as u32);
    assert_eq!(AbortCode::ResourceNotAvailable.code(), Outside::ResourceNotAvailable as u32);
    assert_eq!(AbortCode::NoData.code(), Outside::NoData as u32);
}

#[test]
fn a_heartbeat_is_sent_at_its_period_or_not_at_all() {
    match heartbeat_step(6, 1000) {
        HeartbeatStep::Send { frame, then_wait_ms } => {
            assert_eq!(frame.0, 0x706);
            assert_eq!(frame.1.as_slice(), [0x05]);
            assert_eq!(then_wait_ms, 1000);
        }
        HeartbeatStep::Wait { .. } => panic!("a period of one second is not disabled"),
    }
    assert!(matches!(heartbeat_step(6, 0), HeartbeatStep::Wait { wait_ms: 1000 }));
}

#[test]
fn a_body_holds_at_most_eight_bytes() {
    assert_eq!(body(&[1, 2, 3]).as_slice(), [1, 2, 3]);
    assert!(FrameBody::from_slice(&[0; 8]).is_some());
    assert!(FrameBody::from_slice(&[0; 9]).is_none());
}

#[test]
fn only_standard_messages_become_frames() {
    let (id, body) = from_message(MessageId::Std(0x123), &[1, 2]).unwrap();
    assert_eq!((id, body.as_slice()), (0x123, &[1u8, 2][..]));
    assert!(from_message(MessageId::Extended(0x123), &[1, 2]).is_none());
    assert!(from_message(MessageId::Std(0x123), &[0; 9]).is_none());
}

#[test]
fn dropped_frames_are_counted_against_their_direction() {
    let mut counters = Counters::new();
    let got = next_frame(&mut counters, ErrorCounter::CanRxDropped, Received::Message((0x123, body(&[7]))));
    assert_eq!(got.unwrap().0, 0x123);
    assert!(next_frame(&mut counters, ErrorCounter::CanRxDropped, Received::Lagged(3)).is_none());
    assert_eq!(count(&counters, ErrorCounter::CanRxDropped), 3);
    assert!(next_frame(&mut counters, ErrorCounter::CanRxOverrun, Received::Lagged(u64::MAX)).is_none());
    assert_eq!(count(&counters, ErrorCounter::CanRxOverrun), u32::MAX);
}
