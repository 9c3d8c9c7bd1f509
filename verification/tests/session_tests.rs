use netdump_client::codec::{encode_frame, encode_header, push_u32_be, push_u64_be, FRAME_LEN};
use netdump_client::discinfo::{DiscTypes, DISC_INFO_LEN};
use netdump_client::protocol::{Command, Revision, Status};
use netdump_client::session::{
    Action, Operation, Outcome, Session, StreamPlan, TeardownAck, BCA_LEN, GAME_LENGTH_LEN,
};
use netdump_client::stream::{SingleReceiver, StreamFailure};

fn response_frame(rev: Revision, code: u32) -> Vec<u8> {
    let mut v = encode_header(rev);
    push_u32_be(&mut v, code);
    v
}

fn expect_send(s: &Session) -> Vec<u8> {
    match s.next_action() {
        Action::SendBytes(b) => b,
        other => panic!("expected a send, got {other:?}"),
    }
}

fn expect_read(s: &Session) -> usize {
    match s.next_action() {
        Action::ReadBytes(n) => n,
        other => panic!("expected a read, got {other:?}"),
    }
}

fn expect_finish(s: &Session) -> (Outcome, TeardownAck) {
    match s.next_action() {
        Action::Finish(o, t) => (o, t),
        other => panic!("expected the end of the session, got {other:?}"),
    }
}

fn info_payload(disc_type: u8, game_name: &[u8], internal_name: &[u8]) -> Vec<u8> {
    let mut p = vec![disc_type];
    p.extend_from_slice(game_name);
    p.resize(33, 0);
    p.extend_from_slice(internal_name);
    p.resize(DISC_INFO_LEN, 0);
    p
}

#[test]
fn eject_ok_then_clean_disconnect() {
    let rev = Revision::V1;
    let mut s = Session::new(rev, Operation::EjectDisc);

    let sent = expect_send(&s);
    assert_eq!(sent, encode_frame(rev, Command::EjectDisc));
    s.confirm_send();

    assert_eq!(expect_read(&s), FRAME_LEN);
    s.provide_response(&response_frame(rev, 0)); // OK

    let disconnect = expect_send(&s);
    assert_eq!(disconnect, encode_frame(rev, Command::Disconnect));
    s.confirm_send();

    assert_eq!(expect_read(&s), FRAME_LEN);
    s.provide_teardown_ack(&response_frame(rev, 0)); // OK

    let (outcome, ack) = expect_finish(&s);
    assert!(outcome.is_success());
    assert_eq!(ack, TeardownAck::Clean);
}

#[test]
fn get_disc_info_with_no_disc_still_disconnects_and_fails() {
    let rev = Revision::V1;
    let mut s = Session::new(rev, Operation::GetDiscInfo);

    assert_eq!(expect_send(&s), encode_frame(rev, Command::GetDiscInfo));
    s.confirm_send();

    assert_eq!(expect_read(&s), FRAME_LEN);
    s.provide_response(&response_frame(rev, 0xFFFF_FFFE)); // NoDisc

    // no payload is read; the disconnect is still owed
    assert_eq!(expect_send(&s), encode_frame(rev, Command::Disconnect));
    s.confirm_send();
    s.provide_teardown_ack(&response_frame(rev, 0));

    let (outcome, ack) = expect_finish(&s);
    assert_eq!(outcome, Outcome::NoDisc);
    assert!(!outcome.is_success());
    assert_eq!(ack, TeardownAck::Clean);
}

#[test]
fn disc_info_payload_is_decoded_and_kept() {
    let rev = Revision::V1;
    let mut s = Session::new(rev, Operation::GetDiscInfo);
    s.confirm_send();
    s.provide_response(&response_frame(rev, 1)); // DiscInfo follows

    assert_eq!(expect_read(&s), DISC_INFO_LEN);
    s.provide_disc_info(&info_payload(0, b"MARIO", b"mario kart wii"));

    s.confirm_send();
    s.provide_teardown_ack(&response_frame(rev, 0));
    let (outcome, _) = expect_finish(&s);
    assert!(outcome.is_success());

    let info = s.info.as_ref().unwrap();
    assert_eq!(info.disc_type, DiscTypes::GC);
    assert_eq!(info.game_name, "MARIO");
    assert_eq!(info.internal_name, "mario kart wii");
}

#[test]
fn malformed_disc_info_payload_is_discarded() {
    let rev = Revision::V1;
    let mut s = Session::new(rev, Operation::GetDiscInfo);
    s.confirm_send();
    s.provide_response(&response_frame(rev, 1));
    s.provide_disc_info(&info_payload(7, b"MARIO", b"x"));
    s.confirm_send();
    s.provide_teardown_ack(&response_frame(rev, 0));
    let (outcome, _) = expect_finish(&s);
    assert_eq!(outcome, Outcome::DecodeFailure);
    assert!(s.info.is_none());
}

#[test]
fn bca_payload_is_handed_to_the_sink_unchanged() {
    let rev = Revision::V1;
    let mut s = Session::new(rev, Operation::DumpBca);
    assert_eq!(expect_send(&s), encode_frame(rev, Command::DumpBca));
    s.confirm_send();
    s.provide_response(&response_frame(rev, 2)); // BCA follows

    assert_eq!(expect_read(&s), BCA_LEN);
    let payload = vec![0x5A_u8; BCA_LEN];
    let sink = s.provide_bca(payload.clone());
    assert_eq!(sink, payload);

    s.confirm_send();
    s.provide_teardown_ack(&response_frame(rev, 0));
    assert!(expect_finish(&s).0.is_success());
}

#[test]
fn game_dump_streams_the_declared_total_then_disconnects() {
    let rev = Revision::V1;
    let mut s = Session::new(rev, Operation::DumpGame);
    assert_eq!(expect_send(&s), encode_frame(rev, Command::DumpGame));
    s.confirm_send();
    s.provide_response(&response_frame(rev, 3)); // Game follows

    assert_eq!(expect_read(&s), GAME_LENGTH_LEN);
    let mut length = Vec::new();
    push_u64_be(&mut length, 5);
    s.provide_game_length(&length);

    let plan = match s.next_action() {
        Action::StreamPayload(p) => p,
        other => panic!("expected streaming, got {other:?}"),
    };
    assert_eq!(plan, StreamPlan::Single(5));

    let mut rx = SingleReceiver::new(5);
    let mut sink: Vec<u8> = Vec::new();
    while !rx.done() {
        let k = rx.next_read_len();
        let block = vec![9u8; k];
        sink.extend_from_slice(&block);
        rx.accept(&block);
    }
    assert_eq!(sink.len(), 5);
    s.finish_streaming(None);

    assert_eq!(expect_send(&s), encode_frame(rev, Command::Disconnect));
    s.confirm_send();
    s.provide_teardown_ack(&response_frame(rev, 0));
    assert!(expect_finish(&s).0.is_success());
}

#[test]
fn earlier_revision_streams_the_game_in_chunks() {
    let rev = Revision::V0;
    let mut s = Session::new(rev, Operation::DumpGame);
    s.confirm_send();
    s.provide_response(&response_frame(rev, 3));
    match s.next_action() {
        Action::StreamPayload(p) => assert_eq!(p, StreamPlan::Chunked),
        other => panic!("expected streaming, got {other:?}"),
    }
    s.finish_streaming(Some(StreamFailure::MalformedChunk));
    s.confirm_send();
    s.provide_teardown_ack(&response_frame(rev, 0));
    let (outcome, _) = expect_finish(&s);
    assert_eq!(outcome, Outcome::DecodeFailure);
}

#[test]
fn framing_mismatch_aborts_at_once_without_disconnect() {
    let rev = Revision::V1;
    let mut s = Session::new(rev, Operation::EjectDisc);
    s.confirm_send();
    let mut bad = response_frame(rev, 0);
    bad[6] = b'Q';
    s.provide_response(&bad);
    let (outcome, ack) = expect_finish(&s);
    assert_eq!(outcome, Outcome::FramingFailure);
    assert_eq!(ack, TeardownAck::NotAttempted);
}

#[test]
fn framing_mismatch_mid_stream_aborts_at_once() {
    let rev = Revision::V0;
    let mut s = Session::new(rev, Operation::DumpGame);
    s.confirm_send();
    s.provide_response(&response_frame(rev, 3));
    s.finish_streaming(Some(StreamFailure::Framing));
    let (outcome, ack) = expect_finish(&s);
    assert_eq!(outcome, Outcome::FramingFailure);
    assert_eq!(ack, TeardownAck::NotAttempted);
}

#[test]
fn unexpected_status_reads_no_payload_and_disconnects() {
    let rev = Revision::V1;
    let mut s = Session::new(rev, Operation::GetDiscInfo);
    s.confirm_send();
    // BCA is a valid status for another command, not for this one
    s.provide_response(&response_frame(rev, 2));
    assert_eq!(expect_send(&s), encode_frame(rev, Command::Disconnect));
    s.confirm_send();
    s.provide_teardown_ack(&response_frame(rev, 0));
    let (outcome, _) = expect_finish(&s);
    assert_eq!(outcome, Outcome::Unexpected(Status::Bca));
}

#[test]
fn unrecognized_status_code_is_reported_with_its_value() {
    let rev = Revision::V1;
    let mut s = Session::new(rev, Operation::EjectDisc);
    s.confirm_send();
    s.provide_response(&response_frame(rev, 0x77));
    s.confirm_send();
    s.provide_teardown_ack(&response_frame(rev, 0));
    let (outcome, _) = expect_finish(&s);
    assert_eq!(outcome, Outcome::Unexpected(Status::Unrecognized(0x77)));
}

#[test]
fn could_not_eject_is_reported() {
    let rev = Revision::V1;
    let mut s = Session::new(rev, Operation::EjectDisc);
    s.confirm_send();
    s.provide_response(&response_frame(rev, 0xFFFF_FFFD));
    s.confirm_send();
    s.provide_teardown_ack(&response_frame(rev, 0));
    assert_eq!(expect_finish(&s).0, Outcome::CouldNotEject);
}

#[test]
fn unknown_disc_type_is_reported() {
    let rev = Revision::V1;
    let mut s = Session::new(rev, Operation::DumpGame);
    s.confirm_send();
    s.provide_response(&response_frame(rev, 0xFFFF_FFFC));
    s.confirm_send();
    s.provide_teardown_ack(&response_frame(rev, 0));
    assert_eq!(expect_finish(&s).0, Outcome::UnknownDiscType);
}

#[test]
fn protocol_error_is_reported() {
    let rev = Revision::V1;
    let mut s = Session::new(rev, Operation::GetDiscInfo);
    s.confirm_send();
    s.provide_response(&response_frame(rev, 0xFFFF_FFFF));
    s.confirm_send();
    s.provide_teardown_ack(&response_frame(rev, 0));
    assert_eq!(expect_finish(&s).0, Outcome::ProtocolFailure);
}

#[test]
fn shutdown_is_not_followed_by_a_disconnect() {
    let rev = Revision::V1;
    let mut s = Session::new(rev, Operation::Shutdown);
    assert_eq!(expect_send(&s), encode_frame(rev, Command::Shutdown));
    s.confirm_send();
    s.provide_response(&response_frame(rev, 0));
    let (outcome, ack) = expect_finish(&s);
    assert!(outcome.is_success());
    assert_eq!(ack, TeardownAck::NotAttempted);
}

#[test]
fn exit_program_is_not_followed_by_a_disconnect() {
    let rev = Revision::V1;
    let mut s = Session::new(rev, Operation::ExitProgram);
    assert_eq!(expect_send(&s), encode_frame(rev, Command::ExitProgram));
    s.confirm_send();
    s.provide_response(&response_frame(rev, 0));
    let (outcome, ack) = expect_finish(&s);
    assert!(outcome.is_success());
    assert_eq!(ack, TeardownAck::NotAttempted);
}

#[test]
fn full_dump_is_rejected_as_unsupported() {
    let rev = Revision::V1;
    let mut s = Session::new(rev, Operation::Full);
    // nothing goes on the wire for the operation itself; only the disconnect
    assert_eq!(expect_send(&s), encode_frame(rev, Command::Disconnect));
    s.confirm_send();
    s.provide_teardown_ack(&response_frame(rev, 0));
    let (outcome, ack) = expect_finish(&s);
    assert_eq!(outcome, Outcome::NotSupported);
    assert_eq!(ack, TeardownAck::Clean);
}

#[test]
fn exit_program_is_unsupported_under_the_earlier_revision() {
    let rev = Revision::V0;
    let mut s = Session::new(rev, Operation::ExitProgram);
    assert_eq!(expect_send(&s), encode_frame(rev, Command::Disconnect));
    s.confirm_send();
    s.provide_teardown_ack(&response_frame(rev, 0));
    assert_eq!(expect_finish(&s).0, Outcome::NotSupported);
}

#[test]
fn odd_disconnect_ack_is_only_a_warning() {
    let rev = Revision::V1;
    let mut s = Session::new(rev, Operation::EjectDisc);
    s.confirm_send();
    s.provide_response(&response_frame(rev, 0));
    s.confirm_send();
    // the acknowledgement carries a protocol error instead of OK
    s.provide_teardown_ack(&response_frame(rev, 0xFFFF_FFFF));
    let (outcome, ack) = expect_finish(&s);
    assert!(outcome.is_success());
    assert_eq!(ack, TeardownAck::Odd);
}
