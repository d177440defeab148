use pipe_relay::codec::TransformMatrix;
use pipe_relay::inbound::{
    Disconnect, ReceiveAction, ReceiveEvent, ReceiveState, TransformReceiver, BACKOFF_MILLIS,
};

fn connected() -> TransformReceiver {
    let mut receiver = TransformReceiver::new();
    assert_eq!(receiver.start(), ReceiveAction::Connect);
    assert_eq!(receiver.step(ReceiveEvent::Connected), ReceiveAction::Read);
    assert_eq!(receiver.state(), ReceiveState::Connected);
    receiver
}

#[test]
fn new_receiver_starts_by_connecting() {
    let mut receiver = TransformReceiver::new();
    assert_eq!(receiver.state(), ReceiveState::Disconnected);
    assert_eq!(receiver.start(), ReceiveAction::Connect);
    assert_eq!(receiver.state(), ReceiveState::Connecting);
    assert_eq!(receiver.start(), ReceiveAction::Connect);
    assert_eq!(receiver.state(), ReceiveState::Connecting);
}

#[test]
fn start_on_a_connected_receiver_asks_for_a_read() {
    let mut receiver = connected();
    assert_eq!(receiver.start(), ReceiveAction::Read);
    assert_eq!(receiver.state(), ReceiveState::Connected);
}

#[test]
fn failed_connect_backs_off_one_second_every_time() {
    let mut receiver = TransformReceiver::new();
    receiver.start();
    for _ in 0..100 {
        assert_eq!(receiver.step(ReceiveEvent::ConnectFailed), ReceiveAction::Backoff(1000));
        assert_eq!(receiver.state(), ReceiveState::Connecting);
    }
    assert_eq!(BACKOFF_MILLIS, 1000);
    assert_eq!(receiver.step(ReceiveEvent::Connected), ReceiveAction::Read);
    assert_eq!(receiver.state(), ReceiveState::Connected);
}

#[test]
fn full_record_is_published_and_reading_goes_on() {
    let mut receiver = connected();
    let mut record = vec![0u8; 64];
    record[4..8].copy_from_slice(&[0x00, 0x00, 0x80, 0x3F]);
    let mut bits = vec![0u32; 16];
    bits[1] = 1.0f32.to_bits();
    let expected = TransformMatrix::from_bits(bits).expect("16 elements");
    for _ in 0..3 {
        assert_eq!(
            receiver.step(ReceiveEvent::Record(record.clone())),
            ReceiveAction::Publish(expected.clone())
        );
        assert_eq!(receiver.state(), ReceiveState::Connected);
    }
}

#[test]
fn short_read_publishes_nothing_and_reconnects_once() {
    let mut receiver = connected();
    let mut published = 0;
    let mut reconnects = 0;
    match receiver.step(ReceiveEvent::Record(vec![0x11; 40])) {
        ReceiveAction::Publish(_) => published += 1,
        ReceiveAction::Reconnect(why) => {
            assert_eq!(why, Disconnect::ShortRead);
            reconnects += 1;
        }
        other => panic!("not expected: {:?}", other),
    }
    assert_eq!(published, 0);
    assert_eq!(reconnects, 1);
    assert_eq!(receiver.state(), ReceiveState::Connecting);
    assert_eq!(receiver.step(ReceiveEvent::Connected), ReceiveAction::Read);
}

#[test]
fn overlong_record_is_a_protocol_violation() {
    let mut receiver = connected();
    assert_eq!(
        receiver.step(ReceiveEvent::Record(vec![0; 65])),
        ReceiveAction::Reconnect(Disconnect::ShortRead)
    );
    let mut receiver = connected();
    assert_eq!(
        receiver.step(ReceiveEvent::Record(vec![])),
        ReceiveAction::Reconnect(Disconnect::ShortRead)
    );
}

#[test]
fn closed_stream_reconnects() {
    let mut receiver = connected();
    assert_eq!(
        receiver.step(ReceiveEvent::StreamClosed),
        ReceiveAction::Reconnect(Disconnect::StreamClosed)
    );
    assert_eq!(receiver.state(), ReceiveState::Connecting);
}

#[test]
fn read_error_reconnects() {
    let mut receiver = connected();
    assert_eq!(
        receiver.step(ReceiveEvent::ReadFailed),
        ReceiveAction::Reconnect(Disconnect::ReadError)
    );
    assert_eq!(receiver.state(), ReceiveState::Connecting);
}

#[test]
fn events_that_do_not_fit_the_state_change_nothing() {
    let mut receiver = TransformReceiver::new();
    assert_eq!(receiver.step(ReceiveEvent::Record(vec![0; 64])), ReceiveAction::Connect);
    assert_eq!(receiver.state(), ReceiveState::Disconnected);
    assert_eq!(receiver.step(ReceiveEvent::StreamClosed), ReceiveAction::Connect);
    assert_eq!(receiver.step(ReceiveEvent::ReadFailed), ReceiveAction::Connect);
    assert_eq!(receiver.state(), ReceiveState::Disconnected);
    let mut receiver = connected();
    assert_eq!(receiver.step(ReceiveEvent::Connected), ReceiveAction::Read);
    assert_eq!(receiver.step(ReceiveEvent::ConnectFailed), ReceiveAction::Read);
    assert_eq!(receiver.state(), ReceiveState::Connected);
}

#[test]
fn connect_outcome_is_taken_without_start() {
    let mut receiver = TransformReceiver::new();
    assert_eq!(receiver.step(ReceiveEvent::ConnectFailed), ReceiveAction::Backoff(1000));
    assert_eq!(receiver.state(), ReceiveState::Connecting);
    let mut receiver = TransformReceiver::new();
    assert_eq!(receiver.step(ReceiveEvent::Connected), ReceiveAction::Read);
    assert_eq!(receiver.state(), ReceiveState::Connected);
}
