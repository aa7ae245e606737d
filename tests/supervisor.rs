use scl3300_tiltsensor::angle::AngleSample;
use scl3300_tiltsensor::checksum::stamp;
use scl3300_tiltsensor::command::Command;
use scl3300_tiltsensor::supervisor::{
    check_identity, read_angle_response, Action, Event, HandshakeStep, Phase, SensorError,
    SensorState, Supervisor,
};

fn ready_frame() -> [u8; 4] {
    stamp(0x41, 0x00, 0x00)
}

fn unready_frame() -> [u8; 4] {
    stamp(0x40, 0x00, 0x00)
}

/// The outcome that a device answering every transaction with `frame` gives.
fn outcome(action: &Action, frame: [u8; 4]) -> Event {
    match action {
        Action::Transact { .. } => Event::Received(frame),
        _ => Event::Done,
    }
}

#[test]
fn handshake_issues_the_commands_in_order() {
    let mut sup = Supervisor::new();
    assert_eq!(sup.state, SensorState::Uninitialized);
    let expected = [
        Action::Write { command: Command::WakeUp, wait_ms: 15 },
        Action::Transact { command: Command::SwitchBank0, wait_ms: 1 },
        Action::Transact { command: Command::SoftwareReset, wait_ms: 1 },
        Action::Transact { command: Command::SetMode1, wait_ms: 0 },
        Action::Transact { command: Command::EnableAngles, wait_ms: 25 },
        Action::Transact { command: Command::ReadStatus, wait_ms: 0 },
        Action::Transact { command: Command::ReadIdentity, wait_ms: 0 },
        Action::Transact { command: Command::ReadIdentity, wait_ms: 0 },
    ];
    for want in expected {
        let got = sup.next_action();
        assert_eq!(got, want);
        assert_eq!(sup.advance(outcome(&got, ready_frame())), None);
    }
    assert_eq!(sup.state, SensorState::Streaming { phase: Phase::PrimeX, x: 0, y: 0, z: 0 });
    assert_eq!(sup.next_action(), Action::Write { command: Command::ReadAngleX, wait_ms: 20 });
}

#[test]
fn ready_device_streams_after_injected_failures() {
    for failures in 0..5 {
        let mut sup = Supervisor::new();
        let mut left = failures;
        let mut steps = 0;
        while !matches!(sup.state, SensorState::Streaming { .. }) {
            let action = sup.next_action();
            let event = match action {
                Action::Transact { .. } | Action::Write { .. } if left > 0 => {
                    left -= 1;
                    Event::Failed
                }
                _ => outcome(&action, ready_frame()),
            };
            sup.advance(event);
            steps += 1;
            assert!(steps <= 10 * (failures + 1), "no streaming after {} steps", steps);
        }
    }
}

#[test]
fn unready_device_keeps_retrying() {
    let mut sup = Supervisor::new();
    let mut backoffs = 0;
    for _ in 0..200 {
        let action = sup.next_action();
        if let Action::Backoff { wait_ms } = action {
            assert_eq!(wait_ms, 2000);
            backoffs += 1;
        }
        let fault = sup.advance(outcome(&action, unready_frame()));
        assert!(!matches!(sup.state, SensorState::Streaming { .. }));
        if let Some(e) = fault {
            assert_eq!(e, SensorError::Protocol);
        }
    }
    assert!(backoffs >= 20);
}

fn streaming_supervisor() -> Supervisor {
    let mut sup = Supervisor::new();
    while !matches!(sup.state, SensorState::Streaming { .. }) {
        let action = sup.next_action();
        sup.advance(outcome(&action, ready_frame()));
    }
    sup
}

#[test]
fn full_cycle_publishes_the_three_angles() {
    let mut sup = streaming_supervisor();
    let answers = [stamp(0x25, 0x00, 0x20), stamp(0x29, 0x00, 0x00), stamp(0x2D, 0xFF, 0xFF)];
    let mut published = Vec::new();
    let mut reads = 0;
    while published.is_empty() {
        let action = sup.next_action();
        let event = match action {
            Action::Transact { .. } => {
                reads += 1;
                Event::Received(answers[reads - 1])
            }
            Action::Publish { sample, wait_ms } => {
                assert_eq!(wait_ms, 100);
                published.push(sample);
                Event::Done
            }
            _ => Event::Done,
        };
        assert_eq!(sup.advance(event), None);
    }
    assert_eq!(published, vec![AngleSample::new(4500, 0, -1)]);
    assert_eq!(sup.next_action(), Action::Write { command: Command::ReadAngleX, wait_ms: 20 });
}

#[test]
fn y_checksum_failure_restarts_without_publishing() {
    let mut sup = streaming_supervisor();
    let mut bad = stamp(0x29, 0x10, 0x00);
    bad[3] ^= 0x01;
    let answers = [stamp(0x25, 0x00, 0x20), bad];
    let mut reads = 0;
    let mut fault = None;
    while fault.is_none() {
        let action = sup.next_action();
        assert!(!matches!(action, Action::Publish { .. }));
        let event = match action {
            Action::Transact { .. } => {
                reads += 1;
                Event::Received(answers[reads - 1])
            }
            _ => Event::Done,
        };
        fault = sup.advance(event);
    }
    assert_eq!(reads, 2);
    assert_eq!(fault, Some(SensorError::Checksum(Command::ReadAngleY)));
    assert_eq!(sup.state, SensorState::Faulted);
    assert_eq!(sup.next_action(), Action::Write { command: Command::WakeUp, wait_ms: 15 });
}

#[test]
fn transport_failure_while_streaming_faults() {
    let mut sup = streaming_supervisor();
    assert_eq!(sup.advance(Event::Failed), Some(SensorError::Transport(Command::ReadAngleX)));
    assert_eq!(sup.state, SensorState::Faulted);
}

#[test]
fn transport_failure_in_handshake_backs_off() {
    let mut sup = Supervisor::new();
    sup.advance(Event::Done);
    assert_eq!(sup.state, SensorState::Starting(HandshakeStep::SwitchBank));
    assert_eq!(sup.advance(Event::Failed), Some(SensorError::Transport(Command::SwitchBank0)));
    assert_eq!(sup.state, SensorState::Retrying);
    assert_eq!(sup.next_action(), Action::Backoff { wait_ms: 2000 });
    assert_eq!(sup.advance(Event::Done), None);
    assert_eq!(sup.state, SensorState::Starting(HandshakeStep::Wake));
    assert_eq!(sup.next_action(), Action::Write { command: Command::WakeUp, wait_ms: 15 });
}

#[test]
fn intermediate_checksum_failure_is_not_fatal() {
    let mut sup = Supervisor::new();
    sup.advance(Event::Done);
    let fault = sup.advance(Event::Received([0x00, 0x00, 0x00, 0x00]));
    assert_eq!(fault, Some(SensorError::Checksum(Command::SwitchBank0)));
    assert_eq!(sup.state, SensorState::Starting(HandshakeStep::Reset));
}

#[test]
fn corrupt_identity_fails_the_handshake() {
    let mut sup = Supervisor::new();
    sup.state = SensorState::Starting(HandshakeStep::ReadIdentity);
    let mut f = ready_frame();
    f[3] ^= 0x80;
    assert_eq!(sup.advance(Event::Received(f)), Some(SensorError::Protocol));
    assert_eq!(sup.state, SensorState::Retrying);
}

#[test]
fn identity_check() {
    assert_eq!(check_identity(&ready_frame()), Ok(()));
    assert_eq!(check_identity(&unready_frame()), Err(SensorError::Protocol));
    assert_eq!(check_identity(&Command::ReadIdentity.bytes()), Err(SensorError::Protocol));
    assert_eq!(check_identity(&[0x41, 0x00, 0x00, 0x00]), Err(SensorError::Protocol));
}

#[test]
fn angle_response_check() {
    assert_eq!(read_angle_response(Command::ReadAngleZ, &stamp(0x2D, 0x00, 0x40)), Ok(9000));
    assert_eq!(
        read_angle_response(Command::ReadAngleZ, &[0x2D, 0x00, 0x40, 0x00]),
        Err(SensorError::Checksum(Command::ReadAngleZ))
    );
}
