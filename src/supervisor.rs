//! The acquisition supervisor: the start-up handshake and the polling cycle as a
//! state machine. Each state names the next bus action; the outcome of that action
//! comes back as an event, which moves the machine on.

use crate::angle::{angle_centi, angle_conversion, payload_raw, AngleSample};
use crate::checksum::{frame_valid, validate};
use crate::command::Command;
use vstd::prelude::*;

verus! {

/// Milliseconds to wait after the wake-up write.
pub const WAKE_SETTLE_MS: u32 = 15;

/// Milliseconds to wait after the bank switch and after the software reset.
pub const RESET_SETTLE_MS: u32 = 1;

/// Milliseconds to wait after enabling the angle outputs, for the status to settle.
pub const ENABLE_SETTLE_MS: u32 = 25;

/// Milliseconds to wait after writing an angle request, before reading it back.
pub const PRIME_SETTLE_MS: u32 = 20;

/// Milliseconds between two polling cycles.
pub const POLL_INTERVAL_MS: u32 = 100;

/// Milliseconds to wait after a failed handshake before the next attempt.
pub const RETRY_BACKOFF_MS: u32 = 2000;

/// What went wrong, and on which command.
#[derive(Clone, Copy, Debug, PartialEq, Eq)]
pub enum SensorError {
    /// The bus write or read failed.
    Transport(Command),
    /// A response's checksum byte did not match.
    Checksum(Command),
    /// The identity response was corrupt or the device reported not ready.
    Protocol,
}

/// The steps of the start-up handshake, in order.
#[derive(Clone, Copy, Debug, PartialEq, Eq)]
pub enum HandshakeStep {
    Wake,
    SwitchBank,
    Reset,
    SetMode,
    EnableAngles,
    ReadStatus,
    RequestIdentity,
    ReadIdentity,
}

/// The phases of one polling cycle: each axis is requested, then read back; the
/// complete sample is then published.
#[derive(Clone, Copy, Debug, PartialEq, Eq)]
pub enum Phase {
    PrimeX,
    ReadX,
    PrimeY,
    ReadY,
    PrimeZ,
    ReadZ,
    Publish,
}

/// The lifecycle of the sensor.
#[derive(Clone, Copy, Debug, PartialEq, Eq)]
pub enum SensorState {
    /// Nothing has been sent yet.
    Uninitialized,
    /// The handshake is under way at the given step.
    Starting(HandshakeStep),
    /// The handshake succeeded; polling, with the angles read so far in this cycle.
    Streaming { phase: Phase, x: i32, y: i32, z: i32 },
    /// Polling failed; a fresh handshake comes next.
    Faulted,
    /// The handshake failed; the backoff wait comes next.
    Retrying,
}

/// A bus or channel action, with the milliseconds to wait once it is done.
#[derive(Clone, Copy, Debug, PartialEq, Eq)]
pub enum Action {
    /// Write the command; no response is read.
    Write { command: Command, wait_ms: u32 },
    /// Write the command and read the four bytes that answer the previous one.
    Transact { command: Command, wait_ms: u32 },
    /// Hand the sample to the consumer.
    Publish { sample: AngleSample, wait_ms: u32 },
    /// Only wait.
    Backoff { wait_ms: u32 },
}

/// The outcome of an action.
#[derive(Clone, Copy, Debug, PartialEq, Eq)]
pub enum Event {
    /// The action completed without data.
    Done,
    /// A transaction completed with these four bytes.
    Received([u8; 4]),
    /// The bus reported a failure.
    Failed,
}

/// The command issued at each step of the handshake.
pub open spec fn handshake_command(step: HandshakeStep) -> Command {
    match step {
        HandshakeStep::Wake => Command::WakeUp,
        HandshakeStep::SwitchBank => Command::SwitchBank0,
        HandshakeStep::Reset => Command::SoftwareReset,
        HandshakeStep::SetMode => Command::SetMode1,
        HandshakeStep::EnableAngles => Command::EnableAngles,
        HandshakeStep::ReadStatus => Command::ReadStatus,
        HandshakeStep::RequestIdentity => Command::ReadIdentity,
        HandshakeStep::ReadIdentity => Command::ReadIdentity,
    }
}

/// The wait after each step of the handshake.
pub open spec fn handshake_wait(step: HandshakeStep) -> u32 {
    match step {
        HandshakeStep::Wake => WAKE_SETTLE_MS,
        HandshakeStep::SwitchBank => RESET_SETTLE_MS,
        HandshakeStep::Reset => RESET_SETTLE_MS,
        HandshakeStep::EnableAngles => ENABLE_SETTLE_MS,
        _ => 0,
    }
}

/// The step after each step of the handshake; the last one has none.
pub open spec fn handshake_next(step: HandshakeStep) -> HandshakeStep {
    match step {
        HandshakeStep::Wake => HandshakeStep::SwitchBank,
        HandshakeStep::SwitchBank => HandshakeStep::Reset,
        HandshakeStep::Reset => HandshakeStep::SetMode,
        HandshakeStep::SetMode => HandshakeStep::EnableAngles,
        HandshakeStep::EnableAngles => HandshakeStep::ReadStatus,
        HandshakeStep::ReadStatus => HandshakeStep::RequestIdentity,
        _ => HandshakeStep::ReadIdentity,
    }
}

/// The angle command of the axis that a polling phase deals with.
pub open spec fn phase_command(phase: Phase) -> Command {
    match phase {
        Phase::PrimeX | Phase::ReadX => Command::ReadAngleX,
        Phase::PrimeY | Phase::ReadY => Command::ReadAngleY,
        _ => Command::ReadAngleZ,
    }
}

/// Whether a polling phase reads an axis back.
pub open spec fn is_read_phase(phase: Phase) -> bool {
    phase is ReadX || phase is ReadY || phase is ReadZ
}

/// The ready flag of a response: bit 0 of its first byte.
pub open spec fn rs_bit(f: Seq<u8>) -> bool {
    f[0] % 2 == 1
}

/// The identity response admits the device: its checksum holds and it is ready.
pub open spec fn identity_ok(f: Seq<u8>) -> bool {
    frame_valid(f) && rs_bit(f)
}

/// The action that each state calls for.
pub open spec fn action_of(s: SensorState) -> Action {
    match s {
        SensorState::Uninitialized | SensorState::Faulted => Action::Write {
            command: Command::WakeUp,
            wait_ms: WAKE_SETTLE_MS,
        },
        SensorState::Retrying => Action::Backoff { wait_ms: RETRY_BACKOFF_MS },
        SensorState::Starting(step) => if step is Wake {
            Action::Write { command: Command::WakeUp, wait_ms: WAKE_SETTLE_MS }
        } else {
            Action::Transact { command: handshake_command(step), wait_ms: handshake_wait(step) }
        },
        SensorState::Streaming { phase, x, y, z } => if phase is Publish {
            Action::Publish { sample: AngleSample { x, y, z }, wait_ms: POLL_INTERVAL_MS }
        } else if is_read_phase(phase) {
            Action::Transact { command: phase_command(phase), wait_ms: 0 }
        } else {
            Action::Write { command: phase_command(phase), wait_ms: PRIME_SETTLE_MS }
        },
    }
}

/// The state after a fresh handshake's wake-up write, by its outcome.
pub open spec fn after_wake(e: Event) -> SensorState {
    if e is Failed {
        SensorState::Retrying
    } else {
        SensorState::Starting(HandshakeStep::SwitchBank)
    }
}

/// The state after a polling phase, by the outcome of its action.
pub open spec fn after_phase(phase: Phase, x: i32, y: i32, z: i32, e: Event) -> SensorState {
    if phase is Publish {
        SensorState::Streaming { phase: Phase::PrimeX, x, y, z }
    } else if is_read_phase(phase) {
        match e {
            Event::Received(f) => if frame_valid(f@) {
                let a = angle_centi(payload_raw(f@)) as i32;
                match phase {
                    Phase::ReadX => SensorState::Streaming { phase: Phase::PrimeY, x: a, y, z },
                    Phase::ReadY => SensorState::Streaming { phase: Phase::PrimeZ, x, y: a, z },
                    _ => SensorState::Streaming { phase: Phase::Publish, x, y, z: a },
                }
            } else {
                SensorState::Faulted
            },
            _ => SensorState::Faulted,
        }
    } else if e is Failed {
        SensorState::Faulted
    } else {
        let next = match phase {
            Phase::PrimeX => Phase::ReadX,
            Phase::PrimeY => Phase::ReadY,
            _ => Phase::ReadZ,
        };
        SensorState::Streaming { phase: next, x, y, z }
    }
}

/// The state after the action of `s` ended with `e`.
pub open spec fn transition(s: SensorState, e: Event) -> SensorState {
    match s {
        SensorState::Uninitialized | SensorState::Faulted => after_wake(e),
        SensorState::Retrying => SensorState::Starting(HandshakeStep::Wake),
        SensorState::Starting(step) => if step is Wake {
            after_wake(e)
        } else {
            match e {
                Event::Received(f) => if step is ReadIdentity {
                    if identity_ok(f@) {
                        SensorState::Streaming { phase: Phase::PrimeX, x: 0, y: 0, z: 0 }
                    } else {
                        SensorState::Retrying
                    }
                } else {
                    SensorState::Starting(handshake_next(step))
                },
                _ => SensorState::Retrying,
            }
        },
        SensorState::Streaming { phase, x, y, z } => after_phase(phase, x, y, z, e),
    }
}

/// The fault that the action of `s` ending with `e` reports, if any. During the
/// handshake a bad checksum on an intermediate response is reported but not fatal.
pub open spec fn fault_of(s: SensorState, e: Event) -> Option<SensorError> {
    match action_of(s) {
        Action::Write { command, .. } => if e is Failed {
            Some(SensorError::Transport(command))
        } else {
            None
        },
        Action::Transact { command, .. } => match e {
            Event::Received(f) => if s == SensorState::Starting(HandshakeStep::ReadIdentity) {
                if identity_ok(f@) {
                    None
                } else {
                    Some(SensorError::Protocol)
                }
            } else if frame_valid(f@) {
                None
            } else {
                Some(SensorError::Checksum(command))
            },
            _ => Some(SensorError::Transport(command)),
        },
        _ => None,
    }
}

/// Whether the identity response admits the device.
pub fn check_identity(response: &[u8; 4]) -> (r: Result<(), SensorError>)
    ensures
        r is Ok <==> identity_ok(response@),
        r is Err ==> r == Err::<(), SensorError>(SensorError::Protocol),
{
    if validate(response) && response[0] % 2 == 1 {
        Ok(())
    } else {
        Err(SensorError::Protocol)
    }
}

/// The angle carried by an angle-read response to `command`, if its checksum holds.
pub fn read_angle_response(command: Command, response: &[u8; 4]) -> (r: Result<i32, SensorError>)
    ensures
        frame_valid(response@) ==> r == Ok::<i32, SensorError>(
            angle_centi(payload_raw(response@)) as i32,
        ),
        !frame_valid(response@) ==> r == Err::<i32, SensorError>(SensorError::Checksum(command)),
{
    if validate(response) {
        Ok(angle_conversion(response))
    } else {
        Err(SensorError::Checksum(command))
    }
}

impl HandshakeStep {
    /// The command issued at this step.
    pub fn command(self) -> (r: Command)
        ensures
            r == handshake_command(self),
    {
        match self {
            HandshakeStep::Wake => Command::WakeUp,
            HandshakeStep::SwitchBank => Command::SwitchBank0,
            HandshakeStep::Reset => Command::SoftwareReset,
            HandshakeStep::SetMode => Command::SetMode1,
            HandshakeStep::EnableAngles => Command::EnableAngles,
            HandshakeStep::ReadStatus => Command::ReadStatus,
            HandshakeStep::RequestIdentity => Command::ReadIdentity,
            HandshakeStep::ReadIdentity => Command::ReadIdentity,
        }
    }

    /// The wait after this step.
    pub fn wait_ms(self) -> (r: u32)
        ensures
            r == handshake_wait(self),
    {
        match self {
            HandshakeStep::Wake => WAKE_SETTLE_MS,
            HandshakeStep::SwitchBank => RESET_SETTLE_MS,
            HandshakeStep::Reset => RESET_SETTLE_MS,
            HandshakeStep::EnableAngles => ENABLE_SETTLE_MS,
            _ => 0,
        }
    }

    /// The step that follows this one.
    pub fn next(self) -> (r: HandshakeStep)
        ensures
            r == handshake_next(self),
    {
        match self {
            HandshakeStep::Wake => HandshakeStep::SwitchBank,
            HandshakeStep::SwitchBank => HandshakeStep::Reset,
            HandshakeStep::Reset => HandshakeStep::SetMode,
            HandshakeStep::SetMode => HandshakeStep::EnableAngles,
            HandshakeStep::EnableAngles => HandshakeStep::ReadStatus,
            HandshakeStep::ReadStatus => HandshakeStep::RequestIdentity,
            _ => HandshakeStep::ReadIdentity,
        }
    }
}

impl Phase {
    /// The angle command of the axis this phase deals with.
    pub fn command(self) -> (r: Command)
        ensures
            r == phase_command(self),
    {
        match self {
            Phase::PrimeX | Phase::ReadX => Command::ReadAngleX,
            Phase::PrimeY | Phase::ReadY => Command::ReadAngleY,
            _ => Command::ReadAngleZ,
        }
    }
}

/// The supervisor of one sensor: it owns the lifecycle state and decides each
/// bus action.
pub struct Supervisor {
    pub state: SensorState,
}

impl Supervisor {
    /// A supervisor for a sensor that has not been started.
    pub fn new() -> (r: Supervisor)
        ensures
            r.state == SensorState::Uninitialized,
    {
        Supervisor { state: SensorState::Uninitialized }
    }

    /// The action that the current state calls for.
    pub fn next_action(&self) -> (r: Action)
        ensures
            r == action_of(self.state),
    {
        match self.state {
            SensorState::Uninitialized | SensorState::Faulted => Action::Write {
                command: Command::WakeUp,
                wait_ms: WAKE_SETTLE_MS,
            },
            SensorState::Retrying => Action::Backoff { wait_ms: RETRY_BACKOFF_MS },
            SensorState::Starting(step) => match step {
                HandshakeStep::Wake => Action::Write {
                    command: Command::WakeUp,
                    wait_ms: WAKE_SETTLE_MS,
                },
                _ => Action::Transact { command: step.command(), wait_ms: step.wait_ms() },
            },
            SensorState::Streaming { phase, x, y, z } => match phase {
                Phase::Publish => Action::Publish {
                    sample: AngleSample::new(x, y, z),
                    wait_ms: POLL_INTERVAL_MS,
                },
                Phase::ReadX | Phase::ReadY | Phase::ReadZ => Action::Transact {
                    command: phase.command(),
                    wait_ms: 0,
                },
                _ => Action::Write { command: phase.command(), wait_ms: PRIME_SETTLE_MS },
            },
        }
    }

    /// Takes the outcome of the action that `next_action` named, moves to the next
    /// state, and reports the fault that the outcome shows, if any.
    pub fn advance(&mut self, event: Event) -> (r: Option<SensorError>)
        ensures
            final(self).state == transition(old(self).state, event),
            r == fault_of(old(self).state, event),
    {
        let failed = match event {
            Event::Failed => true,
            _ => false,
        };
        match self.state {
            SensorState::Uninitialized | SensorState::Faulted | SensorState::Starting(
                HandshakeStep::Wake,
            ) => {
                if failed {
                    self.state = SensorState::Retrying;
                    Some(SensorError::Transport(Command::WakeUp))
                } else {
                    self.state = SensorState::Starting(HandshakeStep::SwitchBank);
                    None
                }
            },
            SensorState::Retrying => {
                self.state = SensorState::Starting(HandshakeStep::Wake);
                None
            },
            SensorState::Starting(step) => match event {
                Event::Received(f) => match step {
                    HandshakeStep::ReadIdentity => match check_identity(&f) {
                        Ok(()) => {
                            self.state = SensorState::Streaming {
                                phase: Phase::PrimeX,
                                x: 0,
                                y: 0,
                                z: 0,
                            };
                            None
                        },
                        Err(e) => {
                            self.state = SensorState::Retrying;
                            Some(e)
                        },
                    },
                    _ => {
                        self.state = SensorState::Starting(step.next());
                        if validate(&f) {
                            None
                        } else {
                            Some(SensorError::Checksum(step.command()))
                        }
                    },
                },
                _ => {
                    self.state = SensorState::Retrying;
                    Some(SensorError::Transport(step.command()))
                },
            },
            SensorState::Streaming { phase, x, y, z } => match phase {
                Phase::Publish => {
                    self.state = SensorState::Streaming { phase: Phase::PrimeX, x, y, z };
                    None
                },
                Phase::ReadX | Phase::ReadY | Phase::ReadZ => match event {
                    Event::Received(f) => match read_angle_response(phase.command(), &f) {
                        Ok(a) => {
                            self.state = match phase {
                                Phase::ReadX => SensorState::Streaming {
                                    phase: Phase::PrimeY,
                                    x: a,
                                    y,
                                    z,
                                },
                                Phase::ReadY => SensorState::Streaming {
                                    phase: Phase::PrimeZ,
                                    x,
                                    y: a,
                                    z,
                                },
                                _ => SensorState::Streaming { phase: Phase::Publish, x, y, z: a },
                            };
                            None
                        },
                        Err(e) => {
                            self.state = SensorState::Faulted;
                            Some(e)
                        },
                    },
                    _ => {
                        self.state = SensorState::Faulted;
                        Some(SensorError::Transport(phase.command()))
                    },
                },
                _ => {
                    if failed {
                        self.state = SensorState::Faulted;
                        Some(SensorError::Transport(phase.command()))
                    } else {
                        self.state = SensorState::Streaming {
                            phase: match phase {
                                Phase::PrimeX => Phase::ReadX,
                                Phase::PrimeY => Phase::ReadY,
                                _ => Phase::ReadZ,
                            },
                            x,
                            y,
                            z,
                        };
                        None
                    }
                },
            },
        }
    }
}

/// The state after the outcomes `events`, in order, starting from `s`.
pub open spec fn run(s: SensorState, events: Seq<Event>) -> SensorState
    decreases events.len(),
{
    if events.len() == 0 {
        s
    } else {
        run(transition(s, events[0]), events.drop_first())
    }
}

/// The outcome of a device that answers with a valid frame and reports ready.
pub open spec fn ready_outcome(e: Event) -> bool {
    e matches Event::Received(f) && identity_ok(f@)
}

/// An outcome in which the device does not report ready.
pub open spec fn unready_outcome(e: Event) -> bool {
    !(e matches Event::Received(f) && rs_bit(f@))
}

/// How many outcomes of a ready device a state is away from streaming.
spec fn steps_to_stream(s: SensorState) -> nat {
    match s {
        SensorState::Uninitialized | SensorState::Faulted => 8,
        SensorState::Retrying => 9,
        SensorState::Starting(step) => match step {
            HandshakeStep::Wake => 8,
            HandshakeStep::SwitchBank => 7,
            HandshakeStep::Reset => 6,
            HandshakeStep::SetMode => 5,
            HandshakeStep::EnableAngles => 4,
            HandshakeStep::ReadStatus => 3,
            HandshakeStep::RequestIdentity => 2,
            HandshakeStep::ReadIdentity => 1,
        },
        SensorState::Streaming { .. } => 0,
    }
}

/// Running two lists of outcomes is running the first, then the second.
proof fn lemma_run_append(s: SensorState, a: Seq<Event>, b: Seq<Event>)
    ensures
        run(s, a + b) == run(run(s, a), b),
    decreases a.len(),
{
    if a.len() > 0 {
        assert((a + b).drop_first() =~= a.drop_first() + b);
        lemma_run_append(transition(s, a[0]), a.drop_first(), b);
    } else {
        assert(a + b =~= b);
    }
}

/// Ready outcomes, as many as the state is away from streaming, reach streaming.
proof fn lemma_ready_run(s: SensorState, events: Seq<Event>)
    requires
        events.len() >= steps_to_stream(s),
        forall|i: int| 0 <= i < events.len() ==> ready_outcome(#[trigger] events[i]),
    ensures
        run(s, events) is Streaming,
    decreases events.len(),
{
    if events.len() > 0 {
        let rest = events.drop_first();
        assert forall|i: int| 0 <= i < rest.len() implies ready_outcome(#[trigger] rest[i]) by {
            assert(rest[i] == events[i + 1]);
        }
        assert(ready_outcome(events[0]));
        lemma_ready_run(transition(s, events[0]), rest);
    }
}

/// A device that answers every request correctly and reports ready brings the
/// supervisor to streaming within nine outcomes, whatever failures came before.
pub proof fn lemma_ready_device_streams(s: SensorState, failures: Seq<Event>, ready: Seq<Event>)
    requires
        ready.len() >= 9,
        forall|i: int| 0 <= i < ready.len() ==> ready_outcome(#[trigger] ready[i]),
    ensures
        run(s, failures + ready) is Streaming,
{
    lemma_run_append(s, failures, ready);
    lemma_ready_run(run(s, failures), ready);
}

/// A device that never reports ready never brings the supervisor to streaming: it
/// keeps running the handshake.
pub proof fn lemma_unready_device_never_streams(s: SensorState, events: Seq<Event>)
    requires
        !(s is Streaming),
        forall|i: int| 0 <= i < events.len() ==> unready_outcome(#[trigger] events[i]),
    ensures
        !(run(s, events) is Streaming),
    decreases events.len(),
{
    if events.len() > 0 {
        let rest = events.drop_first();
        assert forall|i: int| 0 <= i < rest.len() implies unready_outcome(#[trigger] rest[i]) by {
            assert(rest[i] == events[i + 1]);
        }
        assert(unready_outcome(events[0]));
        lemma_unready_device_never_streams(transition(s, events[0]), rest);
    }
}

/// A failed read of any axis abandons the cycle: the supervisor faults, reports the
/// failure, and its next action is the wake-up write of a fresh handshake, not a
/// publish nor a second try of that axis.
pub proof fn lemma_read_fault_restarts(phase: Phase, x: i32, y: i32, z: i32, e: Event)
    requires
        is_read_phase(phase),
        !(e matches Event::Received(f) && frame_valid(f@)),
    ensures
        transition(SensorState::Streaming { phase, x, y, z }, e) == SensorState::Faulted,
        fault_of(SensorState::Streaming { phase, x, y, z }, e) is Some,
        action_of(SensorState::Faulted) == (Action::Write {
            command: Command::WakeUp,
            wait_ms: WAKE_SETTLE_MS,
        }),
{
}

/// A sample is published only right after the Z axis was read back with a valid
/// checksum, and it holds the X and Y angles of the same cycle with that Z angle.
pub proof fn lemma_publish_needs_full_cycle(s: SensorState, e: Event)
    requires
        action_of(transition(s, e)) is Publish,
    ensures
        s is Streaming,
        s->phase is ReadZ,
        e is Received,
        frame_valid(e->0@),
        action_of(transition(s, e)) == (Action::Publish {
            sample: AngleSample { x: s->x, y: s->y, z: angle_centi(payload_raw(e->0@)) as i32 },
            wait_ms: POLL_INTERVAL_MS,
        }),
{
}

} // verus!
