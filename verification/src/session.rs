//! The device session state machine. A session owns the plan for one
//! complete operation against the opened device: set the configuration,
//! claim the interface, set the alternate setting, detach the kernel driver
//! if one is active, send the command and its acknowledgement, and then tear
//! down — release the interface and reattach the kernel driver if it had
//! been detached.
//!
//! The machine decides; the unverified binary performs. Each step it asks
//! for the current [`Action`], performs the USB call, and reports the
//! outcome as an [`Event`]. A failure at any stage aborts the remaining
//! stages, records the first error, and still walks through teardown, so
//! the interface is never left claimed or detached.

use vstd::prelude::*;

use crate::DriverError;
use crate::codec::{Color, ack_buffer, color_buffer, encode_ack, encode_colors, encode_light, light_buffer};
use crate::resolver::Endpoint;

verus! {

/// The two operations the driver performs.
#[derive(Clone, Copy, Debug, PartialEq, Eq, Structural)]
pub enum Operation {
    SetBrightness(u8),
    SetColors(Color, Color),
}

/// One USB control transfer, fully parameterized.
#[derive(Clone, Debug)]
pub struct Transfer {
    pub request_type: u8,
    pub request: u8,
    pub value: u16,
    pub index: u16,
    pub data: Vec<u8>,
    pub timeout_ms: u32,
}

/// A USB call for the unverified binary to perform.
#[derive(Clone, Debug)]
pub enum Action {
    SetConfiguration { config: u8 },
    ClaimInterface { interface: u8 },
    SetAlternateSetting { interface: u8, alt_setting: u8 },
    QueryKernelDriver { interface: u8 },
    DetachKernelDriver { interface: u8 },
    SendTransfer(Transfer),
    ReleaseInterface { interface: u8 },
    AttachKernelDriver { interface: u8 },
}

/// The reported outcome of an action. A `QueryKernelDriver` action is
/// answered with `DriverActive`; every other action is answered with
/// `Completed` or `Failed`.
#[derive(Clone, Copy, Debug, PartialEq, Eq, Structural)]
pub enum Event {
    Completed,
    Failed(DriverError),
    DriverActive(bool),
}

/// Where a session stands, in the order the stages run.
#[derive(Clone, Copy, Debug, PartialEq, Eq, Structural)]
pub enum Phase {
    Configure,
    Claim,
    SetAlt,
    QueryDriver,
    Detach,
    SendCommand,
    SendAck,
    Release,
    Reattach,
    Done,
}

/// The live session: the chosen operation and endpoint, the current phase,
/// whether the kernel driver was detached (and so must be reattached on
/// teardown), and the first error encountered, if any.
#[derive(Clone, Copy, Debug)]
pub struct Session {
    pub op: Operation,
    pub endpoint: Endpoint,
    pub phase: Phase,
    pub detached: bool,
    pub failure: Option<DriverError>,
}

/// How many steps a session in phase `p` still has before `Done`.
pub open spec fn phase_measure(p: Phase) -> nat {
    match p {
        Phase::Configure => 9,
        Phase::Claim => 8,
        Phase::SetAlt => 7,
        Phase::QueryDriver => 6,
        Phase::Detach => 5,
        Phase::SendCommand => 4,
        Phase::SendAck => 3,
        Phase::Release => 2,
        Phase::Reattach => 1,
        Phase::Done => 0,
    }
}

/// The `wValue` field of the control transfer that carries an operation's
/// command buffer.
pub open spec fn wvalue_of(op: Operation) -> u16 {
    match op {
        Operation::SetBrightness(_) => 0x0200,
        Operation::SetColors(_, _) => 0x0300,
    }
}

/// The command buffer an operation sends.
pub open spec fn command_data(op: Operation) -> Seq<u8> {
    match op {
        Operation::SetBrightness(level) => light_buffer(level),
        Operation::SetColors(c1, c2) => color_buffer(c1, c2),
    }
}

/// A transfer with the device's fixed control parameters, the given
/// `wValue` and the given payload.
pub open spec fn transfer_matches(t: Transfer, wvalue: u16, data: Seq<u8>) -> bool {
    &&& t.request_type == 0x21
    &&& t.request == 0x09
    &&& t.value == wvalue
    &&& t.index == 0
    &&& t.timeout_ms == 1000
    &&& t.data@ == data
}

/// Keep the first error of a session: a later one never displaces it.
pub open spec fn record_failure(f: Option<DriverError>, e: DriverError) -> Option<DriverError> {
    match f {
        Some(first) => Some(first),
        None => Some(e),
    }
}

/// A stage before teardown: success moves on to `next`; failure records the
/// error and jumps to teardown, which still runs.
pub open spec fn step_forward(s: Session, ev: Event, next: Phase) -> Session {
    match ev {
        Event::Failed(e) => Session {
            op: s.op,
            endpoint: s.endpoint,
            phase: Phase::Release,
            detached: s.detached,
            failure: record_failure(s.failure, e),
        },
        _ => Session {
            op: s.op,
            endpoint: s.endpoint,
            phase: next,
            detached: s.detached,
            failure: s.failure,
        },
    }
}

/// A teardown stage: it never aborts; a failure here is recorded only if it
/// is the first.
pub open spec fn step_teardown(s: Session, ev: Event, next: Phase) -> Session {
    Session {
        op: s.op,
        endpoint: s.endpoint,
        phase: next,
        detached: s.detached,
        failure: match ev {
            Event::Failed(e) => record_failure(s.failure, e),
            _ => s.failure,
        },
    }
}

/// The transition relation of the session machine, total over every phase
/// and event. The kernel-driver query is best-effort advisory: a failed or
/// unanswered query counts as "no driver active", and a failed detach
/// proceeds undetached rather than aborting.
pub open spec fn step_spec(s: Session, ev: Event) -> Session {
    match s.phase {
        Phase::Configure => step_forward(s, ev, Phase::Claim),
        Phase::Claim => step_forward(s, ev, Phase::SetAlt),
        Phase::SetAlt => step_forward(s, ev, Phase::QueryDriver),
        Phase::QueryDriver => Session {
            op: s.op,
            endpoint: s.endpoint,
            phase: if (ev matches Event::DriverActive(true)) {
                Phase::Detach
            } else {
                Phase::SendCommand
            },
            detached: s.detached,
            failure: s.failure,
        },
        Phase::Detach => Session {
            op: s.op,
            endpoint: s.endpoint,
            phase: Phase::SendCommand,
            detached: !(ev is Failed),
            failure: s.failure,
        },
        Phase::SendCommand => step_forward(s, ev, Phase::SendAck),
        Phase::SendAck => step_forward(s, ev, Phase::Release),
        Phase::Release => step_teardown(
            s,
            ev,
            if s.detached {
                Phase::Reattach
            } else {
                Phase::Done
            },
        ),
        Phase::Reattach => step_teardown(s, ev, Phase::Done),
        Phase::Done => s,
    }
}

/// The state a fresh session starts in.
pub open spec fn initial_session(op: Operation, endpoint: Endpoint) -> Session {
    Session {
        op: op,
        endpoint: endpoint,
        phase: Phase::Configure,
        detached: false,
        failure: None,
    }
}

/// The action a session in state `s` asks the binary to perform.
pub open spec fn action_matches(s: Session, a: Action) -> bool {
    match s.phase {
        Phase::Configure => a == (Action::SetConfiguration { config: s.endpoint.config }),
        Phase::Claim => a == (Action::ClaimInterface { interface: s.endpoint.interface }),
        Phase::SetAlt => a == (Action::SetAlternateSetting {
            interface: s.endpoint.interface,
            alt_setting: s.endpoint.alt_setting,
        }),
        Phase::QueryDriver => a == (Action::QueryKernelDriver { interface: s.endpoint.interface }),
        Phase::Detach => a == (Action::DetachKernelDriver { interface: s.endpoint.interface }),
        Phase::SendCommand => a matches Action::SendTransfer(t) && transfer_matches(
            t,
            wvalue_of(s.op),
            command_data(s.op),
        ),
        Phase::SendAck => a matches Action::SendTransfer(t) && transfer_matches(
            t,
            0x0200,
            ack_buffer(),
        ),
        Phase::Release => a == (Action::ReleaseInterface { interface: s.endpoint.interface }),
        Phase::Reattach => a == (Action::AttachKernelDriver { interface: s.endpoint.interface }),
        Phase::Done => false,
    }
}

impl Session {
    /// Start a session for one operation against one endpoint.
    pub fn begin(op: Operation, endpoint: Endpoint) -> (s: Session)
        ensures
            s == initial_session(op, endpoint),
    {
        Session {
            op: op,
            endpoint: endpoint,
            phase: Phase::Configure,
            detached: false,
            failure: None,
        }
    }

    /// The next USB call to perform, or `None` once the session is done.
    pub fn current_action(&self) -> (a: Option<Action>)
        ensures
            a is None <==> self.phase is Done,
            a matches Some(act) ==> action_matches(*self, act),
    {
        match self.phase {
            Phase::Configure => Some(Action::SetConfiguration { config: self.endpoint.config }),
            Phase::Claim => Some(Action::ClaimInterface { interface: self.endpoint.interface }),
            Phase::SetAlt => Some(
                Action::SetAlternateSetting {
                    interface: self.endpoint.interface,
                    alt_setting: self.endpoint.alt_setting,
                },
            ),
            Phase::QueryDriver => Some(
                Action::QueryKernelDriver { interface: self.endpoint.interface },
            ),
            Phase::Detach => Some(Action::DetachKernelDriver { interface: self.endpoint.interface }),
            Phase::SendCommand => {
                let data = match self.op {
                    Operation::SetBrightness(level) => encode_light(level),
                    Operation::SetColors(c1, c2) => encode_colors(c1, c2),
                };
                Some(
                    Action::SendTransfer(
                        Transfer {
                            request_type: 0x21,
                            request: 0x09,
                            value: match self.op {
                                Operation::SetBrightness(_) => 0x0200,
                                Operation::SetColors(_, _) => 0x0300,
                            },
                            index: 0,
                            data: data,
                            timeout_ms: 1000,
                        },
                    ),
                )
            },
            Phase::SendAck => Some(
                Action::SendTransfer(
                    Transfer {
                        request_type: 0x21,
                        request: 0x09,
                        value: 0x0200,
                        index: 0,
                        data: encode_ack(),
                        timeout_ms: 1000,
                    },
                ),
            ),
            Phase::Release => Some(Action::ReleaseInterface { interface: self.endpoint.interface }),
            Phase::Reattach => Some(
                Action::AttachKernelDriver { interface: self.endpoint.interface },
            ),
            Phase::Done => None,
        }
    }

    /// Feed back the outcome of the current action and move the session on.
    pub fn advance(&mut self, ev: Event)
        ensures
            *final(self) == step_spec(*old(self), ev),
    {
        match self.phase {
            Phase::Configure => self.step_forward_exec(ev, Phase::Claim),
            Phase::Claim => self.step_forward_exec(ev, Phase::SetAlt),
            Phase::SetAlt => self.step_forward_exec(ev, Phase::QueryDriver),
            Phase::QueryDriver => {
                self.phase = match ev {
                    Event::DriverActive(true) => Phase::Detach,
                    _ => Phase::SendCommand,
                };
            },
            Phase::Detach => {
                self.detached = !matches!(ev, Event::Failed(_));
                self.phase = Phase::SendCommand;
            },
            Phase::SendCommand => self.step_forward_exec(ev, Phase::SendAck),
            Phase::SendAck => self.step_forward_exec(ev, Phase::Release),
            Phase::Release => {
                let next = if self.detached {
                    Phase::Reattach
                } else {
                    Phase::Done
                };
                self.step_teardown_exec(ev, next);
            },
            Phase::Reattach => self.step_teardown_exec(ev, Phase::Done),
            Phase::Done => {},
        }
    }

    /// One pre-teardown stage of `advance`.
    fn step_forward_exec(&mut self, ev: Event, next: Phase)
        ensures
            *final(self) == step_forward(*old(self), ev, next),
    {
        match ev {
            Event::Failed(e) => {
                if self.failure.is_none() {
                    self.failure = Some(e);
                }
                self.phase = Phase::Release;
            },
            _ => {
                self.phase = next;
            },
        }
    }

    /// One teardown stage of `advance`.
    fn step_teardown_exec(&mut self, ev: Event, next: Phase)
        ensures
            *final(self) == step_teardown(*old(self), ev, next),
    {
        if let Event::Failed(e) = ev {
            if self.failure.is_none() {
                self.failure = Some(e);
            }
        }
        self.phase = next;
    }

    /// The overall result of a finished session: `Ok` when every stage
    /// completed, otherwise the first error encountered.
    pub fn outcome(&self) -> (r: Result<(), DriverError>)
        requires
            self.phase is Done,
        ensures
            r matches Err(e) ==> self.failure == Some(e),
            r is Ok <==> self.failure is None,
    {
        match self.failure {
            Some(e) => Err(e),
            None => Ok(()),
        }
    }
}

/// How many times a session performs the interface-release action along a
/// run driven by the events `evs`: it counts the visits to the `Release`
/// phase, whose action is `ReleaseInterface` by `current_action`.
pub open spec fn run_release_count(s: Session, evs: Seq<Event>) -> nat
    decreases evs.len(),
{
    if s.phase is Done || evs.len() == 0 {
        0
    } else {
        (if s.phase is Release {
            1nat
        } else {
            0nat
        }) + run_release_count(step_spec(s, evs[0]), evs.drop_first())
    }
}

/// Every step of a session that is not done brings it strictly closer to
/// `Done`: a session always terminates.
pub proof fn lemma_step_decreases(s: Session, ev: Event)
    requires
        !(s.phase is Done),
    ensures
        phase_measure(step_spec(s, ev).phase) < phase_measure(s.phase),
{
}

/// Teardown runs exactly once. Along any run long enough to finish the
/// session, the interface-release action is performed exactly once — whether
/// every transfer succeeded or any stage failed — unless the session already
/// stands at or past teardown's second half.
pub proof fn lemma_release_exactly_once(s: Session, evs: Seq<Event>)
    requires
        evs.len() >= phase_measure(s.phase),
    ensures
        run_release_count(s, evs) == if s.phase is Done || s.phase is Reattach {
            0nat
        } else {
            1nat
        },
    decreases evs.len(),
{
    if !(s.phase is Done) {
        let s2 = step_spec(s, evs[0]);
        lemma_step_decreases(s, evs[0]);
        lemma_release_exactly_once(s2, evs.drop_first());
    }
}

/// A fresh session performs the interface-release action exactly once on
/// any run long enough to finish, whatever the outcomes of its stages.
pub proof fn lemma_session_teardown_once(op: Operation, endpoint: Endpoint, evs: Seq<Event>)
    requires
        evs.len() >= phase_measure(Phase::Configure),
    ensures
        run_release_count(initial_session(op, endpoint), evs) == 1,
{
    lemma_release_exactly_once(initial_session(op, endpoint), evs);
}

} // verus!
