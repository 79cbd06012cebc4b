//! The per-tunnel supervisor: a state machine that owns every decision of
//! the retry loop. The driver performs the actions it returns (spawn, watch
//! the child, sleep, stop) and feeds back what it observed; each feedback
//! step yields the status events to forward, so that the full event
//! timeline of a tunnel is decided — and provable — here.

use vstd::prelude::*;

use crate::classify::{
    classify_stderr, classify_stdout, lower_of, stderr_verdict, stdout_verdict, LineEvent,
    LineEventModel,
};
use crate::event::{msg_event, ConnectionState, StatusEvent, StatusEventModel};
use crate::launcher::{LaunchError, LaunchErrorModel, TunnelConfig, TunnelConfigModel};
use crate::text::{dec_str, i32_string, int_str, u64_string};

verus! {

/// Seconds between the end of one attempt and the next spawn.
pub const RETRY_DELAY_SECS: u64 = 5;

/// Where the supervisor stands in its loop.
#[derive(Clone, Copy, Debug, PartialEq, Eq, Structural)]
pub enum Phase {
    /// A spawn has been requested and its outcome is awaited.
    Launching,
    /// A child process is alive and being watched.
    Running,
    /// The fixed delay before the next attempt is running.
    RetryWait,
    /// Cancelled; the loop is over for good.
    Finished,
}

/// What the driver observed and hands back to the supervisor.
#[derive(Clone, Debug)]
pub enum SupEvent {
    /// The spawn succeeded.
    LaunchOk,
    /// The spawn failed.
    LaunchFailed(LaunchError),
    /// One line of the child's standard error.
    StderrLine(String),
    /// One line of the child's standard output.
    StdoutLine(String),
    /// The child exited, or waiting for it failed.
    Exited(ExitOutcome),
    /// The cancellation signal fired.
    Cancelled,
    /// The retry delay elapsed.
    RetryElapsed,
}

/// How a child process run ended.
#[derive(Clone, Debug)]
pub enum ExitOutcome {
    /// Exit status zero.
    Success,
    /// Non-zero exit with a known code.
    Code(i32),
    /// Ended without a code, e.g. by a signal.
    Unknown,
    /// The exit status could not be queried; the text of the failure.
    WaitFailed(String),
}

/// What the driver must do next.
#[derive(Clone, Copy, Debug, PartialEq, Eq, Structural)]
pub enum SupAction {
    /// Spawn the binary with the configuration's arguments, then report
    /// `LaunchOk` or `LaunchFailed`.
    Launch,
    /// Keep watching the child: report lines, exit, or cancellation.
    Monitor,
    /// Kill the child; the loop is over.
    StopProcess,
    /// Sleep for `RETRY_DELAY_SECS`, racing the cancellation signal, then
    /// report `RetryElapsed` or `Cancelled`.
    Sleep,
    /// The loop is over; nothing is running.
    Stop,
}

/// Mathematical image of an `ExitOutcome`.
pub enum ExitOutcomeModel {
    Success,
    Code(i32),
    Unknown,
    WaitFailed(Seq<char>),
}

impl View for ExitOutcome {
    type V = ExitOutcomeModel;

    open spec fn view(&self) -> ExitOutcomeModel {
        match self {
            ExitOutcome::Success => ExitOutcomeModel::Success,
            ExitOutcome::Code(c) => ExitOutcomeModel::Code(*c),
            ExitOutcome::Unknown => ExitOutcomeModel::Unknown,
            ExitOutcome::WaitFailed(t) => ExitOutcomeModel::WaitFailed(t@),
        }
    }
}

/// Mathematical image of a `SupEvent`.
pub enum SupEventModel {
    LaunchOk,
    LaunchFailed(LaunchErrorModel),
    StderrLine(Seq<char>),
    StdoutLine(Seq<char>),
    Exited(ExitOutcomeModel),
    Cancelled,
    RetryElapsed,
}

impl View for SupEvent {
    type V = SupEventModel;

    open spec fn view(&self) -> SupEventModel {
        match self {
            SupEvent::LaunchOk => SupEventModel::LaunchOk,
            SupEvent::LaunchFailed(e) => SupEventModel::LaunchFailed(e@),
            SupEvent::StderrLine(l) => SupEventModel::StderrLine(l@),
            SupEvent::StdoutLine(l) => SupEventModel::StdoutLine(l@),
            SupEvent::Exited(o) => SupEventModel::Exited(o@),
            SupEvent::Cancelled => SupEventModel::Cancelled,
            SupEvent::RetryElapsed => SupEventModel::RetryElapsed,
        }
    }
}

/// The supervisor of one tunnel.
#[derive(Clone, Debug)]
pub struct Supervisor {
    /// The configuration the tunnel was connected with.
    pub config: TunnelConfig,
    /// Where the loop stands.
    pub phase: Phase,
    /// Most recent URL detected during the current process run, attached to
    /// later `Connected` events that carry none of their own.
    pub last_url: Option<String>,
}

/// Mathematical image of a `Supervisor`.
#[verifier::ext_equal]
pub struct SupervisorModel {
    pub config: TunnelConfigModel,
    pub phase: Phase,
    pub last_url: Option<Seq<char>>,
}

impl View for Supervisor {
    type V = SupervisorModel;

    open spec fn view(&self) -> SupervisorModel {
        SupervisorModel {
            config: self.config@,
            phase: self.phase,
            last_url: match self.last_url {
                Some(u) => Some(u@),
                None => None,
            },
        }
    }
}

/// One step of the machine: the state after it, the events it emits, and
/// the action the driver must take next.
#[verifier::ext_equal]
pub struct StepResult {
    pub state: SupervisorModel,
    pub events: Seq<StatusEventModel>,
    pub action: SupAction,
}

/// The state a fresh supervisor starts in.
pub open spec fn initial_model(c: TunnelConfigModel) -> SupervisorModel {
    SupervisorModel { config: c, phase: Phase::Launching, last_url: None }
}

/// Message reported for a failed spawn: the missing binary is told apart
/// from any other operating-system failure.
pub open spec fn launch_error_message(e: LaunchErrorModel) -> Seq<char> {
    match e {
        LaunchErrorModel::BinaryNotFound => "cloudflared not found. Please install it first."@,
        LaunchErrorModel::Other(t) => "Failed to start: "@ + t,
    }
}

/// Event reported when a child process run ends: a zero exit closes the run
/// normally, everything else is an error.
pub open spec fn exit_event(id: Seq<char>, o: ExitOutcomeModel) -> StatusEventModel {
    match o {
        ExitOutcomeModel::Success => msg_event(
            id,
            ConnectionState::Disconnected,
            "Closed normally"@,
            None,
        ),
        ExitOutcomeModel::Code(c) => msg_event(
            id,
            ConnectionState::Error,
            "Exited code: "@ + int_str(c as int),
            None,
        ),
        ExitOutcomeModel::Unknown => msg_event(
            id,
            ConnectionState::Error,
            "Exited code: unknown"@,
            None,
        ),
        ExitOutcomeModel::WaitFailed(t) => msg_event(
            id,
            ConnectionState::Error,
            "Wait error: "@ + t,
            None,
        ),
    }
}

/// Effect of one classified log line: no verdict emits nothing; a verdict
/// with a fresh URL retains it; `Connected` events carry the retained URL,
/// error events carry none.
pub open spec fn line_step(s: SupervisorModel, v: Option<LineEventModel>) -> StepResult {
    match v {
        None => StepResult { state: s, events: seq![], action: SupAction::Monitor },
        Some(le) => {
            let retained = if le.url is Some {
                le.url
            } else {
                s.last_url
            };
            let attach = if le.state is Connected {
                retained
            } else {
                None
            };
            StepResult {
                state: SupervisorModel { last_url: retained, ..s },
                events: seq![
                    StatusEventModel {
                        id: s.config.id,
                        status: le.state,
                        message: Some(le.message),
                        url: attach,
                    },
                ],
                action: SupAction::Monitor,
            }
        },
    }
}

/// Steps taken while a spawn outcome is awaited.
pub open spec fn step_launching(s: SupervisorModel, e: SupEventModel) -> StepResult {
    match e {
        SupEventModel::LaunchOk => StepResult {
            state: SupervisorModel { phase: Phase::Running, last_url: None, ..s },
            events: seq![
                msg_event(
                    s.config.id,
                    ConnectionState::Connecting,
                    "Connecting to port "@ + dec_str(s.config.local_port as int) + "..."@,
                    None,
                ),
                msg_event(s.config.id, ConnectionState::Connecting, "Authenticating..."@, None),
            ],
            action: SupAction::Monitor,
        },
        SupEventModel::LaunchFailed(err) => StepResult {
            state: SupervisorModel { phase: Phase::RetryWait, ..s },
            events: seq![
                msg_event(s.config.id, ConnectionState::Error, launch_error_message(err), None),
                msg_event(
                    s.config.id,
                    ConnectionState::Reconnecting,
                    "Retrying in 5s..."@,
                    None,
                ),
            ],
            action: SupAction::Sleep,
        },
        _ => StepResult { state: s, events: seq![], action: SupAction::Launch },
    }
}

/// Steps taken while a child process is watched.
pub open spec fn step_running(s: SupervisorModel, e: SupEventModel) -> StepResult {
    match e {
        SupEventModel::StderrLine(l) => line_step(s, stderr_verdict(lower_of(l), l)),
        SupEventModel::StdoutLine(l) => line_step(s, stdout_verdict(l)),
        SupEventModel::Exited(o) => StepResult {
            state: SupervisorModel { phase: Phase::RetryWait, ..s },
            events: seq![
                exit_event(s.config.id, o),
                msg_event(
                    s.config.id,
                    ConnectionState::Reconnecting,
                    "Retrying in 5s..."@,
                    None,
                ),
            ],
            action: SupAction::Sleep,
        },
        _ => StepResult { state: s, events: seq![], action: SupAction::Monitor },
    }
}

/// Steps taken during the retry delay.
pub open spec fn step_retry_wait(s: SupervisorModel, e: SupEventModel) -> StepResult {
    match e {
        SupEventModel::RetryElapsed => StepResult {
            state: SupervisorModel { phase: Phase::Launching, ..s },
            events: seq![
                msg_event(s.config.id, ConnectionState::Connecting, "Starting tunnel..."@, None),
            ],
            action: SupAction::Launch,
        },
        _ => StepResult { state: s, events: seq![], action: SupAction::Sleep },
    }
}

/// One step of the supervisor. A finished supervisor is inert. Cancellation
/// from any live phase emits the single terminal event and finishes the
/// loop, killing the child if one is running. Everything else is decided by
/// the phase.
pub open spec fn spec_step(s: SupervisorModel, e: SupEventModel) -> StepResult {
    if s.phase is Finished {
        StepResult { state: s, events: seq![], action: SupAction::Stop }
    } else if e is Cancelled {
        StepResult {
            state: SupervisorModel { phase: Phase::Finished, ..s },
            events: seq![
                msg_event(
                    s.config.id,
                    ConnectionState::Disconnected,
                    "User disconnected"@,
                    None,
                ),
            ],
            action: if s.phase is Running {
                SupAction::StopProcess
            } else {
                SupAction::Stop
            },
        }
    } else {
        match s.phase {
            Phase::Launching => step_launching(s, e),
            Phase::Running => step_running(s, e),
            Phase::RetryWait => step_retry_wait(s, e),
            Phase::Finished => StepResult { state: s, events: seq![], action: SupAction::Stop },
        }
    }
}

fn no_events() -> (r: Vec<StatusEvent>)
    ensures
        r.deep_view() == Seq::<StatusEventModel>::empty(),
{
    let r: Vec<StatusEvent> = Vec::new();
    proof {
        assert(r.deep_view() =~= Seq::<StatusEventModel>::empty());
    }
    r
}

fn one_event(a: StatusEvent) -> (r: Vec<StatusEvent>)
    ensures
        r.deep_view() == seq![a@],
{
    let mut r: Vec<StatusEvent> = Vec::new();
    r.push(a);
    proof {
        assert(r.deep_view() =~= seq![a@]);
    }
    r
}

fn two_events(a: StatusEvent, b: StatusEvent) -> (r: Vec<StatusEvent>)
    ensures
        r.deep_view() == seq![a@, b@],
{
    let mut r: Vec<StatusEvent> = Vec::new();
    let ghost ga = a@;
    let ghost gb = b@;
    r.push(a);
    r.push(b);
    proof {
        assert(r.deep_view() =~= seq![ga, gb]);
    }
    r
}

fn clone_opt(o: &Option<String>) -> (r: Option<String>)
    ensures
        r.deep_view() == o.deep_view(),
{
    match o {
        Some(s) => Some(s.clone()),
        None => None,
    }
}

impl Supervisor {
    /// A fresh supervisor for `config`, together with the first event of its
    /// stream. The driver must next perform `Launch`.
    pub fn new(config: TunnelConfig) -> (r: (Supervisor, Vec<StatusEvent>))
        ensures
            r.0@ == initial_model(config@),
            r.1.deep_view() == seq![
                msg_event(config@.id, ConnectionState::Connecting, "Starting tunnel..."@, None),
            ],
    {
        let sup = Supervisor { config, phase: Phase::Launching, last_url: None };
        let ev = sup.make_event(
            ConnectionState::Connecting,
            String::from_str("Starting tunnel..."),
            None,
        );
        let evs = one_event(ev);
        (sup, evs)
    }

    fn make_event(&self, status: ConnectionState, message: String, url: Option<String>) -> (r: StatusEvent)
        ensures
            r@ == (StatusEventModel {
                id: self.config.id@,
                status,
                message: Some(message@),
                url: url.deep_view(),
            }),
    {
        StatusEvent { id: self.config.id.clone(), status, message: Some(message), url }
    }

    fn apply_line(&mut self, v: Option<LineEvent>) -> (r: (Vec<StatusEvent>, SupAction))
        ensures
            ({
                let sr = line_step(old(self)@, v.deep_view());
                &&& final(self)@ == sr.state
                &&& r.0.deep_view() == sr.events
                &&& r.1 == sr.action
            }),
    {
        match v {
            None => (no_events(), SupAction::Monitor),
            Some(le) => {
                let LineEvent { state, message, url } = le;
                match url {
                    Some(u) => {
                        self.last_url = Some(u);
                    },
                    None => {},
                }
                let attach: Option<String> = if matches!(state, ConnectionState::Connected) {
                    clone_opt(&self.last_url)
                } else {
                    None
                };
                let ev = self.make_event(state, message, attach);
                (one_event(ev), SupAction::Monitor)
            },
        }
    }

    /// One step: the driver reports what it observed; the supervisor moves,
    /// hands back the events to forward, and names the next action — as
    /// `spec_step` states it.
    pub fn step(&mut self, event: SupEvent) -> (r: (Vec<StatusEvent>, SupAction))
        ensures
            ({
                let sr = spec_step(old(self)@, event@);
                &&& final(self)@ == sr.state
                &&& r.0.deep_view() == sr.events
                &&& r.1 == sr.action
            }),
    {
        if matches!(self.phase, Phase::Finished) {
            return (no_events(), SupAction::Stop);
        }
        if matches!(event, SupEvent::Cancelled) {
            let act = if matches!(self.phase, Phase::Running) {
                SupAction::StopProcess
            } else {
                SupAction::Stop
            };
            self.phase = Phase::Finished;
            let ev = self.make_event(
                ConnectionState::Disconnected,
                String::from_str("User disconnected"),
                None,
            );
            return (one_event(ev), act);
        }
        match self.phase {
            Phase::Launching => match event {
                SupEvent::LaunchOk => {
                    self.phase = Phase::Running;
                    self.last_url = None;
                    let mut m = String::from_str("Connecting to port ");
                    let port_str = u64_string(self.config.local_port as u64);
                    m.append(port_str.as_str());
                    m.append("...");
                    let e1 = self.make_event(ConnectionState::Connecting, m, None);
                    let e2 = self.make_event(
                        ConnectionState::Connecting,
                        String::from_str("Authenticating..."),
                        None,
                    );
                    (two_events(e1, e2), SupAction::Monitor)
                },
                SupEvent::LaunchFailed(err) => {
                    self.phase = Phase::RetryWait;
                    let msg = match err {
                        LaunchError::BinaryNotFound => String::from_str(
                            "cloudflared not found. Please install it first.",
                        ),
                        LaunchError::Other(t) => {
                            let mut m = String::from_str("Failed to start: ");
                            m.append(t.as_str());
                            m
                        },
                    };
                    let e1 = self.make_event(ConnectionState::Error, msg, None);
                    let e2 = self.make_event(
                        ConnectionState::Reconnecting,
                        String::from_str("Retrying in 5s..."),
                        None,
                    );
                    (two_events(e1, e2), SupAction::Sleep)
                },
                _ => (no_events(), SupAction::Launch),
            },
            Phase::Running => match event {
                SupEvent::StderrLine(line) => {
                    let v = classify_stderr(line.as_str());
                    self.apply_line(v)
                },
                SupEvent::StdoutLine(line) => {
                    let v = classify_stdout(line.as_str());
                    self.apply_line(v)
                },
                SupEvent::Exited(o) => {
                    self.phase = Phase::RetryWait;
                    let e1 = match o {
                        ExitOutcome::Success => self.make_event(
                            ConnectionState::Disconnected,
                            String::from_str("Closed normally"),
                            None,
                        ),
                        ExitOutcome::Code(c) => {
                            let mut m = String::from_str("Exited code: ");
                            let code_str = i32_string(c);
                            m.append(code_str.as_str());
                            self.make_event(ConnectionState::Error, m, None)
                        },
                        ExitOutcome::Unknown => self.make_event(
                            ConnectionState::Error,
                            String::from_str("Exited code: unknown"),
                            None,
                        ),
                        ExitOutcome::WaitFailed(t) => {
                            let mut m = String::from_str("Wait error: ");
                            m.append(t.as_str());
                            self.make_event(ConnectionState::Error, m, None)
                        },
                    };
                    let e2 = self.make_event(
                        ConnectionState::Reconnecting,
                        String::from_str("Retrying in 5s..."),
                        None,
                    );
                    (two_events(e1, e2), SupAction::Sleep)
                },
                _ => (no_events(), SupAction::Monitor),
            },
            Phase::RetryWait => match event {
                SupEvent::RetryElapsed => {
                    self.phase = Phase::Launching;
                    let ev = self.make_event(
                        ConnectionState::Connecting,
                        String::from_str("Starting tunnel..."),
                        None,
                    );
                    (one_event(ev), SupAction::Launch)
                },
                _ => (no_events(), SupAction::Sleep),
            },
            Phase::Finished => (no_events(), SupAction::Stop),
        }
    }
}

/// The supervisor driven over a whole sequence of observations: the state
/// it ends in and everything it emits along the way.
pub open spec fn run_steps(s: SupervisorModel, es: Seq<SupEventModel>) -> (
    SupervisorModel,
    Seq<StatusEventModel>,
)
    decreases es.len(),
{
    if es.len() == 0 {
        (s, seq![])
    } else {
        let r = spec_step(s, es[0]);
        let rest = run_steps(r.state, es.subrange(1, es.len() as int));
        (rest.0, r.events + rest.1)
    }
}

/// Law: cancellation of a live supervisor emits exactly one event — the
/// terminal `Disconnected` with message "User disconnected" — finishes the
/// loop, and never asks for another launch.
pub proof fn lemma_cancel_terminal(s: SupervisorModel)
    requires
        s.phase != Phase::Finished,
    ensures
        ({
            let r = spec_step(s, SupEventModel::Cancelled);
            &&& r.events == seq![
                msg_event(s.config.id, ConnectionState::Disconnected, "User disconnected"@, None),
            ]
            &&& r.state.phase == Phase::Finished
            &&& r.state.config == s.config
            &&& r.action != SupAction::Launch
        }),
{
}

/// Law: a finished supervisor is inert: whatever is reported to it, it
/// stays as it is, emits nothing, and asks for nothing but `Stop`.
pub proof fn lemma_finished_inert(s: SupervisorModel, e: SupEventModel)
    requires
        s.phase == Phase::Finished,
    ensures
        spec_step(s, e).state == s,
        spec_step(s, e).events == Seq::<StatusEventModel>::empty(),
        spec_step(s, e).action == SupAction::Stop,
{
}

/// Law: firing the cancellation signal again after it has been observed
/// changes nothing: the state is the same and nothing further is emitted,
/// so any number of cancellations has the observable effect of one.
pub proof fn lemma_cancel_idempotent(s: SupervisorModel)
    ensures
        ({
            let once = spec_step(s, SupEventModel::Cancelled);
            let twice = spec_step(once.state, SupEventModel::Cancelled);
            &&& twice.state == once.state
            &&& twice.events == Seq::<StatusEventModel>::empty()
        }),
{
}

/// Law: nothing follows `Finished`: over any further sequence of
/// observations a finished supervisor stays finished and emits nothing.
pub proof fn lemma_finished_forever(s: SupervisorModel, es: Seq<SupEventModel>)
    requires
        s.phase == Phase::Finished,
    ensures
        run_steps(s, es).0 == s,
        run_steps(s, es).1 == Seq::<StatusEventModel>::empty(),
    decreases es.len(),
{
    if es.len() > 0 {
        lemma_finished_inert(s, es[0]);
        lemma_finished_forever(s, es.subrange(1, es.len() as int));
        assert(run_steps(s, es).1 =~= Seq::<StatusEventModel>::empty());
    }
}

/// Law: cancelling during the retry wait prevents any further spawn. The
/// one terminal event is emitted with action `Stop`; whatever the driver
/// reports afterwards, nothing more is emitted and no step ever asks for a
/// launch again.
pub proof fn lemma_cancel_during_retry_wait(s: SupervisorModel, later: Seq<SupEventModel>)
    requires
        s.phase == Phase::RetryWait,
    ensures
        ({
            let r = spec_step(s, SupEventModel::Cancelled);
            &&& r.events == seq![
                msg_event(s.config.id, ConnectionState::Disconnected, "User disconnected"@, None),
            ]
            &&& r.action == SupAction::Stop
            &&& run_steps(r.state, later).1 == Seq::<StatusEventModel>::empty()
            &&& forall|e: SupEventModel|
                spec_step(run_steps(r.state, later).0, e).action != SupAction::Launch
        }),
{
    lemma_cancel_terminal(s);
    let r = spec_step(s, SupEventModel::Cancelled);
    lemma_finished_forever(r.state, later);
    assert forall|e: SupEventModel|
        spec_step(run_steps(r.state, later).0, e).action != SupAction::Launch by {
        lemma_finished_inert(run_steps(r.state, later).0, e);
    }
}

} // verus!
