//! The per-connection protocols as state machines. The host runs the loop:
//! for a push session it polls the control channel, then the outbound-event
//! channel, then the socket, hands each outcome to [`Session::on_input`] and
//! carries out the commands it gets back, in order.

use vstd::prelude::*;
use crate::classify::ActionKind;
use crate::registry::{control_lookup, event_lookup, released, RegistryError, Slots};
use crate::wire::Farewell;

verus! {

/// Where a push session stands: what the host must poll or await next.
#[derive(Debug, Clone, Copy, PartialEq, Eq, Structural)]
pub enum Phase {
    /// Poll the control channel (top of an iteration).
    PollControl,
    /// Poll the outbound-event channel.
    PollOutbound,
    /// Try a non-blocking read of the socket.
    ReadSocket,
    /// Wait for the session's events to be fetched.
    AwaitEvents,
    /// Wait for the transactional ingestion of a mobile export.
    AwaitIngest,
    /// Wait for the insertion of a legacy point array.
    AwaitLegacy,
    /// The session is over.
    Closed,
}

/// An inbound text frame, as classified.
#[derive(Debug, Clone, Copy, PartialEq, Eq, Structural)]
pub enum Inbound {
    Action(ActionKind),
    EventAck,
    MobileExport { has_points: bool },
    LegacyPointArray,
    Unrecognized,
}

/// The outcome of a non-blocking socket read.
#[derive(Debug, Clone, Copy, PartialEq, Eq, Structural)]
pub enum ReadOutcome {
    /// Nothing to read yet.
    WouldBlock,
    /// A text frame.
    Text(Inbound),
    /// A frame that is not text (ping, binary, ...).
    OtherFrame,
    /// Any other socket error, a clean disconnect included.
    Failed,
}

/// What the host observed.
#[derive(Debug, Clone, Copy, PartialEq, Eq, Structural)]
pub enum Input {
    /// The control channel was polled; `true` when it held `"terminate"`.
    Control(bool),
    /// The outbound-event channel was polled; `true` when it held an event.
    Outbound(bool),
    /// The socket was read.
    Read(ReadOutcome),
    /// The session's events were fetched; `false` when the store failed.
    EventsFetched(bool),
    /// The ingestion finished; `true` when it committed.
    IngestDone(bool),
    /// The legacy insertion finished; `true` when every point was stored.
    LegacyDone(bool),
    /// A socket write failed: the connection is treated as lost.
    TransportFailed,
}

/// What the host must do.
#[derive(Debug, Clone, Copy, PartialEq, Eq, Structural)]
pub enum Command {
    NotifyConnected,
    NotifyDisconnected,
    NotifyEventSent,
    NotifyPointsUpdated,
    /// Send the `connected` frame announcing this many events.
    SendConnected(usize),
    /// Send the polled event in an `event` frame.
    SendEvent,
    /// Fetch the session's events from the store.
    FetchEvents,
    /// Send the fetched events in an `events` frame.
    SendEvents,
    /// Send the `{code:1}` acknowledgment of a failed fetch.
    SendFetchError,
    SendGoodbye(Farewell),
    /// Send the `{code:3}` acknowledgment of an event acknowledgment.
    SendEventAckReply,
    /// Send the `{code:3}` acknowledgment of a stored export.
    SendExportSuccess,
    /// Send the `{code:1}` acknowledgment of a failed ingestion.
    SendIngestError,
    /// Send the plain `fini` text.
    SendFini,
    /// Send the plain `erreur: ...` text.
    SendLegacyError,
    /// Apply the export's points in one transaction.
    Ingest,
    /// Insert the legacy points one by one.
    InsertLegacy,
    /// Sleep the short polling interval.
    Sleep,
    /// Close the socket.
    Close,
    /// Release this session's handles from the registry.
    ReleaseRegistry,
}

/// The commands that end a session once a mobile export is stored (or held
/// no points): acknowledge, tell the host the data changed and the mobile
/// left, say goodbye, close.
pub open spec fn export_done() -> Seq<Command> {
    seq![
        Command::NotifyPointsUpdated,
        Command::SendExportSuccess,
        Command::NotifyDisconnected,
        Command::SendGoodbye(Farewell::DataReceived),
        Command::Close,
        Command::ReleaseRegistry,
    ]
}

/// The reaction to one text frame.
pub open spec fn on_text(m: Inbound) -> (Phase, Seq<Command>) {
    match m {
        Inbound::Action(ActionKind::GetEvents) => (Phase::AwaitEvents, seq![Command::FetchEvents]),
        Inbound::Action(ActionKind::Terminate) => (
            Phase::Closed,
            seq![
                Command::SendGoodbye(Farewell::ConnectionEnded),
                Command::Close,
                Command::ReleaseRegistry,
            ],
        ),
        Inbound::Action(ActionKind::Other) => (Phase::PollControl, Seq::empty()),
        Inbound::EventAck => (Phase::PollControl, seq![Command::SendEventAckReply]),
        Inbound::MobileExport { has_points } => if has_points {
            (Phase::AwaitIngest, seq![Command::Ingest])
        } else {
            (Phase::Closed, export_done())
        },
        Inbound::LegacyPointArray => (Phase::AwaitLegacy, seq![Command::InsertLegacy]),
        Inbound::Unrecognized => (Phase::PollControl, Seq::empty()),
    }
}

/// The transition of the protocol: next phase and commands. An input that
/// the phase does not expect changes nothing.
pub open spec fn step(p: Phase, i: Input) -> (Phase, Seq<Command>) {
    if p == Phase::Closed {
        (Phase::Closed, Seq::empty())
    } else if i == Input::TransportFailed {
        (
            Phase::Closed,
            seq![
                Command::NotifyDisconnected,
                Command::SendGoodbye(Farewell::ServerClosed),
                Command::Close,
                Command::ReleaseRegistry,
            ],
        )
    } else {
        match (p, i) {
            (Phase::PollControl, Input::Control(terminate)) => if terminate {
                (
                    Phase::Closed,
                    seq![
                        Command::SendGoodbye(Farewell::ServerClosed),
                        Command::Close,
                        Command::ReleaseRegistry,
                    ],
                )
            } else {
                (Phase::PollOutbound, Seq::empty())
            },
            (Phase::PollOutbound, Input::Outbound(present)) => if present {
                (Phase::ReadSocket, seq![Command::SendEvent, Command::NotifyEventSent])
            } else {
                (Phase::ReadSocket, Seq::empty())
            },
            (Phase::ReadSocket, Input::Read(r)) => match r {
                ReadOutcome::WouldBlock => (Phase::PollControl, seq![Command::Sleep]),
                ReadOutcome::OtherFrame => (Phase::PollControl, Seq::empty()),
                ReadOutcome::Failed => (
                    Phase::Closed,
                    seq![
                        Command::NotifyDisconnected,
                        Command::SendGoodbye(Farewell::ServerClosed),
                        Command::Close,
                        Command::ReleaseRegistry,
                    ],
                ),
                ReadOutcome::Text(m) => on_text(m),
            },
            (Phase::AwaitEvents, Input::EventsFetched(ok)) => if ok {
                (Phase::PollControl, seq![Command::SendEvents])
            } else {
                (Phase::PollControl, seq![Command::SendFetchError])
            },
            (Phase::AwaitIngest, Input::IngestDone(ok)) => if ok {
                (Phase::Closed, export_done())
            } else {
                (Phase::PollControl, seq![Command::SendIngestError])
            },
            (Phase::AwaitLegacy, Input::LegacyDone(ok)) => if ok {
                (Phase::PollControl, seq![Command::SendFini, Command::Sleep])
            } else {
                (Phase::PollControl, seq![Command::SendLegacyError, Command::Sleep])
            },
            _ => (p, Seq::empty()),
        }
    }
}

/// One accepted connection of a push session.
pub struct Session {
    phase: Phase,
}

impl View for Session {
    type V = Phase;

    closed spec fn view(&self) -> Phase {
        self.phase
    }
}

fn list1(a: Command) -> (r: Vec<Command>)
    ensures
        r@ == seq![a],
{
    let mut v: Vec<Command> = Vec::new();
    v.push(a);
    v
}

fn list2(a: Command, b: Command) -> (r: Vec<Command>)
    ensures
        r@ == seq![a, b],
{
    let mut v = list1(a);
    v.push(b);
    proof {
        assert(v@ =~= seq![a, b]);
    }
    v
}

fn list3(a: Command, b: Command, c: Command) -> (r: Vec<Command>)
    ensures
        r@ == seq![a, b, c],
{
    let mut v = list2(a, b);
    v.push(c);
    proof {
        assert(v@ =~= seq![a, b, c]);
    }
    v
}

fn list4(a: Command, b: Command, c: Command, d: Command) -> (r: Vec<Command>)
    ensures
        r@ == seq![a, b, c, d],
{
    let mut v = list3(a, b, c);
    v.push(d);
    proof {
        assert(v@ =~= seq![a, b, c, d]);
    }
    v
}

fn export_done_commands() -> (r: Vec<Command>)
    ensures
        r@ == export_done(),
{
    let mut v = list3(
        Command::NotifyPointsUpdated,
        Command::SendExportSuccess,
        Command::NotifyDisconnected,
    );
    v.push(Command::SendGoodbye(Farewell::DataReceived));
    v.push(Command::Close);
    v.push(Command::ReleaseRegistry);
    proof {
        assert(v@ =~= export_done());
    }
    v
}

fn text_reaction(m: Inbound) -> (r: (Phase, Vec<Command>))
    ensures
        (r.0, r.1@) == on_text(m),
{
    match m {
        Inbound::Action(ActionKind::GetEvents) => (Phase::AwaitEvents, list1(Command::FetchEvents)),
        Inbound::Action(ActionKind::Terminate) => (
            Phase::Closed,
            list3(
                Command::SendGoodbye(Farewell::ConnectionEnded),
                Command::Close,
                Command::ReleaseRegistry,
            ),
        ),
        Inbound::Action(ActionKind::Other) => (Phase::PollControl, Vec::new()),
        Inbound::EventAck => (Phase::PollControl, list1(Command::SendEventAckReply)),
        Inbound::MobileExport { has_points } => if has_points {
            (Phase::AwaitIngest, list1(Command::Ingest))
        } else {
            (Phase::Closed, export_done_commands())
        },
        Inbound::LegacyPointArray => (Phase::AwaitLegacy, list1(Command::InsertLegacy)),
        Inbound::Unrecognized => (Phase::PollControl, Vec::new()),
    }
}

fn transition(p: Phase, i: Input) -> (r: (Phase, Vec<Command>))
    ensures
        (r.0, r.1@) == step(p, i),
{
    if p == Phase::Closed {
        return (Phase::Closed, Vec::new());
    }
    if i == Input::TransportFailed {
        return (
            Phase::Closed,
            list4(
                Command::NotifyDisconnected,
                Command::SendGoodbye(Farewell::ServerClosed),
                Command::Close,
                Command::ReleaseRegistry,
            ),
        );
    }
    match (p, i) {
        (Phase::PollControl, Input::Control(terminate)) => if terminate {
            (
                Phase::Closed,
                list3(
                    Command::SendGoodbye(Farewell::ServerClosed),
                    Command::Close,
                    Command::ReleaseRegistry,
                ),
            )
        } else {
            (Phase::PollOutbound, Vec::new())
        },
        (Phase::PollOutbound, Input::Outbound(present)) => if present {
            (Phase::ReadSocket, list2(Command::SendEvent, Command::NotifyEventSent))
        } else {
            (Phase::ReadSocket, Vec::new())
        },
        (Phase::ReadSocket, Input::Read(r)) => match r {
            ReadOutcome::WouldBlock => (Phase::PollControl, list1(Command::Sleep)),
            ReadOutcome::OtherFrame => (Phase::PollControl, Vec::new()),
            ReadOutcome::Failed => (
                Phase::Closed,
                list4(
                    Command::NotifyDisconnected,
                    Command::SendGoodbye(Farewell::ServerClosed),
                    Command::Close,
                    Command::ReleaseRegistry,
                ),
            ),
            ReadOutcome::Text(m) => text_reaction(m),
        },
        (Phase::AwaitEvents, Input::EventsFetched(ok)) => if ok {
            (Phase::PollControl, list1(Command::SendEvents))
        } else {
            (Phase::PollControl, list1(Command::SendFetchError))
        },
        (Phase::AwaitIngest, Input::IngestDone(ok)) => if ok {
            (Phase::Closed, export_done_commands())
        } else {
            (Phase::PollControl, list1(Command::SendIngestError))
        },
        (Phase::AwaitLegacy, Input::LegacyDone(ok)) => if ok {
            (Phase::PollControl, list2(Command::SendFini, Command::Sleep))
        } else {
            (Phase::PollControl, list2(Command::SendLegacyError, Command::Sleep))
        },
        _ => (p, Vec::new()),
    }
}

impl Session {
    /// A session offering `event_count` events whose connection has just
    /// been accepted, with the commands of its entry: notify the host, then
    /// send the `connected` frame with that count.
    pub fn start(event_count: usize) -> (r: (Session, Vec<Command>))
        ensures
            r.0@ == Phase::PollControl,
            r.1@ == seq![Command::NotifyConnected, Command::SendConnected(event_count)],
    {
        (
            Session { phase: Phase::PollControl },
            list2(Command::NotifyConnected, Command::SendConnected(event_count)),
        )
    }

    /// What the host must poll or await next.
    pub fn phase(&self) -> (r: Phase)
        ensures
            r == self@,
    {
        self.phase
    }

    /// Whether the session is over.
    pub fn is_closed(&self) -> (r: bool)
        ensures
            r == (self@ == Phase::Closed),
    {
        self.phase == Phase::Closed
    }

    /// Takes one observation and gives the commands to carry out, in order.
    pub fn on_input(&mut self, input: Input) -> (r: Vec<Command>)
        ensures
            (final(self)@, r@) == step(old(self)@, input),
    {
        let (p, cmds) = transition(self.phase, input);
        self.phase = p;
        cmds
    }
}

/// A terminate signal on the control channel pre-empts the rest of the
/// iteration: the session says goodbye and closes, no pending event is sent,
/// and a closed session never sends one afterwards.
pub proof fn lemma_control_preempts_outbound(later: Input)
    ensures
        step(Phase::PollControl, Input::Control(true)).0 == Phase::Closed,
        step(Phase::PollControl, Input::Control(true)).1[0] == Command::SendGoodbye(
            Farewell::ServerClosed,
        ),
        !step(Phase::PollControl, Input::Control(true)).1.contains(Command::SendEvent),
        step(Phase::Closed, later).1.len() == 0,
{
    let cmds = step(Phase::PollControl, Input::Control(true)).1;
    assert(cmds == seq![
        Command::SendGoodbye(Farewell::ServerClosed),
        Command::Close,
        Command::ReleaseRegistry,
    ]);
    if cmds.contains(Command::SendEvent) {
        let k = choose|k: int| 0 <= k < cmds.len() && cmds[k] == Command::SendEvent;
        assert(cmds[k] != Command::SendEvent);
    }
}

/// Every way a session ends (control terminate, client terminate, stored
/// export, socket failure) ends with releasing its registry slot; when the
/// session still owns the slot, a push then finds no mobile connected and a
/// terminate finds no connection.
pub proof fn lemma_ended_session_frees_slot<E, C>(p: Phase, i: Input, v: Slots<E, C>, id: u64)
    requires
        p != Phase::Closed,
        step(p, i).0 == Phase::Closed,
        v.owner == Some(id),
    ensures
        step(p, i).1.last() == Command::ReleaseRegistry,
        event_lookup(released(v, id)) == Err::<E, RegistryError>(RegistryError::NoMobileConnected),
        control_lookup(released(v, id)) == Err::<C, RegistryError>(
            RegistryError::NoActiveConnection,
        ),
{
}

/// A session's events fetch that fails keeps the session serving: it
/// answers with an error acknowledgment and polls again.
pub proof fn lemma_fetch_failure_keeps_serving()
    ensures
        step(Phase::AwaitEvents, Input::EventsFetched(false)) == (
            Phase::PollControl,
            seq![Command::SendFetchError],
        ),
{
}

/// Where a receive-only session stands.
#[derive(Debug, Clone, Copy, PartialEq, Eq, Structural)]
pub enum ReceivePhase {
    /// Block on the next socket read.
    Reading,
    /// Wait for the ingestion of the export just read.
    AwaitIngest,
    /// The session is over.
    Closed,
}

/// What the host observed in a receive-only session.
#[derive(Debug, Clone, Copy, PartialEq, Eq, Structural)]
pub enum ReceiveInput {
    /// A text frame that decodes as a mobile export, and whether it holds points.
    Export { has_points: bool },
    /// A frame that is not a mobile export.
    Ignored,
    /// The socket failed or the peer went away.
    Failed,
    /// The ingestion finished; `true` when it committed.
    IngestDone(bool),
}

/// What the host must do in a receive-only session.
#[derive(Debug, Clone, Copy, PartialEq, Eq, Structural)]
pub enum ReceiveCommand {
    NotifyConnected,
    NotifyDisconnected,
    NotifyPointsUpdated,
    /// Send the `ready_to_receive` frame.
    SendReady,
    /// Apply the export's points in one transaction.
    Ingest,
    /// Send the `{code:3}` acknowledgment with the number of points.
    SendPointsReceived,
    /// Send the `{code:1}` acknowledgment of a failed ingestion.
    SendReceiveError,
    SendGoodbye(Farewell),
    Close,
}

/// The commands that end a receive-only session once its export is stored
/// (or held no points).
pub open spec fn receive_done() -> Seq<ReceiveCommand> {
    seq![
        ReceiveCommand::NotifyPointsUpdated,
        ReceiveCommand::SendPointsReceived,
        ReceiveCommand::NotifyDisconnected,
        ReceiveCommand::SendGoodbye(Farewell::DataReceived),
        ReceiveCommand::Close,
    ]
}

/// The transition of a receive-only session: it waits for one mobile export,
/// stores it and closes; a failed ingestion is reported and the device may
/// send again.
pub open spec fn receive_step(p: ReceivePhase, i: ReceiveInput) -> (ReceivePhase, Seq<ReceiveCommand>) {
    match (p, i) {
        (ReceivePhase::Reading, ReceiveInput::Export { has_points }) => if has_points {
            (ReceivePhase::AwaitIngest, seq![ReceiveCommand::Ingest])
        } else {
            (ReceivePhase::Closed, receive_done())
        },
        (ReceivePhase::Reading, ReceiveInput::Ignored) => (ReceivePhase::Reading, Seq::empty()),
        (ReceivePhase::Reading, ReceiveInput::Failed) => (
            ReceivePhase::Closed,
            seq![ReceiveCommand::NotifyDisconnected],
        ),
        (ReceivePhase::AwaitIngest, ReceiveInput::IngestDone(ok)) => if ok {
            (ReceivePhase::Closed, receive_done())
        } else {
            (ReceivePhase::Reading, seq![ReceiveCommand::SendReceiveError])
        },
        _ => (p, Seq::empty()),
    }
}

/// One accepted connection of a receive-only session.
pub struct ReceiveSession {
    phase: ReceivePhase,
}

impl View for ReceiveSession {
    type V = ReceivePhase;

    closed spec fn view(&self) -> ReceivePhase {
        self.phase
    }
}

fn receive_list(a: ReceiveCommand) -> (r: Vec<ReceiveCommand>)
    ensures
        r@ == seq![a],
{
    let mut v: Vec<ReceiveCommand> = Vec::new();
    v.push(a);
    v
}

fn receive_pair(a: ReceiveCommand, b: ReceiveCommand) -> (r: Vec<ReceiveCommand>)
    ensures
        r@ == seq![a, b],
{
    let mut v = receive_list(a);
    v.push(b);
    proof {
        assert(v@ =~= seq![a, b]);
    }
    v
}

fn receive_done_commands() -> (r: Vec<ReceiveCommand>)
    ensures
        r@ == receive_done(),
{
    let mut v = receive_pair(ReceiveCommand::NotifyPointsUpdated, ReceiveCommand::SendPointsReceived);
    v.push(ReceiveCommand::NotifyDisconnected);
    v.push(ReceiveCommand::SendGoodbye(Farewell::DataReceived));
    v.push(ReceiveCommand::Close);
    proof {
        assert(v@ =~= receive_done());
    }
    v
}

impl ReceiveSession {
    /// A receive-only session whose connection has just been accepted, with
    /// the commands of its entry.
    pub fn start() -> (r: (ReceiveSession, Vec<ReceiveCommand>))
        ensures
            r.0@ == ReceivePhase::Reading,
            r.1@ == seq![ReceiveCommand::NotifyConnected, ReceiveCommand::SendReady],
    {
        (
            ReceiveSession { phase: ReceivePhase::Reading },
            receive_pair(ReceiveCommand::NotifyConnected, ReceiveCommand::SendReady),
        )
    }

    /// What the host must do next.
    pub fn phase(&self) -> (r: ReceivePhase)
        ensures
            r == self@,
    {
        self.phase
    }

    /// Takes one observation and gives the commands to carry out, in order.
    pub fn on_input(&mut self, input: ReceiveInput) -> (r: Vec<ReceiveCommand>)
        ensures
            (final(self)@, r@) == receive_step(old(self)@, input),
    {
        let (p, cmds) = match (self.phase, input) {
            (ReceivePhase::Reading, ReceiveInput::Export { has_points }) => if has_points {
                (ReceivePhase::AwaitIngest, receive_list(ReceiveCommand::Ingest))
            } else {
                (ReceivePhase::Closed, receive_done_commands())
            },
            (ReceivePhase::Reading, ReceiveInput::Ignored) => (ReceivePhase::Reading, Vec::new()),
            (ReceivePhase::Reading, ReceiveInput::Failed) => (
                ReceivePhase::Closed,
                receive_list(ReceiveCommand::NotifyDisconnected),
            ),
            (ReceivePhase::AwaitIngest, ReceiveInput::IngestDone(ok)) => if ok {
                (ReceivePhase::Closed, receive_done_commands())
            } else {
                (ReceivePhase::Reading, receive_list(ReceiveCommand::SendReceiveError))
            },
            _ => (self.phase, Vec::new()),
        };
        self.phase = p;
        cmds
    }
}

/// Where a planning session stands.
#[derive(Debug, Clone, Copy, PartialEq, Eq, Structural)]
pub enum PlanningPhase {
    /// Wait for the team's planning to be fetched.
    AwaitPlanning,
    /// The session is over.
    Closed,
}

/// What the host must do in a planning session.
#[derive(Debug, Clone, Copy, PartialEq, Eq, Structural)]
pub enum PlanningCommand {
    NotifyConnected,
    /// Fetch the team's planning (teams, actions, equipment; no geography).
    FetchPlanning,
    /// Send the fetched planning in a `planning_data` frame.
    SendPlanning,
    SendGoodbye(Farewell),
    Close,
}

/// The transition of a planning session once its fetch is done: a fetched
/// planning is sent, then goodbye and close; a failed fetch ends the session
/// with nothing sent.
pub open spec fn planning_step(p: PlanningPhase, fetched: bool) -> (PlanningPhase, Seq<PlanningCommand>) {
    if p == PlanningPhase::AwaitPlanning && fetched {
        (
            PlanningPhase::Closed,
            seq![
                PlanningCommand::SendPlanning,
                PlanningCommand::SendGoodbye(Farewell::PlanningSent),
                PlanningCommand::Close,
            ],
        )
    } else {
        (PlanningPhase::Closed, Seq::empty())
    }
}

/// One accepted connection of a planning session.
pub struct PlanningSession {
    phase: PlanningPhase,
}

impl View for PlanningSession {
    type V = PlanningPhase;

    closed spec fn view(&self) -> PlanningPhase {
        self.phase
    }
}

impl PlanningSession {
    /// A planning session whose connection has just been accepted, with the
    /// commands of its entry: notify the host, then fetch the planning.
    pub fn start() -> (r: (PlanningSession, Vec<PlanningCommand>))
        ensures
            r.0@ == PlanningPhase::AwaitPlanning,
            r.1@ == seq![PlanningCommand::NotifyConnected, PlanningCommand::FetchPlanning],
    {
        let mut v: Vec<PlanningCommand> = Vec::new();
        v.push(PlanningCommand::NotifyConnected);
        v.push(PlanningCommand::FetchPlanning);
        proof {
            assert(v@ =~= seq![PlanningCommand::NotifyConnected, PlanningCommand::FetchPlanning]);
        }
        (PlanningSession { phase: PlanningPhase::AwaitPlanning }, v)
    }

    /// What the host must do next.
    pub fn phase(&self) -> (r: PlanningPhase)
        ensures
            r == self@,
    {
        self.phase
    }

    /// Takes the outcome of the fetch and gives the commands to carry out.
    pub fn on_fetched(&mut self, fetched: bool) -> (r: Vec<PlanningCommand>)
        ensures
            (final(self)@, r@) == planning_step(old(self)@, fetched),
    {
        let mut v: Vec<PlanningCommand> = Vec::new();
        if self.phase == PlanningPhase::AwaitPlanning && fetched {
            v.push(PlanningCommand::SendPlanning);
            v.push(PlanningCommand::SendGoodbye(Farewell::PlanningSent));
            v.push(PlanningCommand::Close);
            proof {
                assert(v@ =~= seq![
                    PlanningCommand::SendPlanning,
                    PlanningCommand::SendGoodbye(Farewell::PlanningSent),
                    PlanningCommand::Close,
                ]);
            }
        }
        self.phase = PlanningPhase::Closed;
        v
    }
}

} // verus!
