use vstd::prelude::*;
use crate::clock::now_millis;
use crate::logic::{step, DetectionEvent, EngineState, FallDetector};
use crate::model::{recognize, ClientCommand, CommandAction, SensorData};
use crate::variance::MAX_BUFFER_LEN;

verus! {

/// How many messages a subscriber of the bus may fall behind before it
/// loses the oldest.
pub const BUS_CAPACITY: usize = 100;

/// A plain-text status that goes out on the bus.
#[derive(Clone, Copy, Debug, PartialEq, Eq, Structural)]
pub enum StatusToken {
    Validating,
    CancelAlert,
    Confirmed,
    ResetComplete,
    NearMiss,
}

impl StatusToken {
    /// The token as it is written on the wire.
    pub open spec fn text(self) -> Seq<char> {
        match self {
            StatusToken::Validating => "VALIDATING"@,
            StatusToken::CancelAlert => "CANCEL_ALERT"@,
            StatusToken::Confirmed => "CONFIRMED"@,
            StatusToken::ResetComplete => "RESET_COMPLETE"@,
            StatusToken::NearMiss => "NEAR_MISS"@,
        }
    }

    /// The token as it is written on the wire.
    pub fn to_text(&self) -> (s: String)
        ensures
            s@ == self.text(),
    {
        match self {
            StatusToken::Validating => "VALIDATING".to_owned(),
            StatusToken::CancelAlert => "CANCEL_ALERT".to_owned(),
            StatusToken::Confirmed => "CONFIRMED".to_owned(),
            StatusToken::ResetComplete => "RESET_COMPLETE".to_owned(),
            StatusToken::NearMiss => "NEAR_MISS".to_owned(),
        }
    }
}

/// The severity under which an outcome is logged.
#[derive(Clone, Copy, Debug, PartialEq, Eq, Structural)]
pub enum Severity {
    Critical,
    FalseAlarm,
    AssistanceSent,
    Resolved,
}

impl Severity {
    /// The severity as the event log spells it.
    pub open spec fn label(self) -> Seq<char> {
        match self {
            Severity::Critical => "Critical"@,
            Severity::FalseAlarm => "False Alarm"@,
            Severity::AssistanceSent => "Assistance Sent"@,
            Severity::Resolved => "Resolved"@,
        }
    }

    /// The severity as the event log spells it.
    pub fn to_label(&self) -> (s: String)
        ensures
            s@ == self.label(),
    {
        match self {
            Severity::Critical => "Critical".to_owned(),
            Severity::FalseAlarm => "False Alarm".to_owned(),
            Severity::AssistanceSent => "Assistance Sent".to_owned(),
            Severity::Resolved => "Resolved".to_owned(),
        }
    }
}

/// One entry for the event log; `g_force` is in thousandths of standard
/// gravity.
#[derive(Clone, Copy, Debug, PartialEq, Eq, Structural)]
pub struct LogEntry {
    pub severity: Severity,
    pub is_false_alarm: bool,
    pub g_force: u64,
}

/// A message for the bus.
#[derive(Clone, Copy, Debug, PartialEq, Eq, Structural)]
pub enum Outbound {
    /// A plain status token.
    Token(StatusToken),
    /// The structured payload tagged `CRITICAL_FALL`, carrying the g-force.
    CriticalFall { g_force: u64 },
    /// The inbound payload itself, unchanged.
    Relay,
}

/// Something for the session's driver to do. Log appends are handed off and
/// their outcome is never looked at.
#[derive(Clone, Copy, Debug, PartialEq, Eq, Structural)]
pub enum Effect {
    /// Send a message onto the bus.
    Broadcast(Outbound),
    /// Append an entry to the event log, without waiting for it.
    Append(LogEntry),
    /// Record that a payload matched no schema.
    Diagnostic,
    /// Send the message that the bus delivered to the client, verbatim.
    Forward,
}

/// What an inbound text payload turned out to be.
#[derive(Clone, Copy, Debug, PartialEq, Eq, Structural)]
pub enum Inbound {
    Command(CommandAction),
    Sample(SensorData),
    Unknown,
}

/// What the session's driver saw happen.
#[derive(Clone, Copy, Debug, PartialEq, Eq, Structural)]
pub enum Incoming {
    /// A text frame from the client.
    Text(Inbound),
    /// The client closed the connection.
    Close,
    /// The inbound stream ended.
    End,
    /// Any other frame from the client.
    Other,
    /// The bus delivered a message.
    Delivery,
    /// A message could not be sent to the client.
    SendFailed,
}

impl Incoming {
    /// Whether this is a text frame that holds a sample for the engine.
    pub open spec fn takes_sample(self) -> bool {
        self matches Incoming::Text(inbound) && inbound is Sample
    }
}

/// Whether the session goes on.
#[derive(Clone, Copy, Debug, PartialEq, Eq, Structural)]
pub enum Control {
    Continue,
    Stop,
}

/// The decode order: a payload that decodes as a command with one of the
/// three actions is that command, whatever else it decodes as; otherwise a
/// payload that decodes as a sample is that sample; anything else is unknown.
/// `action` is the decoded command's wire name, `sample` the decoded sample,
/// each `None` where the payload does not decode as one.
pub open spec fn classified(action: Option<Seq<char>>, sample: Option<SensorData>) -> Inbound {
    if action is Some && recognize(action->0) is Some {
        Inbound::Command(recognize(action->0)->0)
    } else if sample is Some {
        Inbound::Sample(sample->0)
    } else {
        Inbound::Unknown
    }
}

/// The wire name of a decoded command, if there is one.
pub open spec fn action_of(command: Option<ClientCommand>) -> Option<Seq<char>> {
    match command {
        Some(c) => Some(c.action@),
        None => None,
    }
}

/// What a command sets off: its status token on the bus, then its log entry.
pub open spec fn command_effects(action: CommandAction) -> Seq<Effect> {
    match action {
        CommandAction::CancelAlert => seq![
            Effect::Broadcast(Outbound::Token(StatusToken::CancelAlert)),
            Effect::Append(
                LogEntry { severity: Severity::FalseAlarm, is_false_alarm: true, g_force: 0 },
            ),
        ],
        CommandAction::ConfirmFall => seq![
            Effect::Broadcast(Outbound::Token(StatusToken::Confirmed)),
            Effect::Append(
                LogEntry { severity: Severity::AssistanceSent, is_false_alarm: false, g_force: 0 },
            ),
        ],
        CommandAction::ResetSystem => seq![
            Effect::Broadcast(Outbound::Token(StatusToken::ResetComplete)),
            Effect::Append(
                LogEntry { severity: Severity::Resolved, is_false_alarm: false, g_force: 0 },
            ),
        ],
    }
}

/// What an engine event sets off, before the relay of the sample.
pub open spec fn event_effects(event: Option<DetectionEvent>) -> Seq<Effect> {
    match event {
        None => Seq::empty(),
        Some(DetectionEvent::Validating) => seq![
            Effect::Broadcast(Outbound::Token(StatusToken::Validating)),
        ],
        Some(DetectionEvent::CriticalFall { g_force }) => seq![
            Effect::Broadcast(Outbound::CriticalFall { g_force }),
            Effect::Append(LogEntry { severity: Severity::Critical, is_false_alarm: false, g_force }),
        ],
        Some(DetectionEvent::NearMiss) => seq![
            Effect::Broadcast(Outbound::Token(StatusToken::NearMiss)),
        ],
    }
}

/// What a decoded sample sets off: the engine's event, if any, then always
/// the relay of the raw payload.
pub open spec fn sample_effects(event: Option<DetectionEvent>) -> Seq<Effect> {
    event_effects(event).push(Effect::Broadcast(Outbound::Relay))
}

/// The session's answer to one inbound text payload that arrives at `now`:
/// the engine's state afterwards and the effects, in order.
pub open spec fn dispatch(state: EngineState, inbound: Inbound, now: int) -> (
    EngineState,
    Seq<Effect>,
) {
    match inbound {
        Inbound::Command(action) => (state, command_effects(action)),
        Inbound::Sample(data) => {
            let (next, event) = step(state, data, now);
            (next, sample_effects(event))
        },
        Inbound::Unknown => (state, seq![Effect::Diagnostic]),
    }
}

/// The session's answer to anything its driver saw: the engine's state
/// afterwards, the effects in order, and whether the session goes on.
pub open spec fn react(state: EngineState, incoming: Incoming, now: int) -> (
    EngineState,
    Seq<Effect>,
    Control,
) {
    match incoming {
        Incoming::Text(inbound) => {
            let (next, effects) = dispatch(state, inbound, now);
            (next, effects, Control::Continue)
        },
        Incoming::Close => (state, Seq::empty(), Control::Stop),
        Incoming::End => (state, Seq::empty(), Control::Stop),
        Incoming::Other => (state, Seq::empty(), Control::Continue),
        Incoming::Delivery => (state, seq![Effect::Forward], Control::Continue),
        Incoming::SendFailed => (state, Seq::empty(), Control::Stop),
    }
}

/// Applies the decode order to the two decoding attempts on one payload.
pub fn classify(command: &Option<ClientCommand>, sample: Option<SensorData>) -> (inbound: Inbound)
    ensures
        inbound == classified(action_of(*command), sample),
{
    let action: Option<CommandAction> = match command {
        Some(c) => c.recognized(),
        None => None,
    };
    match action {
        Some(a) => Inbound::Command(a),
        None => match sample {
            Some(data) => Inbound::Sample(data),
            None => Inbound::Unknown,
        },
    }
}

/// The effects of a command, in order.
pub fn effects_of_command(action: CommandAction) -> (effects: Vec<Effect>)
    ensures
        effects@ == command_effects(action),
{
    let (token, severity, is_false_alarm) = match action {
        CommandAction::CancelAlert => (StatusToken::CancelAlert, Severity::FalseAlarm, true),
        CommandAction::ConfirmFall => (StatusToken::Confirmed, Severity::AssistanceSent, false),
        CommandAction::ResetSystem => (StatusToken::ResetComplete, Severity::Resolved, false),
    };
    let mut effects: Vec<Effect> = Vec::new();
    effects.push(Effect::Broadcast(Outbound::Token(token)));
    effects.push(Effect::Append(LogEntry { severity, is_false_alarm, g_force: 0 }));
    assert(effects@ =~= command_effects(action));
    effects
}

/// The effects of a decoded sample on which the engine reported `event`, in
/// order.
pub fn effects_of_sample(event: Option<DetectionEvent>) -> (effects: Vec<Effect>)
    ensures
        effects@ == sample_effects(event),
{
    let mut effects: Vec<Effect> = Vec::new();
    match event {
        None => {},
        Some(DetectionEvent::Validating) => {
            effects.push(Effect::Broadcast(Outbound::Token(StatusToken::Validating)));
        },
        Some(DetectionEvent::CriticalFall { g_force }) => {
            effects.push(Effect::Broadcast(Outbound::CriticalFall { g_force }));
            effects.push(
                Effect::Append(
                    LogEntry { severity: Severity::Critical, is_false_alarm: false, g_force },
                ),
            );
        },
        Some(DetectionEvent::NearMiss) => {
            effects.push(Effect::Broadcast(Outbound::Token(StatusToken::NearMiss)));
        },
    }
    assert(effects@ =~= event_effects(event));
    effects.push(Effect::Broadcast(Outbound::Relay));
    effects
}

/// The deciding half of one connection: it owns the connection's engine and
/// says, for everything the driver sees, what the driver is to do.
pub struct SensorSession {
    detector: FallDetector,
}

impl View for SensorSession {
    type V = EngineState;

    closed spec fn view(&self) -> EngineState {
        self.detector@
    }
}

impl SensorSession {
    /// A session whose engine is in the steady state.
    pub fn new() -> (session: Self)
        ensures
            session@ == EngineState::Monitoring,
    {
        SensorSession { detector: FallDetector::new() }
    }

    /// The session's engine.
    pub fn detector(&self) -> (detector: &FallDetector)
        ensures
            detector@ == self@,
    {
        &self.detector
    }

    /// Answers one classified text payload that arrives at `now`.
    pub fn handle_inbound_at(&mut self, inbound: Inbound, now: i64) -> (effects: Vec<Effect>)
        requires
            inbound is Sample ==> old(self)@.buffered() < MAX_BUFFER_LEN,
        ensures
            (final(self)@, effects@) == dispatch(old(self)@, inbound, now as int),
    {
        match inbound {
            Inbound::Command(action) => effects_of_command(action),
            Inbound::Sample(data) => {
                let event = self.detector.process_at(data, now);
                effects_of_sample(event)
            },
            Inbound::Unknown => {
                let mut effects: Vec<Effect> = Vec::new();
                effects.push(Effect::Diagnostic);
                assert(effects@ =~= seq![Effect::Diagnostic]);
                effects
            },
        }
    }

    /// Answers one text payload that arrives at `now`, given the two
    /// decoding attempts on it.
    pub fn handle_text_at(
        &mut self,
        command: &Option<ClientCommand>,
        sample: Option<SensorData>,
        now: i64,
    ) -> (effects: Vec<Effect>)
        requires
            classified(action_of(*command), sample) is Sample ==> old(self)@.buffered()
                < MAX_BUFFER_LEN,
        ensures
            (final(self)@, effects@) == dispatch(
                old(self)@,
                classified(action_of(*command), sample),
                now as int,
            ),
    {
        let inbound = classify(command, sample);
        self.handle_inbound_at(inbound, now)
    }

    /// Answers anything the driver saw at `now`.
    pub fn handle_at(&mut self, incoming: Incoming, now: i64) -> (answer: (
        Vec<Effect>,
        Control,
    ))
        requires
            incoming.takes_sample() ==> old(self)@.buffered() < MAX_BUFFER_LEN,
        ensures
            (final(self)@, answer.0@, answer.1) == react(old(self)@, incoming, now as int),
    {
        match incoming {
            Incoming::Text(inbound) => (self.handle_inbound_at(inbound, now), Control::Continue),
            Incoming::Close => (Vec::new(), Control::Stop),
            Incoming::End => (Vec::new(), Control::Stop),
            Incoming::Other => (Vec::new(), Control::Continue),
            Incoming::Delivery => {
                let mut effects: Vec<Effect> = Vec::new();
                effects.push(Effect::Forward);
                assert(effects@ =~= seq![Effect::Forward]);
                (effects, Control::Continue)
            },
            Incoming::SendFailed => (Vec::new(), Control::Stop),
        }
    }

    /// Answers anything the driver sees now: reads the wall clock and answers
    /// as `handle_at` does at that instant.
    pub fn handle(&mut self, incoming: Incoming) -> (answer: (Vec<Effect>, Control))
        requires
            incoming.takes_sample() ==> old(self)@.buffered() < MAX_BUFFER_LEN,
        ensures
            exists|now: int|
                i64::MIN <= now <= i64::MAX && (final(self)@, answer.0@, answer.1) == #[trigger] react(
                    old(self)@,
                    incoming,
                    now,
                ),
    {
        let now: i64 = now_millis();
        let answer = self.handle_at(incoming, now);
        assert((self@, answer.0@, answer.1) == react(old(self)@, incoming, now as int));
        answer
    }
}

} // verus!
