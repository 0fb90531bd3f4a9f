//! The message bus between the analysis stages, and what each stage does
//! with each message.
//!
//! A validated reading is fanned out from the receiver to the transmission
//! simulator, the pointing analyzer and the alarm/WebSocket stage; the two
//! analysis stages send their results on to the alarm/WebSocket stage, which
//! evaluates alarms and pushes everything to the WebSocket clients.

use vstd::prelude::*;
use crate::ws::WsMessageType;

verus! {

/// A message on the bus, generic over its payloads: the sensor reading `S`,
/// a transmission result `T`, a pointing result `P` and an alarm `A`.
#[derive(Debug, Clone)]
pub enum PipelineMessage<S, T, P, A> {
    ValidatedReading(S),
    TransmissionResult(T),
    PointingResult(P),
    AlarmTriggered(A),
    AllComputed(S, Vec<T>, P),
}

/// What the alarm/WebSocket stage does with a message.
#[derive(Debug, Clone, Copy, PartialEq, Eq, Structural)]
pub enum AlarmWsRoute {
    /// Evaluate the alarm rules on the reading, store and push each alarm
    /// raised, then push the reading itself.
    EvaluateAndPushReading,
    /// Push the payload to the WebSocket clients as a message of this type.
    Push(WsMessageType),
    /// Drop the message.
    Ignore,
}

/// The route the alarm/WebSocket stage takes for each kind of message.
pub open spec fn alarm_ws_route_of<S, T, P, A>(m: PipelineMessage<S, T, P, A>) -> AlarmWsRoute {
    match m {
        PipelineMessage::ValidatedReading(_) => AlarmWsRoute::EvaluateAndPushReading,
        PipelineMessage::TransmissionResult(_) => AlarmWsRoute::Push(
            WsMessageType::TransmissionError,
        ),
        PipelineMessage::PointingResult(_) => AlarmWsRoute::Push(WsMessageType::PointingAccuracy),
        _ => AlarmWsRoute::Ignore,
    }
}

/// What the alarm/WebSocket stage does with `m`.
pub fn alarm_ws_route<S, T, P, A>(m: &PipelineMessage<S, T, P, A>) -> (r: AlarmWsRoute)
    ensures
        r == alarm_ws_route_of(*m),
{
    match m {
        PipelineMessage::ValidatedReading(_) => AlarmWsRoute::EvaluateAndPushReading,
        PipelineMessage::TransmissionResult(_) => AlarmWsRoute::Push(
            WsMessageType::TransmissionError,
        ),
        PipelineMessage::PointingResult(_) => AlarmWsRoute::Push(WsMessageType::PointingAccuracy),
        _ => AlarmWsRoute::Ignore,
    }
}

/// Whether an analysis stage (transmission or pointing) works on `m`: only
/// validated readings are analysed, every other message is dropped.
pub fn analysis_handles<S, T, P, A>(m: &PipelineMessage<S, T, P, A>) -> (r: bool)
    ensures
        r == (*m is ValidatedReading),
{
    match m {
        PipelineMessage::ValidatedReading(_) => true,
        _ => false,
    }
}

/// The stages a validated reading is sent to.
#[derive(Debug, Clone, Copy, PartialEq, Eq, Structural)]
pub enum Stage {
    Transmission,
    Pointing,
    AlarmWs,
}

/// Where the receiver stands in ingesting one reading.
#[derive(Debug, Clone, Copy, PartialEq, Eq, Structural)]
pub enum IngestState {
    /// The reading awaits validation.
    Validating,
    /// The reading passed validation and awaits storage.
    Storing,
    /// The reading is stored and being sent to the stage with this index
    /// (0 transmission, 1 pointing, 2 alarm/WebSocket).
    Forwarding(u8),
    /// Ingestion ended, accepted or refused.
    Done(IngestResult),
}

/// How ingesting one reading ended.
#[derive(Debug, Clone, Copy, PartialEq, Eq, Structural)]
pub enum IngestResult {
    Accepted,
    RefusedInvalid,
    RefusedStorage,
}

/// What the receiver learns from the outside work it asked for.
#[derive(Debug, Clone, Copy, PartialEq, Eq, Structural)]
pub enum IngestEvent {
    ValidationPassed,
    ValidationFailed,
    Stored,
    StoreFailed,
    Sent,
    SendFailed,
}

/// What the receiver does next.
#[derive(Debug, Clone, Copy, PartialEq, Eq, Structural)]
pub enum IngestAction {
    /// Compute the cumulative error and store the reading.
    Store,
    /// Send the reading to this stage.
    SendTo(Stage),
    /// Log that the previous send failed, then send the reading to this stage.
    LogSendFailureThenSendTo(Stage),
    /// Log that the previous send failed, then finish.
    LogSendFailureThenFinish,
    /// Finish.
    Finish,
}

/// The stage at fan-out position `i`.
pub open spec fn stage_at(i: int) -> Stage {
    if i == 0 {
        Stage::Transmission
    } else if i == 1 {
        Stage::Pointing
    } else {
        Stage::AlarmWs
    }
}

/// The receiver's transition for one event.
pub open spec fn ingest_transition(s: IngestState, e: IngestEvent) -> (IngestState, IngestAction) {
    match (s, e) {
        (IngestState::Validating, IngestEvent::ValidationPassed) => (
            IngestState::Storing,
            IngestAction::Store,
        ),
        (IngestState::Validating, IngestEvent::ValidationFailed) => (
            IngestState::Done(IngestResult::RefusedInvalid),
            IngestAction::Finish,
        ),
        (IngestState::Storing, IngestEvent::Stored) => (
            IngestState::Forwarding(0),
            IngestAction::SendTo(Stage::Transmission),
        ),
        (IngestState::Storing, IngestEvent::StoreFailed) => (
            IngestState::Done(IngestResult::RefusedStorage),
            IngestAction::Finish,
        ),
        (IngestState::Forwarding(i), IngestEvent::Sent) => if i < 2 {
            (IngestState::Forwarding((i + 1) as u8), IngestAction::SendTo(stage_at(i + 1)))
        } else {
            (IngestState::Done(IngestResult::Accepted), IngestAction::Finish)
        },
        (IngestState::Forwarding(i), IngestEvent::SendFailed) => if i < 2 {
            (
                IngestState::Forwarding((i + 1) as u8),
                IngestAction::LogSendFailureThenSendTo(stage_at(i + 1)),
            )
        } else {
            (IngestState::Done(IngestResult::Accepted), IngestAction::LogSendFailureThenFinish)
        },
        _ => (s, IngestAction::Finish),
    }
}

/// One step of ingesting a reading: validation failure and storage failure
/// refuse it; once stored it is sent to the three stages in turn and accepted
/// whatever the sends report (a failed send is only logged).
pub fn ingest_step(s: IngestState, e: IngestEvent) -> (r: (IngestState, IngestAction))
    requires
        s matches IngestState::Forwarding(i) ==> i <= 2,
    ensures
        r == ingest_transition(s, e),
        r.0 matches IngestState::Forwarding(i) ==> i <= 2,
{
    match (s, e) {
        (IngestState::Validating, IngestEvent::ValidationPassed) => (
            IngestState::Storing,
            IngestAction::Store,
        ),
        (IngestState::Validating, IngestEvent::ValidationFailed) => (
            IngestState::Done(IngestResult::RefusedInvalid),
            IngestAction::Finish,
        ),
        (IngestState::Storing, IngestEvent::Stored) => (
            IngestState::Forwarding(0),
            IngestAction::SendTo(Stage::Transmission),
        ),
        (IngestState::Storing, IngestEvent::StoreFailed) => (
            IngestState::Done(IngestResult::RefusedStorage),
            IngestAction::Finish,
        ),
        (IngestState::Forwarding(i), IngestEvent::Sent) => if i < 2 {
            let next = if i == 0 {
                Stage::Pointing
            } else {
                Stage::AlarmWs
            };
            (IngestState::Forwarding(i + 1), IngestAction::SendTo(next))
        } else {
            (IngestState::Done(IngestResult::Accepted), IngestAction::Finish)
        },
        (IngestState::Forwarding(i), IngestEvent::SendFailed) => if i < 2 {
            let next = if i == 0 {
                Stage::Pointing
            } else {
                Stage::AlarmWs
            };
            (IngestState::Forwarding(i + 1), IngestAction::LogSendFailureThenSendTo(next))
        } else {
            (IngestState::Done(IngestResult::Accepted), IngestAction::LogSendFailureThenFinish)
        },
        _ => (s, IngestAction::Finish),
    }
}

/// A reading that fails validation is refused at once: it is neither stored
/// nor sent anywhere.
pub proof fn law_invalid_reading_goes_nowhere()
    ensures
        ingest_transition(IngestState::Validating, IngestEvent::ValidationFailed) == (
            IngestState::Done(IngestResult::RefusedInvalid),
            IngestAction::Finish,
        ),
{
}

/// Once a reading is stored it is sent to the transmission, pointing and
/// alarm/WebSocket stages in that order, and it is accepted whatever each
/// send reports.
pub proof fn law_stored_reading_is_fanned_out_and_accepted(
    e1: IngestEvent,
    e2: IngestEvent,
    e3: IngestEvent,
)
    requires
        e1 == IngestEvent::Sent || e1 == IngestEvent::SendFailed,
        e2 == IngestEvent::Sent || e2 == IngestEvent::SendFailed,
        e3 == IngestEvent::Sent || e3 == IngestEvent::SendFailed,
    ensures
        ({
            let (s0, a0) = ingest_transition(IngestState::Storing, IngestEvent::Stored);
            let (s1, a1) = ingest_transition(s0, e1);
            let (s2, a2) = ingest_transition(s1, e2);
            let (s3, a3) = ingest_transition(s2, e3);
            &&& a0 == IngestAction::SendTo(Stage::Transmission)
            &&& (a1 == IngestAction::SendTo(Stage::Pointing) || a1
                == IngestAction::LogSendFailureThenSendTo(Stage::Pointing))
            &&& (a2 == IngestAction::SendTo(Stage::AlarmWs) || a2
                == IngestAction::LogSendFailureThenSendTo(Stage::AlarmWs))
            &&& (a3 == IngestAction::Finish || a3 == IngestAction::LogSendFailureThenFinish)
            &&& s3 == IngestState::Done(IngestResult::Accepted)
        }),
{
}

} // verus!
