use dedale::classify::{action_kind, classify, is_terminate, ActionKind, DecodeAttempts, InboundKind};
use dedale::classify::{identify_message_type, WebSocketMessageType};
use dedale::ingest::{
    ingestion_plan, point_display_name, point_status, Batch, BatchState, Statement, TxDecision,
};
use dedale::registry::{Registry, RegistryError};
use dedale::session::{
    Command, Inbound, Input, Phase, PlanningCommand, PlanningPhase, PlanningSession, ReadOutcome,
    ReceiveCommand, ReceiveInput, ReceivePhase, ReceiveSession, Session,
};
use dedale::types::{AckResponse, ClientAction};
use dedale::wire::{
    connected_frame, event_ack_reply, event_frame, events_frame, export_success_reply,
    fetch_error_reply, goodbye_frame, ingest_error_reply, legacy_error_text, legacy_success_text, planning_frame,
    points_received_reply, ready_frame, Farewell,
};

fn attempts(a: bool, e: bool, m: bool, l: bool) -> DecodeAttempts {
    DecodeAttempts { as_action: a, as_event_ack: e, as_mobile_export: m, as_legacy_points: l }
}

fn serve(s: &mut Session) {
    assert!(s.on_input(Input::Control(false)).is_empty());
    assert!(s.on_input(Input::Outbound(false)).is_empty());
    assert_eq!(s.phase(), Phase::ReadSocket);
}

#[test]
fn overlapping_payload_classifies_as_client_action() {
    let text = r#"{"action":"x","id":"1","name":"y"}"#;
    assert_eq!(identify_message_type(text), WebSocketMessageType::Action);
    assert_eq!(classify(attempts(true, true, false, false)), InboundKind::ClientAction);
}

#[test]
fn classification_follows_priority() {
    assert_eq!(classify(attempts(false, true, true, true)), InboundKind::EventAck);
    assert_eq!(classify(attempts(false, false, true, true)), InboundKind::MobileExport);
    assert_eq!(classify(attempts(false, false, false, true)), InboundKind::LegacyPointArray);
    assert_eq!(classify(attempts(false, false, false, false)), InboundKind::Unrecognized);
}

#[test]
fn message_type_with_points_is_not_an_ack() {
    assert_eq!(identify_message_type(r#"{"id":"1","name":"action"}"#), WebSocketMessageType::EventAck);
    assert_eq!(identify_message_type(r#"{"action" : "get_events"}"#), WebSocketMessageType::Action);
    let text = r#"{"id":"1","name":"n","event":{},"points":[]}"#;
    assert_eq!(identify_message_type(text), WebSocketMessageType::ExportData);
    assert_eq!(identify_message_type(r#"{"id":"1","points":[]}"#), WebSocketMessageType::Unknown);
}

#[test]
fn action_values() {
    assert_eq!(action_kind("get_events"), ActionKind::GetEvents);
    assert_eq!(action_kind("terminate"), ActionKind::Terminate);
    assert_eq!(action_kind("connect"), ActionKind::Other);
    assert!(is_terminate("terminate"));
    assert!(!is_terminate("stop"));
    let a = ClientAction { action: "get_events".to_string() };
    assert_eq!(a.kind(), ActionKind::GetEvents);
}

#[test]
fn frames_have_exact_text() {
    assert_eq!(
        connected_frame(1),
        r#"{"eventCount":1,"message":"1 événement(s) disponible(s)","type":"connected"}"#
    );
    assert_eq!(goodbye_frame(Farewell::ServerClosed), r#"{"message":"Serveur fermé","type":"goodbye"}"#);
    assert_eq!(
        goodbye_frame(Farewell::ConnectionEnded),
        r#"{"message":"Connexion terminée","type":"goodbye"}"#
    );
    assert_eq!(event_frame(r#"{"id":"E1"}"#), r#"{"data":{"id":"E1"},"type":"event"}"#);
    assert_eq!(events_frame("[]"), r#"{"data":[],"type":"events"}"#);
    assert_eq!(planning_frame("[]"), r#"{"actions":[],"type":"planning_data"}"#);
    assert_eq!(
        ready_frame("E1"),
        r#"{"eventId":"E1","message":"Prêt à recevoir les données","type":"ready_to_receive"}"#
    );
}

#[test]
fn acknowledgments_have_exact_text() {
    assert_eq!(event_ack_reply("E1"), r#"{"code":3,"message":"Event E1 reçu avec succès"}"#);
    assert_eq!(
        export_success_reply("Fête", 2),
        r#"{"code":3,"message":"Event 'Fête' et 2 point(s) reçus avec succès"}"#
    );
    assert_eq!(
        ingest_error_reply("disk full"),
        r#"{"code":1,"message":"Erreur insertion points: disk full"}"#
    );
    assert_eq!(points_received_reply(12), r#"{"code":3,"message":"12 point(s) reçus"}"#);
    assert_eq!(legacy_success_text(), "fini");
    assert_eq!(legacy_error_text("x"), "erreur: x");
    let ack = AckResponse { code: -7, message: "say \"hi\"".to_string() };
    assert_eq!(ack.to_json(), r#"{"code":-7,"message":"say \"hi\""}"#);
}

#[test]
fn session_start_sends_connected() {
    let (s, cmds) = Session::start(1);
    assert_eq!(s.phase(), Phase::PollControl);
    assert_eq!(cmds, vec![Command::NotifyConnected, Command::SendConnected(1)]);
}

#[test]
fn control_terminate_preempts_pending_event() {
    let (mut s, _) = Session::start(1);
    let cmds = s.on_input(Input::Control(true));
    assert_eq!(
        cmds,
        vec![Command::SendGoodbye(Farewell::ServerClosed), Command::Close, Command::ReleaseRegistry]
    );
    assert!(s.is_closed());
    assert!(s.on_input(Input::Outbound(true)).is_empty());
    assert!(!cmds.contains(&Command::SendEvent));
}

#[test]
fn pending_event_is_pushed_without_closing() {
    let (mut s, _) = Session::start(1);
    assert!(s.on_input(Input::Control(false)).is_empty());
    let cmds = s.on_input(Input::Outbound(true));
    assert_eq!(cmds, vec![Command::SendEvent, Command::NotifyEventSent]);
    assert_eq!(s.phase(), Phase::ReadSocket);
    assert_eq!(s.on_input(Input::Read(ReadOutcome::WouldBlock)), vec![Command::Sleep]);
    assert_eq!(s.phase(), Phase::PollControl);
}

#[test]
fn scenario_get_events_then_client_terminate() {
    let (mut s, _) = Session::start(1);
    assert_eq!(connected_frame(1), r#"{"eventCount":1,"message":"1 événement(s) disponible(s)","type":"connected"}"#);
    serve(&mut s);
    let cmds = s.on_input(Input::Read(ReadOutcome::Text(Inbound::Action(action_kind("get_events")))));
    assert_eq!(cmds, vec![Command::FetchEvents]);
    assert_eq!(s.phase(), Phase::AwaitEvents);
    assert_eq!(s.on_input(Input::EventsFetched(true)), vec![Command::SendEvents]);
    assert!(!s.is_closed());
    serve(&mut s);
    let cmds = s.on_input(Input::Read(ReadOutcome::Text(Inbound::Action(ActionKind::Terminate))));
    assert_eq!(
        cmds,
        vec![Command::SendGoodbye(Farewell::ConnectionEnded), Command::Close, Command::ReleaseRegistry]
    );
    assert!(s.is_closed());
    let mut reg: Registry<u32, u32> = Registry::new();
    reg.install(7, 1, 2);
    for c in cmds {
        if c == Command::ReleaseRegistry {
            reg.release(7);
        }
    }
    assert_eq!(reg.event_handle().err(), Some(RegistryError::NoMobileConnected));
    assert_eq!(reg.control_handle().err(), Some(RegistryError::NoActiveConnection));
}

#[test]
fn scenario_mobile_export_two_points_one_photo() {
    let (mut s, _) = Session::start(1);
    serve(&mut s);
    let cmds = s.on_input(Input::Read(ReadOutcome::Text(Inbound::MobileExport { has_points: true })));
    assert_eq!(cmds, vec![Command::Ingest]);
    assert_eq!(s.phase(), Phase::AwaitIngest);
    let plan = ingestion_plan(&vec![1, 0]);
    assert_eq!(
        plan,
        vec![Statement::UpsertPoint(0), Statement::UpsertPicture(0, 0), Statement::UpsertPoint(1)]
    );
    let (mut batch, mut d) = Batch::begin(plan);
    let mut executed = 0;
    while let TxDecision::Execute(_) = d {
        executed += 1;
        d = batch.record(true);
    }
    assert_eq!(d, TxDecision::Commit);
    batch.commit();
    assert_eq!(batch.state(), BatchState::Committed);
    assert_eq!(executed, 3);
    let cmds = s.on_input(Input::IngestDone(true));
    assert_eq!(
        cmds,
        vec![
            Command::NotifyPointsUpdated,
            Command::SendExportSuccess,
            Command::NotifyDisconnected,
            Command::SendGoodbye(Farewell::DataReceived),
            Command::Close,
            Command::ReleaseRegistry,
        ]
    );
    assert!(s.is_closed());
}

#[test]
fn export_without_points_ends_without_ingesting() {
    let (mut s, _) = Session::start(1);
    serve(&mut s);
    let cmds = s.on_input(Input::Read(ReadOutcome::Text(Inbound::MobileExport { has_points: false })));
    assert!(!cmds.contains(&Command::Ingest));
    assert_eq!(cmds[0], Command::NotifyPointsUpdated);
    assert!(cmds.contains(&Command::SendGoodbye(Farewell::DataReceived)));
    assert_eq!(cmds.last(), Some(&Command::ReleaseRegistry));
    assert!(s.is_closed());
}

#[test]
fn failed_ingestion_keeps_session_open() {
    let (mut s, _) = Session::start(1);
    serve(&mut s);
    s.on_input(Input::Read(ReadOutcome::Text(Inbound::MobileExport { has_points: true })));
    assert_eq!(s.on_input(Input::IngestDone(false)), vec![Command::SendIngestError]);
    assert_eq!(s.phase(), Phase::PollControl);
}

#[test]
fn legacy_array_does_not_end_session() {
    let (mut s, _) = Session::start(1);
    serve(&mut s);
    assert_eq!(
        s.on_input(Input::Read(ReadOutcome::Text(Inbound::LegacyPointArray))),
        vec![Command::InsertLegacy]
    );
    assert_eq!(s.on_input(Input::LegacyDone(true)), vec![Command::SendFini, Command::Sleep]);
    serve(&mut s);
    s.on_input(Input::Read(ReadOutcome::Text(Inbound::LegacyPointArray)));
    assert_eq!(s.on_input(Input::LegacyDone(false)), vec![Command::SendLegacyError, Command::Sleep]);
    assert!(!s.is_closed());
}

#[test]
fn unrecognized_and_ack_keep_session_open() {
    let (mut s, _) = Session::start(1);
    serve(&mut s);
    assert!(s.on_input(Input::Read(ReadOutcome::Text(Inbound::Unrecognized))).is_empty());
    serve(&mut s);
    assert_eq!(
        s.on_input(Input::Read(ReadOutcome::Text(Inbound::EventAck))),
        vec![Command::SendEventAckReply]
    );
    assert!(!s.is_closed());
}

#[test]
fn socket_failure_ends_session() {
    let (mut s, _) = Session::start(1);
    serve(&mut s);
    assert_eq!(
        s.on_input(Input::Read(ReadOutcome::Failed)),
        vec![
            Command::NotifyDisconnected,
            Command::SendGoodbye(Farewell::ServerClosed),
            Command::Close,
            Command::ReleaseRegistry,
        ]
    );
    assert!(s.is_closed());
}

#[test]
fn registry_reports_absent_session() {
    let mut reg: Registry<String, String> = Registry::new();
    assert!(!reg.is_connected());
    assert_eq!(reg.event_handle().err(), Some(RegistryError::NoMobileConnected));
    assert_eq!(RegistryError::NoMobileConnected.message(), "Aucun mobile connecté");
    assert_eq!(RegistryError::NoActiveConnection.message(), "Aucune connexion active");
    reg.install(1, "e".to_string(), "c".to_string());
    assert_eq!(reg.event_handle().ok().map(|s| s.as_str()), Some("e"));
    assert_eq!(reg.control_handle().ok().map(|s| s.as_str()), Some("c"));
    reg.install(2, "e2".to_string(), "c2".to_string());
    assert_eq!(reg.event_handle().ok().map(|s| s.as_str()), Some("e2"));
    reg.release(1);
    assert_eq!(reg.event_handle().ok().map(|s| s.as_str()), Some("e2"));
    assert!(reg.is_connected());
    reg.release(2);
    assert!(!reg.is_connected());
    assert_eq!(reg.control_handle().err(), Some(RegistryError::NoActiveConnection));
}

#[test]
fn failing_statement_rolls_back_batch() {
    let plan = ingestion_plan(&vec![0, 0, 0, 0]);
    assert_eq!(plan.len(), 4);
    let (mut batch, d) = Batch::begin(plan);
    assert_eq!(d, TxDecision::Execute(Statement::UpsertPoint(0)));
    assert_eq!(batch.record(true), TxDecision::Execute(Statement::UpsertPoint(1)));
    assert_eq!(batch.record(true), TxDecision::Execute(Statement::UpsertPoint(2)));
    assert_eq!(batch.record(false), TxDecision::Rollback);
    assert_eq!(batch.state(), BatchState::RolledBack);

    let (mut again, mut d) = Batch::begin(ingestion_plan(&vec![0, 0, 0, 0]));
    let mut executed = 0;
    while let TxDecision::Execute(_) = d {
        executed += 1;
        d = again.record(true);
    }
    assert_eq!(d, TxDecision::Commit);
    again.commit();
    assert_eq!(again.state(), BatchState::Committed);
    assert_eq!(executed, 4);
}

#[test]
fn empty_batch_commits_at_once() {
    let (_, d) = Batch::begin(ingestion_plan(&vec![]));
    assert_eq!(d, TxDecision::Commit);
}

#[test]
fn point_defaults() {
    assert_eq!(point_display_name(&None), "Point");
    assert_eq!(point_display_name(&Some("Arche".to_string())), "Arche");
    assert_eq!(point_status(None), 0);
    assert_eq!(point_status(Some(2)), 2);
}

#[test]
fn receive_session_closes_after_stored_export() {
    let (mut s, entry) = ReceiveSession::start();
    assert_eq!(entry, vec![ReceiveCommand::NotifyConnected, ReceiveCommand::SendReady]);
    assert!(s.on_input(ReceiveInput::Ignored).is_empty());
    assert_eq!(s.on_input(ReceiveInput::Export { has_points: true }), vec![ReceiveCommand::Ingest]);
    assert_eq!(s.phase(), ReceivePhase::AwaitIngest);
    assert_eq!(s.on_input(ReceiveInput::IngestDone(false)), vec![ReceiveCommand::SendReceiveError]);
    assert_eq!(s.phase(), ReceivePhase::Reading);
    assert_eq!(s.on_input(ReceiveInput::Export { has_points: true }), vec![ReceiveCommand::Ingest]);
    assert_eq!(
        s.on_input(ReceiveInput::IngestDone(true)),
        vec![
            ReceiveCommand::NotifyPointsUpdated,
            ReceiveCommand::SendPointsReceived,
            ReceiveCommand::NotifyDisconnected,
            ReceiveCommand::SendGoodbye(Farewell::DataReceived),
            ReceiveCommand::Close,
        ]
    );
    assert_eq!(s.phase(), ReceivePhase::Closed);
    assert!(s.on_input(ReceiveInput::Export { has_points: true }).is_empty());
}

#[test]
fn receive_session_closes_after_empty_export_or_failure() {
    let (mut s, _) = ReceiveSession::start();
    let cmds = s.on_input(ReceiveInput::Export { has_points: false });
    assert!(!cmds.contains(&ReceiveCommand::Ingest));
    assert_eq!(cmds.last(), Some(&ReceiveCommand::Close));
    assert_eq!(s.phase(), ReceivePhase::Closed);
    let (mut t, _) = ReceiveSession::start();
    assert_eq!(t.on_input(ReceiveInput::Failed), vec![ReceiveCommand::NotifyDisconnected]);
    assert_eq!(t.phase(), ReceivePhase::Closed);
}

#[test]
fn planning_session_sends_planning_then_goodbye() {
    let (mut s, entry) = PlanningSession::start();
    assert_eq!(entry, vec![PlanningCommand::NotifyConnected, PlanningCommand::FetchPlanning]);
    assert_eq!(
        s.on_fetched(true),
        vec![
            PlanningCommand::SendPlanning,
            PlanningCommand::SendGoodbye(Farewell::PlanningSent),
            PlanningCommand::Close,
        ]
    );
    assert_eq!(s.phase(), PlanningPhase::Closed);
    assert_eq!(
        goodbye_frame(Farewell::PlanningSent),
        r#"{"message":"Planning envoyé avec succès","type":"goodbye"}"#
    );
}

#[test]
fn failed_planning_fetch_sends_nothing() {
    let (mut s, _) = PlanningSession::start();
    assert!(s.on_fetched(false).is_empty());
    assert_eq!(s.phase(), PlanningPhase::Closed);
}

#[test]
fn failed_events_fetch_keeps_session_serving() {
    let (mut s, _) = Session::start(1);
    serve(&mut s);
    s.on_input(Input::Read(ReadOutcome::Text(Inbound::Action(ActionKind::GetEvents))));
    assert_eq!(s.on_input(Input::EventsFetched(false)), vec![Command::SendFetchError]);
    assert_eq!(s.phase(), Phase::PollControl);
    assert_eq!(
        fetch_error_reply("db locked"),
        r#"{"code":1,"message":"Erreur récupération des événements: db locked"}"#
    );
}

#[test]
fn older_session_ending_keeps_newer_handles() {
    let mut reg: Registry<u32, u32> = Registry::new();
    reg.install(1, 10, 11);
    reg.install(2, 20, 21);
    let (mut older, _) = Session::start(1);
    let cmds = older.on_input(Input::Control(true));
    for c in cmds {
        if c == Command::ReleaseRegistry {
            reg.release(1);
        }
    }
    assert_eq!(reg.event_handle().ok(), Some(&20));
    assert_eq!(reg.control_handle().ok(), Some(&21));
}

#[test]
fn ack_message_escapes_control_characters() {
    let ack = AckResponse { code: 1, message: "a\tb\u{1}\\".to_string() };
    assert_eq!(ack.to_json(), "{\"code\":1,\"message\":\"a\\tb\\u0001\\\\\"}");
}

#[test]
fn transport_failure_ends_session() {
    let (mut s, _) = Session::start(1);
    assert_eq!(
        s.on_input(Input::TransportFailed),
        vec![
            Command::NotifyDisconnected,
            Command::SendGoodbye(Farewell::ServerClosed),
            Command::Close,
            Command::ReleaseRegistry,
        ]
    );
    assert!(s.is_closed());
}
