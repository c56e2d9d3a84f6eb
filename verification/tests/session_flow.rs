use gemini::json::JsonValue;
use gemini::v1beta::live::{
    ClientMessage, FunctionResponse, FunctionResult, ServerMessage, Setup, ToolResponse,
    encode_client_message,
};
use gemini::v1beta::session::{Session, SessionAction, SessionEvent, SessionPhase};

#[test]
fn connect_tool_call_and_response_flow() {
    let mut session = Session::new(Setup::new("models/x"));

    // The socket comes up: the setup frame goes out and connect resolves.
    let actions = session.step(SessionEvent::TransportConnected);
    assert_eq!(actions.len(), 2);
    match &actions[0] {
        SessionAction::SendFrame(frame) => {
            let json = JsonValue::parse(frame).unwrap();
            let model = json.get("setup").unwrap().get("model").unwrap();
            assert_eq!(model.as_str().unwrap().as_str(), "models/x");
        }
        other => panic!("unexpected action: {:?}", other),
    }
    assert!(matches!(actions[1], SessionAction::SignalConnected));
    assert_eq!(session.phase, SessionPhase::Active);

    // The server acknowledges.
    let actions = session.step(SessionEvent::Frame("{\"setupComplete\": {}}".to_string()));
    assert_eq!(actions.len(), 1);
    match &actions[0] {
        SessionAction::Deliver(ServerMessage::SetupComplete) => {}
        other => panic!("unexpected action: {:?}", other),
    }

    // The model asks for a function.
    let frame = r#"{"toolCall":{"functionCalls":[{"id":"1","name":"time","args":{}}]}}"#;
    let actions = session.step(SessionEvent::Frame(frame.to_string()));
    assert_eq!(actions.len(), 1);
    match &actions[0] {
        SessionAction::Deliver(ServerMessage::ToolCall(call)) => {
            assert_eq!(call.function_calls[0].id.as_deref(), Some("1"));
            assert_eq!(call.function_calls[0].name, "time");
        }
        other => panic!("unexpected action: {:?}", other),
    }

    // The application answers; the encoded frame carries the flag.
    let response = FunctionResponse::new(
        Some("1".to_string()),
        "time",
        FunctionResult::new(JsonValue::of_string("noon")),
    )
    .with_will_continue(false);
    let message = ClientMessage::ToolResponse(ToolResponse::new(vec![response]));
    let actions = session.step(SessionEvent::Call(message));
    assert_eq!(actions.len(), 1);
    match &actions[0] {
        SessionAction::SendFrame(frame) => {
            let json = JsonValue::parse(frame).unwrap();
            let responses = json
                .get("toolResponse")
                .unwrap()
                .get("functionResponses")
                .unwrap()
                .as_arr()
                .unwrap();
            let will_continue = responses[0].get("willContinue").unwrap();
            assert_eq!(will_continue.as_bool(), Some(false));
        }
        other => panic!("unexpected action: {:?}", other),
    }
}

#[test]
fn malformed_frames_are_discarded_and_the_session_continues() {
    let mut session = Session::new(Setup::new("models/x"));
    session.step(SessionEvent::TransportConnected);

    let actions = session.step(SessionEvent::Frame("not json".to_string()));
    assert_eq!(actions.len(), 0);
    assert_eq!(session.phase, SessionPhase::Active);

    let actions = session.step(SessionEvent::Frame(
        "{\"goAway\": {\"timeLeft\": \"5s\"}}".to_string(),
    ));
    assert_eq!(actions.len(), 1);
    match &actions[0] {
        SessionAction::Deliver(ServerMessage::GoAway(go)) => {
            assert_eq!(go.time_left.as_deref(), Some("5s"));
        }
        other => panic!("unexpected action: {:?}", other),
    }
}

#[test]
fn resumption_updates_replace_the_handle_only_when_resumable() {
    let mut session = Session::new(Setup::new("models/x"));
    session.step(SessionEvent::TransportConnected);
    assert!(session.resumption_handle.is_none());

    session.step(SessionEvent::Frame(
        r#"{"sessionResumptionUpdate": {"newHandle": "h", "resumable": true}}"#.to_string(),
    ));
    assert_eq!(session.resumption_handle.as_deref(), Some("h"));

    session.step(SessionEvent::Frame(
        r#"{"sessionResumptionUpdate": {"newHandle": "other", "resumable": false}}"#.to_string(),
    ));
    assert_eq!(session.resumption_handle.as_deref(), Some("h"));
}

#[test]
fn reconnect_merges_the_stored_handle_into_the_setup() {
    let mut session = Session::new(Setup::new("models/x"));
    session.step(SessionEvent::TransportConnected);
    session.step(SessionEvent::Frame(
        r#"{"sessionResumptionUpdate": {"newHandle": "h", "resumable": true}}"#.to_string(),
    ));

    // A fresh transport handshake on the same session re-sends the setup.
    session.phase = SessionPhase::Connecting;
    let actions = session.step(SessionEvent::TransportConnected);
    match &actions[0] {
        SessionAction::SendFrame(frame) => {
            let json = JsonValue::parse(frame).unwrap();
            let handle = json
                .get("setup")
                .unwrap()
                .get("sessionResumption")
                .unwrap()
                .get("handle")
                .unwrap();
            assert_eq!(handle.as_str().unwrap().as_str(), "h");
        }
        other => panic!("unexpected action: {:?}", other),
    }
    // The connect signal fires only once per session.
    assert_eq!(actions.len(), 1);
}

#[test]
fn calls_are_encoded_in_order_and_closing_stops_everything() {
    let mut session = Session::new(Setup::new("models/x"));
    session.step(SessionEvent::TransportConnected);

    let first = ClientMessage::RealtimeInput(gemini::v1beta::live::RealtimeInput::Text(
        "one".to_string(),
    ));
    let second = ClientMessage::RealtimeInput(gemini::v1beta::live::RealtimeInput::Text(
        "two".to_string(),
    ));
    let expected_first = encode_client_message(&first);
    let expected_second = encode_client_message(&second);

    let mut frames: Vec<String> = Vec::new();
    for m in [first, second] {
        for a in session.step(SessionEvent::Call(m)) {
            if let SessionAction::SendFrame(f) = a {
                frames.push(f);
            }
        }
    }
    assert_eq!(frames, vec![expected_first, expected_second]);

    let actions = session.step(SessionEvent::Disconnect(None));
    assert_eq!(actions.len(), 1);
    assert!(matches!(actions[0], SessionAction::CloseSocket(None)));
    assert_eq!(session.phase, SessionPhase::Closed);

    // Nothing more is sent or delivered after close.
    let actions = session.step(SessionEvent::Frame("{\"setupComplete\": {}}".to_string()));
    assert_eq!(actions.len(), 0);
}
