use gemini::json::JsonValue;
use gemini::v1beta::live::{
    ClientContent, ClientMessage, Content, DecodeError, Part, PartData, Role, ServerContent,
    ServerMessage, decode_server_message, encode_client_message,
};

#[test]
fn serializes_turn_messages() {
    let content = ClientContent::new(vec![Content::new(
        Some(Role::User),
        vec![Part::new(PartData::Text("hi".into()))],
    )])
    .is_turn_completed(true);
    let frame = encode_client_message(&ClientMessage::ClientContent(content));
    let json = JsonValue::parse(&frame).expect("serialize");
    let cc = json.get("clientContent").unwrap();
    let turn = &cc.get("turns").unwrap().as_arr().unwrap()[0];
    assert_eq!(turn.get("role").unwrap().as_str().unwrap().as_str(), "user");
    let part = &turn.get("parts").unwrap().as_arr().unwrap()[0];
    assert_eq!(part.get("text").unwrap().as_str().unwrap().as_str(), "hi");
    assert!(cc.get("turnComplete").unwrap().as_bool().unwrap());
}

#[test]
fn deserializes_server_content_v1() {
    let data = "{\n  \"setupComplete\": {}\n}\n";
    let msg = decode_server_message(data).unwrap();

    match msg {
        ServerMessage::SetupComplete => {}
        other => panic!("unexpected message: {:?}", other),
    }
}

#[test]
fn deserializes_server_content_v2() {
    let data = "{\n  \"serverContent\": {\n    \"turnComplete\": true\n  },\n  \"usageMetadata\": {\n    \"promptTokenCount\": 536,\n    \"responseTokenCount\": 10,\n    \"totalTokenCount\": 546,\n    \"promptTokensDetails\": [\n      {\n        \"modality\": \"TEXT\",\n        \"tokenCount\": 535\n      },\n      {\n        \"modality\": \"AUDIO\",\n        \"tokenCount\": 1\n      }\n    ],\n    \"responseTokensDetails\": [\n      {\n        \"modality\": \"TEXT\",\n        \"tokenCount\": 10\n      }\n    ]\n  }\n}\n";
    let msg = decode_server_message(data).unwrap();

    match msg {
        ServerMessage::ServerContent {
            server_content,
            usage_metadata,
        } => {
            assert!(matches!(server_content, ServerContent::TurnComplete));
            assert!(!matches!(server_content, ServerContent::GenerationComplete));
            assert!(usage_metadata.is_some());
        }
        other => panic!("unexpected message: {:?}", other),
    }
}

#[test]
fn deserializes_server_content_v3() {
    let data = "{\n  \"serverContent\": {\n    \"generationComplete\": true\n  }\n}\n";
    let msg = decode_server_message(data).unwrap();

    match msg {
        ServerMessage::ServerContent {
            server_content,
            usage_metadata,
        } => {
            assert!(matches!(server_content, ServerContent::GenerationComplete));
            assert!(!matches!(server_content, ServerContent::TurnComplete));
            assert!(usage_metadata.is_none());
        }
        other => panic!("unexpected message: {:?}", other),
    }
}

#[test]
fn deserializes_server_content_with_inline() {
    let data = "{\n  \"serverContent\": {\n    \"modelTurn\": {\n      \"parts\": [\n        {\n          \"inlineData\": {\n            \"mimeType\": \"audio/pcm;rate=24000\",\n            \"data\": \"AAAAAA==\"\n          }\n        }\n      ]\n    }\n  }\n}\n";

    let msg = decode_server_message(data).unwrap();
    match msg {
        ServerMessage::ServerContent { server_content, .. } => {
            assert!(matches!(server_content, ServerContent::ModelTurn(..)));

            match server_content {
                ServerContent::ModelTurn(turn) => match &turn.parts[0].data {
                    PartData::InlineData(inline_data) => {
                        assert_eq!(inline_data.mime_type(), "audio/pcm;rate=24000");
                        assert_eq!(inline_data.data(), &[0u8, 0, 0, 0]);
                    }
                    other => panic!("unexpected part: {:?}", other),
                },
                _ => panic!(),
            }
        }
        other => panic!("unexpected message: {:?}", other),
    }
}

#[test]
fn deserializes_tool_call() {
    let data = r#"{
        "toolCall": {
            "functionCalls": [
                {"id": "1", "name": "foo", "args": {"x": 1}}
            ]
        }
    }"#;

    let msg = decode_server_message(data).unwrap();
    match msg {
        ServerMessage::ToolCall(call) => {
            assert_eq!(call.function_calls.len(), 1);
            assert_eq!(call.function_calls[0].name, "foo");
        }
        other => panic!("unexpected message: {:?}", other),
    }
}

#[test]
fn deserializes_tool_call_cancellation() {
    let data = r#"{
        "toolCallCancellation": {"ids": ["abc", "def"]}
    }"#;

    let msg = decode_server_message(data).unwrap();
    match msg {
        ServerMessage::ToolCallCancellation(cancel) => {
            assert_eq!(cancel.ids, ["abc", "def"]);
        }
        other => panic!("unexpected message: {:?}", other),
    }
}

#[test]
fn deserializes_go_away() {
    let data = r#"{
        "goAway": {"timeLeft": "10s"}
    }"#;

    let msg = decode_server_message(data).unwrap();
    match msg {
        ServerMessage::GoAway(go) => {
            assert_eq!(go.time_left.as_deref(), Some("10s"));
        }
        other => panic!("unexpected message: {:?}", other),
    }
}

#[test]
fn deserializes_session_resumption_update() {
    let data = r#"{
        "sessionResumptionUpdate": {"newHandle": "h", "resumable": true}
    }"#;

    let msg = decode_server_message(data).unwrap();
    match msg {
        ServerMessage::SessionResumptionUpdate(update) => {
            assert_eq!(update.new_handle.as_deref(), Some("h"));
            assert_eq!(update.resumable, Some(true));
        }
        other => panic!("unexpected message: {:?}", other),
    }
}

#[test]
fn deserializes_executable_code() {
    let data = "{\n  \"serverContent\": {\n    \"modelTurn\": {\n      \"parts\": [\n        {\n          \"executableCode\": {\n            \"language\": \"PYTHON\",\n            \"code\": \"print(default_api.time())\\n\"\n          }\n        }\n      ]\n    }\n  }\n}\n";

    let msg = decode_server_message(data).unwrap();
    match msg {
        ServerMessage::ServerContent { server_content, .. } => {
            assert!(matches!(server_content, ServerContent::ModelTurn(..)));

            match server_content {
                ServerContent::ModelTurn(turn) => match &turn.parts[0].data {
                    PartData::ExecutableCode(executable) => {
                        assert_eq!(executable.language, "PYTHON");
                        assert_eq!(executable.code, "print(default_api.time())\n");
                    }
                    other => panic!("unexpected part: {:?}", other),
                },
                _ => panic!(),
            }
        }
        other => panic!("unexpected message: {:?}", other),
    }
}

fn part_of_model_turn(part_json: &str) -> Part {
    let mut frame = String::from("{\"serverContent\": {\"modelTurn\": {\"parts\": [");
    frame.push_str(part_json);
    frame.push_str("]}}}");
    match decode_server_message(&frame).unwrap() {
        ServerMessage::ServerContent {
            server_content: ServerContent::ModelTurn(mut turn),
            ..
        } => turn.parts.remove(0),
        other => panic!("unexpected message: {:?}", other),
    }
}

#[test]
fn deserializes_part_variants() {
    let part = part_of_model_turn(r#"{"text": "hi"}"#);
    match part.data {
        PartData::Text(text) => assert_eq!(text, "hi"),
        _ => panic!(),
    }

    let part = part_of_model_turn(r#"{"inlineData": {"mimeType": "image/png", "data": "AA=="}}"#);
    match part.data {
        PartData::InlineData(inline_data) => assert_eq!(inline_data.mime_type(), "image/png"),
        _ => panic!(),
    }

    let part = part_of_model_turn(r#"{"functionCall": {"name": "foo", "args": {}}}"#);
    match part.data {
        PartData::FunctionCall(function_call) => assert_eq!(function_call.name, "foo"),
        _ => panic!(),
    }

    let part = part_of_model_turn(r#"{"functionResponse": {"name": "foo", "response": {"result": 1}}}"#);
    match part.data {
        PartData::FunctionResponse(function_response) => assert_eq!(function_response.name, "foo"),
        _ => panic!(),
    }

    let part = part_of_model_turn(r#"{"fileData": {"mimeType": "text/plain", "fileUri": "p"}}"#);
    if let PartData::FileData(file_data) = part.data {
        assert_eq!(file_data.mime_type(), "text/plain");
        assert_eq!(file_data.file_uri(), "p");
    } else {
        panic!();
    }
}

#[test]
fn envelope_priority_and_unknown_fields() {
    // Two known fields at once: the priority order picks the first.
    let msg = decode_server_message(r#"{"goAway": {}, "setupComplete": {}}"#).unwrap();
    assert!(matches!(msg, ServerMessage::SetupComplete));

    // No known field at all: the frame is rejected as unknown.
    let err = decode_server_message(r#"{"somethingElse": 1}"#).unwrap_err();
    assert_eq!(err, DecodeError::UnknownMessage);

    // Not JSON at all.
    let err = decode_server_message("not json").unwrap_err();
    assert_eq!(err, DecodeError::InvalidJson);

    // A known field with a payload of the wrong shape.
    let err = decode_server_message(r#"{"toolCall": {"functionCalls": 5}}"#).unwrap_err();
    assert_eq!(err, DecodeError::MalformedField);
}

#[test]
fn tool_call_without_calls_defaults_empty() {
    let msg = decode_server_message(r#"{"toolCall": {}}"#).unwrap();
    match msg {
        ServerMessage::ToolCall(call) => assert_eq!(call.function_calls.len(), 0),
        other => panic!("unexpected message: {:?}", other),
    }
}
