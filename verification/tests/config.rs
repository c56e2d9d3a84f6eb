use base64::Engine;
use gemini::json::JsonValue;
use gemini::v1beta::live::{
    ClientMessage, Content, GenerationConfig, InlineData, Part, PartData, RealtimeInput, Role,
    Setup, encode_client_message,
};

fn encoded_json(m: &ClientMessage) -> JsonValue {
    JsonValue::parse(&encode_client_message(m)).expect("frame is valid JSON")
}

#[test]
fn inline_data_encodes_base64() {
    let data = vec![0x1, 0x2, 0x3];
    let inline = InlineData::new("image/png", data.clone());
    let json = encoded_json(&ClientMessage::RealtimeInput(RealtimeInput::Audio(inline)));
    let audio = json.get("realtimeInput").unwrap().get("audio").unwrap();
    let encoded = audio.get("data").unwrap().as_str().unwrap();
    assert_eq!(
        encoded.as_str(),
        base64::engine::general_purpose::STANDARD.encode(data)
    );
}

#[test]
fn generation_config_serializes_optional() {
    let cfg = GenerationConfig::new()
        .with_max_output_tokens(10)
        .with_stop_sequences(vec!["END".to_string()]);
    let setup = Setup::new("models/test").with_generation_config(cfg);
    let json = encoded_json(&ClientMessage::Setup(setup));
    let value = json.get("setup").unwrap().get("generationConfig").unwrap();
    assert_eq!(
        value.get("maxOutputTokens").unwrap().as_num().unwrap().as_text(),
        "10"
    );
    let stops = value.get("stopSequences").unwrap().as_arr().unwrap();
    assert_eq!(stops[0].as_str().unwrap().as_str(), "END");
    assert!(value.get("temperature").is_none());
}

#[test]
fn setup_system_instruction_serializes_content() {
    let instruction = Content {
        parts: vec![],
        role: Some(Role::Model),
    };
    let setup = Setup::new("models/test").with_system_instruction(instruction);
    let json = encoded_json(&ClientMessage::Setup(setup));
    let got = json.get("setup").unwrap().get("systemInstruction").unwrap();
    let expected = JsonValue::parse("{\"role\":\"model\",\"parts\":[]}").unwrap();
    assert_eq!(got.to_text(), expected.to_text());
}

#[test]
fn setup_carries_model_and_defaults() {
    let setup = Setup::new("models/test");
    let json = encoded_json(&ClientMessage::Setup(setup));
    let s = json.get("setup").unwrap();
    assert_eq!(s.get("model").unwrap().as_str().unwrap().as_str(), "models/test");
    assert!(s.get("generationConfig").is_none());
    assert!(s.get("tools").is_none());
    assert!(s.get("sessionResumption").is_none());
}

#[test]
fn client_content_part_fields_survive_encoding() {
    let turns = vec![Content::new(
        Some(Role::User),
        vec![
            Part::new(PartData::Text("hello".into())),
            Part::new(PartData::InlineData(InlineData::new("audio/pcm", vec![0, 255, 7]))),
        ],
    )];
    let cc = gemini::v1beta::live::ClientContent::new(turns).is_turn_completed(true);
    let json = encoded_json(&ClientMessage::ClientContent(cc));
    let c = json.get("clientContent").unwrap();
    assert!(c.get("turnComplete").unwrap().as_bool().unwrap());
    let turn = &c.get("turns").unwrap().as_arr().unwrap()[0];
    assert_eq!(turn.get("role").unwrap().as_str().unwrap().as_str(), "user");
    let parts = turn.get("parts").unwrap().as_arr().unwrap();
    assert_eq!(
        parts[0].get("text").unwrap().as_str().unwrap().as_str(),
        "hello"
    );
    let inline = parts[1].get("inlineData").unwrap();
    assert_eq!(
        inline.get("mimeType").unwrap().as_str().unwrap().as_str(),
        "audio/pcm"
    );
    assert_eq!(
        inline.get("data").unwrap().as_str().unwrap().as_str(),
        base64::engine::general_purpose::STANDARD.encode(vec![0u8, 255, 7])
    );
}
