use gemini::json::JsonValue;
use gemini::v1beta::rest::{Client, Error};
use gemini::v1beta::response::response_from_json;
use gemini::v1beta::request::Request;
use gemini::v1beta::{Content, Part, PartData, Role};

#[test]
fn request_serializes_text() {
    let request = Request::new(vec![Content::new(
        Role::User,
        vec![Part::new(PartData::Text("hi".into()))],
    )]);
    let json = request.to_json();
    let content = &json.get("contents").unwrap().as_arr().unwrap()[0];
    assert_eq!(content.get("role").unwrap().as_str().unwrap().as_str(), "user");
    let part = &content.get("parts").unwrap().as_arr().unwrap()[0];
    assert_eq!(part.get("text").unwrap().as_str().unwrap().as_str(), "hi");
}

#[test]
fn response_deserializes() {
    let data = r#"{
        "candidates": [
            {
                "content": {"parts": [{"text": "hi"}], "role": "model"},
                "finishReason": "STOP",
                "index": 0,
                "safetyRatings": []
            }
        ],
        "usageMetadata": {"promptTokenCount": 5, "candidatesTokenCount": 10, "totalTokenCount": 15}
    }"#;
    let value = JsonValue::parse(data).unwrap();
    let resp = response_from_json(&value).unwrap();
    assert_eq!(resp.candidates.len(), 1);
    assert!(resp.usage_metadata.is_some());
}

#[test]
fn urls_carry_model_and_key() {
    let client = Client::new("key", "test").with_api_base("http://h/v1beta/models".to_string());
    assert_eq!(
        client.generate_url(),
        "http://h/v1beta/models/test:generateContent?key=key"
    );
    assert_eq!(
        client.stream_url(),
        "http://h/v1beta/models/test:streamGenerateContent?alt=sse&key=key"
    );
}

#[test]
fn response_from_body_classifies() {
    let client = Client::new("key", "test");
    match client.response_from_body(false, "bad") {
        Err(Error::ApiError(body)) => assert_eq!(body, "bad"),
        other => panic!("unexpected result: {:?}", other),
    }
    match client.response_from_body(true, "invalid") {
        Err(Error::Json(_)) => {}
        other => panic!("unexpected result: {:?}", other),
    }
    let resp = client
        .response_from_body(true, r#"{"candidates": []}"#)
        .unwrap();
    assert_eq!(resp.candidates.len(), 0);
}

#[test]
fn sse_chunks_need_the_event_prefix() {
    let client = Client::new("key", "test");
    let ok = client
        .sse_chunk_to_response("data: {\"candidates\": []}\n\n")
        .unwrap();
    assert!(ok.usage_metadata.is_none());
    let ok = client
        .sse_chunk_to_response("data: {\"usageMetadata\": {}}\n\n")
        .unwrap();
    assert!(ok.usage_metadata.is_some());

    match client.sse_chunk_to_response("data: invalid\n\n") {
        Err(Error::Json(_)) => {}
        other => panic!("unexpected result: {:?}", other),
    }
    match client.sse_chunk_to_response("{\"candidates\": []}") {
        Err(Error::ApiError(m)) => {
            assert!(m.contains("missing 'data: ' prefix"));
        }
        other => panic!("unexpected result: {:?}", other),
    }
}
