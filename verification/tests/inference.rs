use base64::Engine;
use chronos::error::ChronosError;
use chronos::inference::{
    analysis_request_body, answer_from_response, check_status, generate_url, json_string, request_body,
    request_error, response_decode_error, OllamaVision, VlmAnswer, SCREENSHOT_PROMPT,
};
use chronos::models::VlmConfig;

#[test]
fn test_ollama_vision_creation() {
    let config = VlmConfig::default();
    let _vision = OllamaVision::new(config).unwrap();
}

#[test]
fn test_ollama_vision_invalid_timeout() {
    let config = VlmConfig { timeout_seconds: 0, ..VlmConfig::default() };
    let result = OllamaVision::new(config);
    assert!(matches!(
        result,
        Err(ChronosError::Config(msg)) if msg.contains("timeout_seconds must be greater than zero")
    ));
}

#[test]
fn test_ollama_vision_keeps_config() {
    let config = VlmConfig { model_name: "test-model".to_string(), ..VlmConfig::default() };
    let vision = OllamaVision::new(config.clone()).unwrap();
    assert_eq!(vision.config(), &config);
}

#[test]
fn test_generate_url() {
    assert_eq!(generate_url("http://localhost:11434"), "http://localhost:11434/api/generate");
    assert_eq!(generate_url("http://localhost:11434///"), "http://localhost:11434/api/generate");
    assert_eq!(generate_url(""), "/api/generate");
}

#[test]
fn test_image_is_sent_in_standard_base64() {
    let config = VlmConfig { model_name: "m".to_string(), ..VlmConfig::default() };
    let cases: [(&[u8], String); 6] = [
        (&[0, 1, 2, 3], base64::engine::general_purpose::STANDARD.encode([0, 1, 2, 3])),
        (b"", String::new()),
        (b"f", "Zg==".to_string()),
        (b"fo", "Zm8=".to_string()),
        (b"foobar", "Zm9vYmFy".to_string()),
        (&[0xfb, 0xff], "+/8=".to_string()),
    ];
    for (bytes, expected) in cases {
        assert_eq!(analysis_request_body(&config, bytes), request_body("m", SCREENSHOT_PROMPT, &expected));
    }
}

#[test]
fn test_json_string_matches_serde() {
    for s in ["plain", "quote \" and \\ backslash", "tab\tnew\nline\r", "\u{1}\u{1f}\u{8}\u{c}", "ünïcödé 🦀", "\u{7f}"] {
        assert_eq!(json_string(s), serde_json::to_string(s).unwrap());
    }
}

#[test]
fn test_request_body_is_the_generation_request() {
    let body = request_body("test-model", SCREENSHOT_PROMPT, "AAECAw==");
    let value: serde_json::Value = serde_json::from_str(&body).unwrap();
    let mut expected = serde_json::Map::new();
    expected.insert("model".to_string(), serde_json::Value::String("test-model".to_string()));
    expected.insert("prompt".to_string(), serde_json::Value::String(SCREENSHOT_PROMPT.to_string()));
    expected.insert(
        "images".to_string(),
        serde_json::Value::Array(vec![serde_json::Value::String("AAECAw==".to_string())]),
    );
    expected.insert("stream".to_string(), serde_json::Value::Bool(false));
    expected.insert("format".to_string(), serde_json::Value::String("json".to_string()));
    let expected = serde_json::Value::Object(expected);
    assert_eq!(value, expected);
    // Byte for byte what serde_json writes for the same value.
    assert_eq!(body, serde_json::to_string(&expected).unwrap());
}

#[test]
fn test_analysis_request_body_encodes_image() {
    let config = VlmConfig { model_name: "test-model".to_string(), ..VlmConfig::default() };
    let body = analysis_request_body(&config, &[0, 1, 2, 3]);
    assert_eq!(body, request_body("test-model", SCREENSHOT_PROMPT, "AAECAw=="));
}

#[test]
fn test_error_mapping() {
    assert_eq!(request_error(true, "slow".to_string()), ChronosError::Timeout("slow".to_string()));
    assert_eq!(request_error(false, "refused".to_string()), ChronosError::Inference("refused".to_string()));
    assert_eq!(check_status(200, "200 OK"), Ok(()));
    assert_eq!(check_status(299, "299"), Ok(()));
    assert_eq!(
        check_status(500, "500 Internal Server Error"),
        Err(ChronosError::Inference("Ollama returned error status: 500 Internal Server Error".to_string()))
    );
    assert!(check_status(302, "302 Found").is_err());
    assert_eq!(response_decode_error(true, "t".to_string()), ChronosError::Timeout("t".to_string()));
    assert!(matches!(
        response_decode_error(false, "expected value".to_string()),
        ChronosError::Inference(msg) if msg.contains("Failed to parse Ollama response JSON")
    ));
}

#[test]
fn test_json_answer_fields_are_kept() {
    let answer = VlmAnswer {
        description: "User is writing Rust code".to_string(),
        active_application: Some("VS Code".to_string()),
        activity_category: Some("Development".to_string()),
        key_entities: vec!["Rust".to_string(), "Inference".to_string()],
    };
    assert_eq!(answer_from_response("{...}", Some(answer.clone())), answer);
}

#[test]
fn test_plain_text_answer_becomes_description() {
    let raw = "I see a person working on a computer.";
    let answer = answer_from_response(raw, None);
    assert_eq!(answer.description, raw);
    assert_eq!(answer.active_application, None);
    assert_eq!(answer.activity_category, None);
    assert!(answer.key_entities.is_empty());
}
