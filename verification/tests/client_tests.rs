use nimbuscode::config::Config;
use nimbuscode::decode::{
    interpret_completion_response, interpret_models_response, parse_completion_body,
};
use nimbuscode::encode::{bearer_header_value, request_headers, request_to_json};
use nimbuscode::errors::ClientError;
use nimbuscode::messages::{
    build_completion_request, build_messages, first_choice_content, free_models, role_name,
    Message, OpenRouterChoice, OpenRouterResponse, Role,
};
use nimbuscode::text::is_zero_decimal;

#[test]
fn test_empty_choices_is_empty_response() {
    // a 2xx body whose choices array is empty: EmptyResponse, no parse error
    let err = interpret_completion_response(200, "{\"choices\": []}").unwrap_err();
    assert!(matches!(err, ClientError::EmptyResponse));
}

#[test]
fn test_success_returns_first_choice_content() {
    let body = "{\"choices\":[{\"message\":{\"role\":\"assistant\",\"content\":\"first\"}},{\"message\":{\"role\":\"assistant\",\"content\":\"second\"}}]}";
    assert_eq!(interpret_completion_response(200, body).unwrap(), "first");
}

#[test]
fn test_api_error_preserves_body_verbatim() {
    let body = "{\"error\":{\"message\":\"quota exceeded\"}}";
    match interpret_completion_response(429, body).unwrap_err() {
        ClientError::ApiError { status, body: kept } => {
            assert_eq!(status, 429);
            assert_eq!(kept, body);
        }
        other => panic!("unexpected error: {:?}", other),
    }
}

#[test]
fn test_unparseable_success_body_is_network_error() {
    let err = interpret_completion_response(200, "not json at all").unwrap_err();
    assert!(matches!(err, ClientError::NetworkError(_)));
    let err = interpret_completion_response(200, "{\"choices\": 7}").unwrap_err();
    assert!(matches!(err, ClientError::NetworkError(_)));
}

#[test]
fn test_parse_completion_body_reads_roles() {
    let body = "{\"choices\":[{\"message\":{\"role\":\"assistant\",\"content\":\"hi\"}}]}";
    let response = parse_completion_body(body).unwrap();
    assert_eq!(response.choices.len(), 1);
    assert!(matches!(response.choices[0].message.role, Role::Assistant));
    assert_eq!(response.choices[0].message.content, "hi");
}

#[test]
fn test_unstated_role_defaults_to_assistant() {
    // a role that is absent or no string counts as unstated
    for body in [
        "{\"choices\":[{\"message\":{\"content\":\"x\"}}]}",
        "{\"choices\":[{\"message\":{\"role\":5,\"content\":\"x\"}}]}",
    ] {
        let response = parse_completion_body(body).unwrap();
        assert!(matches!(response.choices[0].message.role, Role::Assistant));
        assert_eq!(interpret_completion_response(200, body).unwrap(), "x");
    }
}

#[test]
fn test_unknown_role_name_is_malformed() {
    let body = "{\"choices\":[{\"message\":{\"role\":\"bot\",\"content\":\"x\"}}]}";
    let err = interpret_completion_response(200, body).unwrap_err();
    assert!(matches!(err, ClientError::NetworkError(_)));
}

#[test]
fn test_missing_content_is_malformed() {
    let body = "{\"choices\":[{\"message\":{\"role\":\"assistant\"}}]}";
    let err = interpret_completion_response(200, body).unwrap_err();
    assert!(matches!(err, ClientError::NetworkError(_)));
}

#[test]
fn test_first_choice_content() {
    let empty = OpenRouterResponse { choices: vec![] };
    assert!(matches!(
        first_choice_content(&empty).unwrap_err(),
        ClientError::EmptyResponse
    ));
    let one = OpenRouterResponse {
        choices: vec![OpenRouterChoice {
            message: Message { role: Role::Assistant, content: "answer".to_string() },
        }],
    };
    assert_eq!(first_choice_content(&one).unwrap(), "answer");
}

#[test]
fn test_build_messages_shapes() {
    let with_system = build_messages("q", Some("sys"));
    assert_eq!(with_system.len(), 2);
    assert!(matches!(with_system[0].role, Role::System));
    assert_eq!(with_system[0].content, "sys");
    assert!(matches!(with_system[1].role, Role::User));
    assert_eq!(with_system[1].content, "q");
    let bare = build_messages("q", None);
    assert_eq!(bare.len(), 1);
    assert!(matches!(bare[0].role, Role::User));
}

#[test]
fn test_request_json_exact() {
    let mut config = Config::default();
    config.model = "m".to_string();
    config.max_tokens = 5;
    let request = build_completion_request(&config, build_messages("hi", Some("s")));
    let json = request_to_json(&request);
    assert_eq!(
        json,
        "{\"model\":\"m\",\"messages\":[{\"role\":\"system\",\"content\":\"s\"},{\"role\":\"user\",\"content\":\"hi\"}],\"max_tokens\":5,\"temperature\":0.7}"
    );
}

#[test]
fn test_request_json_escaping() {
    let mut config = Config::default();
    config.model = "m".to_string();
    config.max_tokens = 1;
    config.temperature_milli = 2000;
    let request =
        build_completion_request(&config, build_messages("a\"b\\c\nd\te\u{1}", None));
    let json = request_to_json(&request);
    assert_eq!(
        json,
        "{\"model\":\"m\",\"messages\":[{\"role\":\"user\",\"content\":\"a\\\"b\\\\c\\nd\\te\\u0001\"}],\"max_tokens\":1,\"temperature\":2}"
    );
}

#[test]
fn test_temperature_texts() {
    let mut config = Config::default();
    config.model = "m".to_string();
    config.max_tokens = 1;
    for (milli, expect) in [
        (0u32, "0"),
        (700, "0.7"),
        (725, "0.725"),
        (720, "0.72"),
        (1000, "1"),
        (1500, "1.5"),
        (2005, "2.005"),
    ] {
        config.temperature_milli = milli;
        let request = build_completion_request(&config, build_messages("x", None));
        let json = request_to_json(&request);
        let want = format!("\"temperature\":{}}}", expect);
        assert!(json.ends_with(&want), "{} should end with {}", json, want);
    }
}

#[test]
fn test_headers() {
    assert_eq!(bearer_header_value("k"), "Bearer k");
    let headers = request_headers("abc");
    assert_eq!(headers.len(), 4);
    assert_eq!(headers[0].0, "Authorization");
    assert_eq!(headers[0].1, "Bearer abc");
    assert_eq!(headers[1].0, "Content-Type");
    assert_eq!(headers[1].1, "application/json");
    assert_eq!(headers[2].0, "HTTP-Referer");
    assert_eq!(headers[3].0, "X-Title");
    assert_eq!(headers[3].1, "NimbusCode");
}

#[test]
fn test_role_names() {
    assert_eq!(role_name(Role::System), "system");
    assert_eq!(role_name(Role::User), "user");
    assert_eq!(role_name(Role::Assistant), "assistant");
}

#[test]
fn test_zero_decimal() {
    for zero in ["0", "0.0", "0.000000", "-0.0", "+0", "00.00"] {
        assert!(is_zero_decimal(zero), "{} should be zero", zero);
    }
    for not_zero in ["", ".", "0.", ".0", "0.0000001", "1", "-1.0", "0x0", "zero"] {
        assert!(!is_zero_decimal(not_zero), "{} should not be zero", not_zero);
    }
}

#[test]
fn test_models_free_filter() {
    let body = "{\"data\":[\
        {\"id\":\"a\",\"pricing\":{\"prompt\":\"0\",\"completion\":\"0.0\"}},\
        {\"id\":\"b\",\"pricing\":{\"prompt\":0.0,\"completion\":0}},\
        {\"id\":\"c\",\"pricing\":{\"prompt\":\"0.0001\",\"completion\":\"0\"}},\
        {\"id\":\"d\"},\
        {\"id\":\"e\",\"context_length\":8192,\"description\":\"big\",\"pricing\":{\"prompt\":\"0\",\"completion\":\"0\"}}\
    ]}";
    let catalogue = interpret_models_response(200, body).unwrap();
    assert_eq!(catalogue.data.len(), 5);
    let free = free_models(&catalogue.data);
    let ids: Vec<&str> = free.iter().map(|m| m.id.as_str()).collect();
    assert_eq!(ids, vec!["a", "b", "e"]);
    assert_eq!(free[2].context_length, Some(8192));
    assert_eq!(free[2].description.as_deref(), Some("big"));
}

#[test]
fn test_models_error_status_preserved() {
    match interpret_models_response(500, "oops").unwrap_err() {
        ClientError::ApiError { status, body } => {
            assert_eq!(status, 500);
            assert_eq!(body, "oops");
        }
        other => panic!("unexpected error: {:?}", other),
    }
}

#[test]
fn test_error_descriptions() {
    let err = ClientError::ApiError { status: 404, body: "missing".to_string() };
    assert_eq!(
        err.describe(),
        "OpenRouter API returned error (status 404): missing"
    );
    assert_eq!(
        ClientError::EmptyResponse.describe(),
        "OpenRouter API returned no choices"
    );
}
