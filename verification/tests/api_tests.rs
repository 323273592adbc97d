use prompt_optimizer::api::{
    build_request, interpret_response, network_error, network_error_message, prepare_request,
    provider_error_message, sanitize, truncate, ApiError, ChatResponse, STATELESS_GUARD,
};
use prompt_optimizer::config::Config;

fn response(contents: &[&str]) -> Result<ChatResponse, String> {
    Ok(ChatResponse {
        choices: contents.iter().map(|c| c.to_string()).collect(),
    })
}

fn config_with_key() -> Config {
    let mut config = Config::default();
    config.active_api_mut().unwrap().api_key = "test-key".into();
    config
}

#[test]
fn parses_success_response() {
    // {"choices":[{"message":{"content":"  improved  "}}]}
    let body = r#"{"choices":[{"message":{"content":"  improved  "}}]}"#;
    assert_eq!(
        interpret_response(200, body, response(&["  improved  "])).unwrap(),
        "improved"
    );
}

#[test]
fn request_is_stateless_and_contains_only_the_current_input() {
    let mut config = Config::default();
    config.system_prompt = "保持简洁".into();
    let first = build_request(&config, "第一条输入").unwrap();
    let second = build_request(&config, "第二条输入").unwrap();

    assert_eq!(first.messages.len(), 2);
    assert!(first.messages[0].content.contains("无状态"));
    assert!(second.messages[1].content.contains("第二条输入"));
    assert!(!second.messages.iter().any(|m| m.content.contains("第一条输入")));
    assert!(!second.model.contains("第一条输入"));
    assert!(!second.stream);
}

#[test]
fn request_body_carries_rules_text_and_profile_settings() {
    let mut config = Config::default();
    config.system_prompt = "  规则  ".into();
    let request = build_request(&config, "原文").unwrap();
    assert_eq!(request.messages[0].role, "system");
    assert_eq!(request.messages[0].content, STATELESS_GUARD);
    assert_eq!(request.messages[1].role, "user");
    assert_eq!(
        request.messages[1].content,
        "<optimization_rules>\n规则\n</optimization_rules>\n<original_prompt>\n原文\n</original_prompt>"
    );
    assert_eq!(request.model, "gpt-4o-mini");
    assert_eq!(f64::from_bits(request.temperature_bits), 0.3);
    assert_eq!(request.max_tokens, 512);
}

#[test]
fn prepared_request_has_endpoint_headers_and_id() {
    let mut config = config_with_key();
    config.active_api_mut().unwrap().api_key = "  secret ".into();
    let prepared = prepare_request(&config, "text", 9001).unwrap();
    assert_eq!(prepared.endpoint, "https://api.openai.com/v1/chat/completions");
    let headers: Vec<(&str, &str)> = prepared
        .headers
        .iter()
        .map(|header| (header.name, header.value.as_str()))
        .collect();
    assert_eq!(
        headers,
        vec![
            ("Authorization", "Bearer secret"),
            ("Content-Type", "application/json"),
            ("Cache-Control", "no-store"),
            ("X-PromptOptimizer-Request-Id", "9001"),
        ]
    );
    let zero = prepare_request(&config, "text", 0).unwrap();
    assert_eq!(zero.headers[3].value, "0");
    let max = prepare_request(&config, "text", u64::MAX).unwrap();
    assert_eq!(max.headers[3].value, "18446744073709551615");
    config.active_profile = "missing".into();
    assert!(prepare_request(&config, "text", 1).is_none());
    assert!(build_request(&config, "text").is_none());
}

#[test]
fn reports_http_error_message() {
    assert_eq!(
        interpret_response(
            500,
            r#"{"error":{"message":"provider failed"}}"#,
            Err("unused".into())
        )
        .unwrap_err(),
        ApiError::Http {
            status: 500,
            message: "provider failed".into()
        }
    );
}

#[test]
fn reports_unauthorized_without_leaking_provider_body() {
    let error = interpret_response(
        401,
        r#"{"error":{"message":"invalid secret"}}"#,
        Err("unused".into()),
    )
    .unwrap_err();
    assert_eq!(error.message(), "API 认证失败（401），请检查 API Key");
}

#[test]
fn rejects_malformed_and_empty_responses() {
    assert!(matches!(
        interpret_response(200, "not-json", Err("expected value at line 1 column 1".into())),
        Err(ApiError::InvalidResponse(_))
    ));
    assert_eq!(
        interpret_response(
            200,
            r#"{"choices":[{"message":{"content":"  "}}]}"#,
            response(&["  "])
        ),
        Err(ApiError::EmptyResult)
    );
    assert_eq!(
        interpret_response(200, r#"{"choices":[]}"#, response(&[])),
        Err(ApiError::InvalidResponse("缺少 choices[0]".into()))
    );
}

#[test]
fn presents_concise_network_errors() {
    assert_eq!(
        ApiError::Network(
            "native-tls: unable to find any user-specified roots in the final cert chain".into()
        )
        .message(),
        "TLS 证书验证失败，请检查系统证书或网络代理"
    );
    assert_eq!(
        ApiError::Network("Timeout(Global)".into()).message(),
        "请求超时，请稍后重试"
    );
}

#[test]
fn network_errors_fall_back_to_a_generic_message() {
    assert_eq!(network_error_message("connection refused"), "网络连接失败，请检查网络");
    assert_eq!(network_error_message("Operation TIMED OUT"), "请求超时，请稍后重试");
    assert_eq!(network_error_message("bad CERTIFICATE"), "TLS 证书验证失败，请检查系统证书或网络代理");
}

#[test]
fn error_texts_for_every_variant() {
    assert_eq!(
        ApiError::Http { status: 403, message: "denied".into() }.message(),
        "API 返回错误 403：denied"
    );
    assert_eq!(
        ApiError::InvalidResponse("bad".into()).message(),
        "API 响应格式错误：bad"
    );
    assert_eq!(ApiError::EmptyResult.message(), "API 返回了空结果");
}

#[test]
fn provider_message_is_read_from_json_or_taken_whole() {
    assert_eq!(
        provider_error_message(r#"{"error":{"message":"  quota exceeded  "}}"#),
        "quota exceeded"
    );
    assert_eq!(provider_error_message("  plain failure \n"), "plain failure");
    assert_eq!(
        provider_error_message(r#"{"error":{"message":42}}"#),
        r#"{"error":{"message":42}}"#
    );
    let long = "x".repeat(250);
    let cut = provider_error_message(&long);
    assert_eq!(cut.chars().count(), 201);
    assert!(cut.ends_with('…'));
}

#[test]
fn truncation_keeps_short_text_and_marks_cuts() {
    assert_eq!(truncate("abc", 3), "abc");
    assert_eq!(truncate("abcd", 3), "abc…");
    assert_eq!(truncate("", 0), "");
    assert_eq!(sanitize(&"é".repeat(201)), format!("{}…", "é".repeat(200)));
    assert_eq!(
        network_error("boom"),
        ApiError::Network("boom".into())
    );
}
