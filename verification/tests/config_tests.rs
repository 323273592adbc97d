use prompt_optimizer::config::{ApiProfile, Config, ConfigError, ConfigFile};

const DEFAULT_API_PROFILE_NAME: &str = "默认配置";

fn invalid_message(result: Result<(), ConfigError>) -> String {
    match result {
        Err(ConfigError::Invalid(message)) => message,
        other => panic!("expected an invalid configuration, got {other:?}"),
    }
}

#[test]
fn missing_fields_use_defaults() {
    // {"model":"custom"}
    let mut file = ConfigFile::default();
    file.model = Some("custom".into());
    let config = Config::from_file(file);
    assert_eq!(config.active_api().unwrap().model, "custom");
    assert_eq!(config.hotkey, "Ctrl+TripleA");
    assert_eq!(config.active_profile, DEFAULT_API_PROFILE_NAME);
    assert_eq!(config.api_profiles.len(), 1);
}

#[test]
fn validates_boundaries() {
    let mut config = Config::default();
    config.active_api_mut().unwrap().temperature_bits = 2.1f64.to_bits();
    assert!(config.validate().is_err());
    config.active_api_mut().unwrap().temperature_bits = 1.0f64.to_bits();
    config.active_api_mut().unwrap().max_tokens = 0;
    assert!(config.validate().is_err());
    config.active_api_mut().unwrap().max_tokens = 1;
    config.result_mode = "popup".into();
    assert!(config.validate().is_err());
}

#[test]
fn endpoint_handles_trailing_slash() {
    let mut config = Config::default();
    config.active_api_mut().unwrap().base_url = "http://localhost:1234/v1/".into();
    assert_eq!(
        config.endpoint().as_deref(),
        Some("http://localhost:1234/v1/chat/completions")
    );
}

#[test]
fn supports_clipboard_result_mode() {
    let config = Config::default();
    assert!(config.validate().is_ok());
}

#[test]
fn api_profiles_round_trip_without_duplicating_active_api_fields() {
    let mut config = Config::default();
    let siliconflow = ApiProfile {
        name: "硅基流动".into(),
        api_key: "sf-key".into(),
        base_url: "https://api.siliconflow.cn/v1".into(),
        model: "deepseek-ai/DeepSeek-V4-Flash".into(),
        temperature_bits: 0.2f64.to_bits(),
        max_tokens: 256,
    };
    config.api_profiles.push(siliconflow);
    config.active_profile = "硅基流动".into();

    assert_eq!(config.active_profile, "硅基流动");
    assert_eq!(
        config.active_api().unwrap().base_url,
        "https://api.siliconflow.cn/v1"
    );
    assert_eq!(
        config.active_api().unwrap().model,
        "deepseek-ai/DeepSeek-V4-Flash"
    );
    assert_eq!(config.hotkey, "Ctrl+TripleA");
    assert!(config.validate().is_ok());

    let encoded = config.to_file();
    assert!(encoded.api_key.is_none());
    assert!(encoded.base_url.is_none());
    assert!(encoded.model.is_none());
    assert!(encoded.temperature_bits.is_none());
    assert!(encoded.max_tokens.is_none());
    assert_eq!(Config::from_file(encoded), config);
}

#[test]
fn legacy_top_level_api_fields_migrate_into_the_active_profile() {
    let mut file = ConfigFile::default();
    file.api_key = Some("legacy-key".into());
    file.base_url = Some("https://api.siliconflow.cn/v1".into());
    file.model = Some("deepseek-ai/DeepSeek-V4-Flash".into());
    file.temperature_bits = Some(0.2f64.to_bits());
    file.max_tokens = Some(256);
    file.active_profile = None;
    file.api_profiles = Vec::new();
    let config = Config::from_file(file);
    let active = config.active_api().unwrap();
    assert_eq!(active.name, DEFAULT_API_PROFILE_NAME);
    assert_eq!(active.api_key, "legacy-key");
    assert_eq!(active.base_url, "https://api.siliconflow.cn/v1");
    assert_eq!(active.model, "deepseek-ai/DeepSeek-V4-Flash");
    assert_eq!(f64::from_bits(active.temperature_bits), 0.2);
    assert_eq!(active.max_tokens, 256);
    assert!(config.validate().is_ok());
}

fn profile(name: &str, key: &str, url: &str, model: &str, temperature: f64, max_tokens: u32) -> ApiProfile {
    ApiProfile {
        name: name.into(),
        api_key: key.into(),
        base_url: url.into(),
        model: model.into(),
        temperature_bits: temperature.to_bits(),
        max_tokens,
    }
}

#[test]
fn legacy_active_values_override_only_the_selected_profile() {
    let mut file = ConfigFile::default();
    file.api_key = Some("new-active-key".into());
    file.base_url = Some("https://active.example/v1".into());
    file.model = Some("active-model".into());
    file.temperature_bits = Some(0.4f64.to_bits());
    file.max_tokens = Some(128);
    file.active_profile = Some("工作".into());
    file.api_profiles = vec![
        profile("工作", "old", "https://old.example/v1", "old-model", 0.3, 64),
        profile("备用", "backup", "https://backup.example/v1", "backup-model", 0.5, 256),
    ];
    let config = Config::from_file(file);
    assert_eq!(config.active_api().unwrap().api_key, "new-active-key");
    assert_eq!(config.api_profiles[1].api_key, "backup");
    assert_eq!(config.api_profiles.len(), 2);
}

#[test]
fn api_profile_names_are_unique_and_active_profile_must_exist() {
    let mut config = Config::default();
    let mut first = ApiProfile::default();
    first.name = "工作".into();
    let mut duplicate = ApiProfile::default();
    duplicate.name = " 工作 ".into();
    config.api_profiles = vec![first, duplicate];
    config.active_profile = "工作".into();
    assert!(config.validate().is_err());

    config.api_profiles.truncate(1);
    config.active_profile = "不存在".into();
    assert!(config.validate().is_err());
}

#[test]
fn validation_messages_name_the_first_problem() {
    let mut config = Config::default();
    config.result_mode = "popup".into();
    assert_eq!(invalid_message(config.validate()), "result_mode 仅支持 clipboard");

    let mut config = Config::default();
    config.api_profiles.clear();
    assert_eq!(invalid_message(config.validate()), "至少需要一个 API 配置");

    let mut config = Config::default();
    for index in 0..20 {
        let mut extra = ApiProfile::default();
        extra.name = format!("p{index}");
        config.api_profiles.push(extra);
    }
    assert_eq!(invalid_message(config.validate()), "API 配置最多保存 20 个");

    let mut config = Config::default();
    let mut second = ApiProfile::default();
    second.name = " 默认配置 ".into();
    config.api_profiles.push(second);
    assert_eq!(invalid_message(config.validate()), "API 配置名称重复：默认配置");

    let mut config = Config::default();
    config.active_profile = " 别处 ".into();
    assert_eq!(invalid_message(config.validate()), "当前 API 配置不存在：别处");
}

#[test]
fn duplicate_names_differ_only_in_unicode_case() {
    let mut config = Config::default();
    config.api_profiles[0].name = "ÄPFEL".into();
    config.active_profile = "ÄPFEL".into();
    let mut second = ApiProfile::default();
    second.name = "äpfel".into();
    config.api_profiles.push(second);
    assert_eq!(invalid_message(config.validate()), "API 配置名称重复：äpfel");
}

#[test]
fn profile_validation_checks_each_field_in_order() {
    let mut p = ApiProfile::default();
    p.name = "   ".into();
    assert_eq!(invalid_message(p.validate()), "API 配置名称不能为空");
    p.name = "x".repeat(41);
    assert_eq!(invalid_message(p.validate()), "API 配置名称不能超过 40 个字符或包含控制字符");
    p.name = "a\u{7}b".into();
    assert_eq!(invalid_message(p.validate()), "API 配置名称不能超过 40 个字符或包含控制字符");
    p.name = "好".repeat(40);
    assert!(p.validate().is_ok());
    p.base_url = "ftp://host".into();
    assert_eq!(invalid_message(p.validate()), "base_url 必须以 http:// 或 https:// 开头");
    p.base_url = "https://".into();
    assert_eq!(invalid_message(p.validate()), "base_url 缺少主机地址");
    p.base_url = "http://".into();
    assert_eq!(invalid_message(p.validate()), "base_url 缺少主机地址");
    p.base_url = "http://a".into();
    assert!(p.validate().is_ok());
    p.model = " \t".into();
    assert_eq!(invalid_message(p.validate()), "model 不能为空");
    p.model = "m".into();
    p.temperature_bits = f64::NAN.to_bits();
    assert_eq!(invalid_message(p.validate()), "temperature 必须位于 0.0 到 2.0 之间");
    p.temperature_bits = 1.0f64.to_bits();
    p.max_tokens = 0;
    assert_eq!(invalid_message(p.validate()), "max_tokens 必须大于 0");
}

#[test]
fn temperature_range_matches_float_comparison() {
    let samples = [
        0.0, -0.0, 0.3, 1.0, 2.0, 2.0000000000000004, 2.1, -0.1, -2.0, f64::MIN_POSITIVE,
        5e-324, f64::INFINITY, f64::NEG_INFINITY, f64::NAN, -f64::NAN, f64::MAX, 1.9999999999999998,
    ];
    for value in samples {
        let expected = value.is_finite() && (0.0..=2.0).contains(&value);
        let mut p = ApiProfile::default();
        p.temperature_bits = value.to_bits();
        assert_eq!(p.validate().is_ok(), expected, "temperature {value}");
    }
}

#[test]
fn active_profile_is_matched_ignoring_ascii_case_and_spaces() {
    let mut config = Config::default();
    config.api_profiles.push(profile("Work", "k", "https://w.example/v1", "m", 0.5, 10));
    config.active_profile = "  wORK ".into();
    assert_eq!(config.active_index(), Some(1));
    assert_eq!(config.active_api().unwrap().name, "Work");
    assert!(config.validate().is_ok());
    config.active_profile = "none".into();
    assert!(config.active_api().is_none());
    assert!(config.endpoint().is_none());
}

#[test]
fn reloading_a_migrated_file_is_stable() {
    let mut file = ConfigFile::default();
    file.api_key = Some("legacy-key".into());
    file.active_profile = Some("  ".into());
    let first = Config::from_file(file);
    let second = Config::from_file(first.to_file());
    assert_eq!(first, second);
    assert_eq!(first.active_profile, DEFAULT_API_PROFILE_NAME);
}

#[test]
fn error_messages_show_the_complaint() {
    assert_eq!(ConfigError::Invalid("x".into()).message(), "配置无效：x");
    let io = ConfigError::Io(std::io::Error::new(std::io::ErrorKind::Other, "disk"));
    assert_eq!(io.message(), "配置文件读写失败：disk");
}

#[test]
fn duplicate_keys_are_reported_with_the_later_name() {
    let mut config = Config::default();
    let mut second = ApiProfile::default();
    second.name = " 备用 ".into();
    config.api_profiles.push(second);
    assert!(config.validate().is_ok());
    assert_eq!(config.name_keys(), vec!["默认配置".to_string(), "备用".to_string()]);
    let same = vec!["k".to_string(), "k".to_string()];
    match config.validate_keyed(&same) {
        Err(ConfigError::Invalid(message)) => assert_eq!(message, "API 配置名称重复：备用"),
        other => panic!("unexpected: {other:?}"),
    }
}

#[test]
fn names_differing_only_in_case_are_duplicates() {
    let mut config = Config::default();
    config.api_profiles[0].name = "Work".into();
    config.active_profile = "Work".into();
    let mut second = ApiProfile::default();
    second.name = "WORK".into();
    config.api_profiles.push(second);
    assert_eq!(config.name_keys(), vec!["work".to_string(), "work".to_string()]);
    match config.validate() {
        Err(ConfigError::Invalid(message)) => assert_eq!(message, "API 配置名称重复：WORK"),
        other => panic!("unexpected: {other:?}"),
    }
}
