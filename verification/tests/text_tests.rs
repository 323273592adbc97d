use prompt_optimizer::api::provider_message_from;
use prompt_optimizer::config::{
    copy_profiles, find_profile_index, profile_names_match, validate_api_fields, ApiProfile,
    ConfigError,
};
use prompt_optimizer::form_controls::{control_caption, control_cue, control_kind, ControlKind};
use prompt_optimizer::session::Session;
use prompt_optimizer::settings::{
    inset_bounds, FormStatus, ProfileDraft, ID_API_PROFILE, ID_BASE_URL, ID_RESET,
    ID_TEMPERATURE,
};
use prompt_optimizer::text::{
    char_ascii_lower, char_is_control, char_is_white_space, chars_of, decimal_string, push_range,
    push_str, str_contains, str_eq, str_eq_ignore_ascii_case, str_starts_with,
    str_to_ascii_lowercase, string_of_range, trim_end_char_str, trim_str, truncate_chars,
    utf8_len_at_most,
};

#[test]
fn characters_are_classified_as_std_does() {
    for c in ['\t', '\n', ' ', '\u{85}', '\u{a0}', '\u{2003}', '\u{3000}'] {
        assert_eq!(char_is_white_space(c), c.is_whitespace(), "{c:?}");
        assert!(char_is_white_space(c));
    }
    for c in ['a', '中', '\u{200b}', '_'] {
        assert_eq!(char_is_white_space(c), c.is_whitespace(), "{c:?}");
    }
    for c in ['\0', '\u{1f}', '\u{7f}', '\u{9f}', 'a', '\u{a0}'] {
        assert_eq!(char_is_control(c), c.is_control(), "{c:?}");
    }
    assert_eq!(char_ascii_lower('Q'), 'q');
    assert_eq!(char_ascii_lower('Ä'), 'Ä');
}

#[test]
fn string_helpers_match_std() {
    for s in ["  配置  ", "\u{3000}x\t", "", "   ", "a b"] {
        assert_eq!(trim_str(s), s.trim());
    }
    assert_eq!(trim_end_char_str("http://h/v1//", '/'), "http://h/v1");
    assert_eq!(str_to_ascii_lowercase("TimeOut Ä"), "timeout Ä");
    assert!(str_eq_ignore_ascii_case("Work", "wORK"));
    assert!(!str_eq_ignore_ascii_case("Work", "Worker"));
    assert!(str_starts_with("正在优化…", "正在优化"));
    assert!(!str_starts_with("正在", "正在优化"));
    assert!(str_contains("connection timed out", "timed out"));
    assert!(!str_contains("tl", "tls"));
    assert!(str_eq("a", "a"));
    assert!(!str_eq("a", "b"));
    assert_eq!(truncate_chars("一二三", 2), "一二…");
    assert_eq!(truncate_chars("一二", 2), "一二");
    assert_eq!(decimal_string(0), "0");
    assert_eq!(decimal_string(18_446_744_073_709_551_615), "18446744073709551615");
    assert!(utf8_len_at_most("https:", 6));
    assert!(!utf8_len_at_most("http:中", 6));
    assert_eq!(chars_of("a中"), vec!['a', '中']);
    let v = chars_of("abcdef");
    assert_eq!(string_of_range(&v, 1, 4), "bcd");
    let mut s = String::from(">");
    push_range(&mut s, &v, 4, 6);
    push_str(&mut s, "中");
    assert_eq!(s, ">ef中");
}

#[test]
fn provider_message_uses_the_found_message_or_the_body() {
    assert_eq!(provider_message_from(" body ", Some("  quota  ")), "quota");
    assert_eq!(provider_message_from(" body ", None), "body");
    let long = "x".repeat(250);
    let cut = provider_message_from(&long, None);
    assert_eq!(cut.chars().count(), 201);
    assert!(cut.ends_with('…'));
}

#[test]
fn profile_lookup_ignores_case_and_surrounding_space() {
    let mut work = ApiProfile::default();
    work.name = " Work ".into();
    let profiles = vec![ApiProfile::default(), work];
    assert_eq!(find_profile_index(&profiles, "work"), Some(1));
    assert_eq!(find_profile_index(&profiles, "默认配置"), Some(0));
    assert_eq!(find_profile_index(&profiles, "备用"), None);
    assert!(profile_names_match(" Work", "WORK "));
    assert_eq!(copy_profiles(&profiles), profiles);
}

#[test]
fn api_fields_are_checked_in_order() {
    let message = |r: Result<(), ConfigError>| match r {
        Err(ConfigError::Invalid(m)) => m,
        Ok(()) => String::new(),
        Err(other) => panic!("unexpected {other:?}"),
    };
    let two = 2.0f64.to_bits();
    assert_eq!(
        message(validate_api_fields("ftp://x", "m", two, 1)),
        "base_url 必须以 http:// 或 https:// 开头"
    );
    assert_eq!(message(validate_api_fields("https://", "m", two, 1)), "base_url 缺少主机地址");
    assert_eq!(message(validate_api_fields("https://h", " ", two, 1)), "model 不能为空");
    assert_eq!(
        message(validate_api_fields("https://h", "m", 2.5f64.to_bits(), 1)),
        "temperature 必须位于 0.0 到 2.0 之间"
    );
    assert_eq!(
        message(validate_api_fields("https://h", "m", f64::NAN.to_bits(), 1)),
        "temperature 必须位于 0.0 到 2.0 之间"
    );
    assert_eq!(message(validate_api_fields("https://h", "m", (-0.0f64).to_bits(), 1)), "");
    assert_eq!(message(validate_api_fields("https://h", "m", two, 0)), "max_tokens 必须大于 0");
    assert_eq!(message(validate_api_fields("http://h", "m", two, 1)), "");
}

#[test]
fn inset_keeps_at_least_one_pixel() {
    assert_eq!(inset_bounds([0, 0, 10, 10], 12, 10), [12, 10, 1, 1]);
    assert_eq!(inset_bounds([5, 6, 100, 40], 12, 10), [17, 16, 76, 20]);
}

#[test]
fn control_table_entries() {
    assert_eq!(control_kind(ID_API_PROFILE), ControlKind::Combo);
    assert_eq!(control_kind(ID_TEMPERATURE), ControlKind::Edit { multiline: false });
    assert_eq!(control_kind(ID_RESET), ControlKind::Button);
    assert_eq!(control_caption(ID_RESET), "重置更改");
    assert_eq!(control_caption(ID_BASE_URL), "");
    assert_eq!(control_cue(ID_BASE_URL), "https://api.siliconflow.cn/v1");
    assert_eq!(control_cue(ID_RESET), "");
}

#[test]
fn a_test_run_ends_the_busy_state() {
    let mut session = Session::new();
    assert_eq!(session.begin_test(), Ok(()));
    assert!(session.busy);
    session.finish_test();
    assert!(!session.busy);
    assert_eq!(session.next_task_id, 1);
}

#[test]
fn staging_the_visible_profile_makes_it_the_edited_one() {
    let mut draft = ProfileDraft {
        profiles: vec![ApiProfile::default()],
        active: "默认配置".into(),
        editing_original: None,
    };
    let mut backup = ApiProfile::default();
    backup.name = "备用".into();
    assert_eq!(draft.stage_visible(backup.clone()), Ok(()));
    assert_eq!(draft.profiles.len(), 2);
    assert_eq!(draft.editing_original.as_deref(), Some("备用"));
    let mut clash = ApiProfile::default();
    clash.name = "默认配置".into();
    assert_eq!(draft.stage_visible(clash), Err("配置名称已存在：默认配置".to_string()));
    assert_eq!(draft.profiles.len(), 2);
}

#[test]
fn dirty_marking_carries_its_status() {
    let mut form = FormStatus::clean("x");
    assert!(form.mark_dirty_with_status("正在新建 API 配置，填写后保存并应用"));
    assert!(form.dirty);
    assert_eq!(form.status, "正在新建 API 配置，填写后保存并应用");
}
