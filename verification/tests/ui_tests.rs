use prompt_optimizer::gesture::{advance_gesture_tap, GESTURE_INTERVAL_MS};
use prompt_optimizer::icon::ico_image_nearest_to;
use prompt_optimizer::popup::{
    caret_rect, is_compact_focus_rect, point_rect, popup_anchor, status_text_width, PopupAnchor,
    PopupSide, Rect, STATUS_MAX_WIDTH, STATUS_MIN_WIDTH,
};
use prompt_optimizer::settings::{
    collect_api_profile, collect_config, concise_status, field_content, header_vertical_metrics,
    is_edit_id, multiline_field_content, parse_u32_text, remove_profile, scale,
    settings_header_height, should_mark_dirty, stage_profile, EN_CHANGE, EN_SETFOCUS, ID_MODEL,
    ID_SAVE,
};
use prompt_optimizer::config::ApiProfile;
use prompt_optimizer::text::{copy_wide, wide};

#[test]
fn width_stays_within_compact_limits() {
    assert_eq!(status_text_width("已复制"), STATUS_MIN_WIDTH);
    assert_eq!(status_text_width(&"错误".repeat(40)), STATUS_MAX_WIDTH);
}

#[test]
fn status_width_counts_ascii_narrower() {
    assert_eq!(status_text_width(&"a".repeat(20)), 20 * 7 + 26);
    assert_eq!(status_text_width(&"好".repeat(10)), 10 * 14 + 26);
}

#[test]
fn dynamic_width_keeps_the_anchor_edge_fixed() {
    let right = PopupAnchor {
        side: PopupSide::Right,
        edge_x: 100,
        y: 50,
        max_width: 300,
        work_left: 0,
        work_right: 800,
    };
    assert_eq!(right.position(112), (100, 50));
    assert_eq!(right.position(220), (100, 50));

    let left = PopupAnchor {
        side: PopupSide::Left,
        edge_x: 500,
        y: 50,
        max_width: 300,
        work_left: 0,
        work_right: 800,
    };
    assert_eq!(left.position(112).0 + 112, 500);
    assert_eq!(left.position(220).0 + 220, 500);
}

#[test]
fn popup_is_kept_inside_the_work_area() {
    let near_edge = PopupAnchor {
        side: PopupSide::Right,
        edge_x: 750,
        y: 10,
        max_width: 300,
        work_left: 0,
        work_right: 800,
    };
    assert_eq!(near_edge.position(200), (600, 10));
    assert_eq!(near_edge.position(1000), (500, 10));
}

#[test]
fn anchor_prefers_the_side_with_more_room() {
    let work = Rect { left: 0, top: 0, right: 1000, bottom: 700 };
    let text = Rect { left: 100, top: 100, right: 200, bottom: 120 };
    let anchor = popup_anchor(text, work);
    assert_eq!(anchor.side, PopupSide::Right);
    assert_eq!(anchor.edge_x, 208);
    assert_eq!(anchor.y, 128);
    assert_eq!(anchor.max_width, 300);

    let text = Rect { left: 900, top: 680, right: 990, bottom: 695 };
    let anchor = popup_anchor(text, work);
    assert_eq!(anchor.side, PopupSide::Left);
    assert_eq!(anchor.edge_x, 892);
    assert_eq!(anchor.y, 680 - 30 - 8);

    assert_eq!(point_rect(5, 6), Rect { left: 5, top: 6, right: 6, bottom: 7 });
    assert_eq!(caret_rect(10, 20, 10, 15), Rect { left: 10, top: 20, right: 11, bottom: 21 });
    assert!(is_compact_focus_rect(Rect { left: 0, top: 0, right: 1000, bottom: 500 }));
    assert!(!is_compact_focus_rect(Rect { left: 0, top: 0, right: 1001, bottom: 10 }));
}

#[test]
fn triple_tap_triggers_only_on_the_third_quick_press() {
    assert_eq!(advance_gesture_tap(0, 0, 100, 3), (1, 0, false));
    assert_eq!(advance_gesture_tap(1, 100, 250, 3), (2, 0, false));
    assert_eq!(advance_gesture_tap(2, 250, 400, 3), (0, 0, true));
}

#[test]
fn expired_taps_are_replayed_before_starting_a_new_sequence() {
    assert_eq!(
        advance_gesture_tap(2, 100, 100 + GESTURE_INTERVAL_MS + 1, 3),
        (1, 2, false)
    );
}

#[test]
fn gesture_clock_wraps_around() {
    assert_eq!(advance_gesture_tap(1, u32::MAX - 10, 20, 3), (2, 0, false));
    assert_eq!(advance_gesture_tap(1, u32::MAX - 10, 600, 3), (1, 1, false));
    assert_eq!(advance_gesture_tap(255, 0, 1, 0), (0, 0, true));
}

fn icon_with(widths: &[u8]) -> Vec<u8> {
    let mut bytes = vec![0, 0, 1, 0, widths.len() as u8, 0];
    let data_start = 6 + 16 * widths.len();
    for (index, width) in widths.iter().enumerate() {
        let mut entry = [0u8; 16];
        entry[0] = *width;
        entry[1] = *width;
        let offset = (data_start + index * 4) as u32;
        entry[8..12].copy_from_slice(&4u32.to_le_bytes());
        entry[12..16].copy_from_slice(&offset.to_le_bytes());
        bytes.extend_from_slice(&entry);
    }
    for index in 0..widths.len() {
        bytes.extend_from_slice(&[index as u8; 4]);
    }
    bytes
}

#[test]
fn embedded_ico_contains_small_and_large_icon_images() {
    // an icon with a 16, a 32 and a 256 (stored as 0) pixel image
    let icon = icon_with(&[16, 32, 0]);
    assert!(ico_image_nearest_to(&icon, 16).is_some());
    assert!(ico_image_nearest_to(&icon, 256).is_some());
    assert!(ico_image_nearest_to(b"not-an-icon", 16).is_none());
}

#[test]
fn icon_picks_nearest_image_and_first_on_ties() {
    let icon = icon_with(&[16, 32, 0]);
    assert_eq!(ico_image_nearest_to(&icon, 16), Some(&[0u8; 4][..]));
    assert_eq!(ico_image_nearest_to(&icon, 30), Some(&[1u8; 4][..]));
    assert_eq!(ico_image_nearest_to(&icon, 256), Some(&[2u8; 4][..]));
    assert_eq!(ico_image_nearest_to(&icon, 24), Some(&[0u8; 4][..]));
    let mut broken = icon.clone();
    broken.truncate(6 + 16 * 3);
    assert!(ico_image_nearest_to(&broken, 16).is_none());
}

#[test]
fn native_scale_uses_96_dpi_as_the_baseline() {
    assert_eq!(scale(44, 96), 44);
    assert_eq!(scale(44, 144), 66);
    assert_eq!(scale(1, 120), 1);
}

#[test]
fn scale_rounds_toward_zero_for_negative_lengths() {
    assert_eq!(scale(-1, 96), 0);
    assert_eq!(scale(-44, 144), -65);
    assert_eq!(scale(i32::MAX, u32::MAX), ((i32::MAX as i64 * u32::MAX as i64 + 48) / 96) as i32);
}

#[test]
fn single_line_field_content_is_inset_symmetrically() {
    assert_eq!(field_content([234, 174, 588, 44], 96), [246, 184, 564, 24]);
    assert_eq!(field_content([351, 261, 882, 66], 144), [369, 276, 846, 36]);
}

#[test]
fn header_title_subtitle_and_first_label_never_overlap() {
    let [title_top, title_bottom, subtitle_top, subtitle_bottom] = header_vertical_metrics(96);
    let first_label_top = settings_header_height(96) + 10 - 24;

    assert!(title_top < title_bottom);
    assert!(title_bottom < subtitle_top);
    assert!(subtitle_top < subtitle_bottom);
    assert!(subtitle_bottom + 14 <= first_label_top);
}

#[test]
fn long_error_status_has_an_explicit_compact_summary() {
    let full = "API 返回错误 403：服务端返回了一段很长的诊断内容";
    let summary = concise_status(full, 18);

    assert!(summary.ends_with('…'));
    assert_eq!(summary.chars().count(), 19);
    assert_eq!(concise_status("API 连接正常", 18), "API 连接正常");
}

#[test]
fn multiline_field_content_never_touches_the_outer_border() {
    let outer = [234, 126, 588, 340];
    let inner = multiline_field_content(outer, 96);
    assert_eq!(inner, [246, 136, 564, 320]);
    assert_eq!(
        inner[0] - outer[0],
        outer[2] - (inner[0] - outer[0]) - inner[2]
    );
    assert_eq!(
        inner[1] - outer[1],
        outer[3] - (inner[1] - outer[1]) - inner[3]
    );
}

#[test]
fn tiny_fields_keep_one_pixel() {
    assert_eq!(field_content([0, 0, 10, 10], 96), [12, 10, 1, 1]);
}

#[test]
fn programmatic_population_never_marks_the_form_dirty() {
    assert!(!should_mark_dirty(true, EN_CHANGE, ID_MODEL));
    assert!(should_mark_dirty(false, EN_CHANGE, ID_MODEL));
    assert!(!should_mark_dirty(false, EN_SETFOCUS, ID_MODEL));
    assert!(!is_edit_id(ID_SAVE));
}

fn named(name: &str) -> ApiProfile {
    let mut profile = ApiProfile::default();
    profile.name = name.into();
    profile
}

#[test]
fn profile_staging_distinguishes_update_rename_and_new_profile() {
    let mut profiles = vec![named("工作")];
    let mut updated = profiles[0].clone();
    updated.model = "updated-model".into();
    stage_profile(&mut profiles, Some("工作"), updated).unwrap();
    assert_eq!(profiles.len(), 1);
    assert_eq!(profiles[0].model, "updated-model");

    let mut renamed = profiles[0].clone();
    renamed.name = "硅基流动".into();
    stage_profile(&mut profiles, Some("工作"), renamed).unwrap();
    assert_eq!(profiles.len(), 1);
    assert_eq!(profiles[0].name, "硅基流动");

    let second = named("备用");
    stage_profile(&mut profiles, None, second).unwrap();
    assert_eq!(profiles.len(), 2);
}

#[test]
fn profile_staging_rejects_duplicate_names_and_supports_removal() {
    let mut profiles = vec![named("工作"), named("备用")];
    let duplicate = named(" 备用 ");
    assert!(stage_profile(&mut profiles, Some("工作"), duplicate).is_err());
    assert!(remove_profile(&mut profiles, " 工作 "));
    assert_eq!(profiles.len(), 1);
}

#[test]
fn staging_conflict_message_and_removal_of_unknown_name() {
    let mut profiles = vec![named("Work"), named("Home")];
    assert_eq!(
        stage_profile(&mut profiles, None, named(" work ")),
        Err("配置名称已存在：work".to_string())
    );
    assert_eq!(profiles.len(), 2);
    assert!(!remove_profile(&mut profiles, "elsewhere"));
    assert_eq!(profiles.len(), 2);
}

#[test]
fn numbers_parse_like_u32_from_str() {
    assert_eq!(parse_u32_text("512"), Some(512));
    assert_eq!(parse_u32_text("+7"), Some(7));
    assert_eq!(parse_u32_text("4294967295"), Some(u32::MAX));
    assert_eq!(parse_u32_text("4294967296"), None);
    assert_eq!(parse_u32_text("99999999999x"), None);
    assert_eq!(parse_u32_text("-1"), None);
    assert_eq!(parse_u32_text("+"), None);
    assert_eq!(parse_u32_text(""), None);
    assert_eq!(parse_u32_text("1 2"), None);
    for text in ["0", "00012", "+0", "12a", "٣"] {
        assert_eq!(parse_u32_text(text), text.parse::<u32>().ok(), "{text}");
    }
}

#[test]
fn form_fields_become_a_checked_profile() {
    let profile = collect_api_profile(" 工作 ", " key ", " https://a.example/v1 ", " m ", Some(0.5f64.to_bits()), " 64 ").unwrap();
    assert_eq!(profile.name, "工作");
    assert_eq!(profile.api_key, " key ");
    assert_eq!(profile.base_url, "https://a.example/v1");
    assert_eq!(profile.model, "m");
    assert_eq!(profile.max_tokens, 64);
    assert_eq!(
        collect_api_profile("a", "", "https://a.example", "m", None, "1").unwrap_err(),
        "温度必须是 0.0–2.0 之间的数字"
    );
    assert_eq!(
        collect_api_profile("a", "", "https://a.example", "m", Some(0), "x").unwrap_err(),
        "最大 Token 数必须是大于 0 的整数"
    );
    assert_eq!(
        collect_api_profile("a", "", "https://a.example", "m", Some(0), "0").unwrap_err(),
        "配置无效：max_tokens 必须大于 0"
    );
}

#[test]
fn form_collects_into_a_configuration() {
    let drafts = vec![named("工作"), named("备用")];
    let mut edited = named("工作2");
    edited.model = "edited".into();
    let config = collect_config(&drafts, Some("工作"), edited, " Ctrl+F8 ", " rules ", false, true).unwrap();
    assert_eq!(config.active_profile, "工作2");
    assert_eq!(config.api_profiles.len(), 2);
    assert_eq!(config.api_profiles[0].model, "edited");
    assert_eq!(config.hotkey, "Ctrl+F8");
    assert_eq!(config.system_prompt, "rules");
    assert_eq!(config.result_mode, "clipboard");
    assert!(config.validate().is_ok());
    assert!(collect_config(&drafts, None, named("备用"), "", "", true, true).is_err());
}

#[test]
fn wide_strings_end_with_a_terminator() {
    assert_eq!(wide("A好"), vec![0x41, 0x597D, 0]);
    assert_eq!(wide("😀"), vec![0xD83D, 0xDE00, 0]);
    let mut buffer = [7u16; 4];
    copy_wide(&mut buffer, "abcdef");
    assert_eq!(buffer, [0x61, 0x62, 0x63, 0]);
    copy_wide(&mut buffer, "x");
    assert_eq!(buffer, [0x78, 0, 0, 0]);
}
