use prompt_optimizer::config::{invalid_backup_file_name, ApiProfile, Config};
use prompt_optimizer::gesture::{
    handle_key_event, handle_timer, GestureState, HookAction, KeyEvent, TimerAction, VK_A,
};
use prompt_optimizer::session::{
    active_key_present, api_test_gate, popup_text, popup_timeout, HotkeyGate, Session,
};
use prompt_optimizer::settings::{
    button_style, field_frames, label_rect, layout_settings, page_title, rgb, status_appearance,
    status_right_margin, DeleteOutcome, ProfileDraft, SwitchOutcome, COLOR_ACCENT,
    COLOR_ACCENT_PRESSED, COLOR_ACCENT_SOFT, COLOR_ERROR, COLOR_INK, COLOR_MUTED, COLOR_PAPER,
    COLOR_RULE, COLOR_SIDEBAR, COLOR_SUCCESS, COLOR_SURFACE, ID_API_PROFILE, ID_AUTO_START,
    ID_ERROR_DETAILS, ID_HOTKEY, ID_MAX_TOKENS, ID_NAV_BEHAVIOR, ID_NAV_PROMPT, ID_NAV_SERVICE,
    ID_PLAY_SOUND, ID_RESET, ID_SAVE, ID_SYSTEM_PROMPT, ID_TEMPERATURE, PAGE_BEHAVIOR,
    PAGE_PROMPT, PAGE_SERVICE,
};

fn keyed_config() -> Config {
    let mut config = Config::default();
    config.active_api_mut().unwrap().api_key = "k".into();
    config
}

#[test]
fn hotkey_needs_an_idle_session_and_a_key() {
    let mut session = Session::new();
    assert_eq!(session.hotkey_gate(&Config::default()), HotkeyGate::MissingKey);
    let config = keyed_config();
    assert!(active_key_present(&config));
    assert_eq!(session.hotkey_gate(&config), HotkeyGate::Ready);
    let first = session.begin_optimize();
    assert_eq!(first, 1);
    assert_eq!(session.hotkey_gate(&config), HotkeyGate::Busy);
    assert!(session.apply_gate(&config).is_err());
    assert_eq!(session.begin_test(), Err("后台任务正在运行，请稍候"));
    assert!(!session.finish_optimize(7));
    assert!(session.busy);
    assert!(session.finish_optimize(first));
    assert!(!session.busy);
    assert_eq!(session.active_task_id, None);
    assert_eq!(session.begin_optimize(), 2);
}

#[test]
fn task_ids_wrap_past_zero() {
    let mut session = Session { busy: false, next_task_id: u64::MAX, active_task_id: None };
    assert_eq!(session.begin_optimize(), u64::MAX);
    assert_eq!(session.next_task_id, 1);
    session.abandon();
    assert!(!session.busy);
}

#[test]
fn blank_keys_and_invalid_configs_block_a_connection_test() {
    let mut config = Config::default();
    config.active_api_mut().unwrap().api_key = "   ".into();
    assert_eq!(api_test_gate(&config), Err("请先填写 API Key".to_string()));
    let mut config = keyed_config();
    config.active_api_mut().unwrap().max_tokens = 0;
    assert_eq!(api_test_gate(&config), Err("配置无效：max_tokens 必须大于 0".to_string()));
    assert_eq!(api_test_gate(&keyed_config()), Ok(()));
    let session = Session::new();
    assert_eq!(
        session.apply_gate(&config),
        Err("配置无效：max_tokens 必须大于 0".to_string())
    );
}

#[test]
fn popup_shows_at_most_eighty_characters_and_stays_while_busy() {
    assert_eq!(popup_text(&"字".repeat(100)).chars().count(), 80);
    assert_eq!(popup_text("短"), "短");
    assert_eq!(popup_timeout("优化中…", false, false), None);
    assert_eq!(popup_timeout("正在优化…", false, false), None);
    assert_eq!(popup_timeout("已复制", false, true), None);
    assert_eq!(popup_timeout("已复制", false, false), Some(1200));
    assert_eq!(popup_timeout("失败", true, false), Some(2400));
}

fn press(vk: u32, time: u32) -> KeyEvent {
    KeyEvent { vk, key_down: true, key_up: false, ctrl_down: true, time }
}

fn release(vk: u32, time: u32) -> KeyEvent {
    KeyEvent { vk, key_down: false, key_up: true, ctrl_down: true, time }
}

#[test]
fn keyboard_hook_counts_ctrl_a_and_fires_on_the_third() {
    let state = GestureState::new(3);
    let (state, action) = handle_key_event(state, press(VK_A, 100));
    assert_eq!(action, HookAction { replay: 0, trigger: false, suppress: true, timer: TimerAction::Restart });
    let (state, action) = handle_key_event(state, press(VK_A, 110));
    assert_eq!(action.timer, TimerAction::Keep);
    assert!(action.suppress);
    let (state, _) = handle_key_event(state, release(VK_A, 120));
    let (state, _) = handle_key_event(state, press(VK_A, 200));
    let (state, _) = handle_key_event(state, release(VK_A, 210));
    let (state, action) = handle_key_event(state, press(VK_A, 300));
    assert!(action.trigger);
    assert_eq!(action.timer, TimerAction::Stop);
    assert_eq!(state.taps, 0);
}

#[test]
fn keyboard_hook_replays_interrupted_sequences() {
    let state = GestureState::new(3);
    let (state, _) = handle_key_event(state, press(VK_A, 100));
    let (state, _) = handle_key_event(state, release(VK_A, 110));
    let (state, action) = handle_key_event(state, release(0xA2, 120));
    assert_eq!(action, HookAction { replay: 1, trigger: false, suppress: false, timer: TimerAction::Stop });
    assert_eq!(state.taps, 0);
    let (state, _) = handle_key_event(state, press(VK_A, 200));
    let (state, replay) = handle_timer(state);
    assert_eq!(replay, 1);
    assert_eq!(state.taps, 0);
    let (_, action) = handle_key_event(GestureState::idle(), press(VK_A, 1));
    assert!(!action.suppress);
}

#[test]
fn backup_names_carry_the_timestamp() {
    assert_eq!(invalid_backup_file_name(1700000000), "config.invalid-1700000000.json");
    assert_eq!(invalid_backup_file_name(0), "config.invalid-0.json");
}

fn named(name: &str) -> ApiProfile {
    let mut profile = ApiProfile::default();
    profile.name = name.into();
    profile
}

fn draft_of(names: &[&str], active: &str) -> ProfileDraft {
    let mut config = Config::default();
    config.api_profiles = names.iter().map(|n| named(n)).collect();
    config.active_profile = active.into();
    ProfileDraft::from_config(&config)
}

#[test]
fn drafts_select_and_show_the_active_profile() {
    let draft = draft_of(&["Work", "Home"], "home");
    assert_eq!(draft.selected_index(), Some(1));
    assert_eq!(draft.shown().name, "Home");
    let draft = draft_of(&["Work"], "missing");
    assert_eq!(draft.selected_index(), None);
    assert_eq!(draft.shown(), ApiProfile::default());
}

#[test]
fn new_profile_then_delete_cancels_it() {
    let mut draft = draft_of(&["Work"], "Work");
    let blank = draft.begin_new(named("Work")).unwrap();
    assert_eq!(blank.name, "");
    assert_eq!(draft.editing_original, None);
    match draft.delete_visible() {
        DeleteOutcome::CancelledNew(profile) => assert_eq!(profile.name, "Work"),
        other => panic!("unexpected {other:?}"),
    }
    assert_eq!(draft.editing_original.as_deref(), Some("Work"));
}

#[test]
fn deleting_keeps_the_last_profile() {
    let mut draft = draft_of(&["Work"], "Work");
    assert_eq!(
        draft.delete_visible(),
        DeleteOutcome::Refused("至少需要保留一个 API 配置".into())
    );
    let mut draft = draft_of(&["Work", "Home"], "Work");
    match draft.delete_visible() {
        DeleteOutcome::Removed(next) => assert_eq!(next.name, "Home"),
        other => panic!("unexpected {other:?}"),
    }
    assert_eq!(draft.profiles.len(), 1);
    assert_eq!(draft.active, "Home");
    let mut draft = draft_of(&["Work", "Home"], "Work");
    draft.editing_original = Some("Elsewhere".into());
    assert_eq!(
        draft.delete_visible(),
        DeleteOutcome::Refused("未找到要删除的 API 配置".into())
    );
}

#[test]
fn switching_keeps_the_visible_profile_first() {
    let mut draft = draft_of(&["Work", "Home"], "Work");
    let mut edited = named("Work");
    edited.model = "edited".into();
    match draft.switch_to("home", Ok(edited)) {
        SwitchOutcome::Switched(profile) => assert_eq!(profile.name, "Home"),
        other => panic!("unexpected {other:?}"),
    }
    assert_eq!(draft.profiles[0].model, "edited");
    assert_eq!(draft.active, "Home");
    assert_eq!(draft.switch_to("nowhere", Ok(named("Home"))), SwitchOutcome::Unchanged);
    let mut draft = draft_of(&["Work", "Home"], "Work");
    draft.active = "Home".into();
    assert_eq!(
        draft.switch_to("Home", Err("model 不能为空".into())),
        SwitchOutcome::Refused("当前配置尚未填写完整：model 不能为空".into())
    );
    assert_eq!(draft.active, "Work");
}

#[test]
fn settings_layout_places_each_page() {
    let service = layout_settings(PAGE_SERVICE, 860, 730, 96);
    assert_eq!(service.len(), 3 + 11 + 3);
    assert_eq!((service[0].control, service[0].x, service[0].y, service[0].width, service[0].height), (ID_NAV_SERVICE, 18, 112, 160, 44));
    let profile = service[3];
    assert_eq!((profile.control, profile.x, profile.y, profile.width, profile.height), (ID_API_PROFILE, 246, 144, 432, 220));
    let temperature = service.iter().find(|p| p.control == ID_TEMPERATURE).unwrap();
    assert_eq!((temperature.x, temperature.y, temperature.width, temperature.height), (246, 544, 262, 24));
    let tokens = service.iter().find(|p| p.control == ID_MAX_TOKENS).unwrap();
    assert_eq!(tokens.x, 234 + 286 + 16 + 12);
    let save = service.last().unwrap();
    assert_eq!((save.control, save.x, save.y), (ID_SAVE, 860 - 132, 730 - 56));

    let prompt = layout_settings(PAGE_PROMPT, 860, 730, 96);
    assert_eq!(prompt.len(), 7);
    assert_eq!((prompt[3].control, prompt[3].y, prompt[3].height), (ID_SYSTEM_PROMPT, 156, 410 - 20));

    let behavior = layout_settings(PAGE_BEHAVIOR, 860, 730, 96);
    let ids: Vec<u16> = behavior.iter().map(|p| p.control).collect();
    assert_eq!(ids, vec![ID_NAV_SERVICE, ID_NAV_PROMPT, ID_NAV_BEHAVIOR, ID_HOTKEY, ID_PLAY_SOUND, ID_AUTO_START, ID_ERROR_DETAILS, ID_RESET, ID_SAVE]);

    let narrow = layout_settings(PAGE_BEHAVIOR, 100, 100, 96);
    assert_eq!(narrow[4].width, 360);
}

#[test]
fn field_frames_follow_the_layout() {
    let frames = field_frames(PAGE_SERVICE, 860, 730, 96);
    assert_eq!(frames.len(), 7);
    assert_eq!((frames[0].label, frames[0].x, frames[0].y, frames[0].width), ("当前配置", 234, 134, 456));
    assert_eq!(label_rect(frames[0], 96), [234, 110, 690, 132]);
    let frames = field_frames(PAGE_PROMPT, 860, 730, 96);
    assert_eq!((frames[0].label, frames[0].height), ("系统提示词", 410));
    let frames = field_frames(PAGE_BEHAVIOR, 860, 730, 96);
    assert_eq!(frames[0].label, "全局热键");
    assert_eq!(page_title(PAGE_PROMPT), "优化规则");
    assert_eq!(page_title(9), "应用行为");
    assert_eq!(status_right_margin(true, 96), 374);
}

#[test]
fn colours_match_their_components() {
    assert_eq!(rgb(246, 248, 252), COLOR_PAPER);
    assert_eq!(rgb(252, 253, 255), COLOR_SURFACE);
    assert_eq!(rgb(237, 241, 248), COLOR_SIDEBAR);
    assert_eq!(rgb(27, 32, 44), COLOR_INK);
    assert_eq!(rgb(86, 96, 116), COLOR_MUTED);
    assert_eq!(rgb(203, 211, 226), COLOR_RULE);
    assert_eq!(rgb(49, 86, 207), COLOR_ACCENT);
    assert_eq!(rgb(222, 230, 252), COLOR_ACCENT_SOFT);
    assert_eq!(rgb(171, 53, 68), COLOR_ERROR);
    assert_eq!(rgb(35, 119, 88), COLOR_SUCCESS);
    assert_eq!(rgb(38, 68, 172), COLOR_ACCENT_PRESSED);
}

#[test]
fn buttons_are_styled_by_role_and_state() {
    let save = button_style(ID_SAVE, PAGE_SERVICE, false, false, false);
    assert_eq!((save.background, save.text, save.border), (COLOR_ACCENT, COLOR_SURFACE, COLOR_ACCENT));
    assert_eq!(button_style(ID_SAVE, PAGE_SERVICE, false, true, false).background, COLOR_ACCENT_PRESSED);
    let disabled = button_style(ID_SAVE, PAGE_SERVICE, true, false, false);
    assert_eq!((disabled.background, disabled.text, disabled.border), (COLOR_RULE, COLOR_MUTED, COLOR_RULE));
    let nav = button_style(ID_NAV_PROMPT, PAGE_PROMPT, false, false, false);
    assert_eq!((nav.background, nav.text, nav.left_aligned), (COLOR_ACCENT_SOFT, COLOR_ACCENT, true));
    let other_nav = button_style(ID_NAV_PROMPT, PAGE_SERVICE, false, false, false);
    assert_eq!((other_nav.background, other_nav.border), (COLOR_SIDEBAR, COLOR_RULE));
    assert_eq!(button_style(ID_RESET, PAGE_SERVICE, false, false, false).background, COLOR_SURFACE);
    assert!(!button_style(ID_RESET, PAGE_SERVICE, false, false, false).left_aligned);
    assert_eq!(button_style(ID_NAV_BEHAVIOR, PAGE_SERVICE, false, false, true).background, COLOR_SURFACE);
    let _ = PAGE_BEHAVIOR;
}

#[test]
fn status_line_colours_errors_and_fresh_saves() {
    let (text, color) = status_appearance("API 返回错误 403：服务端返回了一段很长的诊断内容", true, true);
    assert_eq!(text.chars().count(), 19);
    assert_eq!(color, COLOR_ERROR);
    assert_eq!(status_appearance("已保存并应用", false, false), ("已保存并应用".to_string(), COLOR_SUCCESS));
    assert_eq!(status_appearance("已保存并应用", false, true).1, COLOR_MUTED);
    assert_eq!(status_appearance("有尚未保存的更改", false, true).1, COLOR_MUTED);
}
