use prompt_optimizer::config::ApiProfile;
use prompt_optimizer::form_flow::{
    page_switch, report_delete, report_new, report_save, report_switch, report_test_start,
    FormReport,
};
use prompt_optimizer::settings::{DeleteOutcome, SwitchOutcome};
use prompt_optimizer::app_error::AppError;
use prompt_optimizer::gesture::{replay_sequence, KeyStroke, VK_CONTROL};
use prompt_optimizer::settings::{
    command_for, key_password_char, visible_on_page, FormCommand, FormStatus, BN_CLICKED,
    CBN_SELCHANGE, EN_CHANGE, EN_KILLFOCUS, EN_SETFOCUS, ID_API_KEY, ID_API_PROFILE,
    ID_AUTO_START, ID_ERROR_DETAILS, ID_HOTKEY, ID_MODEL, ID_NAV_BEHAVIOR, ID_NAV_PROMPT,
    ID_NAV_SERVICE, ID_PLAY_SOUND, ID_PROFILE_DELETE, ID_PROFILE_NEW, ID_RESET, ID_SAVE,
    ID_SHOW_KEY, ID_SYSTEM_PROMPT, ID_TEST_API, PAGE_BEHAVIOR, PAGE_PROMPT, PAGE_SERVICE,
};

fn wparam(id: u16, notification: u32) -> usize {
    ((notification as usize) << 16) | id as usize
}

#[test]
fn clicks_map_to_their_commands() {
    let cases = [
        (ID_NAV_SERVICE, FormCommand::SwitchPage(PAGE_SERVICE)),
        (ID_NAV_PROMPT, FormCommand::SwitchPage(PAGE_PROMPT)),
        (ID_NAV_BEHAVIOR, FormCommand::SwitchPage(PAGE_BEHAVIOR)),
        (ID_SHOW_KEY, FormCommand::ToggleKeyVisibility),
        (ID_RESET, FormCommand::Reset),
        (ID_SAVE, FormCommand::Save),
        (ID_PROFILE_NEW, FormCommand::NewProfile),
        (ID_PROFILE_DELETE, FormCommand::DeleteProfile),
        (ID_TEST_API, FormCommand::TestApi),
        (ID_ERROR_DETAILS, FormCommand::ShowErrorDetails),
        (ID_PLAY_SOUND, FormCommand::MarkDirty),
        (ID_AUTO_START, FormCommand::MarkDirty),
        (ID_API_KEY, FormCommand::Nothing),
    ];
    for (id, command) in cases {
        assert_eq!(command_for(wparam(id, BN_CLICKED), false), command, "id {id}");
    }
}

#[test]
fn edits_mark_the_form_dirty_unless_events_are_suppressed() {
    assert_eq!(command_for(wparam(ID_MODEL, EN_CHANGE), false), FormCommand::MarkDirty);
    assert_eq!(command_for(wparam(ID_MODEL, EN_CHANGE), true), FormCommand::Nothing);
    assert_eq!(command_for(wparam(ID_SYSTEM_PROMPT, EN_CHANGE), false), FormCommand::MarkDirty);
    assert_eq!(command_for(wparam(ID_MODEL, EN_SETFOCUS), false), FormCommand::Repaint);
    assert_eq!(command_for(wparam(ID_MODEL, EN_KILLFOCUS), true), FormCommand::Repaint);
    assert_eq!(
        command_for(wparam(ID_API_PROFILE, CBN_SELCHANGE), true),
        FormCommand::SwitchProfile
    );
    assert_eq!(command_for(wparam(ID_SAVE, 7), false), FormCommand::Nothing);
}

#[test]
fn the_high_bits_of_the_word_parameter_are_ignored() {
    let high = 1usize << 40;
    assert_eq!(command_for(high | wparam(ID_SAVE, BN_CLICKED), false), FormCommand::Save);
}

#[test]
fn each_page_shows_its_own_controls() {
    assert!(visible_on_page(ID_API_KEY, PAGE_SERVICE));
    assert!(!visible_on_page(ID_API_KEY, PAGE_PROMPT));
    assert!(visible_on_page(ID_SYSTEM_PROMPT, PAGE_PROMPT));
    assert!(!visible_on_page(ID_SYSTEM_PROMPT, PAGE_BEHAVIOR));
    assert!(visible_on_page(ID_HOTKEY, PAGE_BEHAVIOR));
    assert!(!visible_on_page(ID_AUTO_START, PAGE_SERVICE));
    assert!(visible_on_page(ID_SAVE, PAGE_PROMPT));
}

#[test]
fn the_key_is_masked_unless_shown() {
    assert_eq!(key_password_char(true), 0);
    assert_eq!(key_password_char(false), '●' as u32);
}

#[test]
fn form_status_tracks_changes() {
    let mut form = FormStatus::clean("已保存并应用");
    assert!(!form.dirty);
    form.suppress_events = true;
    assert!(!form.mark_dirty());
    assert!(!form.dirty);
    assert_eq!(form.status, "已保存并应用");
    form.suppress_events = false;
    assert!(form.mark_dirty());
    assert!(form.dirty);
    assert_eq!(form.status, "有尚未保存的更改");
    form.set_status("请先填写 API Key", true);
    assert!(form.status_error);
    assert!(form.dirty);
    form.complete_api_test(Ok(()));
    assert_eq!(form.status, "API 连接正常");
    assert!(!form.status_error);
    form.complete_api_test(Err("HTTP 401".into()));
    assert_eq!(form.status, "HTTP 401");
    assert!(form.status_error);
    form.set_clean("已恢复为当前运行配置");
    assert!(!form.dirty);
    assert!(!form.status_error);
}

#[test]
fn replay_presses_ctrl_a_once_per_swallowed_tap() {
    assert!(replay_sequence(0).is_empty());
    let strokes = replay_sequence(2);
    let press = [
        KeyStroke { vk: VK_CONTROL, key_up: false },
        KeyStroke { vk: 0x41, key_up: false },
        KeyStroke { vk: 0x41, key_up: true },
    ];
    assert_eq!(strokes.len(), 6);
    assert_eq!(&strokes[0..3], &press);
    assert_eq!(&strokes[3..6], &press);
}

#[test]
fn app_error_shows_its_message() {
    let error = AppError("内嵌图标格式无效".into());
    assert_eq!(error.message(), "内嵌图标格式无效");
}

#[test]
fn profile_actions_report_their_status() {
    let mut work = ApiProfile::default();
    work.name = "工作".into();
    assert_eq!(
        report_delete(&DeleteOutcome::CancelledNew(work.clone())),
        FormReport::Dirty("已取消新建配置".into())
    );
    assert_eq!(
        report_delete(&DeleteOutcome::Removed(work.clone())),
        FormReport::Dirty("API 配置已移除；保存并应用，或重置撤销".into())
    );
    assert_eq!(
        report_delete(&DeleteOutcome::Refused("至少需要保留一个 API 配置".into())),
        FormReport::Error("至少需要保留一个 API 配置".into())
    );
    assert_eq!(
        report_switch(&SwitchOutcome::Switched(work.clone())),
        FormReport::Dirty("当前配置：工作（保存并应用后生效）".into())
    );
    assert_eq!(report_switch(&SwitchOutcome::Unchanged), FormReport::Nothing);
    assert_eq!(
        report_new(&Ok(work)),
        FormReport::Dirty("正在新建 API 配置，填写后保存并应用".into())
    );
    assert_eq!(report_new(&Err("x".into())), FormReport::Error("x".into()));
}

#[test]
fn save_and_test_requests_report_their_outcome() {
    assert_eq!(report_save(true, None), FormReport::Clean("已保存并应用".into()));
    assert_eq!(report_save(false, None), FormReport::Error("配置未能应用，请重试".into()));
    assert_eq!(
        report_save(false, Some("新热键无法注册：x")),
        FormReport::Error("新热键无法注册：x".into())
    );
    assert_eq!(report_test_start(true, None), FormReport::Status("正在测试 API 连接…".into()));
    assert_eq!(
        report_test_start(false, None),
        FormReport::Error("无法开始 API 连接测试".into())
    );
    assert_eq!(
        report_test_start(false, Some("后台任务正在运行，请稍候")),
        FormReport::Error("后台任务正在运行，请稍候".into())
    );
}

#[test]
fn reports_update_the_form_status() {
    let mut form = FormStatus::clean("所有修改统一点击“保存并应用”");
    form.apply_report(FormReport::Dirty("已取消新建配置".into()));
    assert!(form.dirty);
    form.apply_report(FormReport::Error("请先填写 API Key".into()));
    assert!(form.status_error && form.dirty);
    form.apply_report(FormReport::Status("正在测试 API 连接…".into()));
    assert!(!form.status_error && form.dirty);
    form.apply_report(FormReport::Clean("已保存并应用".into()));
    assert!(!form.dirty);
    assert_eq!(form.status, "已保存并应用");
    form.suppress_events = true;
    form.apply_report(FormReport::Dirty("有尚未保存的更改".into()));
    assert!(!form.dirty);
    form.apply_report(FormReport::Nothing);
    assert_eq!(form.status, "已保存并应用");
}

#[test]
fn switching_pages_moves_the_focus() {
    assert_eq!(page_switch(PAGE_SERVICE, PAGE_SERVICE), None);
    assert_eq!(page_switch(PAGE_SERVICE, PAGE_PROMPT), Some(ID_SYSTEM_PROMPT));
    assert_eq!(page_switch(PAGE_PROMPT, PAGE_SERVICE), Some(ID_API_KEY));
    assert_eq!(page_switch(PAGE_SERVICE, PAGE_BEHAVIOR), Some(ID_HOTKEY));
}

#[test]
fn one_connection_test_at_a_time_in_the_form() {
    let mut form = FormStatus::clean("所有修改统一点击“保存并应用”");
    assert!(!form.testing_api);
    form.start_api_test(false, None);
    assert!(!form.testing_api);
    assert!(form.status_error);
    assert_eq!(form.status, "无法开始 API 连接测试");
    form.start_api_test(true, None);
    assert!(form.testing_api);
    assert_eq!(form.status, "正在测试 API 连接…");
    form.complete_api_test(Err("API 认证失败（401），请检查 API Key".into()));
    assert!(!form.testing_api);
    assert!(form.status_error);
}
