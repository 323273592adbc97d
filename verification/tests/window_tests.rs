use prompt_optimizer::clipboard::{after_open_attempt, clipboard_text, OpenStep};
use prompt_optimizer::form_controls::{
    control_font, font_metrics, form_controls, initial_client_size, min_track_size, window_dpi,
    ControlKind, FontRole,
};
use prompt_optimizer::session::Session;
use prompt_optimizer::settings::{
    frame_border, page_notes, window_chrome, COLOR_ACCENT, COLOR_RULE, ID_API_PROFILE, ID_HOTKEY,
    ID_MODEL, ID_NAV_SERVICE, ID_SAVE, ID_SHOW_KEY, ID_SYSTEM_PROMPT, PAGE_BEHAVIOR, PAGE_PROMPT,
    PAGE_SERVICE,
};
use prompt_optimizer::config::Config;
use prompt_optimizer::shell::{
    ApiTestRequest, ApplyRequest,
    running_tooltip, shell_event, tray_command, ShellEvent, TrayCommand, GESTURE_TIMER_ID,
    HOTKEY_ID, MENU_EXIT, MENU_RELOAD, MENU_SETTINGS, WM_APPLY_CONFIG, WM_CONTEXTMENU,
    WM_DESTROY, WM_GESTURE_HOTKEY, WM_HOTKEY, WM_RBUTTONUP, WM_SETTINGS_CLOSED, WM_TEST_API,
    WM_TIMER, WM_TRAY, WM_WORKER_DONE,
};

#[test]
fn the_form_has_every_control_once_in_tab_order() {
    let controls = form_controls();
    assert_eq!(controls.len(), 21);
    assert_eq!(controls[0].id, ID_NAV_SERVICE);
    assert_eq!(controls[0].caption, "模型与服务");
    assert_eq!(controls[20].id, ID_SAVE);
    assert_eq!(controls[20].caption, "保存并应用");
    let combo = controls.iter().find(|c| c.id == ID_API_PROFILE).unwrap();
    assert_eq!(combo.kind, ControlKind::Combo);
    let prompt = controls.iter().find(|c| c.id == ID_SYSTEM_PROMPT).unwrap();
    assert_eq!(prompt.kind, ControlKind::Edit { multiline: true });
    let hotkey = controls.iter().find(|c| c.id == ID_HOTKEY).unwrap();
    assert_eq!(hotkey.cue, "Ctrl+TripleA");
    let model = controls.iter().find(|c| c.id == ID_MODEL).unwrap();
    assert_eq!(model.cue, "deepseek-ai/DeepSeek-V4-Flash");
    let show = controls.iter().find(|c| c.id == ID_SHOW_KEY).unwrap();
    assert_eq!(show.kind, ControlKind::Checkbox);
    assert_eq!(show.caption, "显示 API Key");
    for (i, a) in controls.iter().enumerate() {
        for b in &controls[i + 1..] {
            assert_ne!(a.id, b.id);
        }
    }
}

#[test]
fn fonts_follow_the_control_and_the_dpi() {
    assert_eq!(control_font(ID_NAV_SERVICE), FontRole::Body);
    assert_eq!(control_font(ID_SAVE), FontRole::Body);
    assert_eq!(control_font(ID_MODEL), FontRole::Label);
    assert_eq!(font_metrics(FontRole::Body, 96), (-16, 400));
    assert_eq!(font_metrics(FontRole::Label, 144), (-20, 400));
    assert_eq!(font_metrics(FontRole::Title, 96), (-26, 650));
}

#[test]
fn window_size_scales_from_its_96_dpi_size() {
    assert_eq!(window_dpi(0), 96);
    assert_eq!(window_dpi(144), 144);
    assert_eq!(initial_client_size(96), (860, 730));
    assert_eq!(initial_client_size(144), (1290, 1095));
    assert_eq!(min_track_size(96), (720, 760));
}

#[test]
fn chrome_at_96_dpi() {
    let chrome = window_chrome(860, 730, 96, false);
    assert_eq!(chrome.sidebar, [0, 0, 196, 730]);
    assert_eq!(chrome.brand, [20, 24, 180, 52]);
    assert_eq!(chrome.brand_caption, [20, 54, 180, 76]);
    assert_eq!(chrome.title, [234, 24, 828, 60]);
    assert_eq!(chrome.subtitle, [234, 70, 828, 96]);
    assert_eq!(chrome.footer_rule, [196, 658, 860, 659]);
    assert_eq!(chrome.status, [234, 675, 588, 720]);
    let error = window_chrome(860, 730, 96, true);
    assert_eq!(error.status[2], 860 - 374);
}

#[test]
fn page_notes_at_96_dpi() {
    assert!(page_notes(PAGE_SERVICE, 860, 730, 96).is_empty());
    let prompt = page_notes(PAGE_PROMPT, 860, 730, 96);
    assert_eq!(prompt.len(), 2);
    assert_eq!(prompt[0].text, "优化结果将复制到剪贴板");
    assert!(prompt[0].emphasis);
    // the prompt is 730 - 72 - 124 - 124 = 410 high, below a 124 high header
    assert_eq!(prompt[0].rect, [234, 124 + 410 + 52, 822, 124 + 410 + 78]);
    assert!(!prompt[1].emphasis);
    let behavior = page_notes(PAGE_BEHAVIOR, 860, 730, 96);
    assert_eq!(behavior.len(), 1);
    assert_eq!(behavior[0].rect, [234, 204, 822, 226]);
    assert_eq!(
        behavior[0].text,
        "示例：Ctrl+TripleA · Ctrl+DoubleA · Ctrl+F8 · Alt+Shift+P"
    );
}

#[test]
fn focused_frames_use_the_accent() {
    assert_eq!(frame_border(true), COLOR_ACCENT);
    assert_eq!(frame_border(false), COLOR_RULE);
}

#[test]
fn hidden_window_messages() {
    let taskbar = 0xC0F0;
    assert_eq!(shell_event(taskbar, 0, 0, taskbar), ShellEvent::TaskbarCreated);
    assert_eq!(shell_event(WM_HOTKEY, HOTKEY_ID, 0, taskbar), ShellEvent::Hotkey);
    assert_eq!(shell_event(WM_HOTKEY, 7, 0, taskbar), ShellEvent::Other);
    assert_eq!(shell_event(WM_GESTURE_HOTKEY, 0, 0, taskbar), ShellEvent::Hotkey);
    assert_eq!(shell_event(WM_TIMER, GESTURE_TIMER_ID, 0, taskbar), ShellEvent::GestureTimeout);
    assert_eq!(shell_event(WM_TIMER, 1, 0, taskbar), ShellEvent::Other);
    assert_eq!(shell_event(WM_TRAY, 0, WM_RBUTTONUP, taskbar), ShellEvent::TrayMenu);
    assert_eq!(shell_event(WM_TRAY, 0, WM_CONTEXTMENU, taskbar), ShellEvent::TrayMenu);
    assert_eq!(shell_event(WM_TRAY, 0, 0x0201, taskbar), ShellEvent::TrayIgnored);
    assert_eq!(shell_event(WM_WORKER_DONE, 0, 0, taskbar), ShellEvent::WorkerDone);
    assert_eq!(shell_event(WM_APPLY_CONFIG, 0, 0, taskbar), ShellEvent::ApplyConfig);
    assert_eq!(shell_event(WM_TEST_API, 0, 0, taskbar), ShellEvent::TestApi);
    assert_eq!(shell_event(WM_SETTINGS_CLOSED, 0, 0, taskbar), ShellEvent::SettingsClosed);
    assert_eq!(shell_event(WM_DESTROY, 0, 0, taskbar), ShellEvent::Destroy);
}

#[test]
fn tray_menu_choices() {
    assert_eq!(tray_command(MENU_SETTINGS), TrayCommand::OpenSettings);
    assert_eq!(tray_command(MENU_RELOAD), TrayCommand::Reload);
    assert_eq!(tray_command(MENU_EXIT), TrayCommand::Exit);
    assert_eq!(tray_command(0), TrayCommand::Nothing);
    assert_eq!(running_tooltip("Ctrl+TripleA"), "运行中 | 热键: Ctrl+TripleA");
}

#[test]
fn reload_waits_for_running_work() {
    let mut session = Session::new();
    assert_eq!(session.reload_gate(), Ok(()));
    session.begin_optimize();
    assert_eq!(session.reload_gate(), Err("优化进行中，暂不能重载配置"));
}

#[test]
fn clipboard_opening_is_retried_for_200_ms() {
    assert_eq!(after_open_attempt(true, 500), OpenStep::Opened);
    assert_eq!(after_open_attempt(false, 0), OpenStep::RetryAfter(10));
    assert_eq!(after_open_attempt(false, 199), OpenStep::RetryAfter(10));
    assert_eq!(after_open_attempt(false, 200), OpenStep::GiveUp);
}

#[test]
fn clipboard_text_is_terminated_utf16() {
    let (units, bytes) = clipboard_text("已复制 ok");
    let expected: Vec<u16> = "已复制 ok".encode_utf16().chain(std::iter::once(0)).collect();
    assert_eq!(units, expected);
    assert_eq!(bytes, 14);
    let (units, bytes) = clipboard_text("😀");
    assert_eq!(units, vec![0xD83D, 0xDE00, 0]);
    assert_eq!(bytes, 6);
}

#[test]
fn settings_requests_carry_the_refusal_back() {
    let mut apply = ApplyRequest { config: Config::default(), error: Some("old".into()) };
    assert_eq!(apply.answer(Ok(())), 1);
    assert_eq!(apply.error, None);
    assert_eq!(apply.answer(Err("后台任务进行中，请完成后再保存配置".into())), 0);
    assert_eq!(apply.error.as_deref(), Some("后台任务进行中，请完成后再保存配置"));
    assert_eq!(apply.config, Config::default());
    let mut test = ApiTestRequest { config: Config::default(), error: None };
    assert_eq!(test.answer(Err("API 工作线程不可用".into())), 0);
    assert_eq!(test.error.as_deref(), Some("API 工作线程不可用"));
}
