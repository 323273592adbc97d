use prompt_optimizer::apply::{ApplyAction, Running};
use prompt_optimizer::config::Config;
use prompt_optimizer::gesture::{handle_hook_event, GestureState, KeyEvent, TimerAction, VK_A};
use prompt_optimizer::popup::{PopupAnchor, PopupSide, PopupState};
use prompt_optimizer::settings::{
    field_frames, layout_settings, ID_API_PROFILE, PAGE_BEHAVIOR, PAGE_PROMPT, PAGE_SERVICE,
};

#[test]
fn every_edit_lies_inside_its_drawn_frame() {
    for dpi in [96u32, 120, 144, 192] {
        for (right, bottom) in [(860, 730), (1290, 1095), (700, 500)] {
            for page in [PAGE_SERVICE, PAGE_PROMPT, PAGE_BEHAVIOR] {
                let layout = layout_settings(page, right, bottom, dpi);
                for frame in field_frames(page, right, bottom, dpi) {
                    let placed = layout.iter().find(|p| p.control == frame.control).unwrap();
                    assert!(placed.width >= 1 && placed.height >= 1);
                    assert!(frame.x < placed.x);
                    assert!(placed.x + placed.width < frame.x + frame.width);
                    assert!(frame.y < placed.y);
                    if frame.control != ID_API_PROFILE {
                        assert!(placed.y + placed.height < frame.y + frame.height);
                    }
                }
            }
        }
    }
}

#[test]
fn the_profile_list_drops_down_below_its_frame() {
    let layout = layout_settings(PAGE_SERVICE, 860, 730, 96);
    let combo = layout.iter().find(|p| p.control == ID_API_PROFILE).unwrap();
    let frame = field_frames(PAGE_SERVICE, 860, 730, 96)[0];
    assert_eq!((combo.x, combo.y, combo.width, combo.height), (246, 144, 432, 220));
    assert_eq!((frame.x, frame.y, frame.width, frame.height), (234, 134, 456, 44));
}

#[test]
fn injected_presses_are_passed_on_untouched() {
    let state = GestureState::new(2);
    let press = KeyEvent { vk: VK_A, key_down: true, key_up: false, ctrl_down: true, time: 10 };
    let (after, action) = handle_hook_event(state, press, true);
    assert_eq!(after, state);
    assert!(!action.suppress && !action.trigger && action.replay == 0);
    assert_eq!(action.timer, TimerAction::Keep);
    let (after, action) = handle_hook_event(state, press, false);
    assert_eq!(after.taps, 1);
    assert!(action.suppress);
}

fn anchor(edge_x: i32) -> PopupAnchor {
    PopupAnchor {
        side: PopupSide::Right,
        edge_x,
        y: 50,
        max_width: 300,
        work_left: 0,
        work_right: 800,
    }
}

#[test]
fn popup_keeps_its_place_during_a_task() {
    let mut popup = PopupState::hidden();
    assert!(popup.needs_new_anchor(false));
    assert_eq!(popup.show(true, anchor(100)), anchor(100));
    assert!(!popup.needs_new_anchor(false));
    assert_eq!(popup.show(false, anchor(400)), anchor(100));
    assert!(popup.visible);
    popup.time_out();
    assert!(!popup.visible);
    assert!(popup.needs_new_anchor(false));
    assert_eq!(popup.show(false, anchor(400)), anchor(400));
    assert!(popup.needs_new_anchor(true));
    assert_eq!(popup.show(true, anchor(20)), anchor(20));
}

#[test]
fn a_refused_apply_keeps_the_running_configuration() {
    let mut running = Running { config: Config::default(), hotkey_registered: true };
    let mut other = Config::default();
    other.hotkey = "Ctrl+F8".into();
    let refused = ApplyAction::Rejected { registered: false, message: "新热键无法注册：x".into() };
    assert!(!running.settle(other.clone(), &refused));
    assert_eq!(running.config, Config::default());
    assert!(!running.hotkey_registered);
    assert!(!running.settle(other.clone(), &ApplyAction::Save));
    assert_eq!(running.config, Config::default());
    assert!(running.settle(other.clone(), &ApplyAction::Applied { registered: true }));
    assert_eq!(running.config, other);
    assert!(running.hotkey_registered);
}
