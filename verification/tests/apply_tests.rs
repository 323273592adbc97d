use prompt_optimizer::apply::{ApplyAction, ApplyRun, HotkeyRole};

/// Runs an apply, answering the calls in order from `answers` (`None` for success),
/// and returns the calls made and the outcome.
fn drive(mut run: ApplyRun, answers: &[Option<&str>]) -> (Vec<ApplyAction>, ApplyAction) {
    let mut calls = Vec::new();
    let mut answers = answers.iter();
    while !run.is_finished() {
        calls.push(run.action());
        let answer = answers.next().copied().unwrap_or(None);
        run.step(answer);
    }
    (calls, run.action())
}

#[test]
fn unchanged_hotkey_saves_after_start_up() {
    let (calls, outcome) = drive(ApplyRun::begin(true, false, true, false, true), &[]);
    assert_eq!(calls, vec![ApplyAction::SetAutoStart(true), ApplyAction::Save]);
    assert_eq!(outcome, ApplyAction::Applied { registered: true });
}

#[test]
fn reload_does_not_save() {
    let (calls, outcome) = drive(ApplyRun::begin(false, false, false, true, true), &[]);
    assert_eq!(calls, vec![ApplyAction::SetAutoStart(true)]);
    assert_eq!(outcome, ApplyAction::Applied { registered: false });
}

#[test]
fn changed_hotkey_releases_the_old_one_first() {
    let (calls, outcome) = drive(ApplyRun::begin(true, true, true, false, false), &[]);
    assert_eq!(
        calls,
        vec![
            ApplyAction::Unregister(HotkeyRole::Old),
            ApplyAction::Register(HotkeyRole::New),
            ApplyAction::SetAutoStart(false),
            ApplyAction::Save,
        ]
    );
    assert_eq!(outcome, ApplyAction::Applied { registered: true });
}

#[test]
fn refused_hotkey_takes_the_old_one_back() {
    let (calls, outcome) = drive(
        ApplyRun::begin(true, true, true, false, false),
        &[None, Some("热键已被占用"), None],
    );
    assert_eq!(
        calls,
        vec![
            ApplyAction::Unregister(HotkeyRole::Old),
            ApplyAction::Register(HotkeyRole::New),
            ApplyAction::Register(HotkeyRole::Old),
        ]
    );
    assert_eq!(
        outcome,
        ApplyAction::Rejected { registered: true, message: "新热键无法注册：热键已被占用".into() }
    );
}

#[test]
fn refused_hotkey_without_an_old_one_leaves_none() {
    let (calls, outcome) =
        drive(ApplyRun::begin(true, true, false, false, false), &[Some("占用")]);
    assert_eq!(calls, vec![ApplyAction::Register(HotkeyRole::New)]);
    assert_eq!(
        outcome,
        ApplyAction::Rejected { registered: false, message: "新热键无法注册：占用".into() }
    );
}

#[test]
fn start_up_failure_undoes_the_hotkey_then_start_up() {
    let (calls, outcome) = drive(
        ApplyRun::begin(true, true, true, false, true),
        &[None, None, Some("拒绝访问"), None, Some("again"), None],
    );
    assert_eq!(
        calls,
        vec![
            ApplyAction::Unregister(HotkeyRole::Old),
            ApplyAction::Register(HotkeyRole::New),
            ApplyAction::SetAutoStart(true),
            ApplyAction::Unregister(HotkeyRole::New),
            ApplyAction::Register(HotkeyRole::Old),
            ApplyAction::SetAutoStart(false),
        ]
    );
    assert_eq!(
        outcome,
        ApplyAction::Rejected { registered: false, message: "开机自启设置失败：拒绝访问".into() }
    );
}

#[test]
fn save_failure_undoes_start_up_then_the_hotkey() {
    let (calls, outcome) = drive(
        ApplyRun::begin(true, true, true, true, false),
        &[None, None, None, Some("磁盘已满"), None, None, None],
    );
    assert_eq!(
        calls,
        vec![
            ApplyAction::Unregister(HotkeyRole::Old),
            ApplyAction::Register(HotkeyRole::New),
            ApplyAction::SetAutoStart(false),
            ApplyAction::Save,
            ApplyAction::SetAutoStart(true),
            ApplyAction::Unregister(HotkeyRole::New),
            ApplyAction::Register(HotkeyRole::Old),
        ]
    );
    assert_eq!(outcome, ApplyAction::Rejected { registered: true, message: "磁盘已满".into() });
}

#[test]
fn save_failure_with_the_same_hotkey_only_restores_start_up() {
    let (calls, outcome) = drive(
        ApplyRun::begin(true, false, true, false, true),
        &[None, Some("只读"), None],
    );
    assert_eq!(
        calls,
        vec![ApplyAction::SetAutoStart(true), ApplyAction::Save, ApplyAction::SetAutoStart(false)]
    );
    assert_eq!(outcome, ApplyAction::Rejected { registered: true, message: "只读".into() });
}
