//! The notices the application shows: at start-up, on a hotkey press, and when an
//! optimisation ends.
use crate::session::HotkeyGate;
use vstd::prelude::*;

verus! {

/// A notice: a title, the message shown in the status popup, and whether it reports
/// an error (which keeps the popup longer).
#[derive(Debug, PartialEq, Eq)]
pub struct Notice {
    pub title: String,
    pub message: String,
    pub is_error: bool,
}

/// Whether `n` has the given title, message and kind.
pub open spec fn notice_is(n: Notice, title: Seq<char>, message: Seq<char>, is_error: bool) -> bool {
    n.title@ == title && n.message@ == message && n.is_error == is_error
}

fn notice(title: &str, message: &str, is_error: bool) -> (res: Notice)
    ensures
        notice_is(res, title@, message@, is_error),
{
    Notice { title: title.to_owned(), message: message.to_owned(), is_error }
}

/// What happens when the application has started.
#[derive(Debug, PartialEq, Eq)]
pub struct StartupPlan {
    pub notices: Vec<Notice>,
    pub open_settings: bool,
}

/// The start-up notices, in order: a hotkey that could not be registered, a start-up
/// entry that could not be set, then either the warning about a configuration that was
/// reset or, on the first run, the request to fill in the API key.
pub open spec fn startup_notices_are(
    ns: Seq<Notice>,
    hotkey_registered: bool,
    auto_start_error: Option<Seq<char>>,
    warning: Option<Seq<char>>,
    first_run: bool,
) -> bool {
    let a: nat = if hotkey_registered { 0 } else { 1 };
    let b: nat = if auto_start_error is Some { 1 } else { 0 };
    let c: nat = if warning is Some || first_run { 1 } else { 0 };
    &&& ns.len() == a + b + c
    &&& !hotkey_registered ==> notice_is(ns[0], "错误"@, "热键注册失败，请修改配置后重新加载"@, true)
    &&& auto_start_error matches Some(e) ==> notice_is(ns[a as int], "开机自启设置失败"@, e, true)
    &&& warning matches Some(w) ==> notice_is(ns[(a + b) as int], "配置已重置"@, w, true)
    &&& (warning is None && first_run) ==> notice_is(
        ns[(a + b) as int],
        "首次运行"@,
        "已创建配置，请在设置中填写 API Key"@,
        false,
    )
}

/// What to show once the application runs, given whether its hotkey was registered,
/// why start-up with Windows could not be set (if so), the warning about a damaged
/// configuration (if any), and whether this is the first run; the settings open on the
/// first run.
pub fn startup_plan(
    hotkey_registered: bool,
    auto_start_error: Option<&str>,
    warning: Option<&str>,
    first_run: bool,
) -> (res: StartupPlan)
    ensures
        startup_notices_are(
            res.notices@,
            hotkey_registered,
            crate::settings::opt_str_view(auto_start_error),
            crate::settings::opt_str_view(warning),
            first_run,
        ),
        res.open_settings == first_run,
{
    let mut notices: Vec<Notice> = Vec::new();
    if !hotkey_registered {
        notices.push(notice("错误", "热键注册失败，请修改配置后重新加载", true));
    }
    let ghost a = notices@.len();
    if let Some(e) = auto_start_error {
        notices.push(notice("开机自启设置失败", e, true));
    }
    let ghost ab = notices@.len();
    if let Some(w) = warning {
        notices.push(notice("配置已重置", w, true));
    } else if first_run {
        notices.push(notice("首次运行", "已创建配置，请在设置中填写 API Key", false));
    }
    proof {
        assert(a == (if hotkey_registered { 0nat } else { 1nat }));
        assert(ab == a + (if auto_start_error is Some { 1nat } else { 0nat }));
    }
    StartupPlan { notices, open_settings: first_run }
}

/// The notice for a hotkey press that cannot start an optimisation.
pub fn gate_notice(gate: HotkeyGate) -> (res: Option<Notice>)
    ensures
        match gate {
            HotkeyGate::Busy => res matches Some(n) && notice_is(
                n,
                "PromptOptimizer"@,
                "后台任务正在运行，请稍候"@,
                false,
            ),
            HotkeyGate::MissingKey => res matches Some(n) && notice_is(
                n,
                "缺少 API Key"@,
                "请打开设置并填写当前 API 配置的 Key"@,
                true,
            ),
            HotkeyGate::Ready => res is None,
        },
{
    match gate {
        HotkeyGate::Busy => Some(notice("PromptOptimizer", "后台任务正在运行，请稍候", false)),
        HotkeyGate::MissingKey => Some(
            notice("缺少 API Key", "请打开设置并填写当前 API 配置的 Key", true),
        ),
        HotkeyGate::Ready => None,
    }
}

/// The notice when the selection could not be used: none was found, or reading it
/// failed for `error`.
pub fn selection_notice(error: Option<&str>) -> (res: Notice)
    ensures
        match error {
            None => notice_is(res, "PromptOptimizer"@, "未检测到选中文本"@, false),
            Some(e) => notice_is(res, "读取选区失败"@, e@, true),
        },
{
    match error {
        None => notice("PromptOptimizer", "未检测到选中文本", false),
        Some(e) => notice("读取选区失败", e, true),
    }
}

/// The notice when the worker cannot take the optimisation.
pub fn worker_unavailable_notice() -> (res: Notice)
    ensures
        notice_is(res, "内部错误"@, "API 工作线程不可用"@, true),
{
    notice("内部错误", "API 工作线程不可用", true)
}

/// How an accepted optimisation ended.
#[derive(Debug, PartialEq, Eq)]
pub enum Delivery {
    /// The result is on the clipboard.
    Copied,
    /// The result could not be put on the clipboard, for this reason.
    ClipboardFailed(String),
    /// The optimisation failed with this message.
    Failed(String),
}

/// The notice for how an optimisation ended, and whether to beep (after a copy, when
/// sounds are on).
pub fn delivery_notice(delivery: &Delivery, play_sound: bool) -> (res: (Notice, bool))
    ensures
        match delivery {
            Delivery::Copied => notice_is(res.0, "PromptOptimizer"@, "已复制"@, false) && res.1
                == play_sound,
            Delivery::ClipboardFailed(e) => notice_is(res.0, "写入剪贴板失败"@, e@, true) && !res.1,
            Delivery::Failed(e) => notice_is(res.0, "优化失败"@, e@, true) && !res.1,
        },
{
    match delivery {
        Delivery::Copied => (notice("PromptOptimizer", "已复制", false), play_sound),
        Delivery::ClipboardFailed(e) => (notice("写入剪贴板失败", e.as_str(), true), false),
        Delivery::Failed(e) => (notice("优化失败", e.as_str(), true), false),
    }
}

} // verus!
