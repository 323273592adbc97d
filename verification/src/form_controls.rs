//! The controls of the settings window, their fonts, and the window's size.
use crate::settings::{
    scale, scaled, ID_API_KEY, ID_API_PROFILE, ID_AUTO_START, ID_BASE_URL, ID_ERROR_DETAILS,
    ID_HOTKEY, ID_MAX_TOKENS, ID_MODEL, ID_NAV_BEHAVIOR, ID_NAV_PROMPT, ID_NAV_SERVICE,
    ID_PLAY_SOUND, ID_PROFILE_DELETE, ID_PROFILE_NAME, ID_PROFILE_NEW, ID_RESET, ID_SAVE,
    ID_SHOW_KEY, ID_SYSTEM_PROMPT, ID_TEMPERATURE, ID_TEST_API,
};
use vstd::prelude::*;

verus! {

/// The kind of a control of the settings window.
#[derive(Clone, Copy, Debug, PartialEq, Eq)]
pub enum ControlKind {
    Button,
    Combo,
    Edit { multiline: bool },
    Checkbox,
}

/// A control to create: its id, kind, caption (empty where it has none) and the hint
/// shown while it is empty (empty where it has none).
#[derive(Clone, Copy, Debug, PartialEq, Eq)]
pub struct ControlSpec {
    pub id: u16,
    pub kind: ControlKind,
    pub caption: &'static str,
    pub cue: &'static str,
}

/// The controls in the order they are created, which is their tab order.
pub open spec fn control_order() -> Seq<u16> {
    seq![
        ID_NAV_SERVICE,
        ID_NAV_PROMPT,
        ID_NAV_BEHAVIOR,
        ID_API_PROFILE,
        ID_PROFILE_NAME,
        ID_PROFILE_NEW,
        ID_PROFILE_DELETE,
        ID_TEST_API,
        ID_API_KEY,
        ID_SHOW_KEY,
        ID_BASE_URL,
        ID_MODEL,
        ID_TEMPERATURE,
        ID_MAX_TOKENS,
        ID_SYSTEM_PROMPT,
        ID_HOTKEY,
        ID_PLAY_SOUND,
        ID_AUTO_START,
        ID_ERROR_DETAILS,
        ID_RESET,
        ID_SAVE,
    ]
}

/// The kind of control `id`: the system prompt is the one multi-line edit.
pub open spec fn kind_of(id: u16) -> ControlKind {
    if id == ID_API_PROFILE {
        ControlKind::Combo
    } else if id == ID_PROFILE_NAME || id == ID_API_KEY || id == ID_BASE_URL || id == ID_MODEL
        || id == ID_TEMPERATURE || id == ID_MAX_TOKENS || id == ID_HOTKEY {
        ControlKind::Edit { multiline: false }
    } else if id == ID_SYSTEM_PROMPT {
        ControlKind::Edit { multiline: true }
    } else if id == ID_SHOW_KEY || id == ID_PLAY_SOUND || id == ID_AUTO_START {
        ControlKind::Checkbox
    } else {
        ControlKind::Button
    }
}

/// The caption of control `id`.
pub open spec fn caption_of(id: u16) -> Seq<char> {
    if id == ID_NAV_SERVICE {
        "模型与服务"@
    } else if id == ID_NAV_PROMPT {
        "优化规则"@
    } else if id == ID_NAV_BEHAVIOR {
        "应用行为"@
    } else if id == ID_PROFILE_NEW {
        "新建"@
    } else if id == ID_PROFILE_DELETE {
        "删除"@
    } else if id == ID_TEST_API {
        "测试连接"@
    } else if id == ID_SHOW_KEY {
        "显示 API Key"@
    } else if id == ID_PLAY_SOUND {
        "完成后播放提示音"@
    } else if id == ID_AUTO_START {
        "登录 Windows 后自动启动"@
    } else if id == ID_ERROR_DETAILS {
        "查看详情"@
    } else if id == ID_RESET {
        "重置更改"@
    } else if id == ID_SAVE {
        "保存并应用"@
    } else {
        Seq::empty()
    }
}

/// The hint shown in control `id` while it is empty.
pub open spec fn cue_of(id: u16) -> Seq<char> {
    if id == ID_PROFILE_NAME {
        "例如：硅基流动"@
    } else if id == ID_BASE_URL {
        "https://api.siliconflow.cn/v1"@
    } else if id == ID_MODEL {
        "deepseek-ai/DeepSeek-V4-Flash"@
    } else if id == ID_HOTKEY {
        "Ctrl+TripleA"@
    } else {
        Seq::empty()
    }
}

/// Whether `c` is the control `id` as the window creates it.
pub open spec fn describes(c: ControlSpec, id: u16) -> bool {
    &&& c.id == id
    &&& c.kind == kind_of(id)
    &&& c.caption@ == caption_of(id)
    &&& c.cue@ == cue_of(id)
}

/// The kind of control `id`.
pub fn control_kind(id: u16) -> (res: ControlKind)
    ensures
        res == kind_of(id),
{
    if id == ID_API_PROFILE {
        ControlKind::Combo
    } else if id == ID_PROFILE_NAME || id == ID_API_KEY || id == ID_BASE_URL || id == ID_MODEL
        || id == ID_TEMPERATURE || id == ID_MAX_TOKENS || id == ID_HOTKEY {
        ControlKind::Edit { multiline: false }
    } else if id == ID_SYSTEM_PROMPT {
        ControlKind::Edit { multiline: true }
    } else if id == ID_SHOW_KEY || id == ID_PLAY_SOUND || id == ID_AUTO_START {
        ControlKind::Checkbox
    } else {
        ControlKind::Button
    }
}

/// The caption of control `id`.
pub fn control_caption(id: u16) -> (res: &'static str)
    ensures
        res@ == caption_of(id),
{
    proof {
        reveal_strlit("");
    }
    if id == ID_NAV_SERVICE {
        "模型与服务"
    } else if id == ID_NAV_PROMPT {
        "优化规则"
    } else if id == ID_NAV_BEHAVIOR {
        "应用行为"
    } else if id == ID_PROFILE_NEW {
        "新建"
    } else if id == ID_PROFILE_DELETE {
        "删除"
    } else if id == ID_TEST_API {
        "测试连接"
    } else if id == ID_SHOW_KEY {
        "显示 API Key"
    } else if id == ID_PLAY_SOUND {
        "完成后播放提示音"
    } else if id == ID_AUTO_START {
        "登录 Windows 后自动启动"
    } else if id == ID_ERROR_DETAILS {
        "查看详情"
    } else if id == ID_RESET {
        "重置更改"
    } else if id == ID_SAVE {
        "保存并应用"
    } else {
        ""
    }
}

/// The hint of control `id`.
pub fn control_cue(id: u16) -> (res: &'static str)
    ensures
        res@ == cue_of(id),
{
    proof {
        reveal_strlit("");
    }
    if id == ID_PROFILE_NAME {
        "例如：硅基流动"
    } else if id == ID_BASE_URL {
        "https://api.siliconflow.cn/v1"
    } else if id == ID_MODEL {
        "deepseek-ai/DeepSeek-V4-Flash"
    } else if id == ID_HOTKEY {
        "Ctrl+TripleA"
    } else {
        ""
    }
}

/// The controls of the settings window, in creation order.
pub fn form_controls() -> (res: Vec<ControlSpec>)
    ensures
        res@.len() == control_order().len(),
        forall|i: int| 0 <= i < res@.len() ==> describes(#[trigger] res@[i], control_order()[i]),
{
    let order: [u16; 21] = [
        ID_NAV_SERVICE,
        ID_NAV_PROMPT,
        ID_NAV_BEHAVIOR,
        ID_API_PROFILE,
        ID_PROFILE_NAME,
        ID_PROFILE_NEW,
        ID_PROFILE_DELETE,
        ID_TEST_API,
        ID_API_KEY,
        ID_SHOW_KEY,
        ID_BASE_URL,
        ID_MODEL,
        ID_TEMPERATURE,
        ID_MAX_TOKENS,
        ID_SYSTEM_PROMPT,
        ID_HOTKEY,
        ID_PLAY_SOUND,
        ID_AUTO_START,
        ID_ERROR_DETAILS,
        ID_RESET,
        ID_SAVE,
    ];
    assert(order@ =~= control_order());
    let mut res: Vec<ControlSpec> = Vec::new();
    let mut i: usize = 0;
    while i < 21
        invariant
            i <= 21,
            order@ == control_order(),
            res@.len() == i,
            forall|j: int| 0 <= j < i ==> describes(#[trigger] res@[j], control_order()[j]),
        decreases 21 - i,
    {
        let id = order[i];
        res.push(
            ControlSpec {
                id,
                kind: control_kind(id),
                caption: control_caption(id),
                cue: control_cue(id),
            },
        );
        i = i + 1;
    }
    res
}

/// The fonts of the settings window.
#[derive(Clone, Copy, Debug, PartialEq, Eq)]
pub enum FontRole {
    Body,
    Label,
    Title,
}

/// The font of control `id`: navigation and the footer buttons use the body font,
/// every other control the label font.
pub open spec fn font_role_of(id: u16) -> FontRole {
    if id == ID_NAV_SERVICE || id == ID_NAV_PROMPT || id == ID_NAV_BEHAVIOR || id == ID_RESET || id
        == ID_SAVE {
        FontRole::Body
    } else {
        FontRole::Label
    }
}

/// The font of control `id`.
pub fn control_font(id: u16) -> (res: FontRole)
    ensures
        res == font_role_of(id),
{
    if id == ID_NAV_SERVICE || id == ID_NAV_PROMPT || id == ID_NAV_BEHAVIOR || id == ID_RESET || id
        == ID_SAVE {
        FontRole::Body
    } else {
        FontRole::Label
    }
}

/// The character height of each font at 96 DPI: body 16 px, label 13 px, title 26 px.
pub open spec fn font_size(role: FontRole) -> i32 {
    match role {
        FontRole::Body => 16,
        FontRole::Label => 13,
        FontRole::Title => 26,
    }
}

/// The weight of each font: the title semibold, the others regular.
pub open spec fn font_weight(role: FontRole) -> i32 {
    match role {
        FontRole::Title => 650,
        _ => 400,
    }
}

/// The height (negative, so that it is a character height) and weight of a font at
/// `dpi`.
pub fn font_metrics(role: FontRole, dpi: u32) -> (res: (i32, i32))
    requires
        scaled(font_size(role), dpi) as i32 != i32::MIN,
    ensures
        res.0 == -(scaled(font_size(role), dpi) as i32),
        res.1 == font_weight(role),
{
    match role {
        FontRole::Body => (-scale(16, dpi), 400),
        FontRole::Label => (-scale(13, dpi), 400),
        FontRole::Title => (-scale(26, dpi), 650),
    }
}

/// The DPI the window lays itself out for: the reported one, but never below 96.
pub fn window_dpi(reported: u32) -> (res: u32)
    ensures
        res == (if reported < 96 {
            96
        } else {
            reported
        }),
{
    if reported < 96 {
        96
    } else {
        reported
    }
}

/// The client size the window opens with: 860 by 730 at 96 DPI.
pub fn initial_client_size(dpi: u32) -> (res: (i32, i32))
    ensures
        res == (scaled(860, dpi) as i32, scaled(730, dpi) as i32),
{
    (scale(860, dpi), scale(730, dpi))
}

/// The smallest size the window can be dragged to: 720 by 760 at 96 DPI.
pub fn min_track_size(dpi: u32) -> (res: (i32, i32))
    ensures
        res == (scaled(720, dpi) as i32, scaled(760, dpi) as i32),
{
    (scale(720, dpi), scale(760, dpi))
}

} // verus!
