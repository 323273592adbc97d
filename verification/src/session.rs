//! The decisions of the running application: when an optimisation may start, which
//! worker results are accepted, and what the status popup shows and for how long.
use crate::config::{active_position, config_error, Config, ConfigError};
use crate::text::{chars_of, starts_with, string_of_range, trim, trim_str};
use vstd::prelude::*;

verus! {

/// Whether `c` has an active profile with a non-blank API key.
pub open spec fn has_api_key(c: crate::config::ConfigView) -> bool {
    match active_position(c) {
        Some(k) => trim(c.api_profiles[k].api_key).len() > 0,
        None => false,
    }
}

/// Whether the active profile of `config` has a non-blank API key.
pub fn active_key_present(config: &Config) -> (res: bool)
    ensures
        res == has_api_key(config@),
{
    match config.active_api() {
        Some(profile) => {
            let key = trim_str(profile.api_key.as_str());
            !key.as_str().is_empty()
        },
        None => false,
    }
}

/// Why a hotkey press cannot start an optimisation, or that it can.
#[derive(Clone, Copy, Debug, PartialEq, Eq)]
pub enum HotkeyGate {
    Busy,
    MissingKey,
    Ready,
}

/// The bookkeeping of background work: whether a task runs, the id for the next
/// optimisation, and the id of the optimisation whose result is awaited.
#[derive(Clone, Copy, Debug, PartialEq, Eq)]
pub struct Session {
    pub busy: bool,
    pub next_task_id: u64,
    pub active_task_id: Option<u64>,
}

/// The id after `id`: one more, wrapping around and skipping 0.
pub open spec fn following_id(id: u64) -> u64 {
    if id == u64::MAX {
        1
    } else {
        (id + 1) as u64
    }
}

/// Whether a hotkey press in session `s` with configuration `c` may start an
/// optimisation: not while work runs, and not without an API key.
pub open spec fn gate_of(s: Session, c: crate::config::ConfigView) -> HotkeyGate {
    if s.busy {
        HotkeyGate::Busy
    } else if !has_api_key(c) {
        HotkeyGate::MissingKey
    } else {
        HotkeyGate::Ready
    }
}

/// The session once an optimisation has started in `s`: busy, awaiting the id that was
/// next, and with the following id next.
pub open spec fn begun(s: Session) -> Session {
    Session { busy: true, next_task_id: following_id(s.next_task_id), active_task_id: Some(s.next_task_id) }
}

impl Session {
    /// No work in progress; the first optimisation gets id 1.
    pub fn new() -> (res: Session)
        ensures
            res == (Session { busy: false, next_task_id: 1, active_task_id: None }),
    {
        Session { busy: false, next_task_id: 1, active_task_id: None }
    }

    /// Whether a hotkey press may start an optimisation: not while work runs, and not
    /// without an API key.
    pub fn hotkey_gate(&self, config: &Config) -> (res: HotkeyGate)
        ensures
            res == gate_of(*self, config@),
    {
        if self.busy {
            HotkeyGate::Busy
        } else if !active_key_present(config) {
            HotkeyGate::MissingKey
        } else {
            HotkeyGate::Ready
        }
    }

    /// Starts an optimisation and returns its id.
    pub fn begin_optimize(&mut self) -> (id: u64)
        requires
            !old(self).busy,
        ensures
            id == old(self).next_task_id,
            *final(self) == begun(*old(self)),
    {
        let id = self.next_task_id;
        self.next_task_id = if id == u64::MAX {
            1
        } else {
            id + 1
        };
        self.busy = true;
        self.active_task_id = Some(id);
        id
    }

    /// Accepts the result of optimisation `task_id` when it is the awaited one, which
    /// ends the work; results of other tasks are ignored.
    pub fn finish_optimize(&mut self, task_id: u64) -> (accepted: bool)
        ensures
            accepted == (old(self).active_task_id == Some(task_id)),
            accepted ==> *final(self) == (Session { busy: false, active_task_id: None, ..*old(self) }),
            !accepted ==> *final(self) == *old(self),
    {
        if self.active_task_id == Some(task_id) {
            self.busy = false;
            self.active_task_id = None;
            true
        } else {
            false
        }
    }

    /// Undoes `begin_optimize` when the work could not be handed to the worker.
    pub fn abandon(&mut self)
        ensures
            *final(self) == (Session { busy: false, active_task_id: None, ..*old(self) }),
    {
        self.busy = false;
        self.active_task_id = None;
    }

    /// Starts a connection test, unless work runs.
    pub fn begin_test(&mut self) -> (res: Result<(), &'static str>)
        ensures
            old(self).busy ==> (res matches Err(m) && m@ == "后台任务正在运行，请稍候"@ && *final(self)
                == *old(self)),
            !old(self).busy ==> res is Ok && *final(self) == (Session { busy: true, ..*old(self) }),
    {
        if self.busy {
            return Err("后台任务正在运行，请稍候");
        }
        self.busy = true;
        Ok(())
    }

    /// Whether the configuration file may be reloaded: not while work runs.
    pub fn reload_gate(&self) -> (res: Result<(), &'static str>)
        ensures
            self.busy ==> (res matches Err(m) && m@ == "优化进行中，暂不能重载配置"@),
            !self.busy ==> res is Ok,
    {
        if self.busy {
            Err("优化进行中，暂不能重载配置")
        } else {
            Ok(())
        }
    }

    /// Ends a connection test.
    pub fn finish_test(&mut self)
        ensures
            *final(self) == (Session { busy: false, ..*old(self) }),
    {
        self.busy = false;
    }

    /// Whether a new configuration may be applied: not while work runs, and only a
    /// valid one.
    pub fn apply_gate(&self, config: &Config) -> (res: Result<(), String>)
        ensures
            self.busy ==> (res matches Err(m) && m@ == "后台任务进行中，请完成后再保存配置"@),
            !self.busy ==> match config_error(config@) {
                Some(e) => res matches Err(m) && m@ == "配置无效："@ + e,
                None => res is Ok,
            },
    {
        if self.busy {
            return Err("后台任务进行中，请完成后再保存配置".to_owned());
        }
        match config.validate() {
            Ok(()) => Ok(()),
            Err(error) => {
                proof {
                    assert(error matches ConfigError::Invalid(_));
                }
                Err(error.message())
            },
        }
    }
}

/// One optimisation at a time: once one has started, a hotkey press finds the session
/// busy (so do a connection test, a reload and an apply), and only the result of the
/// started optimisation is accepted.
pub proof fn lemma_one_optimisation_at_a_time(s: Session, c: crate::config::ConfigView, other: u64)
    requires
        !s.busy,
    ensures
        gate_of(begun(s), c) == HotkeyGate::Busy,
        begun(s).busy,
        begun(s).active_task_id == Some(other) <==> other == s.next_task_id,
{
}

/// Task ids are never 0 once the first has been handed out.
pub proof fn lemma_ids_skip_zero(id: u64)
    ensures
        following_id(id) != 0,
{
}

/// Whether a connection test may be started for the configuration that the form
/// describes: it needs an API key and must be valid.
pub open spec fn test_gate(c: crate::config::ConfigView) -> Option<Seq<char>> {
    if !has_api_key(c) {
        Some("请先填写 API Key"@)
    } else {
        match config_error(c) {
            Some(e) => Some("配置无效："@ + e),
            None => None,
        }
    }
}

/// Checks that a connection test can start.
pub fn api_test_gate(config: &Config) -> (res: Result<(), String>)
    ensures
        match test_gate(config@) {
            Some(m) => res matches Err(e) && e@ == m,
            None => res is Ok,
        },
{
    if !active_key_present(config) {
        return Err("请先填写 API Key".to_owned());
    }
    match config.validate() {
        Ok(()) => Ok(()),
        Err(error) => {
            proof {
                assert(error matches ConfigError::Invalid(_));
            }
            Err(error.message())
        },
    }
}

/// The most characters the status popup shows.
pub const POPUP_TEXT_LIMIT: usize = 80;

/// The popup text: the first 80 characters of the message, without any mark.
pub fn popup_text(message: &str) -> (res: String)
    ensures
        res@ == message@.take(if message@.len() <= 80 { message@.len() as int } else { 80 }),
{
    let v = chars_of(message);
    let end = if v.len() <= POPUP_TEXT_LIMIT {
        v.len()
    } else {
        POPUP_TEXT_LIMIT
    };
    let res = string_of_range(&v, 0, end);
    assert(v@.subrange(0, end as int) =~= message@.take(end as int));
    res
}

/// How long the popup stays, in milliseconds: it stays until replaced while an
/// optimisation runs (`None`), else 2.4 s for errors and 1.2 s otherwise.
pub open spec fn popup_duration(message: Seq<char>, is_error: bool, new_task: bool) -> Option<u32> {
    if new_task || starts_with(message, "正在优化"@) || message == "优化中…"@ {
        None
    } else if is_error {
        Some(2400)
    } else {
        Some(1200)
    }
}

/// How long the popup for `message` stays.
pub fn popup_timeout(message: &str, is_error: bool, new_task: bool) -> (res: Option<u32>)
    ensures
        res == popup_duration(message@, is_error, new_task),
{
    let in_progress = "优化中…".to_owned();
    let keep_open = new_task || crate::text::str_starts_with(message, "正在优化") || crate::text::str_eq(
        message,
        in_progress.as_str(),
    );
    if keep_open {
        None
    } else if is_error {
        Some(2400)
    } else {
        Some(1200)
    }
}

} // verus!
