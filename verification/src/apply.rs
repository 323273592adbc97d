//! Applying a new configuration to the running application: registering the new
//! hotkey, switching start-up with Windows, and saving, with everything undone in
//! reverse when one of these fails so that the old configuration stays in force.
//!
//! The outside work (hotkey registration, the start-up entry, the file) is done by
//! the caller; this machine decides, after each call, which call comes next.
use crate::config::Config;
use crate::settings::opt_str_view;
use crate::text::push_str;
use vstd::prelude::*;

verus! {

/// Which of the two hotkeys an action concerns.
#[derive(Clone, Copy, Debug, PartialEq, Eq)]
pub enum HotkeyRole {
    Old,
    New,
}

/// Where an apply stands: the call it waits on, or that it has ended.
#[derive(Clone, Copy, Debug, PartialEq, Eq)]
pub enum ApplyPhase {
    /// The old hotkey is being unregistered.
    ReleasingOld,
    /// The new hotkey is being registered.
    RegisteringNew,
    /// The new hotkey was refused; the old one is being registered again.
    RestoringOld,
    /// Start-up with Windows is being switched to the new setting.
    SettingAutoStart,
    /// The new configuration is being written.
    Saving,
    /// Undoing: the new hotkey is being unregistered; the start-up setting is restored
    /// after the hotkeys when `auto_start_next`.
    UndoingNew { auto_start_next: bool },
    /// Undoing: the old hotkey is being registered again.
    UndoingOld { auto_start_next: bool },
    /// Undoing: start-up is being switched back; the hotkeys are restored after it when
    /// `hotkey_next`.
    UndoingAutoStart { hotkey_next: bool },
    /// Done: the new configuration is in force when `applied`, else the old one stays.
    Finished { applied: bool },
}

/// What the caller does next.
#[derive(Debug, PartialEq, Eq)]
pub enum ApplyAction {
    Unregister(HotkeyRole),
    Register(HotkeyRole),
    SetAutoStart(bool),
    Save,
    /// The new configuration is in force; the hotkey is registered when `registered`.
    Applied { registered: bool },
    /// The old configuration stays, for `message`; its hotkey is registered when
    /// `registered`.
    Rejected { registered: bool, message: String },
}

/// The mathematical form of an `ApplyAction`.
pub enum ActionView {
    Unregister(HotkeyRole),
    Register(HotkeyRole),
    SetAutoStart(bool),
    Save,
    Applied { registered: bool },
    Rejected { registered: bool, message: Seq<char> },
}

impl View for ApplyAction {
    type V = ActionView;

    open spec fn view(&self) -> ActionView {
        match self {
            ApplyAction::Unregister(r) => ActionView::Unregister(*r),
            ApplyAction::Register(r) => ActionView::Register(*r),
            ApplyAction::SetAutoStart(b) => ActionView::SetAutoStart(*b),
            ApplyAction::Save => ActionView::Save,
            ApplyAction::Applied { registered } => ActionView::Applied { registered: *registered },
            ApplyAction::Rejected { registered, message } => ActionView::Rejected {
                registered: *registered,
                message: message@,
            },
        }
    }
}

/// One apply of a new configuration.
#[derive(Debug)]
pub struct ApplyRun {
    /// Whether the new configuration is written to the file.
    pub persist: bool,
    /// Whether the hotkey changes: it differs from the old one, or the old one is not
    /// registered.
    pub hotkey_changed: bool,
    /// Whether the old hotkey was registered.
    pub old_registered: bool,
    pub old_auto_start: bool,
    pub new_auto_start: bool,
    /// Whether the application holds its hotkey, as far as it knows.
    pub registered: bool,
    /// Why the apply failed, once a step failed.
    pub message: String,
    pub phase: ApplyPhase,
}

/// The mathematical form of an `ApplyRun`.
pub struct RunView {
    pub persist: bool,
    pub hotkey_changed: bool,
    pub old_registered: bool,
    pub old_auto_start: bool,
    pub new_auto_start: bool,
    pub registered: bool,
    pub message: Seq<char>,
    pub phase: ApplyPhase,
}

impl View for ApplyRun {
    type V = RunView;

    open spec fn view(&self) -> RunView {
        RunView {
            persist: self.persist,
            hotkey_changed: self.hotkey_changed,
            old_registered: self.old_registered,
            old_auto_start: self.old_auto_start,
            new_auto_start: self.new_auto_start,
            registered: self.registered,
            message: self.message@,
            phase: self.phase,
        }
    }
}

/// The run at its start: the hotkeys come first when the hotkey changes (the old one
/// released before the new one is taken), else start-up.
pub open spec fn started(
    persist: bool,
    hotkey_changed: bool,
    old_registered: bool,
    old_auto_start: bool,
    new_auto_start: bool,
) -> RunView {
    RunView {
        persist,
        hotkey_changed,
        old_registered,
        old_auto_start,
        new_auto_start,
        registered: old_registered,
        message: Seq::empty(),
        phase: if hotkey_changed && old_registered {
            ApplyPhase::ReleasingOld
        } else if hotkey_changed {
            ApplyPhase::RegisteringNew
        } else {
            ApplyPhase::SettingAutoStart
        },
    }
}

/// The call a run in `r` waits on, or its outcome once finished.
pub open spec fn action_of(r: RunView) -> ActionView {
    match r.phase {
        ApplyPhase::ReleasingOld => ActionView::Unregister(HotkeyRole::Old),
        ApplyPhase::RegisteringNew => ActionView::Register(HotkeyRole::New),
        ApplyPhase::RestoringOld => ActionView::Register(HotkeyRole::Old),
        ApplyPhase::SettingAutoStart => ActionView::SetAutoStart(r.new_auto_start),
        ApplyPhase::Saving => ActionView::Save,
        ApplyPhase::UndoingNew { .. } => ActionView::Unregister(HotkeyRole::New),
        ApplyPhase::UndoingOld { .. } => ActionView::Register(HotkeyRole::Old),
        ApplyPhase::UndoingAutoStart { .. } => ActionView::SetAutoStart(r.old_auto_start),
        ApplyPhase::Finished { applied } => if applied {
            ActionView::Applied { registered: r.registered }
        } else {
            ActionView::Rejected { registered: r.registered, message: r.message }
        },
    }
}

/// Whether a run has ended.
pub open spec fn is_finished(r: RunView) -> bool {
    r.phase is Finished
}

/// The run after the undoing of the hotkeys: restoring start-up next, or ending.
pub open spec fn after_hotkey_undo(r: RunView, auto_start_next: bool) -> RunView {
    if auto_start_next {
        RunView { phase: ApplyPhase::UndoingAutoStart { hotkey_next: false }, ..r }
    } else {
        RunView { phase: ApplyPhase::Finished { applied: false }, ..r }
    }
}

/// The run once the new configuration is in force.
pub open spec fn applied(r: RunView) -> RunView {
    RunView {
        phase: ApplyPhase::Finished { applied: true },
        registered: if r.hotkey_changed {
            true
        } else {
            r.old_registered
        },
        ..r
    }
}

/// The run after the call it waited on, which failed with `failure` or, when that is
/// `None`, succeeded. Unregistering and restoring start-up are not checked.
pub open spec fn apply_next(r: RunView, failure: Option<Seq<char>>) -> RunView {
    match r.phase {
        ApplyPhase::ReleasingOld => RunView { phase: ApplyPhase::RegisteringNew, ..r },
        ApplyPhase::RegisteringNew => match failure {
            None => RunView { phase: ApplyPhase::SettingAutoStart, ..r },
            Some(e) => {
                let message = "新热键无法注册："@ + e;
                if r.old_registered {
                    RunView { phase: ApplyPhase::RestoringOld, message, ..r }
                } else {
                    RunView {
                        phase: ApplyPhase::Finished { applied: false },
                        registered: false,
                        message,
                        ..r
                    }
                }
            },
        },
        ApplyPhase::RestoringOld => RunView {
            phase: ApplyPhase::Finished { applied: false },
            registered: failure is None,
            ..r
        },
        ApplyPhase::SettingAutoStart => match failure {
            None => if r.persist {
                RunView { phase: ApplyPhase::Saving, ..r }
            } else {
                applied(r)
            },
            Some(e) => {
                let message = "开机自启设置失败："@ + e;
                if r.hotkey_changed {
                    RunView { phase: ApplyPhase::UndoingNew { auto_start_next: true }, message, ..r }
                } else {
                    RunView {
                        phase: ApplyPhase::UndoingAutoStart { hotkey_next: false },
                        message,
                        ..r
                    }
                }
            },
        },
        ApplyPhase::Saving => match failure {
            None => applied(r),
            Some(e) => RunView {
                phase: ApplyPhase::UndoingAutoStart { hotkey_next: r.hotkey_changed },
                message: e,
                ..r
            },
        },
        ApplyPhase::UndoingNew { auto_start_next } => if r.old_registered {
            RunView { phase: ApplyPhase::UndoingOld { auto_start_next }, ..r }
        } else {
            after_hotkey_undo(RunView { registered: false, ..r }, auto_start_next)
        },
        ApplyPhase::UndoingOld { auto_start_next } => after_hotkey_undo(
            RunView { registered: failure is None, ..r },
            auto_start_next,
        ),
        ApplyPhase::UndoingAutoStart { hotkey_next } => if hotkey_next {
            RunView { phase: ApplyPhase::UndoingNew { auto_start_next: false }, ..r }
        } else {
            RunView { phase: ApplyPhase::Finished { applied: false }, ..r }
        },
        ApplyPhase::Finished { .. } => r,
    }
}

impl ApplyRun {
    /// Starts applying a configuration, given whether it is saved, whether the hotkey
    /// changes, whether the old hotkey is registered, and the old and new start-up
    /// settings.
    pub fn begin(
        persist: bool,
        hotkey_changed: bool,
        old_registered: bool,
        old_auto_start: bool,
        new_auto_start: bool,
    ) -> (res: ApplyRun)
        ensures
            res@ == started(persist, hotkey_changed, old_registered, old_auto_start, new_auto_start),
    {
        let phase = if hotkey_changed && old_registered {
            ApplyPhase::ReleasingOld
        } else if hotkey_changed {
            ApplyPhase::RegisteringNew
        } else {
            ApplyPhase::SettingAutoStart
        };
        let res = ApplyRun {
            persist,
            hotkey_changed,
            old_registered,
            old_auto_start,
            new_auto_start,
            registered: old_registered,
            message: String::new(),
            phase,
        };
        assert(res@.message =~= Seq::<char>::empty());
        res
    }

    /// Whether the apply has ended.
    pub fn is_finished(&self) -> (res: bool)
        ensures
            res == is_finished(self@),
    {
        matches!(self.phase, ApplyPhase::Finished { .. })
    }

    /// What the caller does now: the call the run waits on, or its outcome.
    pub fn action(&self) -> (res: ApplyAction)
        ensures
            res@ == action_of(self@),
    {
        match self.phase {
            ApplyPhase::ReleasingOld => ApplyAction::Unregister(HotkeyRole::Old),
            ApplyPhase::RegisteringNew => ApplyAction::Register(HotkeyRole::New),
            ApplyPhase::RestoringOld => ApplyAction::Register(HotkeyRole::Old),
            ApplyPhase::SettingAutoStart => ApplyAction::SetAutoStart(self.new_auto_start),
            ApplyPhase::Saving => ApplyAction::Save,
            ApplyPhase::UndoingNew { .. } => ApplyAction::Unregister(HotkeyRole::New),
            ApplyPhase::UndoingOld { .. } => ApplyAction::Register(HotkeyRole::Old),
            ApplyPhase::UndoingAutoStart { .. } => ApplyAction::SetAutoStart(self.old_auto_start),
            ApplyPhase::Finished { applied } => if applied {
                ApplyAction::Applied { registered: self.registered }
            } else {
                ApplyAction::Rejected { registered: self.registered, message: self.message.clone() }
            },
        }
    }

    /// Takes in the outcome of the call the run waited on: `None` when it succeeded,
    /// else the error text.
    pub fn step(&mut self, failure: Option<&str>)
        requires
            !is_finished(old(self)@),
        ensures
            final(self)@ == apply_next(old(self)@, opt_str_view(failure)),
    {
        match self.phase {
            ApplyPhase::ReleasingOld => {
                self.phase = ApplyPhase::RegisteringNew;
            },
            ApplyPhase::RegisteringNew => match failure {
                None => {
                    self.phase = ApplyPhase::SettingAutoStart;
                },
                Some(e) => {
                    let mut message = "新热键无法注册：".to_owned();
                    push_str(&mut message, e);
                    self.message = message;
                    if self.old_registered {
                        self.phase = ApplyPhase::RestoringOld;
                    } else {
                        self.registered = false;
                        self.phase = ApplyPhase::Finished { applied: false };
                    }
                },
            },
            ApplyPhase::RestoringOld => {
                self.registered = failure.is_none();
                self.phase = ApplyPhase::Finished { applied: false };
            },
            ApplyPhase::SettingAutoStart => match failure {
                None => {
                    if self.persist {
                        self.phase = ApplyPhase::Saving;
                    } else {
                        self.finish_applied();
                    }
                },
                Some(e) => {
                    let mut message = "开机自启设置失败：".to_owned();
                    push_str(&mut message, e);
                    self.message = message;
                    if self.hotkey_changed {
                        self.phase = ApplyPhase::UndoingNew { auto_start_next: true };
                    } else {
                        self.phase = ApplyPhase::UndoingAutoStart { hotkey_next: false };
                    }
                },
            },
            ApplyPhase::Saving => match failure {
                None => {
                    self.finish_applied();
                },
                Some(e) => {
                    self.message = e.to_owned();
                    self.phase = ApplyPhase::UndoingAutoStart { hotkey_next: self.hotkey_changed };
                },
            },
            ApplyPhase::UndoingNew { auto_start_next } => {
                if self.old_registered {
                    self.phase = ApplyPhase::UndoingOld { auto_start_next };
                } else {
                    self.registered = false;
                    self.phase = Self::phase_after_hotkey_undo(auto_start_next);
                }
            },
            ApplyPhase::UndoingOld { auto_start_next } => {
                self.registered = failure.is_none();
                self.phase = Self::phase_after_hotkey_undo(auto_start_next);
            },
            ApplyPhase::UndoingAutoStart { hotkey_next } => {
                if hotkey_next {
                    self.phase = ApplyPhase::UndoingNew { auto_start_next: false };
                } else {
                    self.phase = ApplyPhase::Finished { applied: false };
                }
            },
            ApplyPhase::Finished { .. } => {},
        }
    }

    fn phase_after_hotkey_undo(auto_start_next: bool) -> (res: ApplyPhase)
        ensures
            res == (if auto_start_next {
                ApplyPhase::UndoingAutoStart { hotkey_next: false }
            } else {
                ApplyPhase::Finished { applied: false }
            }),
    {
        if auto_start_next {
            ApplyPhase::UndoingAutoStart { hotkey_next: false }
        } else {
            ApplyPhase::Finished { applied: false }
        }
    }

    fn finish_applied(&mut self)
        ensures
            final(self)@ == applied(old(self)@),
    {
        if self.hotkey_changed {
            self.registered = true;
        } else {
            self.registered = self.old_registered;
        }
        self.phase = ApplyPhase::Finished { applied: true };
    }
}

/// What an apply changes outside the application: the start-up setting, whether each
/// hotkey is held, whether the file was written, and the last start-up setting asked
/// for.
pub struct Outside {
    pub auto_start: bool,
    pub old_held: bool,
    pub new_held: bool,
    pub saved: bool,
    pub last_auto_start_request: Option<bool>,
}

/// The outside before an apply.
pub open spec fn outside_before(old_registered: bool, old_auto_start: bool) -> Outside {
    Outside {
        auto_start: old_auto_start,
        old_held: old_registered,
        new_held: false,
        saved: false,
        last_auto_start_request: None,
    }
}

/// The outside after action `a`, which failed with `failure` or succeeded: a failed call
/// changes nothing, except that an unregistered hotkey is released either way.
pub open spec fn outside_after(w: Outside, a: ActionView, failure: Option<Seq<char>>) -> Outside {
    let ok = failure is None;
    match a {
        ActionView::Unregister(HotkeyRole::Old) => Outside { old_held: false, ..w },
        ActionView::Unregister(HotkeyRole::New) => Outside { new_held: false, ..w },
        ActionView::Register(HotkeyRole::Old) => Outside { old_held: ok || w.old_held, ..w },
        ActionView::Register(HotkeyRole::New) => Outside { new_held: ok || w.new_held, ..w },
        ActionView::SetAutoStart(v) => Outside {
            auto_start: if ok {
                v
            } else {
                w.auto_start
            },
            last_auto_start_request: Some(v),
            ..w
        },
        ActionView::Save => Outside { saved: ok || w.saved, ..w },
        _ => w,
    }
}

/// The run and the outside after the calls answered by `results`, in order, until the
/// run ends.
pub open spec fn run_outcome(r: RunView, w: Outside, results: Seq<Option<Seq<char>>>) -> (
    RunView,
    Outside,
)
    decreases results.len(),
{
    if is_finished(r) || results.len() == 0 {
        (r, w)
    } else {
        run_outcome(
            apply_next(r, results[0]),
            outside_after(w, action_of(r), results[0]),
            results.drop_first(),
        )
    }
}

/// The hotkeys as the new configuration wants them.
pub open spec fn hotkeys_taken(r: RunView, w: Outside) -> bool {
    if r.hotkey_changed {
        w.new_held && !w.old_held
    } else {
        w.old_held == r.old_registered && !w.new_held
    }
}

/// The hotkeys given back: the new one released, the old one as before when it did not
/// change, and the application knowing whether it holds its hotkey.
pub open spec fn hotkeys_given_back(r: RunView, w: Outside) -> bool {
    &&& !w.new_held
    &&& r.registered == w.old_held
    &&& !r.hotkey_changed ==> w.old_held == r.old_registered
}

/// Start-up as before, or its restoring asked for last.
pub open spec fn auto_start_given_back(r: RunView, w: Outside) -> bool {
    w.auto_start == r.old_auto_start || w.last_auto_start_request == Some(r.old_auto_start)
}

/// How the outside stands in each phase of a run.
pub open spec fn consistent(r: RunView, w: Outside) -> bool {
    match r.phase {
        ApplyPhase::ReleasingOld => r.hotkey_changed && r.old_registered && w.old_held && !w.new_held
            && !w.saved && w.auto_start == r.old_auto_start && w.last_auto_start_request is None
            && r.registered == r.old_registered,
        ApplyPhase::RegisteringNew => r.hotkey_changed && !w.old_held && !w.new_held && !w.saved
            && w.auto_start == r.old_auto_start && w.last_auto_start_request is None && r.registered
            == r.old_registered,
        ApplyPhase::RestoringOld => r.hotkey_changed && r.old_registered && !w.old_held
            && !w.new_held && !w.saved && w.auto_start == r.old_auto_start,
        ApplyPhase::SettingAutoStart => hotkeys_taken(r, w) && !w.saved && w.auto_start
            == r.old_auto_start && r.registered == r.old_registered,
        ApplyPhase::Saving => r.persist && hotkeys_taken(r, w) && !w.saved && w.auto_start
            == r.new_auto_start && r.registered == r.old_registered,
        ApplyPhase::UndoingNew { auto_start_next } => r.hotkey_changed && !w.old_held && !w.saved
            && r.registered == r.old_registered && (if auto_start_next {
            w.auto_start == r.old_auto_start
        } else {
            auto_start_given_back(r, w)
        }),
        ApplyPhase::UndoingOld { auto_start_next } => r.hotkey_changed && r.old_registered
            && !w.old_held && !w.new_held && !w.saved && (if auto_start_next {
            w.auto_start == r.old_auto_start
        } else {
            auto_start_given_back(r, w)
        }),
        ApplyPhase::UndoingAutoStart { hotkey_next } => !w.saved && (if hotkey_next {
            r.hotkey_changed && !w.old_held && r.registered == r.old_registered
        } else {
            hotkeys_given_back(r, w)
        }),
        ApplyPhase::Finished { applied } => if applied {
            w.auto_start == r.new_auto_start && w.saved == r.persist && hotkeys_taken(r, w)
                && r.registered == (r.hotkey_changed || r.old_registered)
        } else {
            !w.saved && hotkeys_given_back(r, w) && auto_start_given_back(r, w)
        },
    }
}

/// The settings of a run never change while it runs.
pub open spec fn same_request(r: RunView, s: RunView) -> bool {
    &&& s.persist == r.persist
    &&& s.hotkey_changed == r.hotkey_changed
    &&& s.old_registered == r.old_registered
    &&& s.old_auto_start == r.old_auto_start
    &&& s.new_auto_start == r.new_auto_start
}

proof fn lemma_step_consistent(r: RunView, w: Outside, failure: Option<Seq<char>>)
    requires
        consistent(r, w),
        !is_finished(r),
    ensures
        consistent(apply_next(r, failure), outside_after(w, action_of(r), failure)),
        same_request(r, apply_next(r, failure)),
{
}

proof fn lemma_outcome_consistent(r: RunView, w: Outside, results: Seq<Option<Seq<char>>>)
    requires
        consistent(r, w),
    ensures
        consistent(run_outcome(r, w, results).0, run_outcome(r, w, results).1),
        same_request(r, run_outcome(r, w, results).0),
    decreases results.len(),
{
    if !is_finished(r) && results.len() > 0 {
        lemma_step_consistent(r, w, results[0]);
        lemma_outcome_consistent(
            apply_next(r, results[0]),
            outside_after(w, action_of(r), results[0]),
            results.drop_first(),
        );
    }
}

/// An apply that is refused gives everything back: the file is not written, the new
/// hotkey is released, the old hotkey is as before when it did not change, the
/// application knows whether it holds its hotkey, and start-up is as before or its
/// restoring was the last thing asked for.
pub proof fn lemma_refused_apply_gives_everything_back(
    persist: bool,
    hotkey_changed: bool,
    old_registered: bool,
    old_auto_start: bool,
    new_auto_start: bool,
    results: Seq<Option<Seq<char>>>,
)
    requires
        run_outcome(
            started(persist, hotkey_changed, old_registered, old_auto_start, new_auto_start),
            outside_before(old_registered, old_auto_start),
            results,
        ).0.phase == (ApplyPhase::Finished { applied: false }),
    ensures
        ({
            let (r, w) = run_outcome(
                started(persist, hotkey_changed, old_registered, old_auto_start, new_auto_start),
                outside_before(old_registered, old_auto_start),
                results,
            );
            &&& !w.saved
            &&& !w.new_held
            &&& r.registered == w.old_held
            &&& !hotkey_changed ==> w.old_held == old_registered
            &&& w.auto_start == old_auto_start || w.last_auto_start_request == Some(old_auto_start)
        }),
{
    lemma_outcome_consistent(
        started(persist, hotkey_changed, old_registered, old_auto_start, new_auto_start),
        outside_before(old_registered, old_auto_start),
        results,
    );
}

/// An apply that succeeds puts the new configuration in force: start-up as it asks,
/// the file written when asked, the new hotkey held in place of the old one when it
/// changed (else the old one as it was), and the application knowing it.
pub proof fn lemma_applied_apply_takes_effect(
    persist: bool,
    hotkey_changed: bool,
    old_registered: bool,
    old_auto_start: bool,
    new_auto_start: bool,
    results: Seq<Option<Seq<char>>>,
)
    requires
        run_outcome(
            started(persist, hotkey_changed, old_registered, old_auto_start, new_auto_start),
            outside_before(old_registered, old_auto_start),
            results,
        ).0.phase == (ApplyPhase::Finished { applied: true }),
    ensures
        ({
            let (r, w) = run_outcome(
                started(persist, hotkey_changed, old_registered, old_auto_start, new_auto_start),
                outside_before(old_registered, old_auto_start),
                results,
            );
            &&& w.auto_start == new_auto_start
            &&& w.saved == persist
            &&& r.registered == (hotkey_changed || old_registered)
            &&& hotkey_changed ==> w.new_held && !w.old_held
            &&& !hotkey_changed ==> w.old_held == old_registered && !w.new_held
        }),
{
    lemma_outcome_consistent(
        started(persist, hotkey_changed, old_registered, old_auto_start, new_auto_start),
        outside_before(old_registered, old_auto_start),
        results,
    );
}

/// How many more calls a run in phase `p` makes at most.
pub open spec fn calls_left(p: ApplyPhase) -> nat {
    match p {
        ApplyPhase::ReleasingOld => 7,
        ApplyPhase::RegisteringNew => 6,
        ApplyPhase::SettingAutoStart => 5,
        ApplyPhase::Saving => 4,
        ApplyPhase::RestoringOld => 1,
        ApplyPhase::UndoingNew { auto_start_next } => if auto_start_next {
            3
        } else {
            2
        },
        ApplyPhase::UndoingOld { auto_start_next } => if auto_start_next {
            2
        } else {
            1
        },
        ApplyPhase::UndoingAutoStart { hotkey_next } => if hotkey_next {
            3
        } else {
            1
        },
        ApplyPhase::Finished { .. } => 0,
    }
}

proof fn lemma_finishes_within_calls_left(r: RunView, w: Outside, results: Seq<Option<Seq<char>>>)
    requires
        calls_left(r.phase) <= results.len(),
    ensures
        is_finished(run_outcome(r, w, results).0),
    decreases results.len(),
{
    if !is_finished(r) && results.len() > 0 {
        lemma_finishes_within_calls_left(
            apply_next(r, results[0]),
            outside_after(w, action_of(r), results[0]),
            results.drop_first(),
        );
    }
}

/// Every apply ends, after at most seven outside calls, whatever they answer.
pub proof fn lemma_apply_ends(
    persist: bool,
    hotkey_changed: bool,
    old_registered: bool,
    old_auto_start: bool,
    new_auto_start: bool,
    results: Seq<Option<Seq<char>>>,
)
    requires
        results.len() >= 7,
    ensures
        is_finished(
            run_outcome(
                started(persist, hotkey_changed, old_registered, old_auto_start, new_auto_start),
                outside_before(old_registered, old_auto_start),
                results,
            ).0,
        ),
{
    lemma_finishes_within_calls_left(
        started(persist, hotkey_changed, old_registered, old_auto_start, new_auto_start),
        outside_before(old_registered, old_auto_start),
        results,
    );
}

/// The configuration in force in the application, and whether its hotkey is registered.
#[derive(Debug)]
pub struct Running {
    pub config: Config,
    pub hotkey_registered: bool,
}

/// The application after an apply of `new_config` ended with `a`: the new configuration
/// in force when it was applied, the old one kept when it was refused, and the
/// registration of the hotkey as the apply reports it; any other action changes nothing.
pub open spec fn settled(old: Running, new_config: Config, a: ActionView) -> Running {
    match a {
        ActionView::Applied { registered } => Running { config: new_config, hotkey_registered: registered },
        ActionView::Rejected { registered, .. } => Running { config: old.config, hotkey_registered: registered },
        _ => old,
    }
}

impl Running {
    /// Takes in how an apply of `new_config` ended; reports whether the new
    /// configuration is now in force.
    pub fn settle(&mut self, new_config: Config, outcome: &ApplyAction) -> (applied: bool)
        ensures
            *final(self) == settled(*old(self), new_config, outcome@),
            applied == (outcome is Applied),
    {
        match outcome {
            ApplyAction::Applied { registered } => {
                self.config = new_config;
                self.hotkey_registered = *registered;
                true
            },
            ApplyAction::Rejected { registered, .. } => {
                self.hotkey_registered = *registered;
                false
            },
            _ => false,
        }
    }
}

/// A refused apply leaves the application with its old configuration, knowing
/// whether it still holds its hotkey; an applied one puts the new configuration in
/// force with its hotkey registered when it changed.
pub proof fn lemma_refused_apply_keeps_the_configuration(
    running: Running,
    new_config: Config,
    persist: bool,
    hotkey_changed: bool,
    old_registered: bool,
    old_auto_start: bool,
    new_auto_start: bool,
    results: Seq<Option<Seq<char>>>,
)
    requires
        is_finished(
            run_outcome(
                started(persist, hotkey_changed, old_registered, old_auto_start, new_auto_start),
                outside_before(old_registered, old_auto_start),
                results,
            ).0,
        ),
    ensures
        ({
            let (r, w) = run_outcome(
                started(persist, hotkey_changed, old_registered, old_auto_start, new_auto_start),
                outside_before(old_registered, old_auto_start),
                results,
            );
            let after = settled(running, new_config, action_of(r));
            &&& r.phase == (ApplyPhase::Finished { applied: false }) ==> after.config == running.config
                && after.hotkey_registered == w.old_held
            &&& r.phase == (ApplyPhase::Finished { applied: true }) ==> after.config == new_config
                && after.hotkey_registered == (hotkey_changed || old_registered)
        }),
{
    lemma_outcome_consistent(
        started(persist, hotkey_changed, old_registered, old_auto_start, new_auto_start),
        outside_before(old_registered, old_auto_start),
        results,
    );
}

} // verus!
