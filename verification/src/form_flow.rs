//! What the settings window reports after each action of the user, and which field
//! takes the focus when a page is shown.
use crate::config::ApiProfile;
use crate::settings::{
    DeleteOutcome, FormStatus, SwitchOutcome, ID_API_KEY, ID_HOTKEY, ID_SYSTEM_PROMPT,
    PAGE_PROMPT, PAGE_SERVICE,
};
use crate::text::push_str;
use vstd::prelude::*;

verus! {

/// What an action does to the status line of the form.
#[derive(Debug, PartialEq, Eq)]
pub enum FormReport {
    /// Show a status, as no error, leaving the change tracking as it is.
    Status(String),
    /// Show an error.
    Error(String),
    /// The form now differs from the running configuration; show this status.
    Dirty(String),
    /// The form matches the running configuration again; show this status.
    Clean(String),
    /// Nothing to report.
    Nothing,
}

/// The mathematical form of a `FormReport`.
pub enum ReportView {
    Status(Seq<char>),
    Error(Seq<char>),
    Dirty(Seq<char>),
    Clean(Seq<char>),
    Nothing,
}

impl View for FormReport {
    type V = ReportView;

    open spec fn view(&self) -> ReportView {
        match self {
            FormReport::Status(s) => ReportView::Status(s@),
            FormReport::Error(s) => ReportView::Error(s@),
            FormReport::Dirty(s) => ReportView::Dirty(s@),
            FormReport::Clean(s) => ReportView::Clean(s@),
            FormReport::Nothing => ReportView::Nothing,
        }
    }
}

/// The report after deleting the visible profile.
pub fn report_delete(outcome: &DeleteOutcome) -> (res: FormReport)
    ensures
        res@ == (match outcome {
            DeleteOutcome::CancelledNew(_) => ReportView::Dirty("已取消新建配置"@),
            DeleteOutcome::Removed(_) => ReportView::Dirty("API 配置已移除；保存并应用，或重置撤销"@),
            DeleteOutcome::Refused(m) => ReportView::Error(m@),
        }),
{
    match outcome {
        DeleteOutcome::CancelledNew(_) => FormReport::Dirty("已取消新建配置".to_owned()),
        DeleteOutcome::Removed(_) => FormReport::Dirty("API 配置已移除；保存并应用，或重置撤销".to_owned()),
        DeleteOutcome::Refused(m) => FormReport::Error(m.clone()),
    }
}

/// The report after switching to another profile: its name, in force once saved.
pub fn report_switch(outcome: &SwitchOutcome) -> (res: FormReport)
    ensures
        res@ == (match outcome {
            SwitchOutcome::Refused(m) => ReportView::Error(m@),
            SwitchOutcome::Unchanged => ReportView::Nothing,
            SwitchOutcome::Switched(p) => ReportView::Dirty(
                "当前配置："@ + p.name@ + "（保存并应用后生效）"@,
            ),
        }),
{
    match outcome {
        SwitchOutcome::Refused(m) => FormReport::Error(m.clone()),
        SwitchOutcome::Unchanged => FormReport::Nothing,
        SwitchOutcome::Switched(p) => {
            let mut status = "当前配置：".to_owned();
            push_str(&mut status, p.name.as_str());
            push_str(&mut status, "（保存并应用后生效）");
            FormReport::Dirty(status)
        },
    }
}

/// The report after starting a new profile, or failing to keep the visible one.
pub fn report_new(result: &Result<ApiProfile, String>) -> (res: FormReport)
    ensures
        res@ == (match result {
            Ok(_) => ReportView::Dirty("正在新建 API 配置，填写后保存并应用"@),
            Err(m) => ReportView::Error(m@),
        }),
{
    match result {
        Ok(_) => FormReport::Dirty("正在新建 API 配置，填写后保存并应用".to_owned()),
        Err(m) => FormReport::Error(m.clone()),
    }
}

/// The report after asking the application to apply the form: saved, or the reason it
/// gave, or a general request to try again when it gave none.
pub fn report_save(applied: bool, error: Option<&str>) -> (res: FormReport)
    ensures
        res@ == (if applied {
            ReportView::Clean("已保存并应用"@)
        } else {
            match error {
                Some(e) => ReportView::Error(e@),
                None => ReportView::Error("配置未能应用，请重试"@),
            }
        }),
{
    if applied {
        FormReport::Clean("已保存并应用".to_owned())
    } else {
        match error {
            Some(e) => FormReport::Error(e.to_owned()),
            None => FormReport::Error("配置未能应用，请重试".to_owned()),
        }
    }
}

/// The report after asking the application to test the connection: the test runs, or
/// the reason it gave, or a general failure when it gave none.
pub fn report_test_start(started: bool, error: Option<&str>) -> (res: FormReport)
    ensures
        res@ == (if started {
            ReportView::Status("正在测试 API 连接…"@)
        } else {
            match error {
                Some(e) => ReportView::Error(e@),
                None => ReportView::Error("无法开始 API 连接测试"@),
            }
        }),
{
    if started {
        FormReport::Status("正在测试 API 连接…".to_owned())
    } else {
        match error {
            Some(e) => FormReport::Error(e.to_owned()),
            None => FormReport::Error("无法开始 API 连接测试".to_owned()),
        }
    }
}

impl FormStatus {
    /// Shows a report.
    pub fn apply_report(&mut self, report: FormReport)
        ensures
            match report@ {
                ReportView::Status(s) => final(self).status@ == s && !final(self).status_error
                    && final(self).dirty == old(self).dirty,
                ReportView::Error(s) => final(self).status@ == s && final(self).status_error
                    && final(self).dirty == old(self).dirty,
                ReportView::Dirty(s) => if old(self).suppress_events {
                    *final(self) == *old(self)
                } else {
                    final(self).dirty && final(self).status@ == s && !final(self).status_error
                },
                ReportView::Clean(s) => !final(self).dirty && final(self).status@ == s
                    && !final(self).status_error,
                ReportView::Nothing => *final(self) == *old(self),
            },
            final(self).suppress_events == old(self).suppress_events,
            final(self).testing_api == old(self).testing_api,
    {
        match report {
            FormReport::Status(s) => self.set_status(s.as_str(), false),
            FormReport::Error(s) => self.set_status(s.as_str(), true),
            FormReport::Dirty(s) => {
                self.mark_dirty_with_status(s.as_str());
            },
            FormReport::Clean(s) => self.set_clean(s.as_str()),
            FormReport::Nothing => {},
        }
    }
}

impl FormStatus {
    /// Records the answer to a request for a connection test: while one runs no other
    /// is asked for, and the status says what happened.
    pub fn start_api_test(&mut self, started: bool, error: Option<&str>)
        ensures
            final(self).testing_api == (old(self).testing_api || started),
            final(self).dirty == old(self).dirty,
            final(self).suppress_events == old(self).suppress_events,
            started ==> final(self).status@ == "正在测试 API 连接…"@ && !final(self).status_error,
            !started ==> final(self).status_error && final(self).status@ == (match error {
                Some(e) => e@,
                None => "无法开始 API 连接测试"@,
            }),
    {
        if started {
            self.testing_api = true;
        }
        self.apply_report(report_test_start(started, error));
    }
}

/// The field that takes the focus when `page` is shown.
pub open spec fn focus_of(page: usize) -> u16 {
    if page == PAGE_SERVICE {
        ID_API_KEY
    } else if page == PAGE_PROMPT {
        ID_SYSTEM_PROMPT
    } else {
        ID_HOTKEY
    }
}

/// Switching from page `current` to `page`: nothing when it is already shown, else the
/// field that takes the focus.
pub fn page_switch(current: usize, page: usize) -> (res: Option<u16>)
    ensures
        res == (if current == page {
            None
        } else {
            Some(focus_of(page))
        }),
{
    if current == page {
        None
    } else if page == PAGE_SERVICE {
        Some(ID_API_KEY)
    } else if page == PAGE_PROMPT {
        Some(ID_SYSTEM_PROMPT)
    } else {
        Some(ID_HOTKEY)
    }
}

} // verus!
