//! Reporting of a failed start.
//!
//! When the UI runtime cannot start, or ends with an error, the shell writes
//! one error record to the log, notifies the user once in the way of the host
//! platform, and exits with a non-zero code. This module decides what is
//! written and shown; showing it is left to the caller.

use vstd::prelude::*;
use vstd::string::*;

verus! {

/// Exit code of a run that ended without error.
pub const EXIT_SUCCESS: i32 = 0;

/// Exit code of a run that failed to start or ended with an error.
pub const EXIT_FAILURE: i32 = 1;

/// Style of a message box that carries the error icon.
pub const ICON_ERROR: u32 = 0x10;

/// The host platform, as far as the failure notice depends on it.
#[derive(Clone, Copy, Debug, PartialEq, Eq)]
pub enum Platform {
    Windows,
    Other,
}

/// How the user is told of a failed start.
#[derive(Clone, Debug, PartialEq, Eq)]
pub enum FailureNotice {
    /// A modal message box.
    Dialog { title: String, body: String, icon: u32 },
    /// A line on standard error.
    StderrLine { line: String },
}

/// A failure notice with its texts as character sequences.
pub enum FailureNoticeView {
    Dialog { title: Seq<char>, body: Seq<char>, icon: u32 },
    StderrLine { line: Seq<char> },
}

impl View for FailureNotice {
    type V = FailureNoticeView;

    open spec fn view(&self) -> FailureNoticeView {
        match self {
            FailureNotice::Dialog { title, body, icon } => FailureNoticeView::Dialog {
                title: title@,
                body: body@,
                icon: *icon,
            },
            FailureNotice::StderrLine { line } => FailureNoticeView::StderrLine { line: line@ },
        }
    }
}

/// What the shell does when the UI runtime has returned.
#[derive(Clone, Debug, PartialEq, Eq)]
pub struct ExitPlan {
    /// The code the process exits with.
    pub exit_code: i32,
    /// The error record to write to the log, if any.
    pub error_record: Option<String>,
    /// The notice to give to the user, if any.
    pub notice: Option<FailureNotice>,
}

/// An exit plan with its texts as character sequences.
pub struct ExitPlanView {
    pub exit_code: i32,
    pub error_record: Option<Seq<char>>,
    pub notice: Option<FailureNoticeView>,
}

impl View for ExitPlan {
    type V = ExitPlanView;

    open spec fn view(&self) -> ExitPlanView {
        ExitPlanView {
            exit_code: self.exit_code,
            error_record: match self.error_record {
                Some(record) => Some(record@),
                None => None,
            },
            notice: match self.notice {
                Some(notice) => Some(notice@),
                None => None,
            },
        }
    }
}

/// Title of the failure dialog.
pub open spec fn dialog_title() -> Seq<char> {
    "nfo-viewer Error"@
}

/// Body of the failure dialog: the heading, a line break, the error message.
pub open spec fn dialog_body(message: Seq<char>) -> Seq<char> {
    "nfo-viewer failed to start:\n"@ + message
}

/// The line written to standard error: the heading, a space, the error message.
pub open spec fn stderr_line(message: Seq<char>) -> Seq<char> {
    "nfo-viewer failed to start: "@ + message
}

/// The error record written to the log.
pub open spec fn error_record(message: Seq<char>) -> Seq<char> {
    "Failed to start: "@ + message
}

/// The notice for a failure with the given message: a dialog with the error
/// icon on Windows, a line on standard error elsewhere.
pub open spec fn notice_for(platform: Platform, message: Seq<char>) -> FailureNoticeView {
    match platform {
        Platform::Windows => FailureNoticeView::Dialog {
            title: dialog_title(),
            body: dialog_body(message),
            icon: ICON_ERROR,
        },
        Platform::Other => FailureNoticeView::StderrLine { line: stderr_line(message) },
    }
}

/// The plan after a run without error: exit with success, nothing to report.
pub open spec fn clean_exit() -> ExitPlanView {
    ExitPlanView { exit_code: EXIT_SUCCESS, error_record: None, notice: None }
}

/// The plan after a failure: one error record, one notice, exit with failure.
pub open spec fn failed_exit(platform: Platform, message: Seq<char>) -> ExitPlanView {
    ExitPlanView {
        exit_code: EXIT_FAILURE,
        error_record: Some(error_record(message)),
        notice: Some(notice_for(platform, message)),
    }
}

/// Every failure ends the process with exit code 1, after exactly one error
/// record and exactly one notice: a dialog on Windows, a line on standard error
/// on any other platform. A run without error exits with code 0 and reports
/// nothing.
pub proof fn lemma_failure_is_reported_once(platform: Platform, message: Seq<char>)
    ensures
        failed_exit(platform, message).exit_code == 1,
        failed_exit(platform, message).error_record is Some,
        failed_exit(platform, message).notice is Some,
        platform is Windows <==> failed_exit(platform, message).notice->0 is Dialog,
        platform is Other <==> failed_exit(platform, message).notice->0 is StderrLine,
        clean_exit().exit_code == 0,
        clean_exit().error_record is None,
        clean_exit().notice is None,
{
}

/// Builds the notice for a failure with the given message.
pub fn failure_notice(platform: Platform, message: &str) -> (notice: FailureNotice)
    ensures
        notice@ == notice_for(platform, message@),
{
    match platform {
        Platform::Windows => {
            let title = String::from_str("nfo-viewer Error");
            let mut body = String::from_str("nfo-viewer failed to start:\n");
            body.append(message);
            FailureNotice::Dialog { title, body, icon: ICON_ERROR }
        },
        Platform::Other => {
            let mut line = String::from_str("nfo-viewer failed to start: ");
            line.append(message);
            FailureNotice::StderrLine { line }
        },
    }
}

/// Decides how the process ends, from the outcome of the UI runtime: `Ok` when
/// its event loop ended without error, `Err` with the error's message when it
/// could not start or ended abnormally.
pub fn exit_plan(outcome: &Result<(), String>, platform: Platform) -> (plan: ExitPlan)
    ensures
        match outcome {
            Ok(_) => plan@ == clean_exit(),
            Err(message) => plan@ == failed_exit(platform, message@),
        },
{
    match outcome {
        Ok(_) => ExitPlan { exit_code: EXIT_SUCCESS, error_record: None, notice: None },
        Err(message) => {
            let mut record = String::from_str("Failed to start: ");
            record.append(message.as_str());
            ExitPlan {
                exit_code: EXIT_FAILURE,
                error_record: Some(record),
                notice: Some(failure_notice(platform, message.as_str())),
            }
        },
    }
}

} // verus!
