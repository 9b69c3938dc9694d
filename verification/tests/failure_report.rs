use nfo_viewer::failure::{
    exit_plan, failure_notice, ExitPlan, FailureNotice, Platform, EXIT_FAILURE, EXIT_SUCCESS,
    ICON_ERROR,
};

#[test]
fn exit_codes_are_zero_and_one() {
    assert_eq!(EXIT_SUCCESS, 0);
    assert_eq!(EXIT_FAILURE, 1);
}

#[test]
fn error_icon_style_is_sixteen() {
    assert_eq!(ICON_ERROR, 0x10);
}

#[test]
fn notice_on_windows_is_a_dialog_with_the_error_icon() {
    let notice = failure_notice(Platform::Windows, "runtime refused to start");
    assert_eq!(
        notice,
        FailureNotice::Dialog {
            title: "nfo-viewer Error".to_string(),
            body: "nfo-viewer failed to start:\nruntime refused to start".to_string(),
            icon: 0x10,
        }
    );
}

#[test]
fn notice_elsewhere_is_a_line_on_standard_error() {
    let notice = failure_notice(Platform::Other, "runtime refused to start");
    assert_eq!(
        notice,
        FailureNotice::StderrLine {
            line: "nfo-viewer failed to start: runtime refused to start".to_string(),
        }
    );
}

#[test]
fn notice_keeps_an_empty_message() {
    assert_eq!(
        failure_notice(Platform::Other, ""),
        FailureNotice::StderrLine { line: "nfo-viewer failed to start: ".to_string() }
    );
    assert_eq!(
        failure_notice(Platform::Windows, ""),
        FailureNotice::Dialog {
            title: "nfo-viewer Error".to_string(),
            body: "nfo-viewer failed to start:\n".to_string(),
            icon: ICON_ERROR,
        }
    );
}

#[test]
fn notice_keeps_the_message_verbatim() {
    let message = "fen\u{ea}tre \u{2014} line one\nline two";
    assert_eq!(
        failure_notice(Platform::Other, message),
        FailureNotice::StderrLine {
            line: "nfo-viewer failed to start: fen\u{ea}tre \u{2014} line one\nline two"
                .to_string(),
        }
    );
}

#[test]
fn clean_run_exits_with_zero_and_reports_nothing() {
    let expected = ExitPlan { exit_code: 0, error_record: None, notice: None };
    assert_eq!(exit_plan(&Ok(()), Platform::Windows), expected);
    assert_eq!(exit_plan(&Ok(()), Platform::Other), expected);
}

#[test]
fn failure_on_windows_exits_with_one_record_and_one_dialog() {
    let plan = exit_plan(&Err("no webview".to_string()), Platform::Windows);
    assert_eq!(
        plan,
        ExitPlan {
            exit_code: 1,
            error_record: Some("Failed to start: no webview".to_string()),
            notice: Some(FailureNotice::Dialog {
                title: "nfo-viewer Error".to_string(),
                body: "nfo-viewer failed to start:\nno webview".to_string(),
                icon: 0x10,
            }),
        }
    );
}

#[test]
fn failure_elsewhere_exits_with_one_record_and_one_stderr_line() {
    let plan = exit_plan(&Err("no webview".to_string()), Platform::Other);
    assert_eq!(
        plan,
        ExitPlan {
            exit_code: 1,
            error_record: Some("Failed to start: no webview".to_string()),
            notice: Some(FailureNotice::StderrLine {
                line: "nfo-viewer failed to start: no webview".to_string(),
            }),
        }
    );
}

#[test]
fn failure_notice_in_the_plan_is_the_notice_for_the_platform() {
    let message = "event loop ended abnormally".to_string();
    for platform in [Platform::Windows, Platform::Other] {
        let plan = exit_plan(&Err(message.clone()), platform);
        assert_eq!(plan.exit_code, EXIT_FAILURE);
        assert_eq!(plan.notice, Some(failure_notice(platform, &message)));
    }
}
