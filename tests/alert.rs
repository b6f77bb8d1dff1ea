use alert::line::strip_line_terminator;
use alert::linux;
use alert::macos;
use alert::macos::FieldFrame;
use alert::state::{AlertError, AlertState};

#[test]
fn console_new_reads_empty() {
    for m in ["", "x", "Enter URL:", "a longer message with spaces"] {
        let a = linux::Alert::new(m);
        assert_eq!(a.prompt_value(), "");
        assert_eq!(a.message(), m);
        assert_eq!(a.state(), AlertState::Created);
    }
}

#[test]
fn console_prompt_reads_line_without_terminator() {
    for input in ["hello\n", "hello\r\n", "hello"] {
        let mut a = linux::Alert::new("x");
        assert_eq!(a.add_prompt(Some(input.to_string())), Ok(()));
        assert_eq!(a.prompt_value(), "hello");
        assert_eq!(a.state(), AlertState::PromptAttached);
    }
}

#[test]
fn console_prompt_keeps_inner_characters() {
    let mut a = linux::Alert::new("x");
    assert_eq!(a.add_prompt(Some(" a\tb é \n".to_string())), Ok(()));
    assert_eq!(a.prompt_value(), " a\tb é ");
}

#[test]
fn console_exhausted_input_fails() {
    let mut a = linux::Alert::new("x");
    assert_eq!(a.add_prompt(None), Err(AlertError::NoInputAvailable));
    assert_eq!(a.state(), AlertState::Created);
    assert_eq!(a.prompt_value(), "");
}

#[test]
fn console_run_keeps_value() {
    let mut a = linux::Alert::new("x");
    assert_eq!(a.add_prompt(Some("kept\n".to_string())), Ok(()));
    assert_eq!(a.run(), Ok(()));
    assert_eq!(a.prompt_value(), "kept");
    assert_eq!(a.state(), AlertState::Finished);

    let mut b = linux::Alert::new("x");
    assert_eq!(b.run(), Ok(()));
    assert_eq!(b.prompt_value(), "");
}

#[test]
fn console_read_twice_is_same() {
    let mut a = linux::Alert::new("x");
    assert_eq!(a.add_prompt(Some("twice\n".to_string())), Ok(()));
    assert_eq!(a.run(), Ok(()));
    let first = a.prompt_value();
    let second = a.prompt_value();
    assert_eq!(first, "twice");
    assert_eq!(first, second);
}

#[test]
fn console_url_scenario() {
    let mut a = linux::Alert::new("Enter URL:");
    assert_eq!(a.add_prompt(Some("http://example.com\n".to_string())), Ok(()));
    assert_eq!(a.run(), Ok(()));
    assert_eq!(a.prompt_value(), "http://example.com");
}

#[test]
fn console_out_of_order_calls_fail() {
    let mut a = linux::Alert::new("x");
    assert_eq!(a.add_prompt(Some("first\n".to_string())), Ok(()));
    assert_eq!(a.add_prompt(Some("second\n".to_string())), Err(AlertError::OutOfOrder));
    assert_eq!(a.prompt_value(), "first");
    assert_eq!(a.run(), Ok(()));
    assert_eq!(a.run(), Err(AlertError::OutOfOrder));
    assert_eq!(a.add_prompt(None), Err(AlertError::OutOfOrder));
    assert_eq!(a.prompt_value(), "first");
    assert_eq!(a.state(), AlertState::Finished);
}

#[test]
fn console_empty_line_is_empty_value() {
    let mut a = linux::Alert::new("x");
    assert_eq!(a.add_prompt(Some("\n".to_string())), Ok(()));
    assert_eq!(a.prompt_value(), "");
    assert_eq!(a.state(), AlertState::PromptAttached);
}

#[test]
fn strip_removes_one_terminator_only() {
    assert_eq!(strip_line_terminator(""), "");
    assert_eq!(strip_line_terminator("\n"), "");
    assert_eq!(strip_line_terminator("\r\n"), "");
    assert_eq!(strip_line_terminator("a\n\n"), "a\n");
    assert_eq!(strip_line_terminator("a\r"), "a\r");
    assert_eq!(strip_line_terminator("a\r\r\n"), "a\r");
    assert_eq!(strip_line_terminator("\u{e9}\u{1f600}\n"), "\u{e9}\u{1f600}");
}

#[test]
fn native_new_reads_empty() {
    let a = macos::Alert::new("Enter URL:");
    assert_eq!(a.prompt_value(), "");
    assert_eq!(a.message(), "Enter URL:");
    assert!(!a.has_prompt());
    assert_eq!(a.state(), AlertState::Created);
}

#[test]
fn native_add_prompt_gives_field_frame() {
    let mut a = macos::Alert::new("x");
    assert_eq!(
        a.add_prompt(),
        Ok(FieldFrame { x: 0, y: 0, width: 200, height: 24 })
    );
    assert!(a.has_prompt());
    assert_eq!(a.state(), AlertState::PromptAttached);
    assert_eq!(a.prompt_value(), "");
    assert_eq!(a.add_prompt(), Err(AlertError::OutOfOrder));
}

#[test]
fn native_cycle_reads_field() {
    let mut a = macos::Alert::new("Enter URL:");
    assert!(a.add_prompt().is_ok());
    assert_eq!(a.run(), Ok(()));
    assert_eq!(a.state(), AlertState::Running);
    assert_eq!(a.prompt_value(), "");
    assert_eq!(a.finish_run("http://example.com"), Ok(()));
    assert_eq!(a.state(), AlertState::Finished);
    assert_eq!(a.prompt_value(), "http://example.com");
    assert_eq!(a.prompt_value(), a.prompt_value());
}

#[test]
fn native_without_prompt_reads_empty() {
    let mut a = macos::Alert::new("x");
    assert_eq!(a.run(), Ok(()));
    assert_eq!(a.finish_run("ignored"), Ok(()));
    assert_eq!(a.prompt_value(), "");
}

#[test]
fn native_out_of_order_calls_fail() {
    let mut a = macos::Alert::new("x");
    assert_eq!(a.finish_run("early"), Err(AlertError::OutOfOrder));
    assert_eq!(a.state(), AlertState::Created);
    assert_eq!(a.run(), Ok(()));
    assert_eq!(a.add_prompt(), Err(AlertError::OutOfOrder));
    assert_eq!(a.run(), Err(AlertError::OutOfOrder));
    assert_eq!(a.finish_run(""), Ok(()));
    assert_eq!(a.finish_run("late"), Err(AlertError::OutOfOrder));
    assert_eq!(a.run(), Err(AlertError::OutOfOrder));
    assert_eq!(a.prompt_value(), "");
}

#[test]
fn state_queries() {
    assert!(AlertState::Created.accepts_prompt());
    assert!(!AlertState::PromptAttached.accepts_prompt());
    assert!(!AlertState::Running.accepts_prompt());
    assert!(!AlertState::Finished.accepts_prompt());
    assert!(AlertState::Created.may_run());
    assert!(AlertState::PromptAttached.may_run());
    assert!(!AlertState::Running.may_run());
    assert!(!AlertState::Finished.may_run());
}
