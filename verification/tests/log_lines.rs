use beatbind::logline::{Log, Severity};

#[test]
fn info_lines_carry_the_info_label() {
    assert_eq!(Log::info("hello"), "info: hello");
}

#[test]
fn warning_lines_carry_the_warning_label() {
    assert_eq!(Log::warning("watch out"), "warning: watch out");
}

#[test]
fn error_lines_carry_the_error_label() {
    assert_eq!(Log::error("it broke"), "error: it broke");
}

#[test]
fn debug_lines_carry_the_debug_label() {
    assert_eq!(Log::debug("x = 3"), "debug: x = 3");
}

#[test]
fn the_message_is_appended_unchanged() {
    assert_eq!(Log::line(Severity::Info, ""), "info: ");
    assert_eq!(Log::line(Severity::Error, "a: b: c"), "error: a: b: c");
}
