use script_util::platform::Platform;
use script_util::process::{is_white_space_char, trim_end, trimmed_or_empty, ProcessOutput};

#[test]
fn new_keeps_its_parts() {
    let o = ProcessOutput::new(3, "out\n".to_string(), "err".to_string());
    assert_eq!(o.code, 3);
    assert_eq!(o.stdout, "out\n");
    assert_eq!(o.stderr, "err");
}

#[test]
fn clean_run_succeeds_everywhere() {
    let o = ProcessOutput::new(0, "done".to_string(), String::new());
    assert!(o.success_on(Platform::Posix));
    assert!(o.success_on(Platform::Windows));
    assert!(o.success());
}

#[test]
fn error_text_fails_only_on_windows() {
    let o = ProcessOutput::new(0, String::new(), "warning: deprecated".to_string());
    assert!(o.success_on(Platform::Posix));
    assert!(!o.success_on(Platform::Windows));
}

#[test]
fn nonzero_exit_fails_everywhere() {
    let o = ProcessOutput::new(2, String::new(), String::new());
    assert!(!o.success_on(Platform::Posix));
    assert!(!o.success_on(Platform::Windows));
    assert!(!o.success());
}

#[test]
fn captured_streams_lose_trailing_newlines() {
    let o = ProcessOutput::from_captured(0, "hello\n\n\n", "oops \t\r\n");
    assert_eq!(o.code, 0);
    assert_eq!(o.stdout, "hello");
    assert_eq!(o.stderr, "oops");
}

#[test]
fn captured_streams_keep_leading_and_inner_space() {
    let o = ProcessOutput::from_captured(1, "  a  b\n", "\u{3000}x\u{3000}\u{a0}");
    assert_eq!(o.code, 1);
    assert_eq!(o.stdout, "  a  b");
    assert_eq!(o.stderr, "\u{3000}x");
}

#[test]
fn captured_white_space_only_becomes_empty() {
    let o = ProcessOutput::from_captured(0, "\n\n \n", "");
    assert_eq!(o.stdout, "");
    assert_eq!(o.stderr, "");
    assert!(o.success_on(Platform::Windows));
}

#[test]
fn engine_success_maps_to_zero() {
    let o = ProcessOutput::from_engine(true, Some("value\r\n".to_string()), None);
    assert_eq!(o.code, 0);
    assert_eq!(o.stdout, "value");
    assert_eq!(o.stderr, "");
}

#[test]
fn engine_failure_maps_to_one() {
    let o = ProcessOutput::from_engine(false, None, Some("failed\n".to_string()));
    assert_eq!(o.code, 1);
    assert_eq!(o.stdout, "");
    assert_eq!(o.stderr, "failed");
    assert!(!o.success_on(Platform::Posix));
}

#[test]
fn missing_stream_reads_as_empty() {
    assert_eq!(trimmed_or_empty(None), "");
    assert_eq!(trimmed_or_empty(Some("path\n".to_string())), "path");
}

#[test]
fn platform_separators() {
    assert_eq!(Platform::Posix.path_list_separator(), ':');
    assert_eq!(Platform::Windows.path_list_separator(), ';');
}

#[test]
fn platform_from_main_separator() {
    assert_eq!(Platform::from_main_separator('\\'), Platform::Windows);
    assert_eq!(Platform::from_main_separator('/'), Platform::Posix);
}

#[test]
fn display_text_lists_the_three_parts() {
    let o = ProcessOutput::new(-12, "out".to_string(), "err".to_string());
    assert_eq!(o.display_text(), "<-12, out, err>");
    let o = ProcessOutput::new(0, String::new(), String::new());
    assert_eq!(o.display_text(), "<0, , >");
    let o = ProcessOutput::new(i32::MIN, "a".to_string(), "b".to_string());
    assert_eq!(o.display_text(), "<-2147483648, a, b>");
}

#[test]
fn trim_end_removes_only_trailing_white_space() {
    assert_eq!(trim_end(" a b \n\t\u{2028}"), " a b");
    assert_eq!(trim_end("x"), "x");
    assert_eq!(trim_end(" \n"), "");
    assert_eq!(trim_end(""), "");
}

#[test]
fn white_space_characters() {
    for c in [' ', '\t', '\n', '\r', '\u{0b}', '\u{0c}', '\u{85}', '\u{a0}', '\u{1680}', '\u{2000}', '\u{200a}', '\u{2028}', '\u{2029}', '\u{202f}', '\u{205f}', '\u{3000}'] {
        assert!(is_white_space_char(c));
        assert!(c.is_whitespace());
    }
    for c in ['a', '0', '\u{200b}', '\u{1f}', '\u{feff}'] {
        assert!(!is_white_space_char(c));
        assert!(!c.is_whitespace());
    }
}
