use reproducible_panic::model::{Backtrace, Location, PanicInfo};
use reproducible_panic::report::{
    header_line, is_full, panic_hook, push_location, FULL, HINT, MIRI_HINT, TRACE_TITLE, UNNAMED,
};
use reproducible_panic::text::report_text;

fn at(file: &str, line: u32, column: u32) -> Option<Location> {
    Some(Location { file: file.to_string(), line, column })
}

fn info(
    location: Option<Location>,
    message: Option<&str>,
    thread_name: Option<&str>,
    backtrace: Backtrace,
) -> PanicInfo {
    PanicInfo {
        location,
        message: message.map(|m| m.to_string()),
        thread_name: thread_name.map(|n| n.to_string()),
        backtrace,
    }
}

fn captured() -> Backtrace {
    Backtrace::Captured {
        standard: "   0: main\n   1: start".to_string(),
        full: "   0: 0x1000 - main\n   1: 0x2000 - start".to_string(),
    }
}

#[test]
fn documented_example() {
    let i = info(at("examples/example.rs", 3, 5), Some("Oh no!"), Some("main"), Backtrace::Disabled);
    let mut first = true;
    let lines = panic_hook(&i, None, false, &mut first);
    assert_eq!(
        report_text(&lines),
        "\nthread 'main' panicked at examples/example.rs:3:5\nOh no!\nnote: run with `RUST_BACKTRACE=1` environment variable to display a backtrace\n"
    );
    assert!(!first);
}

#[test]
fn location_without_message_has_one_header_and_no_message_line() {
    let i = info(at("src/lib.rs", 10, 1), None, Some("worker"), Backtrace::Unsupported);
    let mut first = true;
    let lines = panic_hook(&i, None, false, &mut first);
    assert_eq!(lines, vec!["\nthread 'worker' panicked at src/lib.rs:10:1".to_string()]);
    let text = report_text(&lines);
    assert_eq!(text.matches("panicked at").count(), 1);
    assert_eq!(text, "\nthread 'worker' panicked at src/lib.rs:10:1\n");
}

#[test]
fn no_location_gives_bare_header() {
    let i = info(None, None, Some("main"), Backtrace::Unsupported);
    let mut first = true;
    let lines = panic_hook(&i, None, false, &mut first);
    assert_eq!(lines, vec!["\nthread 'main' panicked".to_string()]);
    assert_eq!(report_text(&lines), "\nthread 'main' panicked\n");
}

#[test]
fn message_is_verbatim_on_the_line_after_the_header() {
    let message = "caf\u{e9} \u{1f980}\ttab 'quote' {brace} \\ end";
    let i = info(at("a.rs", 1, 2), Some(message), Some("main"), Backtrace::Unsupported);
    let mut first = true;
    let lines = panic_hook(&i, None, false, &mut first);
    assert_eq!(lines.len(), 2);
    assert_eq!(lines[0], "\nthread 'main' panicked at a.rs:1:2");
    assert_eq!(lines[1].as_bytes(), message.as_bytes());
    let expected = format!("\nthread 'main' panicked at a.rs:1:2\n{}\n", message);
    assert_eq!(report_text(&lines).as_bytes(), expected.as_bytes());
}

#[test]
fn message_with_newlines_is_kept_whole() {
    let i = info(None, Some("first\nsecond"), Some("t"), Backtrace::Unsupported);
    let mut first = true;
    let lines = panic_hook(&i, None, false, &mut first);
    assert_eq!(lines[1], "first\nsecond");
    assert_eq!(report_text(&lines), "\nthread 't' panicked\nfirst\nsecond\n");
}

#[test]
fn empty_message_is_an_empty_line() {
    let i = info(None, Some(""), Some("t"), Backtrace::Unsupported);
    let mut first = true;
    let lines = panic_hook(&i, None, false, &mut first);
    assert_eq!(lines, vec!["\nthread 't' panicked".to_string(), String::new()]);
    assert_eq!(report_text(&lines), "\nthread 't' panicked\n\n");
}

#[test]
fn same_input_gives_same_output() {
    for backtrace_is_disabled in [true, false] {
        let make = || {
            info(
                at("src/main.rs", 42, 7),
                Some("boom"),
                Some("main"),
                if backtrace_is_disabled { Backtrace::Disabled } else { Backtrace::Unsupported },
            )
        };
        let mut first_a = true;
        let mut first_b = true;
        let a = panic_hook(&make(), None, false, &mut first_a);
        let b = panic_hook(&make(), Some("0"), false, &mut first_b);
        assert_eq!(report_text(&a).as_bytes(), report_text(&b).as_bytes());
        assert_eq!(first_a, first_b);
    }
}

#[test]
fn hint_is_printed_by_the_first_disabled_report_only() {
    let mut first = true;
    for round in 0..5 {
        let i = info(at("a.rs", 1, 1), Some("m"), Some("main"), Backtrace::Disabled);
        let lines = panic_hook(&i, None, false, &mut first);
        if round == 0 {
            assert_eq!(lines.len(), 3);
            assert_eq!(lines[2], HINT);
        } else {
            assert_eq!(lines, vec!["\nthread 'main' panicked at a.rs:1:1".to_string(), "m".to_string()]);
        }
        assert!(!first);
    }
}

#[test]
fn hint_waits_for_the_first_disabled_report() {
    let mut first = true;
    let unsupported = info(None, None, Some("a"), Backtrace::Unsupported);
    assert_eq!(panic_hook(&unsupported, None, false, &mut first).len(), 1);
    assert!(first);
    let with_trace = info(None, None, Some("a"), captured());
    assert_eq!(panic_hook(&with_trace, None, false, &mut first).len(), 2);
    assert!(first);
    let disabled = info(None, None, Some("a"), Backtrace::Disabled);
    assert_eq!(
        panic_hook(&disabled, None, false, &mut first),
        vec!["\nthread 'a' panicked".to_string(), HINT.to_string()]
    );
    assert!(!first);
    assert_eq!(panic_hook(&disabled, None, false, &mut first).len(), 1);
    assert!(!first);
}

#[test]
fn cleared_flag_gives_no_hint() {
    let mut first = false;
    let i = info(None, None, Some("a"), Backtrace::Disabled);
    assert_eq!(panic_hook(&i, None, true, &mut first), vec!["\nthread 'a' panicked".to_string()]);
    assert!(!first);
}

#[test]
fn miri_adds_the_second_hint() {
    let mut first = true;
    let i = info(None, None, Some("a"), Backtrace::Disabled);
    let lines = panic_hook(&i, None, true, &mut first);
    assert_eq!(
        report_text(&lines),
        "\nthread 'a' panicked\nnote: run with `RUST_BACKTRACE=1` environment variable to display a backtrace\nnote: in Miri, you may have to set `MIRIFLAGS=-Zmiri-env-forward=RUST_BACKTRACE` for the environment variable to have an effect\n"
    );
    assert_eq!(lines[2], MIRI_HINT);
    assert_eq!(panic_hook(&i, None, true, &mut first).len(), 1);
}

#[test]
fn full_selects_the_extended_trace() {
    let i = info(at("a.rs", 1, 1), Some("m"), Some("main"), captured());
    let mut first = true;
    let lines = panic_hook(&i, Some("full"), false, &mut first);
    assert_eq!(
        report_text(&lines),
        "\nthread 'main' panicked at a.rs:1:1\nm\nstack backtrace:\n   0: 0x1000 - main\n   1: 0x2000 - start\n"
    );
    assert!(first);
}

#[test]
fn anything_else_selects_the_standard_trace() {
    for value in [None, Some("1"), Some("0"), Some(""), Some("FULL"), Some("full "), Some("ful"), Some("fulll")] {
        let i = info(at("a.rs", 1, 1), None, Some("main"), captured());
        let mut first = true;
        let lines = panic_hook(&i, value, false, &mut first);
        assert_eq!(
            report_text(&lines),
            "\nthread 'main' panicked at a.rs:1:1\nstack backtrace:\n   0: main\n   1: start\n"
        );
        assert!(first);
    }
}

#[test]
fn is_full_wants_the_exact_word() {
    assert!(is_full(Some("full")));
    assert!(is_full(Some(FULL)));
    assert!(!is_full(None));
    assert!(!is_full(Some("")));
    assert!(!is_full(Some("1")));
    assert!(!is_full(Some("Full")));
    assert!(!is_full(Some(" full")));
}

#[test]
fn unnamed_thread_gets_the_placeholder() {
    let i = info(at("a.rs", 1, 1), None, None, Backtrace::Unsupported);
    let mut first = true;
    let lines = panic_hook(&i, None, false, &mut first);
    assert_eq!(report_text(&lines), "\nthread '<unnamed>' panicked at a.rs:1:1\n");
    let named = info(at("a.rs", 1, 1), None, Some(UNNAMED), Backtrace::Unsupported);
    assert_eq!(panic_hook(&named, None, false, &mut first), lines);
    assert_eq!(header_line(&info(None, None, None, Backtrace::Disabled)), "\nthread '<unnamed>' panicked");
}

#[test]
fn unsupported_has_no_trace_and_no_hint() {
    for value in [None, Some("1"), Some("full")] {
        for miri in [false, true] {
            let i = info(at("a.rs", 9, 9), Some("m"), Some("main"), Backtrace::Unsupported);
            let mut first = true;
            let text = report_text(&panic_hook(&i, value, miri, &mut first));
            assert_eq!(text, "\nthread 'main' panicked at a.rs:9:9\nm\n");
            assert!(!text.contains("stack backtrace"));
            assert!(!text.contains("note:"));
            assert!(first);
        }
    }
}

#[test]
fn constants_read_as_documented() {
    assert_eq!(UNNAMED, "<unnamed>");
    assert_eq!(FULL, "full");
    assert_eq!(TRACE_TITLE, "stack backtrace:\n");
    assert_eq!(HINT, "note: run with `RUST_BACKTRACE=1` environment variable to display a backtrace");
    assert_eq!(
        MIRI_HINT,
        "note: in Miri, you may have to set `MIRIFLAGS=-Zmiri-env-forward=RUST_BACKTRACE` for the environment variable to have an effect"
    );
}

#[test]
fn location_is_file_line_column() {
    let mut out = String::from("at ");
    push_location(&mut out, &Location { file: "src/a b.rs".to_string(), line: 0, column: 4294967295 });
    assert_eq!(out, "at src/a b.rs:0:4294967295");
}

#[test]
fn report_text_of_nothing_is_empty() {
    assert_eq!(report_text(&Vec::new()), "");
    assert_eq!(report_text(&vec!["a".to_string(), String::new(), "b\nc".to_string()]), "a\n\nb\nc\n");
}
