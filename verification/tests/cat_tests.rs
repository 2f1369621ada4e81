use catr::config::{effective_sources, resolve_mode, Mode};
use catr::emit::{format_diagnostic, process_source};
use catr::numeral::format_count;

fn lines(v: &[&str]) -> Vec<String> {
    v.iter().map(|s| s.to_string()).collect()
}

#[test]
fn number_all_with_blank_line() {
    let file = lines(&["line1", "", "line3"]);
    assert_eq!(
        process_source(Mode::NumberAll, &file),
        "     1\tline1\n     2\t\n     3\tline3\n"
    );
}

#[test]
fn number_nonblank_skips_blank_line() {
    let file = lines(&["line1", "", "line3"]);
    assert_eq!(
        process_source(Mode::NumberNonblank, &file),
        "     1\tline1\n\n     2\tline3\n"
    );
}

#[test]
fn plain_single_line() {
    let file = lines(&["hello"]);
    assert_eq!(process_source(Mode::Plain, &file), "hello\n");
}

#[test]
fn plain_is_verbatim_concatenation() {
    let file = lines(&["alpha", "", "beta", "gamma"]);
    assert_eq!(process_source(Mode::Plain, &file), "alpha\n\nbeta\ngamma\n");
}

#[test]
fn plain_empty_source_writes_nothing() {
    let file = lines(&[]);
    assert_eq!(process_source(Mode::Plain, &file), "");
    assert_eq!(process_source(Mode::NumberAll, &file), "");
    assert_eq!(process_source(Mode::NumberNonblank, &file), "");
}

#[test]
fn numbering_restarts_for_each_source() {
    let first = lines(&["a", "b"]);
    let second = lines(&["c"]);
    let mut out = process_source(Mode::NumberAll, &first);
    out.push_str(&process_source(Mode::NumberAll, &second));
    assert_eq!(out, "     1\ta\n     2\tb\n     1\tc\n");
}

#[test]
fn nonblank_numbering_restarts_for_each_source() {
    let first = lines(&["a", "", "b"]);
    let second = lines(&["", "c"]);
    let mut out = process_source(Mode::NumberNonblank, &first);
    out.push_str(&process_source(Mode::NumberNonblank, &second));
    assert_eq!(out, "     1\ta\n\n     2\tb\n\n     1\tc\n");
}

#[test]
fn nonblank_all_blank_lines() {
    let file = lines(&["", ""]);
    assert_eq!(process_source(Mode::NumberNonblank, &file), "\n\n");
}

#[test]
fn both_flags_are_a_usage_error() {
    let r = resolve_mode(true, true);
    assert!(r.is_err());
    assert_eq!(
        r.unwrap_err().message(),
        "the argument '--number' cannot be used with '--number-nonblank'"
    );
}

#[test]
fn single_flags_select_their_mode() {
    assert_eq!(resolve_mode(false, false), Ok(Mode::Plain));
    assert_eq!(resolve_mode(true, false), Ok(Mode::NumberAll));
    assert_eq!(resolve_mode(false, true), Ok(Mode::NumberNonblank));
}

#[test]
fn count_field_is_right_aligned_in_six_columns() {
    assert_eq!(format_count(0), "     0");
    assert_eq!(format_count(1), "     1");
    assert_eq!(format_count(42), "    42");
    assert_eq!(format_count(100000), "100000");
}

#[test]
fn count_wider_than_the_field_is_unpadded() {
    assert_eq!(format_count(1234567), "1234567");
}

#[test]
fn no_sources_defaults_to_stdin_sentinel() {
    let out = effective_sources(Vec::new());
    assert_eq!(out, vec!["-".to_string()]);
}

#[test]
fn named_sources_are_kept_in_order() {
    let given = lines(&["a.txt", "-", "b.txt"]);
    let out = effective_sources(given.clone());
    assert_eq!(out, given);
}

#[test]
fn diagnostic_names_the_unreadable_source() {
    let out = format_diagnostic("missing.txt", "No such file or directory (os error 2)");
    assert_eq!(out, "missing.txt: No such file or directory (os error 2)");
    assert!(out.contains("missing.txt"));
}
