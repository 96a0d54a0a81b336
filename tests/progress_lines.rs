use ollama_supervisor::progress::{classify_line, parse_progress, LineClass};
use ollama_supervisor::text::{clean_line, contains_text, split_lines, split_tokens};

fn progress_of(line: &str) -> ollama_supervisor::progress::DownloadProgress {
    match classify_line(line) {
        LineClass::Progress(p) => p,
        _ => panic!("not a progress line: {}", line),
    }
}

#[test]
fn progress_fields_follow_token_offsets() {
    let p = progress_of("pulling 6a0746a1ec1a... 42% 1.2GB / 3.0GB 10MB/s 1m30s");
    assert_eq!(p.percent, "42");
    assert_eq!(p.percent.parse::<f32>().unwrap(), 42.0);
    assert_eq!(p.downloaded, "1.2GB");
    assert_eq!(p.total, "3.0GB");
    assert_eq!(p.speed.as_deref(), Some("10MB/s"));
    assert_eq!(p.eta.as_deref(), Some("1m30s"));
}

#[test]
fn progress_of_cleaned_bar_line() {
    let raw = "pulling sha...  42% \u{2595}\u{2588}\u{2588}\u{2588}\u{2588}\u{258f} 1.2 GB/3.0 GB  10 MB/s  1m30s";
    let clean = clean_line(raw);
    assert_eq!(clean, "pulling sha...  42%  1.2 GB/3.0 GB  10 MB/s  1m30s");
    let p = progress_of(&clean);
    assert_eq!(p.percent, "42");
    assert_eq!(p.downloaded, "1.2");
    assert_eq!(p.total, "GB");
    assert_eq!(p.speed.as_deref(), Some("10"));
    assert_eq!(p.eta.as_deref(), Some("MB/s"));
}

#[test]
fn progress_optional_tokens_absent() {
    let p = progress_of("pulling 7.5% 100MB of 2GB");
    assert_eq!(p.percent, "7.5");
    assert_eq!(p.downloaded, "100MB");
    assert_eq!(p.total, "2GB");
    assert_eq!(p.speed, None);
    assert_eq!(p.eta, None);
    let q = progress_of("pulling 7.5% 100MB of 2GB 5MB/s");
    assert_eq!(q.speed.as_deref(), Some("5MB/s"));
    assert_eq!(q.eta, None);
}

#[test]
fn percent_line_that_does_not_parse_is_informational() {
    assert!(matches!(classify_line("pulling abc% 1 2 3"), LineClass::Informational));
    assert!(matches!(classify_line("pulling 42% 1.2GB"), LineClass::Informational));
    assert!(matches!(classify_line("pulling 4.2.1% a b c"), LineClass::Informational));
    assert!(parse_progress("pulling 42% 1.2GB").is_none());
    assert!(parse_progress("no percent here").is_none());
}

#[test]
fn first_percent_token_decides() {
    let p = progress_of("10% a b c 20% d e f");
    assert_eq!(p.percent, "10");
    assert_eq!(p.downloaded, "a");
    assert_eq!(p.total, "c");
    assert_eq!(p.speed.as_deref(), Some("20%"));
}

#[test]
fn benign_status_lines_are_informational() {
    for line in [
        "writing manifest",
        "verifying sha256 digest",
        "success",
        "pulling manifest ... success",
    ] {
        assert!(matches!(classify_line(line), LineClass::Informational), "{}", line);
    }
    assert!(matches!(classify_line(""), LineClass::Informational));
}

#[test]
fn unrecognised_lines_are_errors() {
    let line = "Error: pull model manifest: file does not exist";
    match classify_line(line) {
        LineClass::Error(m) => assert_eq!(m, line),
        _ => panic!("expected an error"),
    }
    match classify_line("   ") {
        LineClass::Error(m) => assert_eq!(m, "   "),
        _ => panic!("expected an error"),
    }
    assert!(matches!(classify_line("writing the manifest"), LineClass::Error(_)));
}

#[test]
fn tokens_split_on_whitespace() {
    assert_eq!(split_tokens("  a\tbb \u{a0}c\n"), vec!["a", "bb", "c"]);
    assert!(split_tokens("").is_empty());
    assert!(split_tokens(" \t ").is_empty());
}

#[test]
fn lines_split_as_std_does() {
    assert_eq!(split_lines("a\r\nb\n\nc"), vec!["a", "b", "", "c"]);
    assert_eq!(split_lines("a\n"), vec!["a"]);
    assert_eq!(split_lines("a\r"), vec!["a\r"]);
    assert!(split_lines("").is_empty());
    assert_eq!(split_lines("\n"), vec![""]);
}

#[test]
fn substring_search() {
    assert!(contains_text("verifying sha256", "verifying"));
    assert!(contains_text("abc", ""));
    assert!(!contains_text("ab", "abc"));
    assert!(!contains_text("succes", "success"));
}

#[test]
fn cleaning_keeps_ascii_only() {
    assert_eq!(clean_line("\u{1b}[?25lpulling\u{2588} 5%\r"), "[?25lpulling 5%\r");
    assert_eq!(clean_line("\u{7f}\u{0}ok\t"), "ok\t");
}

#[test]
fn percentages_above_hundred_are_not_progress() {
    for line in ["150% a b c", "100.5% a b c", "1000% a b c", "101% a b c", "100.01% a b c"] {
        assert!(matches!(classify_line(line), LineClass::Informational), "{}", line);
        assert!(parse_progress(line).is_none(), "{}", line);
    }
    for (line, pct) in [
        ("100% a b c", "100"),
        ("100.0% a b c", "100.0"),
        ("0100% a b c", "0100"),
        ("99.99% a b c", "99.99"),
        ("0% a b c", "0"),
        (".5% a b c", ".5"),
    ] {
        assert_eq!(progress_of(line).percent, pct, "{}", line);
    }
}

#[test]
fn non_decimal_percentages_are_not_progress() {
    for line in ["NaN% a b c", "inf% a b c", "+5% a b c", "1e1% a b c", "% a b c", ".% a b c"] {
        assert!(matches!(classify_line(line), LineClass::Informational), "{}", line);
    }
}
