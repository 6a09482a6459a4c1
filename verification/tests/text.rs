use rustacean::logs::{parsing, Type};
use rustacean::runner::{poll_decision, timeout_result, PollAction};
use rustacean::sanitize::{pre_process_code, pre_process_output};
use rustacean::strutil::{
    file_name, file_stem, parent_dir, parse_i64, replace_all_str, to_lower_str, trim_str,
    truncate_chars,
};

#[test]
fn output_sanitization_breaks_fences_and_mentions() {
    assert_eq!(
        pre_process_output("```@everyone@here```hello".to_string()),
        "@ everyone@ herehello"
    );
    let cleaned = pre_process_output("a```b@everyone c @here".to_string());
    assert!(!cleaned.contains("```"));
    assert!(!cleaned.contains("@everyone"));
    assert!(!cleaned.contains("@here"));
    assert_eq!(cleaned, "ab@ everyone c @ here");
}

#[test]
fn fence_runs_shrink_without_reappearing() {
    assert_eq!(pre_process_output("``````".to_string()), "");
    assert_eq!(pre_process_output("`````".to_string()), "``");
    assert_eq!(pre_process_output("````".to_string()), "`");
    assert!(!pre_process_output("x````y````".to_string()).contains("```"));
}

#[test]
fn mention_rewrite_is_non_triggering() {
    assert_eq!(pre_process_output("@everyone".to_string()), "@ everyone");
    assert_eq!(pre_process_output("@here".to_string()), "@ here");
    // an at sign directly before a token still cannot recreate it
    let out = pre_process_output("@@everyoneeveryone".to_string());
    assert!(!out.contains("@everyone"));
}

#[test]
fn invisible_characters_are_removed_from_code() {
    assert_eq!(
        pre_process_code("a\u{200B}b\u{200C}c\u{200D}d\u{200E}e\u{200F}f".to_string()),
        "abcdef"
    );
    assert_eq!(pre_process_code("plain".to_string()), "plain");
}

#[test]
fn replace_all_scans_left_to_right_without_rescanning() {
    assert_eq!(replace_all_str("abababa", "aba", "X"), "XbX");
    assert_eq!(replace_all_str("aaa", "aa", "b"), "ba");
    assert_eq!(replace_all_str("abc", "", "x"), "abc");
    assert_eq!(replace_all_str("no match", "zz", "x"), "no match");
}

#[test]
fn case_folding_is_ascii_only() {
    assert_eq!(to_lower_str("RuSt"), "rust");
    assert_eq!(to_lower_str("ASM_X86_64"), "asm_x86_64");
    assert_eq!(to_lower_str("déjà"), "déjà");
}

#[test]
fn path_helpers_split_on_the_last_separator() {
    assert_eq!(file_name("/home/ab12.c"), "ab12.c");
    assert_eq!(file_name("bare.rs"), "bare.rs");
    assert_eq!(file_stem("/home/ab12.c"), "ab12");
    assert_eq!(file_stem("/home/archive.tar.gz"), "archive.tar");
    assert_eq!(file_stem("/home/noext"), "noext");
    assert_eq!(file_stem("/home/.hidden"), ".hidden");
    assert_eq!(parent_dir("/home/ab12.c"), "/home");
    assert_eq!(parent_dir("rel.c"), "");
}

#[test]
fn version_strings_are_truncated_to_fifty_characters() {
    let long = "x".repeat(80);
    assert_eq!(truncate_chars(&long, 50).len(), 50);
    assert_eq!(truncate_chars("short", 50), "short");
}

#[test]
fn trim_matches_unicode_whitespace() {
    assert_eq!(trim_str("  20 "), "20");
    assert_eq!(trim_str("\t\nINFO\r\n"), "INFO");
    assert_eq!(trim_str("   "), "");
    assert_eq!(trim_str("a b"), "a b");
}

#[test]
fn integer_parsing_matches_std() {
    assert_eq!(parse_i64("20"), Some(20));
    assert_eq!(parse_i64("-42"), Some(-42));
    assert_eq!(parse_i64("+7"), Some(7));
    assert_eq!(parse_i64(""), None);
    assert_eq!(parse_i64("-"), None);
    assert_eq!(parse_i64("12x"), None);
    assert_eq!(parse_i64("9223372036854775807"), Some(i64::MAX));
    assert_eq!(parse_i64("9223372036854775808"), None);
    assert_eq!(parse_i64("-9223372036854775808"), Some(i64::MIN));
    assert_eq!(parse_i64("-9223372036854775809"), None);
    assert_eq!(parse_i64("0007"), Some(7));
}

#[test]
fn log_argument_parsing_finds_count_and_severity() {
    let (lines, types) = parsing(vec!["20".to_string(), "INFO".to_string()]);
    assert_eq!(lines, Some(20));
    assert_eq!(types, Some("INFO".to_string()));

    // the severity keeps the untrimmed argument
    let (lines, types) = parsing(vec![" ERROR ".to_string()]);
    assert_eq!(lines, None);
    assert_eq!(types, Some(" ERROR ".to_string()));

    let (lines, types) = parsing(vec!["nonsense".to_string()]);
    assert_eq!(lines, None);
    assert_eq!(types, None);

    // later arguments win
    let (lines, types) = parsing(vec![
        "10".to_string(),
        "DEBUG".to_string(),
        "11".to_string(),
        "ERROR".to_string(),
    ]);
    assert_eq!(lines, Some(11));
    assert_eq!(types, Some("ERROR".to_string()));
}

#[test]
fn severity_names_parse_exactly() {
    assert!(matches!(Type::from_str("INFO"), Some(Type::INFO)));
    assert!(matches!(Type::from_str("DEBUG"), Some(Type::DEBUG)));
    assert!(matches!(Type::from_str("ERROR"), Some(Type::ERROR)));
    assert!(Type::from_str("info").is_none());
    assert!(Type::from_str("WARN").is_none());
}

#[test]
fn poll_decisions_enforce_the_deadline() {
    assert_eq!(poll_decision(2, 0, false), PollAction::Wait);
    assert_eq!(poll_decision(2, 1999, false), PollAction::Wait);
    assert_eq!(poll_decision(2, 2000, false), PollAction::Kill);
    assert_eq!(poll_decision(2, 2250, false), PollAction::Kill);
    assert_eq!(poll_decision(2, 2000, true), PollAction::Finish);
    // a zero timeout caps nothing
    assert_eq!(poll_decision(0, u64::MAX, false), PollAction::Wait);
}

#[test]
fn timeout_results_discard_partial_output() {
    let r = timeout_result(2100);
    assert!(r.timed_out);
    assert_eq!(r.exit_code, None);
    assert_eq!(r.stdout, "");
    assert_eq!(r.stderr, "");
    assert_eq!(r.duration_ms, 2100);
}

#[test]
fn guild_counter_waits_for_the_total() {
    let mut counter = rustacean::guilds::GuildReadyCounter::new();
    assert!(!counter.all_ready());
    counter.add_ready();
    assert!(!counter.all_ready());
    counter.set_total(2);
    assert!(!counter.all_ready());
    counter.add_ready();
    assert!(counter.all_ready());
}

#[test]
fn code_output_is_fenced_and_truncated() {
    let (truncated, out) = rustacean::sanitize::format_code_output("hello".to_string(), 1024);
    assert!(!truncated);
    assert_eq!(out, "```\nhello```");
    let long = "y".repeat(2000);
    let (truncated, out) = rustacean::sanitize::format_code_output(long, 1024);
    assert!(truncated);
    assert_eq!(out.len(), 4 + 1017 + 3);
    assert!(out.starts_with("```\n"));
    assert!(out.ends_with("```"));
}
