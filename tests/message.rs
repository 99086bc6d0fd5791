use ghit::config::{Config, MessageLevel};
use ghit::llm::{style_directive, GenError, Reply, LLM, MAX_TOKENS};
use ghit::text::{find_blank_line, first_line, trim};

fn llm(level: MessageLevel) -> LLM {
    LLM::new(Config::new(
        "gpt-3.5-turbo".to_string(),
        "key".to_string(),
        "main".to_string(),
        level,
    ))
}

fn parse(raw: &str) -> (String, Option<String>) {
    llm(MessageLevel::Normal).parse_commit_message(raw).unwrap()
}

#[test]
fn parse_subject_and_body() {
    assert_eq!(
        parse("Fix bug\n\nThis resolves the race."),
        ("Fix bug".to_string(), Some("This resolves the race.".to_string()))
    );
}

#[test]
fn parse_subject_only() {
    assert_eq!(parse("Fix bug"), ("Fix bug".to_string(), None));
}

#[test]
fn parse_discards_extra_subject_lines() {
    assert_eq!(
        parse("Fix bug\nextra subject line\n\nBody text"),
        ("Fix bug".to_string(), Some("Body text".to_string()))
    );
}

#[test]
fn parse_whitespace_only_gives_empty_subject() {
    assert_eq!(parse("   \n\n   "), (String::new(), None));
}

#[test]
fn parse_empty_reply() {
    assert_eq!(parse(""), (String::new(), None));
}

#[test]
fn parse_trims_surrounding_whitespace() {
    assert_eq!(
        parse("  \n feat: add x \n\n  body line 1\n body line 2 \n\n"),
        ("feat: add x ".to_string(), Some("body line 1\n body line 2".to_string()))
    );
}

#[test]
fn parse_blank_body_is_none() {
    assert_eq!(parse("Subject\n\n \t \n\n"), ("Subject".to_string(), None));
}

#[test]
fn parse_first_line_without_separator() {
    assert_eq!(parse("one\ntwo\nthree"), ("one".to_string(), None));
}

#[test]
fn parse_crlf_subject() {
    assert_eq!(parse("one\r\ntwo"), ("one".to_string(), None));
}

#[test]
fn parse_keeps_later_blank_lines_in_body() {
    assert_eq!(
        parse("fix: a\n\npara one\n\npara two"),
        ("fix: a".to_string(), Some("para one\n\npara two".to_string()))
    );
}

#[test]
fn parse_unicode_text() {
    assert_eq!(
        parse("\u{3000}docs: ünïcode ✓\n\nbody ✓\u{a0}"),
        ("docs: ünïcode ✓".to_string(), Some("body ✓".to_string()))
    );
}

#[test]
fn trim_and_lines_helpers() {
    assert_eq!(trim("  a b \n"), "a b");
    assert_eq!(trim(" \t\n"), "");
    assert_eq!(first_line("ab\ncd"), "ab");
    assert_eq!(first_line("ab\r"), "ab\r");
    assert_eq!(find_blank_line("a\nb\n\nc"), Some(3));
    assert_eq!(find_blank_line("a\nb\r\n\r\nc"), None);
}

#[test]
fn style_directive_per_level() {
    assert_eq!(style_directive(MessageLevel::Quiet), "a very brief, one-line");
    assert_eq!(style_directive(MessageLevel::Normal), "a concise subject plus short body");
    assert_eq!(style_directive(MessageLevel::Verbose), "a detailed subject and explanatory body");
}

#[test]
fn prompt_embeds_style_and_diff_for_every_level() {
    let diff = "diff --git a/x b/x\n+  added line\t\n\n";
    for (level, style) in [
        (MessageLevel::Quiet, "a very brief, one-line"),
        (MessageLevel::Normal, "a concise subject plus short body"),
        (MessageLevel::Verbose, "a detailed subject and explanatory body"),
    ] {
        let prompt = llm(level).build_prompt(diff);
        assert_eq!(
            prompt,
            format!(
                "Write {} Git commit message for these staged changes. Follow conventional commit format.\n\nChanges:\n{}",
                style, diff
            )
        );
        assert!(prompt.ends_with(diff));
        let others = ["a very brief, one-line", "a concise subject plus short body", "a detailed subject and explanatory body"];
        assert_eq!(others.iter().filter(|s| prompt.contains(*s)).count(), 1);
    }
}

#[test]
fn request_has_system_and_user_messages() {
    let req = llm(MessageLevel::Quiet).build_request("+x");
    assert_eq!(req.model, "gpt-3.5-turbo");
    assert_eq!(req.max_tokens, MAX_TOKENS);
    assert_eq!(req.max_tokens, 200);
    assert_eq!(req.messages.len(), 2);
    assert_eq!(req.messages[0].role, "system");
    assert_eq!(
        req.messages[0].content,
        "You are a helpful assistant that writes clear, concise Git commit messages following conventional commit format."
    );
    assert_eq!(req.messages[1].role, "user");
    assert!(req.messages[1].content.starts_with("Write a very brief, one-line Git commit message"));
    assert!(req.messages[1].content.ends_with("Changes:\n+x"));
}

#[test]
fn reply_unsent_is_transport_error() {
    let r = llm(MessageLevel::Normal).interpret_reply(Reply::Unsent("connection refused".to_string()));
    assert_eq!(r, Err(GenError::Transport("connection refused".to_string())));
}

#[test]
fn reply_rejected_carries_error_body() {
    let r = llm(MessageLevel::Normal).interpret_reply(Reply::Rejected("{\"error\":\"bad key\"}".to_string()));
    assert_eq!(r, Err(GenError::Api("{\"error\":\"bad key\"}".to_string())));
}

#[test]
fn reply_unreadable_is_malformed() {
    let r = llm(MessageLevel::Normal).interpret_reply(Reply::Unreadable("eof".to_string()));
    assert_eq!(r, Err(GenError::Malformed("eof".to_string())));
}

#[test]
fn reply_without_choices_is_no_response() {
    let r = llm(MessageLevel::Normal).interpret_reply(Reply::Choices(vec![]));
    assert_eq!(r, Err(GenError::NoResponse));
}

#[test]
fn reply_uses_first_choice() {
    let r = llm(MessageLevel::Normal).interpret_reply(Reply::Choices(vec![
        " feat: one\n\nwhy ".to_string(),
        "feat: two".to_string(),
    ]));
    assert_eq!(r, Ok(("feat: one".to_string(), Some("why".to_string()))));
}
