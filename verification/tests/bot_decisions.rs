use kybe_backend::cataas::{cat_url, CatAss};
use kybe_backend::db::traces::{CommandStatus, CommandTrace};
use kybe_backend::discord_bot::cataas::{autocomplete_tag, cat_amount, cat_file_name, record_cat_fetch, CatFetch, CatReply};
use kybe_backend::discord_bot::extract_time::{extract_time_millis, snowflake_millis, DISCORD_EPOCH};
use kybe_backend::discord_bot::guild_info::parse_guild_id;
use kybe_backend::discord_bot::traces::{deny_unless_admin, read_trace_id, record_defer_failure, record_latest_trace_lookup, record_trace_lookup, TraceLookup, TraceReply};
use kybe_backend::discord_bot::translator::{command_languages, translation_disabled, translation_summary, translator_init_notice};
use kybe_backend::discord_bot::version::version_text;
use kybe_backend::discord_bot::wolframalpha::{format_pods, join_strings, text_lines};
use kybe_backend::discord_bot::{fits_in_message, on_start_failure, RetryNext, RetryState, MAX_MSG_LENGTH};
use kybe_backend::external::cataas::{cat_path_url, non_blank_tags, Position};
use kybe_backend::external::wolframalpha::{Pod, SubPod};
use kybe_backend::translator::TranslatorInitError;

fn strings(v: &[&str]) -> Vec<String> {
    v.iter().map(|s| s.to_string()).collect()
}

fn trace() -> CommandTrace {
    CommandTrace::start("cmd".to_string(), 1, "user".to_string(), None, 2)
}

#[test]
fn message_limit_counts_characters() {
    assert_eq!(MAX_MSG_LENGTH, 2000);
    assert!(fits_in_message(&"a".repeat(2000)));
    assert!(!fits_in_message(&"a".repeat(2001)));
    assert!(fits_in_message(&"ü".repeat(2000)));
    assert!(fits_in_message(""));
}

#[test]
fn retries_count_up_and_give_up_at_five() {
    let mut s = RetryState::new();
    let mut t = 0u64;
    for n in 1..=4u64 {
        t += 10_000;
        let a = on_start_failure(&mut s, t, "boom");
        assert_eq!(s.retries, n);
        assert_eq!(a.next, RetryNext::SleepSecs(5 * n));
        assert_eq!(a.notifications.len(), 1);
        assert_eq!(a.notifications[0].title, "Discord Bot Critical Failure");
        assert_eq!(a.notifications[0].message, format!("attempt {n}: boom"));
    }
    let a = on_start_failure(&mut s, t + 10_000, "boom");
    assert_eq!(s.retries, 5);
    assert_eq!(a.next, RetryNext::Stop);
    assert_eq!(a.notifications.len(), 2);
    assert_eq!(a.notifications[1].title, "Disabling discord bot");
    assert_eq!(a.notifications[1].message, "due to error: boom on retry 5");
}

#[test]
fn a_late_failure_starts_a_new_streak() {
    let mut s = RetryState::new();
    on_start_failure(&mut s, 1_000, "e");
    on_start_failure(&mut s, 2_000, "e");
    assert_eq!(s.retries, 2);
    let a = on_start_failure(&mut s, 2_000 + 300_000, "e");
    assert_eq!(s.retries, 3);
    assert_eq!(a.next, RetryNext::SleepSecs(15));
    let a = on_start_failure(&mut s, 2_000 + 600_001, "e");
    assert_eq!(s.retries, 1);
    assert_eq!(a.next, RetryNext::SleepSecs(5));
    assert_eq!(s.last_failure_ms, Some(602_001));
}

#[test]
fn autocomplete_completes_the_last_tag() {
    let tags = strings(&["cute", "cool", "orange"]);
    assert_eq!(autocomplete_tag(&tags, "co"), strings(&["cool"]));
    assert_eq!(autocomplete_tag(&tags, "cute,co"), strings(&["cute,cool"]));
    assert_eq!(autocomplete_tag(&tags, "a,b,"), strings(&["a,b,cute", "a,b,cool", "a,b,orange"]));
    assert_eq!(autocomplete_tag(&tags, ""), tags);
    assert!(autocomplete_tag(&tags, "x").is_empty());
}

#[test]
fn cat_amounts() {
    assert_eq!(cat_amount(None), Ok(1));
    assert_eq!(cat_amount(Some(1)), Ok(1));
    assert_eq!(cat_amount(Some(6)), Ok(6));
    assert_eq!(cat_amount(Some(0)), Err("Amount must be between 1 and 6".to_string()));
    assert_eq!(cat_amount(Some(7)), Err("Amount must be between 1 and 6".to_string()));
    assert_eq!(cat_amount(Some(10)), Err("Amount must be between 1 and 6".to_string()));
}

#[test]
fn cat_file_names_follow_the_mime_type() {
    assert_eq!(cat_file_name("image/png"), "cat.png");
    assert_eq!(cat_file_name("image/jpeg"), "cat.jpg");
    assert_eq!(cat_file_name("image/gif"), "cat.gif");
    assert_eq!(cat_file_name("image/webp"), "cat.img");
}

#[test]
fn cat_urls() {
    assert_eq!(cat_path_url(None, None), "https://cataas.com/cat");
    assert_eq!(cat_path_url(Some("cute"), Some("hi there")), "https://cataas.com/cat/cute/says/hi%20there");
    assert_eq!(cat_url(None, Some("a&b")), "https://cataas.com/cat/says/a%26b?json=true");
    assert_eq!(Position::default(), Position::Center);
    assert_eq!(Position::RightTop.as_str(), "right top");
}

#[test]
fn tags_are_filtered_and_cached() {
    assert_eq!(non_blank_tags(strings(&["a", " ", "", "b c"])), strings(&["a", "b c"]));
    let mut c = CatAss::new();
    assert!(c.tags.is_none());
    let kept = c.store_fetched_tags(strings(&["x", "", " "]));
    assert_eq!(kept, strings(&["x", " "]));
    assert_eq!(c.tags, Some(strings(&["x", " "])));
}

#[test]
fn cat_fetch_outcomes() {
    let mut t = trace();
    let (r, stop) = record_cat_fetch(&mut t, CatFetch::Image { url: "u".to_string() }, false);
    assert!(matches!(r, CatReply::SendImage) && !stop);
    assert_eq!(t.output.as_deref(), Some("Image: u"));
    assert_eq!(t.status, CommandStatus::Success);

    let mut t = trace();
    let (r, stop) = record_cat_fetch(&mut t, CatFetch::ImageFailed { url: "u".into(), error: "e".into(), response: "resp".into() }, false);
    assert!(matches!(r, CatReply::Reply(ref m) if m == "u") && !stop);
    assert_eq!(t.status, CommandStatus::Error);
    assert_eq!(t.error.as_deref(), Some("e"));
    assert_eq!(t.output.as_deref(), Some("u"));

    let mut t = trace();
    let (r, _) = record_cat_fetch(&mut t, CatFetch::ImageFailed { url: "u".into(), error: "e".into(), response: "resp".into() }, true);
    assert!(matches!(r, CatReply::Attach { ref text, ref filename } if text == "resp" && filename == "error.txt"));
    assert_eq!(t.output.as_deref(), Some("resp"));

    let mut t = trace();
    let (r, stop) = record_cat_fetch(&mut t, CatFetch::NotFound, true);
    assert!(matches!(r, CatReply::Reply(ref m) if m == "No cat found") && !stop);
    assert_eq!(t.status, CommandStatus::Success);

    let mut t = trace();
    let (r, stop) = record_cat_fetch(&mut t, CatFetch::Failed { error: "x".into(), pretty_error: "X".into() }, false);
    assert!(matches!(r, CatReply::Reply(ref m) if m == "Error evaluating expression") && stop);
    assert_eq!(t.status, CommandStatus::Error);
    assert_eq!(t.error.as_deref(), Some("x"));
}

#[test]
fn snowflakes_tell_their_time() {
    assert_eq!(snowflake_millis(0), DISCORD_EPOCH);
    assert_eq!(snowflake_millis(175928847299117063), 1462015105796);
    assert_eq!(snowflake_millis(u64::MAX), 4398046511103 + DISCORD_EPOCH);
    assert_eq!(extract_time_millis("175928847299117063"), Ok(1462015105796));
    assert_eq!(extract_time_millis("abc"), Err("Invalid ID: ParseIntError { kind: InvalidDigit }".to_string()));
    assert_eq!(extract_time_millis(""), Err("Invalid ID: ParseIntError { kind: Empty }".to_string()));
    let t = 1_700_000_000_000u64;
    let id = ((t - DISCORD_EPOCH) << 22) | 0x3f_ffff;
    assert_eq!(snowflake_millis(id), t);
    assert!(snowflake_millis(5) <= snowflake_millis(5 << 22));
}

#[test]
fn guild_ids() {
    assert_eq!(parse_guild_id("81384788765712384"), Ok(81384788765712384));
    assert_eq!(parse_guild_id("99999999999999999999"), Err("Invalid guild ID: ParseIntError { kind: PosOverflow }".to_string()));
}

#[test]
fn trace_commands_are_for_the_admin() {
    let mut t = trace();
    assert_eq!(deny_unless_admin(&mut t, "1", "1", false), None);
    assert_eq!(t.status, CommandStatus::Success);
    let r = deny_unless_admin(&mut t, "2", "1", false);
    assert_eq!(r.as_deref(), Some("You are not allowed to use this command!"));
    assert_eq!(t.status, CommandStatus::Disabled);
    assert_eq!(t.output.as_deref(), Some("You are not allowed to use this command!"));
    let mut t = trace();
    let r = deny_unless_admin(&mut t, "2", "1", true);
    assert_eq!(r.as_deref(), Some("You are not allowed to use this command"));
    assert_eq!(t.output.as_deref(), Some("Not allowed"));
}

#[test]
fn trace_ids_and_lookups() {
    let mut t = trace();
    let id = read_trace_id(&mut t, "67e55044-10b1-426f-9247-bb680e5fe0c8").unwrap();
    assert_eq!(t.status, CommandStatus::Success);
    let r = read_trace_id(&mut t, "nope");
    assert_eq!(r, Err("Invalid trace ID format (must be a valid UUID)".to_string()));
    assert_eq!(t.status, CommandStatus::Error);
    assert!(t.error.as_deref().unwrap().starts_with("Invalid UUID: "));
    assert_eq!(t.output.as_deref(), Some("Invalid trace ID format"));

    let mut t = trace();
    match record_trace_lookup(&mut t, id, TraceLookup::NotFound, "1ms") {
        TraceReply::Reply(m) => assert_eq!(m, "No trace found for ID: `67e55044-10b1-426f-9247-bb680e5fe0c8`"),
        _ => panic!("expected a reply"),
    }
    assert_eq!(t.output.as_deref(), Some("No trace found"));

    let mut t = trace();
    match record_trace_lookup(&mut t, id, TraceLookup::Failed("boom".into()), "1ms") {
        TraceReply::Reply(m) => assert_eq!(m, "Failed to fetch trace `67e55044-10b1-426f-9247-bb680e5fe0c8`: database error"),
        _ => panic!("expected a reply"),
    }
    assert_eq!(t.status, CommandStatus::Error);
    assert_eq!(t.error.as_deref(), Some("DB error: boom"));

    let mut t = trace();
    match record_trace_lookup(&mut t, id, TraceLookup::Found("dump".into()), "3ms") {
        TraceReply::ReplyOrAttach { text, filename } => {
            assert_eq!(text, "dump");
            assert_eq!(filename, "trace.txt");
        }
        _ => panic!("expected an attachment"),
    }
    assert_eq!(t.output.as_deref(), Some("Trace fetched in 3ms"));

    let mut t = trace();
    match record_latest_trace_lookup(&mut t, TraceLookup::Failed("boom".into()), "1ms") {
        TraceReply::Reply(m) => assert_eq!(m, "Failed to fetch latest trace"),
        _ => panic!("expected a reply"),
    }
    assert_eq!(t.error.as_deref(), Some("boom"));
    assert_eq!(t.output.as_deref(), Some("DB error"));

    let mut t = trace();
    record_defer_failure(&mut t, "timeout");
    assert_eq!(t.status, CommandStatus::Error);
    assert_eq!(t.error.as_deref(), Some("Defer failed: timeout"));
}

#[test]
fn translation_command_texts() {
    assert_eq!(command_languages(None, None), ("auto".to_string(), "de".to_string()));
    assert_eq!(command_languages(Some("en".into()), Some("fr".into())), ("en".to_string(), "fr".to_string()));
    assert_eq!(translation_summary("auto", "de", Some("en"), "Hallo"), "en → de \"Hallo\"");
    assert_eq!(translation_summary("fr", "de", None, "Hallo"), "fr → de \"Hallo\"");
    assert_eq!(translation_disabled(), "Translation is not enabled!");
    assert!(translator_init_notice(false, TranslatorInitError::Disabled).is_none());
    let n = translator_init_notice(true, TranslatorInitError::MissingUrl).unwrap();
    assert_eq!(n.title, "Discord Bot - Translator Initialization Failed");
    assert_eq!(n.message, "Failed to initialize translator.\n\nError details:\nMissingUrl\n\nTranslation commands will be unavailable.");
}

#[test]
fn version_answer() {
    assert_eq!(version_text("abc123"), "version: `abc123`");
}

#[test]
fn lines_follow_std() {
    for s in ["", "a", "a\n", "a\nb", "a\r\nb\r\n", "\n", "a\n\nb", "x\r", "x\r\ry\n"] {
        let ours = text_lines(s);
        let std: Vec<String> = s.lines().map(|l| l.to_string()).collect();
        assert_eq!(ours, std, "input {:?}", s);
    }
    assert_eq!(join_strings(&strings(&["a", "b", "c"]), "\n> "), "a\n> b\n> c");
    assert_eq!(join_strings(&strings(&[]), ","), "");
}

fn pod(title: &str, texts: &[&str]) -> Pod {
    Pod { title: title.to_string(), subpods: texts.iter().map(|t| SubPod { plaintext: t.to_string() }).collect() }
}

#[test]
fn wolfram_pods_become_quoted_sections() {
    let pods = vec![pod("Input", &["2+2"]), pod("Empty", &["", ""]), pod("Result", &["4\nfour", "!"])];
    assert_eq!(format_pods(&pods), "## Input\n> 2+2\n## Result\n> 4\n> four!\n");
    assert_eq!(format_pods(&vec![]), "");
}
