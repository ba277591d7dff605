use chatgpt_cli::chat::{ChatSession, ChatStep, Phase};
use chatgpt_cli::command::{candidate_command, command_request, confirm, Confirmation, SYSTEM_INSTRUCTION};
use chatgpt_cli::extract::{extract_reply, get_response_text, get_usage, ExtractionError};
use chatgpt_cli::json::JsonValue;
use chatgpt_cli::request::authorization_header;
use chatgpt_cli::transcript::{Role, Transcript};

fn obj(entries: Vec<(&str, JsonValue)>) -> JsonValue {
    JsonValue::Object(entries.into_iter().map(|(k, v)| (k.to_string(), v)).collect())
}

fn response(content: &str, total_tokens: u64) -> JsonValue {
    obj(vec![
        (
            "choices",
            JsonValue::Array(vec![obj(vec![(
                "message",
                obj(vec![
                    ("role", JsonValue::Str("assistant".to_string())),
                    ("content", JsonValue::Str(content.to_string())),
                ]),
            )])]),
        ),
        ("usage", obj(vec![("total_tokens", JsonValue::UInt(total_tokens))])),
    ])
}

#[test]
fn extraction_trims_and_reads_usage() {
    let r = response("  ls -la  ", 12);
    assert_eq!(get_response_text(&r), Some("ls -la".to_string()));
    assert_eq!(get_usage(&r), Some(12));
}

#[test]
fn extraction_is_repeatable() {
    let r = response("\n hello there \t", 7);
    let first = get_response_text(&r);
    let second = get_response_text(&r);
    assert_eq!(first, second);
    assert_eq!(first, Some("hello there".to_string()));
}

#[test]
fn missing_choices_keeps_raw_response() {
    let r = obj(vec![("usage", obj(vec![("total_tokens", JsonValue::UInt(3))]))]);
    match extract_reply(r) {
        Err(ExtractionError::MissingReply(raw)) => {
            assert!(matches!(raw, JsonValue::Object(ref e) if e.len() == 1 && e[0].0 == "usage"));
        }
        other => panic!("unexpected {:?}", other),
    }
}

#[test]
fn empty_choices_is_an_error() {
    let r = obj(vec![("choices", JsonValue::Array(vec![]))]);
    assert_eq!(get_response_text(&r), None);
}

#[test]
fn non_text_content_is_an_error() {
    let r = obj(vec![(
        "choices",
        JsonValue::Array(vec![obj(vec![("message", obj(vec![("content", JsonValue::UInt(1))]))])]),
    )]);
    assert_eq!(get_response_text(&r), None);
    assert!(matches!(extract_reply(r), Err(ExtractionError::MissingReply(_))));
}

#[test]
fn first_member_of_a_name_wins() {
    let r = obj(vec![(
        "usage",
        obj(vec![("total_tokens", JsonValue::UInt(5)), ("total_tokens", JsonValue::UInt(9))]),
    )]);
    assert_eq!(get_usage(&r), Some(5));
}

#[test]
fn non_integer_usage_is_missing() {
    let r = obj(vec![("usage", obj(vec![("total_tokens", JsonValue::OtherNumber)]))]);
    assert_eq!(get_usage(&r), None);
}

#[test]
fn turns_alternate_user_and_assistant() {
    let mut s = ChatSession::new();
    let inputs = ["one", "two", "three"];
    for (n, line) in inputs.iter().enumerate() {
        assert_eq!(s.input(line), ChatStep::Send);
        let text = s.reply(response(&format!(" reply {} ", n), 1)).unwrap();
        assert_eq!(text, format!("reply {}", n));
    }
    let t = s.transcript();
    assert_eq!(t.len(), 6);
    for i in 0..6 {
        let m = t.message(i);
        if i % 2 == 0 {
            assert_eq!(m.role, Role::User);
            assert_eq!(m.content, inputs[i / 2]);
        } else {
            assert_eq!(m.role, Role::Assistant);
            assert_eq!(m.content, format!("reply {}", i / 2));
        }
    }
}

#[test]
fn token_count_is_the_sum_of_usages() {
    let mut s = ChatSession::new();
    let usages = [12u64, 30, 0, 7];
    for u in usages {
        assert_eq!(s.input("q"), ChatStep::Send);
        s.reply(response("a", u)).unwrap();
    }
    assert_eq!(s.used_tokens(), 49);
    assert_eq!(s.input(""), ChatStep::Finish(49));
    assert_eq!(s.phase(), Phase::Terminated);
}

#[test]
fn hello_then_empty_makes_one_call() {
    let mut s = ChatSession::new();
    let mut sent: Vec<Vec<(Role, String)>> = Vec::new();
    let mut finished = None;
    for line in ["hello", ""] {
        match s.input(line) {
            ChatStep::Send => {
                let t = s.transcript();
                sent.push((0..t.len()).map(|i| (t.message(i).role, t.message(i).content.clone())).collect());
                s.reply(response("Hi!", 12)).unwrap();
            }
            ChatStep::Finish(n) => {
                finished = Some(n);
                break;
            }
        }
    }
    assert_eq!(sent, vec![vec![(Role::User, "hello".to_string())]]);
    assert_eq!(finished, Some(12));
    assert_eq!(s.phase(), Phase::Terminated);
    assert_eq!(s.transcript().len(), 2);
}

#[test]
fn empty_first_line_finishes_with_zero() {
    let mut s = ChatSession::new();
    assert_eq!(s.input(""), ChatStep::Finish(0));
    assert_eq!(s.transcript().len(), 0);
}

#[test]
fn end_of_input_terminates_silently() {
    let mut s = ChatSession::new();
    s.input("x");
    s.reply(response("y", 2)).unwrap();
    s.end_of_input();
    assert_eq!(s.phase(), Phase::Terminated);
    assert_eq!(s.used_tokens(), 2);
    assert_eq!(s.transcript().len(), 2);
}

#[test]
fn missing_usage_ends_the_session() {
    let mut s = ChatSession::new();
    s.input("x");
    let r = obj(vec![("choices", JsonValue::Array(vec![]))]);
    assert!(matches!(s.reply(r), Err(ExtractionError::MissingUsage(_))));
    assert_eq!(s.phase(), Phase::Terminated);
    assert_eq!(s.used_tokens(), 0);
    assert_eq!(s.transcript().len(), 1);
}

#[test]
fn missing_reply_ends_the_session() {
    let mut s = ChatSession::new();
    s.input("x");
    let r = obj(vec![("usage", obj(vec![("total_tokens", JsonValue::UInt(4))]))]);
    assert!(matches!(s.reply(r), Err(ExtractionError::MissingReply(_))));
    assert_eq!(s.phase(), Phase::Terminated);
    assert_eq!(s.used_tokens(), 0);
}

#[test]
fn usage_past_the_largest_count_is_refused() {
    let mut s = ChatSession::new();
    s.input("x");
    s.reply(response("a", u64::MAX)).unwrap();
    s.input("y");
    assert!(matches!(s.reply(response("b", 1)), Err(ExtractionError::UsageOverflow(_))));
    assert_eq!(s.used_tokens(), u64::MAX);
}

#[test]
fn command_request_has_instruction_and_task() {
    let t: Transcript = command_request("Ubuntu 22.04 (jammy) [64-bit]", "list files");
    assert_eq!(t.len(), 2);
    assert_eq!(t.message(0).role, Role::System);
    assert_eq!(t.message(0).content, SYSTEM_INSTRUCTION);
    assert_eq!(t.message(1).role, Role::User);
    assert_eq!(
        t.message(1).content,
        "My OS is Ubuntu 22.04 (jammy) [64-bit]. Write a command to list files."
    );
}

#[test]
fn empty_confirmation_runs_candidate() {
    let c = candidate_command(response("rm -rf /tmp/x", 9)).unwrap();
    match confirm(c, "") {
        Confirmation::Run(cmd) => assert_eq!(cmd, "rm -rf /tmp/x"),
        Confirmation::Cancel => panic!("cancelled"),
    }
}

#[test]
fn non_empty_confirmation_cancels() {
    assert!(matches!(confirm("rm -rf /tmp/x".to_string(), "n"), Confirmation::Cancel));
    assert!(matches!(confirm("rm -rf /tmp/x".to_string(), " "), Confirmation::Cancel));
}

#[test]
fn candidate_missing_is_an_error() {
    assert!(matches!(candidate_command(JsonValue::Null), Err(ExtractionError::MissingReply(JsonValue::Null))));
}

#[test]
fn authorization_header_trims_token() {
    assert_eq!(authorization_header("  sk-abc\n"), "Bearer sk-abc");
}

#[test]
fn role_names() {
    assert_eq!(Role::System.name(), "system");
    assert_eq!(Role::User.name(), "user");
    assert_eq!(Role::Assistant.name(), "assistant");
}
