use rustagent::api::{
    backoff_delay, build_chat_history, classify_error, classify_lowercased, history_turns,
    is_transient, ApiErrorCategory, Message, Role, MAX_HISTORY_MESSAGES,
};

#[test]
fn classifies_auth() {
    assert_eq!(
        classify_error("401 Unauthorized: invalid api key"),
        ApiErrorCategory::Authentication
    );
}

#[test]
fn classifies_rate_limit() {
    assert_eq!(
        classify_error("429 Too Many Requests"),
        ApiErrorCategory::RateLimit
    );
}

#[test]
fn classifies_network() {
    assert_eq!(
        classify_error("connection refused"),
        ApiErrorCategory::Network
    );
}

#[test]
fn classifies_timeout() {
    assert_eq!(
        classify_error("request timed out"),
        ApiErrorCategory::Timeout
    );
}

#[test]
fn classifies_unknown_as_other() {
    assert_eq!(classify_error("some weird error"), ApiErrorCategory::Other);
}

#[test]
fn classification_lowercases_first() {
    // Only the lowercased text matches "forbidden".
    assert_eq!(classify_error("FORBIDDEN"), ApiErrorCategory::Authentication);
    assert_eq!(classify_lowercased("FORBIDDEN"), ApiErrorCategory::Other);
    assert_eq!(classify_error("DNS LOOKUP"), ApiErrorCategory::Network);
}

#[test]
fn classification_precedence() {
    // Authentication wins over rate limiting, which wins over network problems.
    assert_eq!(classify_error("429 api key"), ApiErrorCategory::Authentication);
    assert_eq!(classify_error("quota on connection"), ApiErrorCategory::RateLimit);
    assert_eq!(classify_error("http timeout"), ApiErrorCategory::Network);
    assert_eq!(classify_error("deadline for model"), ApiErrorCategory::Timeout);
    assert_eq!(classify_error("502 Bad Gateway"), ApiErrorCategory::Model);
    assert_eq!(classify_error("ResponseError"), ApiErrorCategory::Model);
    assert_eq!(classify_error(""), ApiErrorCategory::Other);
}

#[test]
fn user_messages_per_category() {
    assert_eq!(
        ApiErrorCategory::Timeout.user_message(),
        "The request to the Albert API timed out. Please try again."
    );
    assert!(ApiErrorCategory::Network.user_message().contains("network error"));
    assert!(ApiErrorCategory::Authentication
        .user_message()
        .contains("ALBERT_API_KEY"));
    assert!(ApiErrorCategory::RateLimit.user_message().contains("rate-limiting"));
    assert!(ApiErrorCategory::Model.user_message().contains("rephrasing"));
    assert!(ApiErrorCategory::Other.user_message().contains("unexpected"));
}

#[test]
fn transient_categories() {
    assert!(is_transient(ApiErrorCategory::Network));
    assert!(is_transient(ApiErrorCategory::Timeout));
    assert!(is_transient(ApiErrorCategory::RateLimit));
    assert!(!is_transient(ApiErrorCategory::Authentication));
    assert!(!is_transient(ApiErrorCategory::Model));
    assert!(!is_transient(ApiErrorCategory::Other));
}

#[test]
fn backoff_doubles_then_caps() {
    assert_eq!(backoff_delay(0), 500);
    assert_eq!(backoff_delay(1), 1000);
    assert_eq!(backoff_delay(2), 2000);
    assert_eq!(backoff_delay(3), 4000);
    assert_eq!(backoff_delay(4), 4000);
    assert_eq!(backoff_delay(u32::MAX), 4000);
}

fn msg(role: Role, content: &str) -> Message {
    Message {
        role,
        content: content.to_string(),
    }
}

#[test]
fn build_chat_history_filters_system_welcome_and_orders_messages() {
    let msgs = vec![
        Message {
            role: Role::AI,
            content: "Hello! I'm your coding assistant...".to_string(),
        },
        Message {
            role: Role::User,
            content: "write python code".to_string(),
        },
        Message {
            role: Role::AI,
            content: "def foo(): pass".to_string(),
        },
    ];

    let history = build_chat_history(&msgs, 20);
    assert_eq!(history.len(), 2);
}

#[test]
fn build_chat_history_caps_length_to_max() {
    let mut msgs = Vec::new();
    for i in 0..30 {
        msgs.push(Message {
            role: if i % 2 == 0 { Role::User } else { Role::AI },
            content: format!("Message {}", i),
        });
    }

    let history = build_chat_history(&msgs, 10);
    assert_eq!(history.len(), 10);
}

#[test]
fn history_entries_are_rig_messages_in_order() {
    let msgs = vec![
        msg(Role::User, "first"),
        msg(Role::AI, "second"),
        msg(Role::User, "third"),
    ];
    let history = build_chat_history(&msgs, 2);
    assert_eq!(
        history,
        vec![
            rig::completion::Message::assistant("second"),
            rig::completion::Message::user("third"),
        ]
    );
}

#[test]
fn history_skips_notices_and_blank_messages() {
    let msgs = vec![
        msg(Role::AI, "Chat cleared."),
        msg(Role::AI, "⚠️ No API key"),
        msg(Role::User, "   \n\t "),
        msg(Role::User, "Chat cleared is what I typed"),
        msg(Role::AI, ""),
        msg(Role::AI, "\u{3000}"),
        msg(Role::AI, " Hello! I'm your coding assistant"),
    ];
    let turns = history_turns(&msgs, MAX_HISTORY_MESSAGES);
    assert_eq!(
        turns,
        vec![
            msg(Role::User, "Chat cleared is what I typed"),
            msg(Role::AI, " Hello! I'm your coding assistant"),
        ]
    );
}

#[test]
fn history_with_zero_cap_is_empty() {
    let msgs = vec![msg(Role::User, "hi")];
    assert!(build_chat_history(&msgs, 0).is_empty());
    assert!(history_turns(&[], 5).is_empty());
}

#[test]
fn history_keeps_the_last_turns_in_order() {
    let msgs: Vec<Message> = (0..7)
        .map(|i| msg(if i % 2 == 0 { Role::User } else { Role::AI }, &format!("m{}", i)))
        .collect();
    let turns = history_turns(&msgs, 3);
    assert_eq!(turns, msgs[4..].to_vec());
    assert_eq!(build_chat_history(&msgs, 100).len(), 7);
}

#[test]
fn joined_inputs_give_joined_histories() {
    let a = vec![msg(Role::User, "a1"), msg(Role::AI, "Chat cleared"), msg(Role::AI, "a2")];
    let b = vec![msg(Role::User, " "), msg(Role::User, "b1")];
    let joined: Vec<Message> = a.iter().chain(b.iter()).cloned().collect();
    let mut expected = build_chat_history(&a, usize::MAX);
    expected.extend(build_chat_history(&b, usize::MAX));
    assert_eq!(build_chat_history(&joined, usize::MAX), expected);
    let all = build_chat_history(&joined, usize::MAX);
    assert_eq!(build_chat_history(&joined, 2), all[all.len() - 2..].to_vec());
}

#[test]
fn added_text_never_moves_to_a_later_category() {
    assert_eq!(classify_lowercased("connection reset"), ApiErrorCategory::Network);
    assert_eq!(
        classify_lowercased("connection reset: 401"),
        ApiErrorCategory::Authentication
    );
    assert_eq!(classify_lowercased("quota; connection reset"), ApiErrorCategory::RateLimit);
}
