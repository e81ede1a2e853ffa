use rustagent::api::ApiErrorCategory;
use rustagent::retry::{
    prompt_retry_step, AttemptOutcome, PromptResult, RetryStep, StreamAction, StreamEvent,
    StreamRetry,
};

/// Runs the plain retry policy the way the asynchronous driver does, without waiting.
fn run_prompt<F: FnMut() -> AttemptOutcome>(mut attempt: F) -> (PromptResult, Vec<u64>) {
    let mut waits = Vec::new();
    let mut index: u32 = 0;
    loop {
        match prompt_retry_step(index, attempt()) {
            RetryStep::Finish(result) => return (result, waits),
            RetryStep::Wait(ms) => {
                waits.push(ms);
                index += 1;
            }
        }
    }
}

/// Runs the streaming retry machine the way the asynchronous driver does.
fn run_stream<F, C, K>(mut make_stream: F, mut on_chunk: C, mut is_cancelled: K) -> PromptResult
where
    F: FnMut() -> Result<Vec<Result<String, String>>, String>,
    C: FnMut(&str),
    K: FnMut() -> bool,
{
    let (mut machine, mut action) = StreamRetry::new();
    let mut stream: Option<std::vec::IntoIter<Result<String, String>>> = None;
    loop {
        let event = match action {
            StreamAction::CheckCancelled => StreamEvent::Cancelled(is_cancelled()),
            StreamAction::OpenStream => match make_stream() {
                Ok(items) => {
                    stream = Some(items.into_iter());
                    StreamEvent::Opened
                }
                Err(raw) => StreamEvent::OpenFailed(raw),
            },
            StreamAction::NextChunk => next_event(&mut stream),
            StreamAction::Deliver(text) => {
                on_chunk(&text);
                next_event(&mut stream)
            }
            StreamAction::Wait(_) => StreamEvent::Waited,
            StreamAction::Finish(result) => return result,
            StreamAction::DeliverThenFinish(text, result) => {
                on_chunk(&text);
                return result;
            }
        };
        action = machine.step(event);
    }
}

fn next_event(stream: &mut Option<std::vec::IntoIter<Result<String, String>>>) -> StreamEvent {
    match stream.as_mut().and_then(|s| s.next()) {
        Some(chunk) => StreamEvent::Chunk(chunk),
        None => StreamEvent::Ended,
    }
}

#[test]
fn retries_transient_then_succeeds() {
    let mut calls = 0;
    let (result, waits) = run_prompt(|| {
        calls += 1;
        if calls < 3 {
            AttemptOutcome::Failed("connection reset".to_string())
        } else {
            AttemptOutcome::Succeeded("success".to_string())
        }
    });
    assert_eq!(result, Ok("success".to_string()));
    assert_eq!(calls, 3);
    assert_eq!(waits, vec![500, 1000]);
}

#[test]
fn does_not_retry_non_transient() {
    let mut calls = 0;
    let (result, _) = run_prompt(|| {
        calls += 1;
        AttemptOutcome::Failed("401 Unauthorized".to_string())
    });
    assert!(result.is_err());
    assert_eq!(calls, 1);
}

#[test]
fn gives_up_after_three_attempts_with_details() {
    let mut calls = 0;
    let (result, waits) = run_prompt(|| {
        calls += 1;
        AttemptOutcome::Failed("connection reset".to_string())
    });
    assert_eq!(calls, 3);
    assert_eq!(waits, vec![500, 1000]);
    let (category, message) = result.unwrap_err();
    assert_eq!(category, ApiErrorCategory::Network);
    assert_eq!(
        message,
        format!(
            "{}\n\nDétails techniques :\n```\nconnection reset\n```",
            ApiErrorCategory::Network.user_message()
        )
    );
}

#[test]
fn timeouts_are_retried_then_reported() {
    let (result, waits) = run_prompt(|| AttemptOutcome::TimedOut);
    assert_eq!(waits.len(), 2);
    let (category, message) = result.unwrap_err();
    assert_eq!(category, ApiErrorCategory::Timeout);
    assert!(message.ends_with(
        "```\nLa requête vers Albert API a dépassé le délai imparti (timeout).\n```"
    ));
}

#[test]
fn non_transient_failure_reports_raw_error() {
    let step = prompt_retry_step(0, AttemptOutcome::Failed("model overloaded".to_string()));
    match step {
        RetryStep::Finish(Err((category, message))) => {
            assert_eq!(category, ApiErrorCategory::Model);
            assert!(message.starts_with(ApiErrorCategory::Model.user_message()));
            assert!(message.contains("model overloaded"));
        }
        _ => panic!("a model error is not retried"),
    }
}

#[test]
fn streams_multiple_chunks_successfully() {
    let mut chunks_received = Vec::new();
    let result = run_stream(
        || Ok(vec![Ok("Hello, ".to_string()), Ok("world!".to_string())]),
        |chunk| chunks_received.push(chunk.to_string()),
        || false,
    );
    assert_eq!(result, Ok("Hello, world!".to_string()));
    assert_eq!(chunks_received, vec!["Hello, ", "world!"]);
}

#[test]
fn retries_transient_failure_before_stream_starts() {
    let mut calls = 0;
    let mut chunks_received = Vec::new();
    let result = run_stream(
        || {
            calls += 1;
            if calls < 2 {
                Err("connection reset".to_string())
            } else {
                Ok(vec![Ok("Done".to_string())])
            }
        },
        |chunk| chunks_received.push(chunk.to_string()),
        || false,
    );
    assert_eq!(result, Ok("Done".to_string()));
    assert_eq!(calls, 2);
    assert_eq!(chunks_received, vec!["Done"]);
}

#[test]
fn handles_mid_stream_error_with_partial_content() {
    let mut chunks_received = Vec::new();
    let result = run_stream(
        || {
            Ok(vec![
                Ok("Part 1. ".to_string()),
                Err("connection reset".to_string()),
            ])
        },
        |chunk| chunks_received.push(chunk.to_string()),
        || false,
    );
    assert!(result.is_err());
    let (cat, accumulated) = result.unwrap_err();
    assert_eq!(cat, ApiErrorCategory::Network);
    assert!(accumulated.starts_with("Part 1. "));
    assert!(accumulated.contains("network error"));
    assert_eq!(chunks_received.len(), 2);
    assert_eq!(chunks_received[0], "Part 1. ");
    assert_eq!(format!("Part 1. {}", chunks_received[1]), accumulated);
    assert!(accumulated.ends_with("\n\nDetails: connection reset"));
}

#[test]
fn cancels_stream_early() {
    let mut chunks_received = Vec::new();
    let mut count = 0;
    let result = run_stream(
        || Ok(vec![Ok("Chunk 1".to_string()), Ok("Chunk 2".to_string())]),
        |chunk| chunks_received.push(chunk.to_string()),
        || {
            count += 1;
            count > 2
        },
    );
    assert_eq!(result, Ok("Chunk 1".to_string()));
    assert_eq!(chunks_received, vec!["Chunk 1"]);
}

#[test]
fn cancelled_before_first_attempt_returns_nothing() {
    let mut opened = 0;
    let result = run_stream(
        || {
            opened += 1;
            Ok(vec![])
        },
        |_| {},
        || true,
    );
    assert_eq!(result, Ok(String::new()));
    assert_eq!(opened, 0);
}

#[test]
fn stream_open_failure_not_transient_stops() {
    let mut calls = 0;
    let result = run_stream(
        || {
            calls += 1;
            Err("403 Forbidden".to_string())
        },
        |_| {},
        || false,
    );
    assert_eq!(calls, 1);
    assert_eq!(
        result,
        Err((
            ApiErrorCategory::Authentication,
            ApiErrorCategory::Authentication.user_message().to_string()
        ))
    );
}

#[test]
fn stream_open_failures_exhaust_attempts() {
    let mut calls = 0;
    let result = run_stream(
        || {
            calls += 1;
            Err("too many requests".to_string())
        },
        |_| {},
        || false,
    );
    assert_eq!(calls, 3);
    assert_eq!(
        result,
        Err((
            ApiErrorCategory::RateLimit,
            format!(
                "{}\n\nDetails: too many requests",
                ApiErrorCategory::RateLimit.user_message()
            )
        ))
    );
}

#[test]
fn stream_timeouts_report_the_timeout() {
    let (mut machine, _) = StreamRetry::new();
    assert!(matches!(machine.step(StreamEvent::Cancelled(false)), StreamAction::OpenStream));
    assert!(matches!(machine.step(StreamEvent::OpenTimedOut), StreamAction::Wait(500)));
    assert!(matches!(machine.step(StreamEvent::Waited), StreamAction::CheckCancelled));
    assert!(matches!(machine.step(StreamEvent::Cancelled(false)), StreamAction::OpenStream));
    assert!(matches!(machine.step(StreamEvent::OpenTimedOut), StreamAction::Wait(1000)));
    machine.step(StreamEvent::Waited);
    machine.step(StreamEvent::Cancelled(false));
    match machine.step(StreamEvent::OpenTimedOut) {
        StreamAction::Finish(Err((category, message))) => {
            assert_eq!(category, ApiErrorCategory::Timeout);
            assert!(message.ends_with("\n\nDetails: request timed out"));
        }
        _ => panic!("the third timeout ends the request"),
    }
    assert!(machine.is_finished());
}

#[test]
fn midstream_error_without_text_has_no_details() {
    let mut chunks = Vec::new();
    let result = run_stream(
        || Ok(vec![Err(String::new())]),
        |c| chunks.push(c.to_string()),
        || false,
    );
    let notice = format!("\n\n⚠️ {}", ApiErrorCategory::Other.user_message());
    assert_eq!(result, Err((ApiErrorCategory::Other, notice.clone())));
    assert_eq!(chunks, vec![notice]);
}
