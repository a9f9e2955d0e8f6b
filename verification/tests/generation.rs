use ollama_chat::commands::{abort_generation, generate_chat, load_chat_history, set_current_session};
use ollama_chat::db::{
    fetch_chat_history, fetch_chat_sessions, get_or_create_session, init_db, ChatMessage,
    ChatSession,
};
use ollama_chat::generation::{
    process_chat_generation, Action, Event, Failure, Generation, GenerationError, Phase, Role,
    Stage,
};
use ollama_chat::ollama_api::{title_prompt, TitleExchange};
use ollama_chat::session::GenerationState;
use rusqlite::Connection;

fn store() -> Connection {
    let conn = Connection::open_in_memory().unwrap();
    init_db(&conn).unwrap();
    conn
}

fn chunk(content: &str, done: bool) -> Event {
    Event::Chunk(
        format!("{{\"message\":{{\"role\":\"assistant\",\"content\":\"{}\"}},\"done\":{}}}\n", content, done)
            .into_bytes(),
    )
}

fn opened() -> Event {
    Event::Responded { code: 200, status: "200 OK".to_string() }
}

fn stored(conn: &Connection, session_id: i64) -> Vec<(String, String)> {
    fetch_chat_history(session_id, conn)
        .unwrap()
        .into_iter()
        .map(|m| (m.role, m.message))
        .collect()
}

fn pair(role: &str, message: &str) -> (String, String) {
    (role.to_string(), message.to_string())
}

fn idle(state: &GenerationState) -> bool {
    !state.is_running && state.cancellation_token.is_none()
}

fn failure(failure: Failure, detail: &str) -> Action {
    Action::Finish(Err(GenerationError { failure, detail: detail.to_string() }))
}

/// A generation in a session that exists, taken to the point where the reply is read.
fn streaming(conn: &Connection, state: &mut GenerationState) -> (Generation, i64) {
    let id = get_or_create_session(conn, "Existing").unwrap();
    set_current_session(id, state).unwrap();
    let (mut generation, action) =
        process_chat_generation("Hello".to_string(), "llama3".to_string(), state, conn);
    assert!(matches!(action, Action::OpenChat { .. }));
    assert_eq!(generation.advance(state, conn, opened()), Action::ReadChunk);
    assert_eq!(generation.stage(), Stage::Streaming);
    (generation, id)
}

#[test]
fn new_conversation_end_to_end() {
    let conn = store();
    let mut state = GenerationState::default();
    let (mut generation, action) = generate_chat(
        "Explain recursion".to_string(),
        "llama3".to_string(),
        &mut state,
        &conn,
    );
    assert_eq!(
        action,
        Action::RequestTitle {
            model: "llama3".to_string(),
            prompt: title_prompt("Explain recursion"),
        }
    );
    assert!(state.is_running);
    assert!(state.cancellation_token.is_some());
    assert_eq!(generation.stage(), Stage::AwaitingTitle);

    let action = generation.advance(
        &mut state,
        &conn,
        Event::Title(TitleExchange::Completed("Recursion Basics".to_string())),
    );
    let sessions = fetch_chat_sessions(&conn).unwrap();
    assert_eq!(sessions, vec![ChatSession { id: 1, title: "llama3: Recursion Basics".to_string() }]);
    assert_eq!(state.current_session_id, Some(1));
    assert_eq!(generation.session_id(), 1);
    match action {
        Action::OpenChat { model, messages } => {
            assert_eq!(model, "llama3");
            assert_eq!(messages.len(), 1);
            assert_eq!(messages[0].session_id, 1);
            assert_eq!(messages[0].role, "user");
            assert_eq!(messages[0].message, "Explain recursion");
        }
        other => panic!("unexpected action {:?}", other),
    }
    assert_eq!(stored(&conn, 1), vec![pair("user", "Explain recursion")]);

    assert_eq!(generation.advance(&mut state, &conn, opened()), Action::ReadChunk);
    assert_eq!(generation.advance(&mut state, &conn, chunk("Recursion ", false)), Action::ReadChunk);
    assert_eq!(generation.response(), "Recursion ");
    assert_eq!(generation.advance(&mut state, &conn, chunk("is...", false)), Action::ReadChunk);
    assert!(state.is_running);
    let action = generation.advance(&mut state, &conn, chunk("", true));
    assert_eq!(action, Action::Finish(Ok("Recursion is...".to_string())));
    assert_eq!(
        stored(&conn, 1),
        vec![pair("user", "Explain recursion"), pair("assistant", "Recursion is...")]
    );
    assert!(idle(&state));
    assert_eq!(state.current_session_id, Some(1));
    assert_eq!(generation.stage(), Stage::Done);
    assert_eq!(load_chat_history(&state, &conn).unwrap().len(), 2);
}

#[test]
fn abort_before_any_fragment_stores_the_marker_alone() {
    let conn = store();
    let mut state = GenerationState::default();
    let (mut generation, id) = streaming(&conn, &mut state);
    let watch = generation.cancellation_token().clone();
    assert!(!watch.is_cancelled());
    assert_eq!(abort_generation(&mut state), Ok(()));
    assert!(watch.is_cancelled());
    let action = generation.advance(&mut state, &conn, Event::Cancelled);
    assert_eq!(action, Action::Finish(Ok("\n\nCancelled\n".to_string())));
    assert_eq!(stored(&conn, id), vec![pair("user", "Hello"), pair("assistant", "\n\nCancelled\n")]);
    assert!(idle(&state));
}

#[test]
fn abort_mid_stream_marks_the_partial_reply() {
    let conn = store();
    let mut state = GenerationState::default();
    let (mut generation, id) = streaming(&conn, &mut state);
    assert_eq!(generation.advance(&mut state, &conn, chunk("Partial", false)), Action::ReadChunk);
    abort_generation(&mut state).unwrap();
    assert!(idle(&state));
    let action = generation.advance(&mut state, &conn, Event::Cancelled);
    match &action {
        Action::Finish(Ok(text)) => {
            assert!(text.ends_with("\n\nCancelled\n"));
            assert_eq!(text, "Partial\n\nCancelled\n");
        }
        other => panic!("unexpected action {:?}", other),
    }
    assert_eq!(
        stored(&conn, id),
        vec![pair("user", "Hello"), pair("assistant", "Partial\n\nCancelled\n")]
    );
    assert!(idle(&state));
}

#[test]
fn cancellation_while_dispatching_marks_an_empty_reply() {
    let conn = store();
    let mut state = GenerationState::default();
    let id = get_or_create_session(&conn, "Existing").unwrap();
    set_current_session(id, &mut state).unwrap();
    let (mut generation, _) =
        process_chat_generation("Hello".to_string(), "llama3".to_string(), &mut state, &conn);
    assert_eq!(generation.stage(), Stage::Dispatching);
    let action = generation.advance(&mut state, &conn, Event::Cancelled);
    assert_eq!(action, Action::Finish(Ok("\n\nCancelled\n".to_string())));
    assert_eq!(stored(&conn, id)[1], pair("assistant", "\n\nCancelled\n"));
    assert!(idle(&state));
}

#[test]
fn existing_session_skips_the_title() {
    let conn = store();
    let mut state = GenerationState::default();
    let id = get_or_create_session(&conn, "Existing").unwrap();
    set_current_session(id, &mut state).unwrap();
    ollama_chat::db::save_chat_message(id, "user", "earlier", &conn).unwrap();
    ollama_chat::db::save_chat_message(id, "assistant", "answer", &conn).unwrap();
    let (generation, action) =
        process_chat_generation("Hello".to_string(), "llama3".to_string(), &mut state, &conn);
    match action {
        Action::OpenChat { model, messages } => {
            assert_eq!(model, "llama3");
            let turns: Vec<(&str, &str)> =
                messages.iter().map(|m| (m.role.as_str(), m.message.as_str())).collect();
            assert_eq!(turns, vec![("user", "earlier"), ("assistant", "answer"), ("user", "Hello")]);
        }
        other => panic!("unexpected action {:?}", other),
    }
    assert_eq!(generation.stage(), Stage::Dispatching);
    assert_eq!(generation.session_id(), id);
    assert!(state.is_running);
    assert_eq!(fetch_chat_sessions(&conn).unwrap().len(), 1);
}

#[test]
fn title_failure_ends_the_generation_idle() {
    let conn = store();
    let mut state = GenerationState::default();
    let (mut generation, _) =
        process_chat_generation("Hi".to_string(), "llama3".to_string(), &mut state, &conn);
    let action = generation.advance(
        &mut state,
        &conn,
        Event::Title(TitleExchange::SendFailed("connection refused".to_string())),
    );
    assert_eq!(
        action,
        failure(Failure::TitleGeneration, "Failed to send request: connection refused")
    );
    match action {
        Action::Finish(Err(error)) => assert_eq!(
            error.message(),
            "Failed to generate session title: Failed to send request: connection refused"
        ),
        _ => unreachable!(),
    }
    assert!(idle(&state));
    assert_eq!(state.current_session_id, Some(-1));
    assert!(fetch_chat_sessions(&conn).unwrap().is_empty());
    assert_eq!(generation.advance(&mut state, &conn, opened()), Action::Ended);
}

#[test]
fn title_read_failure_is_reported() {
    let conn = store();
    let mut state = GenerationState::default();
    let (mut generation, _) =
        process_chat_generation("Hi".to_string(), "llama3".to_string(), &mut state, &conn);
    let action = generation.advance(
        &mut state,
        &conn,
        Event::Title(TitleExchange::ReadFailed("reset".to_string())),
    );
    assert_eq!(action, failure(Failure::TitleGeneration, "Error reading stream: reset"));
    assert!(idle(&state));
}

#[test]
fn refused_title_request_is_an_error() {
    let conn = store();
    let mut state = GenerationState::default();
    let (mut generation, _) =
        process_chat_generation("Hi".to_string(), "llama3".to_string(), &mut state, &conn);
    let action = generation.advance(
        &mut state,
        &conn,
        Event::Title(TitleExchange::Refused {
            code: 500,
            status: "500 Internal Server Error".to_string(),
        }),
    );
    assert_eq!(
        action,
        failure(
            Failure::TitleGeneration,
            "API call failed with status: 500 Internal Server Error"
        )
    );
    assert!(idle(&state));
    assert_eq!(state.current_session_id, Some(-1));
    assert!(fetch_chat_sessions(&conn).unwrap().is_empty());
}

#[test]
fn selection_that_names_no_session_sends_nothing() {
    let conn = store();
    for id in [0, -2, -5, i64::MIN] {
        let mut state = GenerationState::default();
        set_current_session(id, &mut state).unwrap();
        let (generation, action) =
            process_chat_generation("hi".to_string(), "m".to_string(), &mut state, &conn);
        assert_eq!(action, failure(Failure::SaveUserMessage, "No active chat session found."));
        assert_eq!(generation.stage(), Stage::Done);
        assert!(idle(&state));
        assert_eq!(state.current_session_id, Some(id));
    }
    assert!(fetch_chat_sessions(&conn).unwrap().is_empty());
    assert!(fetch_chat_history(0, &conn).unwrap().is_empty());
}

#[test]
fn dispatch_happens_under_a_valid_selection() {
    let conn = store();
    let mut state = GenerationState::default();
    let (mut generation, _) =
        process_chat_generation("Hi".to_string(), "llama3".to_string(), &mut state, &conn);
    let action = generation.advance(
        &mut state,
        &conn,
        Event::Title(TitleExchange::Completed("T".to_string())),
    );
    assert!(matches!(action, Action::OpenChat { .. }));
    assert!(generation.session_id() > 0);
    assert!(state.is_running);
    assert!(state.cancellation_token.as_ref() == Some(generation.cancellation_token()));
    assert_eq!(state.current_session_id, Some(generation.session_id()));
    generation.advance(&mut state, &conn, opened());
    assert!(state.is_running);
    assert_eq!(state.current_session_id, Some(generation.session_id()));
}

#[test]
fn session_found_is_used_and_none_is_created() {
    let mut state = GenerationState::default();
    let (mut generation, _) =
        Generation::begin("Hello".to_string(), "llama3".to_string(), &mut state);
    generation.step(&mut state, Event::Title(TitleExchange::Completed("T".to_string())));
    assert_eq!(
        generation.step(&mut state, Event::Found(Ok(Some(9)))),
        Action::Save { session_id: 9, role: Role::User, content: "Hello".to_string() }
    );
    assert_eq!(generation.stage(), Stage::SavingPrompt);
    assert_eq!(generation.session_id(), 9);
    assert_eq!(state.current_session_id, Some(9));
}

#[test]
fn lookup_and_creation_failures_end_the_generation() {
    for creating in [false, true] {
        let mut state = GenerationState::default();
        let (mut generation, _) =
            Generation::begin("Hello".to_string(), "llama3".to_string(), &mut state);
        generation.step(&mut state, Event::Title(TitleExchange::Completed("T".to_string())));
        let action = if creating {
            generation.step(&mut state, Event::Found(Ok(None)));
            generation.step(&mut state, Event::Created(Err("disk full".to_string())))
        } else {
            generation.step(&mut state, Event::Found(Err("locked".to_string())))
        };
        let detail = if creating { "disk full" } else { "locked" };
        assert_eq!(action, failure(Failure::SessionResolution, detail));
        assert!(idle(&state));
        assert_eq!(state.current_session_id, Some(-1));
    }
    let mut state = GenerationState::default();
    let (mut generation, _) =
        Generation::begin("Hello".to_string(), "llama3".to_string(), &mut state);
    generation.step(&mut state, Event::Title(TitleExchange::Completed("T".to_string())));
    assert_eq!(
        generation.step(&mut state, Event::Created(Ok(3))),
        failure(Failure::OutOfTurn, "")
    );
}

#[test]
fn a_second_conversation_with_the_same_title_reuses_the_session() {
    let conn = store();
    for round in 1..=2 {
        let mut state = GenerationState::default();
        let (mut generation, _) =
            process_chat_generation("Hi".to_string(), "llama3".to_string(), &mut state, &conn);
        let action = generation.advance(
            &mut state,
            &conn,
            Event::Title(TitleExchange::Completed("Same".to_string())),
        );
        assert!(matches!(action, Action::OpenChat { .. }));
        assert_eq!(generation.session_id(), 1);
        assert_eq!(fetch_chat_sessions(&conn).unwrap().len(), 1);
        assert_eq!(stored(&conn, 1).len(), 2 * round - 1);
        generation.advance(&mut state, &conn, opened());
        generation.advance(&mut state, &conn, Event::EndOfStream);
    }
}

#[test]
fn session_failure_ends_the_generation_idle() {
    let conn = Connection::open_in_memory().unwrap();
    let mut state = GenerationState::default();
    let (mut generation, _) =
        process_chat_generation("Hi".to_string(), "llama3".to_string(), &mut state, &conn);
    let action = generation.advance(
        &mut state,
        &conn,
        Event::Title(TitleExchange::Completed("T".to_string())),
    );
    match action {
        Action::Finish(Err(error)) => {
            assert_eq!(error.failure, Failure::SessionResolution);
            assert!(error.detail.contains("chat_sessions"));
            assert!(error.message().starts_with("Failed to create or retrieve session: "));
        }
        other => panic!("unexpected action {:?}", other),
    }
    assert!(idle(&state));
    assert_eq!(state.current_session_id, Some(-1));
}

#[test]
fn prompt_that_cannot_be_stored_ends_the_generation_idle() {
    let conn = store();
    let mut state = GenerationState::default();
    set_current_session(0, &mut state).unwrap();
    let (generation, action) =
        process_chat_generation("Hi".to_string(), "llama3".to_string(), &mut state, &conn);
    assert_eq!(action, failure(Failure::SaveUserMessage, "No active chat session found."));
    match action {
        Action::Finish(Err(error)) => assert_eq!(
            error.message(),
            "Failed to save user message: No active chat session found."
        ),
        _ => unreachable!(),
    }
    assert!(idle(&state));
    assert_eq!(generation.stage(), Stage::Done);
    assert_eq!(state.current_session_id, Some(0));
}

#[test]
fn send_failure_stores_an_empty_reply_and_reports() {
    let conn = store();
    let mut state = GenerationState::default();
    let id = get_or_create_session(&conn, "Existing").unwrap();
    set_current_session(id, &mut state).unwrap();
    let (mut generation, _) =
        process_chat_generation("Hello".to_string(), "llama3".to_string(), &mut state, &conn);
    let action = generation.advance(&mut state, &conn, Event::SendFailed("refused".to_string()));
    assert_eq!(action, failure(Failure::Dispatch, "refused"));
    match action {
        Action::Finish(Err(error)) => {
            assert_eq!(error.message(), "Failed to make API call: refused")
        }
        _ => unreachable!(),
    }
    assert_eq!(stored(&conn, id), vec![pair("user", "Hello"), pair("assistant", "")]);
    assert!(idle(&state));
}

#[test]
fn refused_status_stores_an_empty_reply_and_reports() {
    let conn = store();
    let mut state = GenerationState::default();
    let id = get_or_create_session(&conn, "Existing").unwrap();
    set_current_session(id, &mut state).unwrap();
    let (mut generation, _) =
        process_chat_generation("Hello".to_string(), "llama3".to_string(), &mut state, &conn);
    let action =
        generation.advance(&mut state, &conn, Event::Responded { code: 404, status: "404 Not Found".to_string() });
    match action {
        Action::Finish(Err(error)) => {
            assert_eq!(error.failure, Failure::Status);
            assert_eq!(error.message(), "API call failed with status: 404 Not Found");
        }
        other => panic!("unexpected action {:?}", other),
    }
    assert_eq!(stored(&conn, id), vec![pair("user", "Hello"), pair("assistant", "")]);
    assert!(idle(&state));
}

#[test]
fn read_failure_stores_the_partial_reply_and_reports() {
    let conn = store();
    let mut state = GenerationState::default();
    let (mut generation, id) = streaming(&conn, &mut state);
    generation.advance(&mut state, &conn, chunk("Half", false));
    let action = generation.advance(&mut state, &conn, Event::ReadFailed("reset by peer".to_string()));
    assert_eq!(action, failure(Failure::Stream, "reset by peer"));
    match action {
        Action::Finish(Err(error)) => assert_eq!(error.message(), "reset by peer"),
        _ => unreachable!(),
    }
    assert_eq!(stored(&conn, id), vec![pair("user", "Hello"), pair("assistant", "Half")]);
    assert!(idle(&state));
}

#[test]
fn end_of_stream_without_done_finishes() {
    let conn = store();
    let mut state = GenerationState::default();
    let (mut generation, id) = streaming(&conn, &mut state);
    generation.advance(&mut state, &conn, chunk("All", false));
    let action = generation.advance(&mut state, &conn, Event::EndOfStream);
    assert_eq!(action, Action::Finish(Ok("All".to_string())));
    assert_eq!(stored(&conn, id), vec![pair("user", "Hello"), pair("assistant", "All")]);
    assert!(idle(&state));
}

#[test]
fn empty_reply_is_stored() {
    let conn = store();
    let mut state = GenerationState::default();
    let (mut generation, id) = streaming(&conn, &mut state);
    let action = generation.advance(&mut state, &conn, Event::EndOfStream);
    assert_eq!(action, Action::Finish(Ok(String::new())));
    assert_eq!(stored(&conn, id), vec![pair("user", "Hello"), pair("assistant", "")]);
}

#[test]
fn malformed_chunks_are_skipped() {
    let conn = store();
    let mut state = GenerationState::default();
    let (mut generation, _) = streaming(&conn, &mut state);
    assert_eq!(
        generation.advance(&mut state, &conn, Event::Chunk(b"garbage\n".to_vec())),
        Action::ReadChunk
    );
    assert_eq!(generation.advance(&mut state, &conn, chunk("ok", false)), Action::ReadChunk);
    assert_eq!(generation.response(), "ok");
    assert!(state.is_running);
}

#[test]
fn reply_that_cannot_be_stored_is_reported() {
    let conn = store();
    let mut state = GenerationState::default();
    let (mut generation, _) = streaming(&conn, &mut state);
    generation.advance(&mut state, &conn, chunk("text", false));
    conn.execute_batch("DROP TABLE chat_history").unwrap();
    let action = generation.advance(&mut state, &conn, Event::EndOfStream);
    match action {
        Action::Finish(Err(error)) => {
            assert_eq!(error.failure, Failure::SaveAssistantMessage);
            assert!(error
                .message()
                .starts_with("Failed to save assistant message: Failed to save chat history: "));
        }
        other => panic!("unexpected action {:?}", other),
    }
    assert!(idle(&state));
}

#[test]
fn history_that_cannot_be_loaded_gives_no_context() {
    let mut state = GenerationState::default();
    let (mut generation, first) =
        Generation::begin("Hello".to_string(), "llama3".to_string(), &mut state);
    assert!(matches!(first, Action::RequestTitle { .. }));
    generation.step(&mut state, Event::Title(TitleExchange::Completed("T".to_string())));
    generation.step(&mut state, Event::Found(Ok(Some(3))));
    assert_eq!(
        generation.step(&mut state, Event::Saved(Ok(()))),
        Action::LoadHistory { session_id: 3 }
    );
    assert_eq!(
        generation.step(&mut state, Event::History(Err("locked".to_string()))),
        Action::OpenChat { model: "llama3".to_string(), messages: vec![] }
    );
}

#[test]
fn steps_follow_the_stages() {
    let mut state = GenerationState::default();
    let (mut generation, first) =
        Generation::begin("Hello".to_string(), "llama3".to_string(), &mut state);
    assert_eq!(
        first,
        Action::RequestTitle { model: "llama3".to_string(), prompt: title_prompt("Hello") }
    );
    assert_eq!(
        generation.step(&mut state, Event::Title(TitleExchange::Completed("\"T\"".to_string()))),
        Action::FindSession { title: "llama3: T".to_string() }
    );
    assert_eq!(generation.stage(), Stage::FindingSession);
    assert_eq!(
        generation.step(&mut state, Event::Found(Ok(None))),
        Action::CreateSession { title: "llama3: T".to_string() }
    );
    assert_eq!(generation.stage(), Stage::CreatingSession);
    assert_eq!(state.current_session_id, Some(-1));
    assert_eq!(
        generation.step(&mut state, Event::Created(Ok(12))),
        Action::Save { session_id: 12, role: Role::User, content: "Hello".to_string() }
    );
    assert_eq!(state.current_session_id, Some(12));
    assert_eq!(generation.stage(), Stage::SavingPrompt);
    assert_eq!(
        generation.step(&mut state, Event::Saved(Ok(()))),
        Action::LoadHistory { session_id: 12 }
    );
    let message = ChatMessage {
        id: 1,
        session_id: 12,
        role: "user".to_string(),
        message: "Hello".to_string(),
        timestamp: "2024-01-01 00:00:00".to_string(),
    };
    assert_eq!(
        generation.step(&mut state, Event::History(Ok(vec![message.clone()]))),
        Action::OpenChat { model: "llama3".to_string(), messages: vec![message] }
    );
    assert_eq!(generation.step(&mut state, opened()), Action::ReadChunk);
    assert_eq!(generation.step(&mut state, chunk("a", false)), Action::ReadChunk);
    assert_eq!(
        generation.step(&mut state, chunk("b", true)),
        Action::Save { session_id: 12, role: Role::Assistant, content: "ab".to_string() }
    );
    assert_eq!(generation.stage(), Stage::SavingReply);
    assert!(state.is_running);
    assert_eq!(
        generation.step(&mut state, Event::Saved(Ok(()))),
        Action::Finish(Ok("ab".to_string()))
    );
    assert!(idle(&state));
    assert_eq!(generation.step(&mut state, Event::Saved(Ok(()))), Action::Ended);
    assert_eq!(generation.step(&mut state, Event::Cancelled), Action::Ended);
}

#[test]
fn event_out_of_turn_ends_the_generation() {
    let mut state = GenerationState::default();
    let (mut generation, _) =
        Generation::begin("Hello".to_string(), "llama3".to_string(), &mut state);
    let action = generation.step(&mut state, opened());
    assert_eq!(action, failure(Failure::OutOfTurn, ""));
    match action {
        Action::Finish(Err(error)) => assert_eq!(error.message(), "Event out of turn"),
        _ => unreachable!(),
    }
    assert!(idle(&state));
    assert_eq!(generation.stage(), Stage::Done);

    let mut state = GenerationState::default();
    state.select(Some(5));
    let (mut generation, first) =
        Generation::begin("Hello".to_string(), "llama3".to_string(), &mut state);
    assert_eq!(
        first,
        Action::Save { session_id: 5, role: Role::User, content: "Hello".to_string() }
    );
    assert_eq!(generation.step(&mut state, Event::Cancelled), failure(Failure::OutOfTurn, ""));
    assert!(idle(&state));
}

#[test]
fn ended_generation_leaves_a_later_one_alone() {
    let conn = store();
    let mut state = GenerationState::default();
    let (mut first, _) = streaming(&conn, &mut state);
    assert!(matches!(
        first.advance(&mut state, &conn, Event::EndOfStream),
        Action::Finish(Ok(_))
    ));
    let (_second, _) =
        process_chat_generation("Again".to_string(), "llama3".to_string(), &mut state, &conn);
    assert!(state.is_running);
    assert_eq!(first.advance(&mut state, &conn, Event::EndOfStream), Action::Ended);
    assert!(state.is_running);
    assert!(state.cancellation_token.is_some());
}

#[test]
fn the_generation_watches_the_installed_handle() {
    let conn = store();
    let mut state = GenerationState::default();
    let (mut generation, id) = streaming(&conn, &mut state);
    assert!(state.cancellation_token.as_ref() == Some(generation.cancellation_token()));
    let before = generation.cancellation_token().clone();
    generation.advance(&mut state, &conn, chunk("a", false));
    assert!(generation.cancellation_token() == &before);
    assert!(state.cancellation_token.as_ref() == Some(generation.cancellation_token()));
    generation.advance(&mut state, &conn, Event::EndOfStream);
    assert!(generation.cancellation_token() == &before);
    assert!(state.cancellation_token.is_none());
    assert_eq!(stored(&conn, id).len(), 2);

    let mut other = GenerationState::default();
    let watch = other.start();
    assert!(other.cancellation_token.as_ref() == Some(&watch));
    assert!(generation.cancellation_token() != &watch);
}

#[test]
fn overlapping_generation_orphans_the_first_handle() {
    let conn = store();
    let mut state = GenerationState::default();
    let (first, _) = streaming(&conn, &mut state);
    let (second, _) =
        process_chat_generation("Again".to_string(), "llama3".to_string(), &mut state, &conn);
    abort_generation(&mut state).unwrap();
    assert!(!first.cancellation_token().is_cancelled());
    assert!(second.cancellation_token().is_cancelled());
}

#[test]
fn every_sequence_of_calls_ends_idle() {
    let conn = store();
    let mut state = GenerationState::default();
    let endings = vec![
        vec![opened(), chunk("x", true)],
        vec![Event::SendFailed("down".to_string())],
        vec![opened(), Event::Cancelled],
        vec![opened(), Event::ReadFailed("cut".to_string())],
        vec![Event::Responded { code: 500, status: "500 Internal Server Error".to_string() }],
        vec![opened(), Event::EndOfStream],
    ];
    for events in endings {
        let (mut generation, mut action) =
            process_chat_generation("Hi".to_string(), "llama3".to_string(), &mut state, &conn);
        if matches!(action, Action::RequestTitle { .. }) {
            action = generation.advance(
                &mut state,
                &conn,
                Event::Title(TitleExchange::Completed("T".to_string())),
            );
        }
        assert!(matches!(action, Action::OpenChat { .. }));
        for event in events {
            action = generation.advance(&mut state, &conn, event);
        }
        assert!(matches!(action, Action::Finish(_)));
        assert!(idle(&state));
    }
    let history = stored(&conn, 1);
    assert_eq!(history.len(), 12);
    for exchange in history.chunks(2) {
        assert_eq!(exchange[0], pair("user", "Hi"));
        assert_eq!(exchange[1].0, "assistant");
    }
}

#[test]
fn only_success_codes_open_the_stream() {
    for (code, streams) in [(199u16, false), (200, true), (204, true), (299, true), (300, false), (404, false), (0, false), (u16::MAX, false)] {
        let mut state = GenerationState::default();
        state.select(Some(5));
        let (mut generation, _) =
            Generation::begin("Hello".to_string(), "llama3".to_string(), &mut state);
        generation.step(&mut state, Event::Saved(Ok(())));
        generation.step(&mut state, Event::History(Ok(vec![])));
        let action =
            generation.step(&mut state, Event::Responded { code, status: "status".to_string() });
        if streams {
            assert_eq!(action, Action::ReadChunk);
            assert_eq!(generation.stage(), Stage::Streaming);
            assert_eq!(generation.stage().phase(), Phase::Streaming);
        } else {
            assert_eq!(
                action,
                Action::Save { session_id: 5, role: Role::Assistant, content: String::new() }
            );
            assert_eq!(generation.stage().phase(), Phase::Finalizing);
            assert_eq!(
                generation.step(&mut state, Event::Saved(Ok(()))),
                failure(Failure::Status, "status")
            );
            assert_eq!(generation.stage().phase(), Phase::Idle);
        }
    }
}

#[test]
fn stages_map_to_phases() {
    assert_eq!(Stage::AwaitingTitle.phase(), Phase::Starting);
    assert_eq!(Stage::FindingSession.phase(), Phase::Starting);
    assert_eq!(Stage::CreatingSession.phase(), Phase::Starting);
    assert_eq!(Stage::SavingPrompt.phase(), Phase::Starting);
    assert_eq!(Stage::LoadingHistory.phase(), Phase::Starting);
    assert_eq!(Stage::Dispatching.phase(), Phase::Starting);
    assert_eq!(Stage::Streaming.phase(), Phase::Streaming);
    assert_eq!(Stage::SavingReply.phase(), Phase::Finalizing);
    assert_eq!(Stage::Done.phase(), Phase::Idle);
}

#[test]
fn roles_and_failures_have_their_texts() {
    assert_eq!(Role::User.as_str(), "user");
    assert_eq!(Role::Assistant.as_str(), "assistant");
    assert_eq!(Failure::TitleGeneration.label(), "Failed to generate session title: ");
    assert_eq!(Failure::SessionResolution.label(), "Failed to create or retrieve session: ");
    assert_eq!(Failure::SaveUserMessage.label(), "Failed to save user message: ");
    assert_eq!(Failure::Dispatch.label(), "Failed to make API call: ");
    assert_eq!(Failure::Status.label(), "API call failed with status: ");
    assert_eq!(Failure::Stream.label(), "");
    assert_eq!(Failure::SaveAssistantMessage.label(), "Failed to save assistant message: ");
    assert_eq!(Failure::OutOfTurn.label(), "Event out of turn");
}
