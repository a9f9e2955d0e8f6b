use ollama_chat::commands::{abort_generation, clear_current_session, set_current_session};
use ollama_chat::session::{GenerationState, NO_SESSION};

#[test]
fn default_state_is_idle_with_the_sentinel() {
    let state = GenerationState::default();
    assert!(!state.is_running);
    assert_eq!(state.current_session_id, Some(-1));
    assert!(state.cancellation_token.is_none());
    assert_eq!(NO_SESSION, -1);
    assert_eq!(state.selected_session(), None);
}

#[test]
fn selection_is_read_back() {
    let mut state = GenerationState::default();
    assert_eq!(set_current_session(5, &mut state), Ok(()));
    assert_eq!(state.selected_session(), Some(5));
    assert_eq!(set_current_session(0, &mut state), Ok(()));
    assert_eq!(state.selected_session(), Some(0));
    assert_eq!(clear_current_session(&mut state), Ok(()));
    assert_eq!(state.current_session_id, Some(-1));
    assert_eq!(state.selected_session(), None);
    state.select(None);
    assert_eq!(state.selected_session(), None);
}

#[test]
fn forgetting_a_session_touches_only_its_selection() {
    let mut state = GenerationState::default();
    state.select(Some(3));
    state.forget_session(4);
    assert_eq!(state.current_session_id, Some(3));
    state.forget_session(3);
    assert_eq!(state.current_session_id, Some(-1));
    state.forget_session(-1);
    assert_eq!(state.current_session_id, Some(-1));
    state.select(None);
    state.forget_session(3);
    assert_eq!(state.current_session_id, None);
}

#[test]
fn abort_without_generation_changes_nothing() {
    let mut state = GenerationState::default();
    state.select(Some(9));
    assert_eq!(abort_generation(&mut state), Ok(()));
    assert!(!state.is_running);
    assert!(state.cancellation_token.is_none());
    assert_eq!(state.current_session_id, Some(9));
    assert_eq!(abort_generation(&mut state), Ok(()));
    assert!(!state.is_running);
    assert!(state.cancellation_token.is_none());
    assert_eq!(state.current_session_id, Some(9));
}

#[test]
fn abort_signals_the_installed_handle() {
    let mut state = GenerationState::default();
    let watch = state.start();
    assert!(state.is_running);
    assert!(state.cancellation_token.is_some());
    assert!(!watch.is_cancelled());
    assert_eq!(abort_generation(&mut state), Ok(()));
    assert!(watch.is_cancelled());
    assert!(!state.is_running);
    assert!(state.cancellation_token.is_none());
}

#[test]
fn finish_drops_the_handle_without_signalling() {
    let mut state = GenerationState::default();
    let watch = state.start();
    state.finish();
    assert!(!watch.is_cancelled());
    assert!(!state.is_running);
    assert!(state.cancellation_token.is_none());
}

#[test]
fn a_second_start_orphans_the_first_handle() {
    let mut state = GenerationState::default();
    let first = state.start();
    let second = state.start();
    state.cancel();
    assert!(!first.is_cancelled());
    assert!(second.is_cancelled());
}
