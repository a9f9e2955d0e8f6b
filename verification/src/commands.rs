//! The commands offered to the user interface. Each takes the shared state
//! and the store it needs, already locked by the caller, and reports an error
//! as the text to show.

use crate::db::{
    fetch_chat_history, fetch_chat_sessions, fetch_current_session, get_config_value,
    remove_chat_session, rename_chat_session, update_config_value, ChatMessage, ChatSession,
    CurrentSession, StoreError,
};
use crate::generation::{
    opening, process_chat_generation, prompt_not_kept, prompt_refused, settled, Action,
    ActionView, Event, Generation,
};
use crate::ollama_api::title_request;
use crate::session::{selected, GenerationState, NO_SESSION};
use crate::text::joined;
use rusqlite::Connection;
use vstd::prelude::*;
use vstd::string::*;

verus! {

/// The configuration key under which the selected model is kept.
pub const SELECTED_MODEL: &'static str = "selected_model_name";

/// What an error of a deletion begins with.
pub const DELETE_FAILED: &'static str = "Failed to delete session: ";

/// The name of the selected model as the store answered for it: empty where
/// none is kept, and the error's text where the store refused.
pub open spec fn selected_model_of(found: Result<Option<String>, StoreError>) -> Result<
    Seq<char>,
    Seq<char>,
> {
    match found {
        Ok(Some(name)) => Ok(name@),
        Ok(None) => Ok(Seq::empty()),
        Err(error) => Err(error.text()),
    }
}

/// The views of a text or an error text.
pub open spec fn text_view(outcome: Result<String, String>) -> Result<Seq<char>, Seq<char>> {
    match outcome {
        Ok(text) => Ok(text@),
        Err(why) => Err(why@),
    }
}

/// The name of the selected model as the store answered for it.
pub fn selected_model_from(found: Result<Option<String>, StoreError>) -> (name: Result<
    String,
    String,
>)
    ensures
        text_view(name) == selected_model_of(found),
{
    match found {
        Ok(Some(name)) => Ok(name),
        Ok(None) => Ok(String::new()),
        Err(error) => Err(error.message()),
    }
}

/// Get selected model
pub fn get_selected_model(conn: &Connection) -> (name: Result<String, String>) {
    selected_model_from(get_config_value(conn, SELECTED_MODEL))
}

/// Save selected model
pub fn save_selected_model(conn: &Connection, model_name: &str) -> (done: Result<(), String>) {
    match update_config_value(conn, SELECTED_MODEL, model_name) {
        Ok(()) => Ok(()),
        Err(error) => Err(error.message()),
    }
}

/// Deletes session `session_id`. Once it is deleted, a selection of it falls
/// back to the sentinel and any other selection stays; where the store
/// refuses, nothing changes.
pub fn delete_chat_session(session_id: i64, conn: &Connection, state: &mut GenerationState) -> (done:
    Result<(), String>)
    ensures
        done is Ok ==> final(state)@ == old(state)@.without_session(session_id),
        done is Ok && old(state)@.current_session_id == Some(session_id)
            ==> final(state)@.current_session_id == Some(NO_SESSION),
        old(state)@.current_session_id != Some(session_id) ==> final(state)@ == old(state)@,
        done is Err ==> final(state)@ == old(state)@,
        final(state).cancellation_token == old(state).cancellation_token,
        final(state).is_running == old(state).is_running,
        done matches Err(why) ==> DELETE_FAILED@.is_prefix_of(why@),
{
    match remove_chat_session(session_id, conn, state) {
        Ok(()) => Ok(()),
        Err(error) => {
            let shown = error.message();
            Err(joined(DELETE_FAILED, shown.as_str()))
        },
    }
}

/// The selected session with its title; without a selection, the sentinel
/// with an empty title.
pub fn get_current_session(conn: &Connection, state: &GenerationState) -> (current: Result<
    CurrentSession,
    String,
>)
    ensures
        selected(state@.current_session_id) is None ==> (current matches Ok(session)
            && session@.id == NO_SESSION && session@.title.len() == 0),
        current matches Ok(session) ==> selected(state@.current_session_id) matches Some(id)
            ==> session@.id == id,
{
    match fetch_current_session(conn, state) {
        Ok(current) => Ok(current),
        Err(error) => Err(error.message()),
    }
}

/// Gives session `session_id` the title `new_name`.
pub fn update_chat_session_name(session_id: i64, new_name: &str, conn: &Connection) -> (done:
    Result<(), String>) {
    match rename_chat_session(session_id, new_name, conn) {
        Ok(()) => Ok(()),
        Err(error) => Err(error.message()),
    }
}

/// All sessions, the latest first.
pub fn load_chat_sessions(conn: &Connection) -> (sessions: Result<Vec<ChatSession>, String>) {
    match fetch_chat_sessions(conn) {
        Ok(sessions) => Ok(sessions),
        Err(error) => Err(error.message()),
    }
}

/// Selects no session.
pub fn clear_current_session(state: &mut GenerationState) -> (done: Result<(), String>)
    ensures
        done is Ok,
        final(state)@ == old(state)@.selecting(Some(NO_SESSION)),
        final(state).cancellation_token == old(state).cancellation_token,
        final(state).is_running == old(state).is_running,
{
    state.select(Some(NO_SESSION));
    Ok(())
}

/// Selects session `session_id`, whether the directory holds it or not.
pub fn set_current_session(session_id: i64, state: &mut GenerationState) -> (done: Result<
    (),
    String,
>)
    ensures
        done is Ok,
        final(state)@ == old(state)@.selecting(Some(session_id)),
        final(state).cancellation_token == old(state).cancellation_token,
        final(state).is_running == old(state).is_running,
{
    state.select(Some(session_id));
    Ok(())
}

/// Starts a generation of `model` for `prompt`.
pub fn generate_chat(
    prompt: String,
    model: String,
    state: &mut GenerationState,
    conn: &Connection,
) -> (started: (Generation, Action))
    ensures
        !started.1@.asks_store(),
        started.1@ is Finish ==> final(state)@.idle(),
        !(started.1@ is Finish) ==> final(state)@.cancellation_token == Some(
            started.0.watched(),
        ),
        selected(old(state)@.current_session_id) is None ==> started.1@
            == (ActionView::RequestTitle { model: model@, prompt: title_request(prompt@) })
            && final(state)@ == old(state)@.started(started.0.watched()),
        selected(old(state)@.current_session_id) matches Some(id) && id <= 0 ==> started.1@
            == prompt_refused() && final(state)@ == old(state)@.reset(),
        started.1@ == prompt_refused() ==> (selected(old(state)@.current_session_id) matches Some(
            id,
        ) && id <= 0),
        selected(old(state)@.current_session_id) matches Some(id) && id > 0 ==> started.1@
            is OpenChat || prompt_not_kept(started.1@),
        started.1@ is OpenChat ==> started.0@.session_id > 0 && final(state)@.is_running
            && final(state)@.current_session_id == Some(started.0@.session_id),
        ({
            let (g, first) = opening(prompt@, model@, old(state)@.current_session_id);
            exists|replies: Seq<Event>| #[trigger]
                settled(
                    g,
                    old(state)@.started(started.0.watched()),
                    first,
                    replies,
                    started.0@,
                    final(state)@,
                    started.1@,
                )
        }),
{
    process_chat_generation(prompt, model, state, conn)
}

/// The messages of the selected session, in the order of insertion. Without a
/// selection there are none, and the store is not asked.
pub fn load_chat_history(state: &GenerationState, conn: &Connection) -> (messages: Result<
    Vec<ChatMessage>,
    String,
>)
    ensures
        selected(state@.current_session_id) is None ==> (messages matches Ok(none) && none@.len()
            == 0),
{
    match state.selected_session() {
        Some(session_id) => match fetch_chat_history(session_id, conn) {
            Ok(messages) => Ok(messages),
            Err(error) => Err(error.message()),
        },
        None => Ok(Vec::new()),
    }
}

/// Abort chat generation: signals the cancellation handle if one is
/// installed, and leaves the state idle. With no generation in flight
/// nothing changes.
pub fn abort_generation(state: &mut GenerationState) -> (done: Result<(), String>)
    ensures
        done is Ok,
        final(state)@ == old(state)@.reset(),
        old(state)@.idle() ==> final(state)@ == old(state)@,
{
    state.cancel();
    Ok(())
}

} // verus!
