//! The persistence gateway and session directory: configuration values, chat
//! sessions and the append-only message log, kept in SQLite.

use crate::session::{selected, GenerationState, NO_SESSION};
use crate::sql::{error_text, execute, query, Row, SqlValue};
use crate::statements::{
    delete_session, insert_message, insert_session, select_config, select_history,
    select_session_by_title, select_title, update_title, upsert_config, Statement, CREATE_CONFIG,
    CREATE_HISTORY, CREATE_SESSIONS, SELECT_SESSIONS,
};
use rusqlite::Connection;
use vstd::prelude::*;
use vstd::string::*;

verus! {

/// What went wrong at the store.
#[derive(Debug, Clone, PartialEq, Eq)]
pub enum StoreError {
    /// SQLite refused a statement; the text is what it reported.
    Database(String),
    /// A message was to be stored under an identifier that names no session.
    NoActiveSession,
    /// SQLite refused to store a message; the text is what it reported.
    SaveFailed(String),
    /// A row came back with other columns than the statement asks for.
    UnexpectedRow,
}

/// What the text of an error begins with where SQLite refused to store a
/// message.
pub open spec fn save_failed_note() -> Seq<char> {
    "Failed to save chat history: "@
}

/// The refusal of a message for no session is told from every failure to
/// store one by its text.
pub proof fn lemma_refusal_is_no_save_failure()
    ensures
        !save_failed_note().is_prefix_of(StoreError::NoActiveSession.text()),
{
    reveal_strlit("Failed to save chat history: ");
    reveal_strlit("No active chat session found.");
    let note = save_failed_note();
    let refusal = StoreError::NoActiveSession.text();
    assert(note[0] == 'F');
    assert(refusal.subrange(0, note.len() as int)[0] == 'N');
}

impl StoreError {
    /// The text shown for this error.
    pub open spec fn text(self) -> Seq<char> {
        match self {
            StoreError::Database(text) => text@,
            StoreError::NoActiveSession => "No active chat session found."@,
            StoreError::SaveFailed(text) => save_failed_note() + text@,
            StoreError::UnexpectedRow => "Unexpected row in query result."@,
        }
    }

    /// The text shown for this error.
    pub fn message(&self) -> (text: String)
        ensures
            text@ == self.text(),
    {
        match self {
            StoreError::Database(text) => text.clone(),
            StoreError::NoActiveSession => "No active chat session found.".to_owned(),
            StoreError::SaveFailed(text) => {
                let mut shown = "Failed to save chat history: ".to_owned();
                shown.append(text.as_str());
                shown
            },
            StoreError::UnexpectedRow => "Unexpected row in query result.".to_owned(),
        }
    }
}

/// A conversation as the directory lists it.
#[derive(Debug, Clone, PartialEq, Eq)]
pub struct ChatSession {
    pub id: i64,
    pub title: String,
}

/// The selected conversation; with no selection, the sentinel and an empty title.
#[derive(Debug, Clone, PartialEq, Eq)]
pub struct CurrentSession {
    pub id: i64,
    pub title: String,
}

/// A session's identifier and title as plain values.
pub struct SessionView {
    pub id: i64,
    pub title: Seq<char>,
}

impl View for ChatSession {
    type V = SessionView;

    open spec fn view(&self) -> SessionView {
        SessionView { id: self.id, title: self.title@ }
    }
}

impl View for CurrentSession {
    type V = SessionView;

    open spec fn view(&self) -> SessionView {
        SessionView { id: self.id, title: self.title@ }
    }
}

/// Represents a chat message entry.
#[derive(Debug, Clone, PartialEq, Eq)]
pub struct ChatMessage {
    pub id: i64,
    pub session_id: i64,
    pub role: String,
    pub message: String,
    pub timestamp: String,
}

/// A chat message as plain values.
pub struct ChatMessageView {
    pub id: i64,
    pub session_id: i64,
    pub role: Seq<char>,
    pub message: Seq<char>,
    pub timestamp: Seq<char>,
}

impl View for ChatMessage {
    type V = ChatMessageView;

    open spec fn view(&self) -> ChatMessageView {
        ChatMessageView {
            id: self.id,
            session_id: self.session_id,
            role: self.role@,
            message: self.message@,
            timestamp: self.timestamp@,
        }
    }
}

/// The views of `messages`, in order.
pub open spec fn message_views(messages: Seq<ChatMessage>) -> Seq<ChatMessageView> {
    messages.map_values(|message: ChatMessage| message@)
}

/// The views of `sessions`, in order.
pub open spec fn session_views(sessions: Seq<ChatSession>) -> Seq<SessionView> {
    sessions.map_values(|session: ChatSession| session@)
}

/// The single text column of `row`.
pub open spec fn text_of_row(row: Seq<SqlValue>) -> Option<Seq<char>> {
    if row.len() == 1 && row[0] is Text {
        Some(row[0]->Text_0@)
    } else {
        None
    }
}

/// The single integer column of `row`.
pub open spec fn integer_of_row(row: Seq<SqlValue>) -> Option<i64> {
    if row.len() == 1 && row[0] is Integer {
        Some(row[0]->Integer_0)
    } else {
        None
    }
}

/// The session that `row` holds: an identifier, then a title.
pub open spec fn session_of_row(row: Seq<SqlValue>) -> Option<SessionView> {
    if row.len() == 2 && row[0] is Integer && row[1] is Text {
        Some(SessionView { id: row[0]->Integer_0, title: row[1]->Text_0@ })
    } else {
        None
    }
}

/// The message that `row` holds: identifier, session, role, text, timestamp.
pub open spec fn message_of_row(row: Seq<SqlValue>) -> Option<ChatMessageView> {
    if row.len() == 5 && row[0] is Integer && row[1] is Integer && row[2] is Text
        && row[3] is Text && row[4] is Text {
        Some(
            ChatMessageView {
                id: row[0]->Integer_0,
                session_id: row[1]->Integer_0,
                role: row[2]->Text_0@,
                message: row[3]->Text_0@,
                timestamp: row[4]->Text_0@,
            },
        )
    } else {
        None
    }
}

/// The text in the first of `rows`: absent without rows, an error where the
/// first row is not one text column.
pub open spec fn first_text_of(rows: Seq<Row>) -> Result<Option<Seq<char>>, StoreError> {
    if rows.len() == 0 {
        Ok(None)
    } else {
        match text_of_row(rows[0]@) {
            Some(text) => Ok(Some(text)),
            None => Err(StoreError::UnexpectedRow),
        }
    }
}

/// The integer in the first of `rows`: absent without rows, an error where the
/// first row is not one integer column.
pub open spec fn first_integer_of(rows: Seq<Row>) -> Result<Option<i64>, StoreError> {
    if rows.len() == 0 {
        Ok(None)
    } else {
        match integer_of_row(rows[0]@) {
            Some(n) => Ok(Some(n)),
            None => Err(StoreError::UnexpectedRow),
        }
    }
}

/// The sessions that `rows` hold, in order, or `None` where a row holds none.
pub open spec fn sessions_of(rows: Seq<Row>) -> Option<Seq<SessionView>> {
    if forall|i: int| 0 <= i < rows.len() ==> session_of_row(#[trigger] rows[i]@) is Some {
        Some(Seq::new(rows.len(), |i: int| session_of_row(rows[i]@)->0))
    } else {
        None
    }
}

/// The messages that `rows` hold, in order, or `None` where a row holds none.
pub open spec fn messages_of(rows: Seq<Row>) -> Option<Seq<ChatMessageView>> {
    if forall|i: int| 0 <= i < rows.len() ==> message_of_row(#[trigger] rows[i]@) is Some {
        Some(Seq::new(rows.len(), |i: int| message_of_row(rows[i]@)->0))
    } else {
        None
    }
}

/// The text in the first of `rows`, if there is a row.
pub fn first_text(rows: &Vec<Row>) -> (found: Result<Option<String>, StoreError>)
    ensures
        match found {
            Ok(Some(text)) => first_text_of(rows@) == Ok::<_, StoreError>(Some(text@)),
            Ok(None) => first_text_of(rows@) == Ok::<Option<Seq<char>>, StoreError>(None),
            Err(error) => first_text_of(rows@) == Err::<Option<Seq<char>>, _>(error),
        },
{
    if rows.len() == 0 {
        return Ok(None);
    }
    let row = &rows[0];
    if row.len() == 1 {
        if let SqlValue::Text(text) = &row[0] {
            return Ok(Some(text.clone()));
        }
    }
    Err(StoreError::UnexpectedRow)
}

/// The integer in the first of `rows`, if there is a row.
pub fn first_integer(rows: &Vec<Row>) -> (found: Result<Option<i64>, StoreError>)
    ensures
        found == first_integer_of(rows@),
{
    if rows.len() == 0 {
        return Ok(None);
    }
    let row = &rows[0];
    if row.len() == 1 {
        if let SqlValue::Integer(n) = &row[0] {
            return Ok(Some(*n));
        }
    }
    Err(StoreError::UnexpectedRow)
}

fn session_from_row(row: &Row) -> (session: Option<ChatSession>)
    ensures
        match session {
            Some(session) => session_of_row(row@) == Some(session@),
            None => session_of_row(row@) is None,
        },
{
    if row.len() != 2 {
        return None;
    }
    match (&row[0], &row[1]) {
        (SqlValue::Integer(id), SqlValue::Text(title)) => Some(
            ChatSession { id: *id, title: title.clone() },
        ),
        _ => None,
    }
}

fn message_from_row(row: &Row) -> (message: Option<ChatMessage>)
    ensures
        match message {
            Some(message) => message_of_row(row@) == Some(message@),
            None => message_of_row(row@) is None,
        },
{
    if row.len() != 5 {
        return None;
    }
    match (&row[0], &row[1], &row[2], &row[3], &row[4]) {
        (
            SqlValue::Integer(id),
            SqlValue::Integer(session_id),
            SqlValue::Text(role),
            SqlValue::Text(message),
            SqlValue::Text(timestamp),
        ) => Some(
            ChatMessage {
                id: *id,
                session_id: *session_id,
                role: role.clone(),
                message: message.clone(),
                timestamp: timestamp.clone(),
            },
        ),
        _ => None,
    }
}

/// The sessions that `rows` hold, in the order of the rows.
pub fn sessions_from_rows(rows: &Vec<Row>) -> (sessions: Result<Vec<ChatSession>, StoreError>)
    ensures
        match sessions {
            Ok(sessions) => sessions_of(rows@) == Some(session_views(sessions@)),
            Err(error) => sessions_of(rows@) is None && error == StoreError::UnexpectedRow,
        },
{
    let mut sessions: Vec<ChatSession> = Vec::new();
    let mut i: usize = 0;
    while i < rows.len()
        invariant
            i <= rows.len(),
            sessions.len() == i,
            forall|k: int| 0 <= k < i ==> session_of_row(#[trigger] rows@[k]@) == Some(sessions@[k]@),
        decreases rows.len() - i,
    {
        match session_from_row(&rows[i]) {
            Some(session) => {
                sessions.push(session);
            },
            None => {
                return Err(StoreError::UnexpectedRow);
            },
        }
        i += 1;
    }
    proof {
        assert(session_views(sessions@) =~= Seq::new(
            rows@.len(),
            |i: int| session_of_row(rows@[i]@)->0,
        ));
    }
    Ok(sessions)
}

/// The messages that `rows` hold, in the order of the rows.
pub fn messages_from_rows(rows: &Vec<Row>) -> (messages: Result<Vec<ChatMessage>, StoreError>)
    ensures
        match messages {
            Ok(messages) => messages_of(rows@) == Some(message_views(messages@)),
            Err(error) => messages_of(rows@) is None && error == StoreError::UnexpectedRow,
        },
{
    let mut messages: Vec<ChatMessage> = Vec::new();
    let mut i: usize = 0;
    while i < rows.len()
        invariant
            i <= rows.len(),
            messages.len() == i,
            forall|k: int| 0 <= k < i ==> message_of_row(#[trigger] rows@[k]@) == Some(messages@[k]@),
        decreases rows.len() - i,
    {
        match message_from_row(&rows[i]) {
            Some(message) => {
                messages.push(message);
            },
            None => {
                return Err(StoreError::UnexpectedRow);
            },
        }
        i += 1;
    }
    proof {
        assert(message_views(messages@) =~= Seq::new(
            rows@.len(),
            |i: int| message_of_row(rows@[i]@)->0,
        ));
    }
    Ok(messages)
}

/// Runs one statement; an error is SQLite's.
fn run(conn: &Connection, statement: &Statement) -> (done: Result<(), StoreError>)
    ensures
        done matches Err(error) ==> error is Database,
{
    match execute(conn, statement.sql, &statement.params) {
        Ok(_) => Ok(()),
        Err(error) => Err(StoreError::Database(error_text(&error))),
    }
}

/// Runs one query; an error is SQLite's.
fn select(conn: &Connection, statement: &Statement) -> (rows: Result<Vec<Row>, StoreError>)
    ensures
        rows matches Err(error) ==> error is Database,
{
    match query(conn, statement.sql, &statement.params) {
        Ok(rows) => Ok(rows),
        Err(error) => Err(StoreError::Database(error_text(&error))),
    }
}

/// Creates the three tables where they do not exist yet.
pub fn init_db(conn: &Connection) -> (done: Result<(), StoreError>)
    ensures
        done matches Err(error) ==> error is Database,
{
    match run(conn, &Statement::plain(CREATE_CONFIG)) {
        Ok(()) => {},
        Err(error) => {
            return Err(error);
        },
    }
    match run(conn, &Statement::plain(CREATE_SESSIONS)) {
        Ok(()) => {},
        Err(error) => {
            return Err(error);
        },
    }
    run(conn, &Statement::plain(CREATE_HISTORY))
}

/// Inserts or updates a configuration key-value pair.
pub fn update_config_value(conn: &Connection, key: &str, value: &str) -> (done: Result<
    (),
    StoreError,
>)
    ensures
        done matches Err(error) ==> error is Database,
{
    run(conn, &upsert_config(key, value))
}

/// Retrieves a configuration value by key. Returns `None` if the key doesn't exist.
pub fn get_config_value(conn: &Connection, key: &str) -> (value: Result<Option<String>, StoreError>)
    ensures
        value matches Err(error) ==> error is Database || error is UnexpectedRow,
{
    match select(conn, &select_config(key)) {
        Ok(rows) => first_text(&rows),
        Err(error) => Err(error),
    }
}

/// Deletes session `session_id`. Once it is deleted, a selection of it falls
/// back to the sentinel; any other selection stays, and so does everything
/// where the store refuses.
pub fn remove_chat_session(session_id: i64, conn: &Connection, state: &mut GenerationState) -> (done:
    Result<(), StoreError>)
    ensures
        done is Ok ==> final(state)@ == old(state)@.without_session(session_id),
        done is Ok && old(state)@.current_session_id == Some(session_id)
            ==> final(state)@.current_session_id == Some(NO_SESSION),
        old(state)@.current_session_id != Some(session_id) ==> final(state)@ == old(state)@,
        done is Err ==> final(state)@ == old(state)@,
        final(state).cancellation_token == old(state).cancellation_token,
        final(state).is_running == old(state).is_running,
        done matches Err(error) ==> error is Database,
{
    match run(conn, &delete_session(session_id)) {
        Ok(()) => {
            state.forget_session(session_id);
            Ok(())
        },
        Err(error) => Err(error),
    }
}

/// The selection `id` with the title the directory holds for it, or an empty
/// title where it holds none.
pub fn titled_session(id: i64, title: Option<String>) -> (current: CurrentSession)
    ensures
        current@.id == id,
        current@.title == match title {
            Some(title) => title@,
            None => Seq::<char>::empty(),
        },
{
    match title {
        Some(title) => CurrentSession { id, title },
        None => CurrentSession { id, title: String::new() },
    }
}

/// The selected session with its title. Without a selection this is the
/// sentinel with an empty title, and the store is not asked.
pub fn fetch_current_session(conn: &Connection, state: &GenerationState) -> (current: Result<
    CurrentSession,
    StoreError,
>)
    ensures
        selected(state@.current_session_id) is None ==> (current matches Ok(session)
            && session@.id == NO_SESSION && session@.title.len() == 0),
        current matches Ok(session) ==> selected(state@.current_session_id) matches Some(id)
            ==> session@.id == id,
        current matches Err(error) ==> error is Database || error is UnexpectedRow,
{
    match state.selected_session() {
        Some(id) => {
            match select(conn, &select_title(id)) {
                Ok(rows) => match first_text(&rows) {
                    Ok(title) => Ok(titled_session(id, title)),
                    Err(error) => Err(error),
                },
                Err(error) => Err(error),
            }
        },
        None => Ok(CurrentSession { id: NO_SESSION, title: String::new() }),
    }
}

/// Gives session `session_id` the title `new_name`.
pub fn rename_chat_session(session_id: i64, new_name: &str, conn: &Connection) -> (done: Result<
    (),
    StoreError,
>)
    ensures
        done matches Err(error) ==> error is Database,
{
    run(conn, &update_title(session_id, new_name))
}

/// All sessions, the latest first.
pub fn fetch_chat_sessions(conn: &Connection) -> (sessions: Result<Vec<ChatSession>, StoreError>)
    ensures
        sessions matches Err(error) ==> error is Database || error is UnexpectedRow,
{
    match select(conn, &Statement::plain(SELECT_SESSIONS)) {
        Ok(rows) => sessions_from_rows(&rows),
        Err(error) => Err(error),
    }
}

/// What a lookup by title settles.
#[derive(Debug, Clone, PartialEq, Eq)]
pub enum Resolution {
    /// The directory holds a session under the title: this is its identifier,
    /// and nothing is to be created.
    Known(i64),
    /// The directory holds none: one is to be created.
    Missing,
    /// The lookup gave no answer to go by.
    Failed(StoreError),
}

/// What the rows of a lookup by title settle: the first row names the
/// session to use; without a row one is to be created.
pub open spec fn resolution_of(rows: Seq<Row>) -> Resolution {
    match first_integer_of(rows) {
        Ok(Some(id)) => Resolution::Known(id),
        Ok(None) => Resolution::Missing,
        Err(error) => Resolution::Failed(error),
    }
}

/// What the rows of a lookup by title settle.
pub fn resolution(rows: &Vec<Row>) -> (settled: Resolution)
    ensures
        settled == resolution_of(rows@),
{
    match first_integer(rows) {
        Ok(Some(id)) => Resolution::Known(id),
        Ok(None) => Resolution::Missing,
        Err(error) => Resolution::Failed(error),
    }
}

/// The identifier of the session titled exactly `title`, if the directory
/// holds one.
pub fn find_session(conn: &Connection, title: &str) -> (found: Result<Option<i64>, StoreError>)
    ensures
        found matches Err(error) ==> error is Database || error is UnexpectedRow,
{
    match select(conn, &select_session_by_title(title)) {
        Ok(rows) => first_integer(&rows),
        Err(error) => Err(error),
    }
}

/// Creates a session titled `title` and gives its identifier.
pub fn create_session(conn: &Connection, title: &str) -> (id: Result<i64, StoreError>)
    ensures
        id matches Err(error) ==> error is Database,
{
    match run(conn, &insert_session(title)) {
        Ok(()) => Ok(conn.last_insert_rowid()),
        Err(error) => Err(error),
    }
}

/// The identifier of the session titled exactly `title`, which is created
/// where the directory holds none. What the lookup settles is what
/// [`resolution`] says of its rows: a session found is the one returned, and
/// then nothing is created.
pub fn get_or_create_session(conn: &Connection, title: &str) -> (id: Result<i64, StoreError>)
    ensures
        id matches Err(error) ==> error is Database || error is UnexpectedRow,
{
    match select(conn, &select_session_by_title(title)) {
        Ok(rows) => match resolution(&rows) {
            Resolution::Known(id) => Ok(id),
            Resolution::Missing => create_session(conn, title),
            Resolution::Failed(error) => Err(error),
        },
        Err(error) => Err(error),
    }
}

/// Fetches the chat history for a given session, in the order of insertion.
pub fn fetch_chat_history(session_id: i64, conn: &Connection) -> (messages: Result<
    Vec<ChatMessage>,
    StoreError,
>)
    ensures
        messages matches Err(error) ==> error is Database || error is UnexpectedRow,
{
    match select(conn, &select_history(session_id)) {
        Ok(rows) => messages_from_rows(&rows),
        Err(error) => Err(error),
    }
}

/// Appends a message to the log of session `session_id`. An identifier that
/// is not positive names no session: the message is refused and the store is
/// not asked.
pub fn save_chat_message(session_id: i64, role: &str, message: &str, conn: &Connection) -> (done:
    Result<(), StoreError>)
    ensures
        session_id <= 0 <==> done == Err::<(), _>(StoreError::NoActiveSession),
        done matches Err(error) ==> error is NoActiveSession || error is SaveFailed,
{
    if session_id <= 0 {
        return Err(StoreError::NoActiveSession);
    }
    let statement = insert_message(session_id, role, message);
    match execute(conn, statement.sql, &statement.params) {
        Ok(_) => Ok(()),
        Err(error) => Err(StoreError::SaveFailed(error_text(&error))),
    }
}

} // verus!
