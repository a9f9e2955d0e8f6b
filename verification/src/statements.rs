//! The statements sent to SQLite: their text, and what is bound to their
//! parameters.

use crate::sql::SqlParam;
use vstd::prelude::*;
use vstd::string::*;

verus! {

/// Creates the table of configuration values.
pub const CREATE_CONFIG: &'static str = "CREATE TABLE IF NOT EXISTS app_config (
            key TEXT PRIMARY KEY,
            value TEXT
        )";

/// Creates the table of sessions.
pub const CREATE_SESSIONS: &'static str = "CREATE TABLE IF NOT EXISTS chat_sessions (
            id INTEGER PRIMARY KEY AUTOINCREMENT,
            title TEXT NOT NULL,
            created_at TIMESTAMP DEFAULT CURRENT_TIMESTAMP
        )";

/// Creates the table of messages.
pub const CREATE_HISTORY: &'static str = "CREATE TABLE IF NOT EXISTS chat_history (
            id INTEGER PRIMARY KEY AUTOINCREMENT,
            session_id INTEGER NOT NULL,
            role TEXT NOT NULL,
            message TEXT NOT NULL,
            timestamp DATETIME DEFAULT CURRENT_TIMESTAMP,
            FOREIGN KEY (session_id) REFERENCES chat_sessions(id)
        )";

pub const UPSERT_CONFIG: &'static str =
    "INSERT OR REPLACE INTO app_config (key, value) VALUES (?1, ?2)";

pub const SELECT_CONFIG: &'static str = "SELECT value FROM app_config WHERE key = ?1";

pub const DELETE_SESSION: &'static str = "DELETE FROM chat_sessions WHERE id = ?1";

pub const SELECT_TITLE: &'static str = "SELECT title FROM chat_sessions WHERE id = ?1";

pub const UPDATE_TITLE: &'static str = "UPDATE chat_sessions SET title = ?1 WHERE id = ?2";

/// Asks for all sessions, the latest first.
pub const SELECT_SESSIONS: &'static str = "SELECT id, title FROM chat_sessions ORDER BY id DESC";

pub const SELECT_SESSION_BY_TITLE: &'static str = "SELECT id FROM chat_sessions WHERE title = ?1";

pub const INSERT_SESSION: &'static str = "INSERT INTO chat_sessions (title) VALUES (?1)";

pub const SELECT_HISTORY: &'static str =
    "SELECT id, session_id, role, message, timestamp FROM chat_history WHERE session_id = ?1 ORDER BY id ASC";

pub const INSERT_MESSAGE: &'static str =
    "INSERT INTO chat_history (session_id, role, message) VALUES (?1, ?2, ?3)";

/// A statement with the values for its parameters, in their order.
#[derive(Debug, Clone, PartialEq, Eq)]
pub struct Statement {
    pub sql: &'static str,
    pub params: Vec<SqlParam>,
}

/// Whether `param` is the text `text`.
pub open spec fn binds_text(param: SqlParam, text: Seq<char>) -> bool {
    param matches SqlParam::Text(kept) && kept@ == text
}

impl Statement {
    /// Whether this is the statement `sql` without parameters.
    pub open spec fn is_plain(self, sql: &str) -> bool {
        self.sql@ == sql@ && self.params@.len() == 0
    }

    /// The statement `sql`, which has no parameters.
    pub fn plain(sql: &'static str) -> (statement: Statement)
        ensures
            statement.is_plain(sql),
    {
        Statement { sql, params: Vec::new() }
    }
}

/// Keeps `value` under `key`, in place of what was kept there.
pub fn upsert_config(key: &str, value: &str) -> (statement: Statement)
    ensures
        statement.sql@ == UPSERT_CONFIG@,
        statement.params@.len() == 2,
        binds_text(statement.params@[0], key@),
        binds_text(statement.params@[1], value@),
{
    Statement {
        sql: UPSERT_CONFIG,
        params: vec![SqlParam::Text(key.to_owned()), SqlParam::Text(value.to_owned())],
    }
}

/// Asks for the value kept under `key`.
pub fn select_config(key: &str) -> (statement: Statement)
    ensures
        statement.sql@ == SELECT_CONFIG@,
        statement.params@.len() == 1,
        binds_text(statement.params@[0], key@),
{
    Statement { sql: SELECT_CONFIG, params: vec![SqlParam::Text(key.to_owned())] }
}

/// Deletes session `session_id`.
pub fn delete_session(session_id: i64) -> (statement: Statement)
    ensures
        statement.sql@ == DELETE_SESSION@,
        statement.params@ == seq![SqlParam::Integer(session_id)],
{
    Statement { sql: DELETE_SESSION, params: vec![SqlParam::Integer(session_id)] }
}

/// Asks for the title of session `session_id`.
pub fn select_title(session_id: i64) -> (statement: Statement)
    ensures
        statement.sql@ == SELECT_TITLE@,
        statement.params@ == seq![SqlParam::Integer(session_id)],
{
    Statement { sql: SELECT_TITLE, params: vec![SqlParam::Integer(session_id)] }
}

/// Gives session `session_id` the title `title`.
pub fn update_title(session_id: i64, title: &str) -> (statement: Statement)
    ensures
        statement.sql@ == UPDATE_TITLE@,
        statement.params@.len() == 2,
        binds_text(statement.params@[0], title@),
        statement.params@[1] == SqlParam::Integer(session_id),
{
    Statement {
        sql: UPDATE_TITLE,
        params: vec![SqlParam::Text(title.to_owned()), SqlParam::Integer(session_id)],
    }
}

/// Asks for the sessions titled exactly `title`.
pub fn select_session_by_title(title: &str) -> (statement: Statement)
    ensures
        statement.sql@ == SELECT_SESSION_BY_TITLE@,
        statement.params@.len() == 1,
        binds_text(statement.params@[0], title@),
{
    Statement { sql: SELECT_SESSION_BY_TITLE, params: vec![SqlParam::Text(title.to_owned())] }
}

/// Creates a session titled `title`.
pub fn insert_session(title: &str) -> (statement: Statement)
    ensures
        statement.sql@ == INSERT_SESSION@,
        statement.params@.len() == 1,
        binds_text(statement.params@[0], title@),
{
    Statement { sql: INSERT_SESSION, params: vec![SqlParam::Text(title.to_owned())] }
}

/// Asks for the messages of session `session_id`, in the order of insertion.
pub fn select_history(session_id: i64) -> (statement: Statement)
    ensures
        statement.sql@ == SELECT_HISTORY@,
        statement.params@ == seq![SqlParam::Integer(session_id)],
{
    Statement { sql: SELECT_HISTORY, params: vec![SqlParam::Integer(session_id)] }
}

/// Appends a message to the log of session `session_id`.
pub fn insert_message(session_id: i64, role: &str, message: &str) -> (statement: Statement)
    ensures
        statement.sql@ == INSERT_MESSAGE@,
        statement.params@.len() == 3,
        statement.params@[0] == SqlParam::Integer(session_id),
        binds_text(statement.params@[1], role@),
        binds_text(statement.params@[2], message@),
{
    Statement {
        sql: INSERT_MESSAGE,
        params: vec![
            SqlParam::Integer(session_id),
            SqlParam::Text(role.to_owned()),
            SqlParam::Text(message.to_owned()),
        ],
    }
}

} // verus!
