use ollama_chat::sql::SqlParam;
use ollama_chat::statements::{
    delete_session, insert_message, insert_session, select_config, select_history,
    select_session_by_title, select_title, update_title, upsert_config, Statement, CREATE_CONFIG,
    SELECT_SESSIONS,
};

fn text(s: &str) -> SqlParam {
    SqlParam::Text(s.to_string())
}

#[test]
fn statements_bind_their_arguments_in_order() {
    assert_eq!(
        upsert_config("k", "v"),
        Statement {
            sql: "INSERT OR REPLACE INTO app_config (key, value) VALUES (?1, ?2)",
            params: vec![text("k"), text("v")],
        }
    );
    assert_eq!(
        select_config("k"),
        Statement { sql: "SELECT value FROM app_config WHERE key = ?1", params: vec![text("k")] }
    );
    assert_eq!(
        delete_session(4),
        Statement {
            sql: "DELETE FROM chat_sessions WHERE id = ?1",
            params: vec![SqlParam::Integer(4)],
        }
    );
    assert_eq!(
        select_title(4),
        Statement {
            sql: "SELECT title FROM chat_sessions WHERE id = ?1",
            params: vec![SqlParam::Integer(4)],
        }
    );
    assert_eq!(
        update_title(4, "New"),
        Statement {
            sql: "UPDATE chat_sessions SET title = ?1 WHERE id = ?2",
            params: vec![text("New"), SqlParam::Integer(4)],
        }
    );
    assert_eq!(
        select_session_by_title("Foo"),
        Statement {
            sql: "SELECT id FROM chat_sessions WHERE title = ?1",
            params: vec![text("Foo")],
        }
    );
    assert_eq!(
        insert_session("Foo"),
        Statement {
            sql: "INSERT INTO chat_sessions (title) VALUES (?1)",
            params: vec![text("Foo")],
        }
    );
    assert_eq!(
        select_history(-1),
        Statement {
            sql: "SELECT id, session_id, role, message, timestamp FROM chat_history WHERE session_id = ?1 ORDER BY id ASC",
            params: vec![SqlParam::Integer(-1)],
        }
    );
    assert_eq!(
        insert_message(2, "user", "hi"),
        Statement {
            sql: "INSERT INTO chat_history (session_id, role, message) VALUES (?1, ?2, ?3)",
            params: vec![SqlParam::Integer(2), text("user"), text("hi")],
        }
    );
}

#[test]
fn plain_statements_bind_nothing() {
    assert_eq!(
        Statement::plain(SELECT_SESSIONS),
        Statement { sql: "SELECT id, title FROM chat_sessions ORDER BY id DESC", params: vec![] }
    );
    assert!(Statement::plain(CREATE_CONFIG).sql.starts_with("CREATE TABLE IF NOT EXISTS app_config"));
}
