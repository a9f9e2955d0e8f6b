use ollama_chat::db::{get_config_value, init_db, update_config_value};
use ollama_chat::window::{
    decimal_i32, decimal_u32, geometry_from, load_window_state, parse_i32, parse_u32,
    save_window_state, WindowGeometry,
};
use rusqlite::Connection;

fn store() -> Connection {
    let conn = Connection::open_in_memory().unwrap();
    init_db(&conn).unwrap();
    conn
}

fn kept(text: &str) -> Option<String> {
    Some(text.to_string())
}

#[test]
fn parse_i32_agrees_with_std() {
    for text in [
        "", "0", "7", "-7", "+7", "007", "-0", "+0", "2147483647", "2147483648", "-2147483648",
        "-2147483649", "99999999999999999999999", "-99999999999999999999999", "+", "-", "--1",
        "+-1", "1-", " 1", "1 ", "1.5", "1e3", "0x10", "١٢", "12a", "a12", "0000000000000000000001",
        "-0000000000000000000001", "4294967295",
    ] {
        assert_eq!(parse_i32(text), text.parse::<i32>().ok(), "{:?}", text);
    }
}

#[test]
fn parse_u32_agrees_with_std() {
    for text in [
        "", "0", "7", "-7", "+7", "007", "-0", "+0", "4294967295", "4294967296", "2147483648",
        "99999999999999999999999", "+", "-", "++1", " 1", "1 ", "1.5", "12a",
        "0000000000000000000001", "+4294967295",
    ] {
        assert_eq!(parse_u32(text), text.parse::<u32>().ok(), "{:?}", text);
    }
}

#[test]
fn decimal_text_agrees_with_std() {
    for n in [0, 1, -1, 9, 10, -10, 99, 100, 1600, -1440, i32::MAX, i32::MIN, i32::MIN + 1] {
        assert_eq!(decimal_i32(n), n.to_string());
        assert_eq!(parse_i32(&decimal_i32(n)), Some(n));
    }
    for n in [0, 1, 9, 10, 11, 800, 1600, 2147483648, u32::MAX] {
        assert_eq!(decimal_u32(n), n.to_string());
        assert_eq!(parse_u32(&decimal_u32(n)), Some(n));
    }
}

#[test]
fn geometry_defaults_when_nothing_is_kept() {
    assert_eq!(
        geometry_from(&None, &None, &None, &None),
        WindowGeometry { x: 100, y: 100, width: 1600, height: 1440 }
    );
    let conn = store();
    assert_eq!(
        load_window_state(&conn),
        Ok(WindowGeometry { x: 100, y: 100, width: 1600, height: 1440 })
    );
}

#[test]
fn geometry_falls_back_on_what_is_no_number() {
    assert_eq!(
        geometry_from(&kept("left"), &kept(""), &kept("wide"), &kept("-5")),
        WindowGeometry { x: 100, y: 100, width: 800, height: 600 }
    );
    assert_eq!(
        geometry_from(&kept("-20"), &kept("+30"), &kept("1024"), &kept("768")),
        WindowGeometry { x: -20, y: 30, width: 1024, height: 768 }
    );
    assert_eq!(
        geometry_from(&kept("2147483648"), &None, &kept("4294967296"), &None),
        WindowGeometry { x: 100, y: 100, width: 800, height: 1440 }
    );
}

#[test]
fn geometry_saved_is_geometry_loaded() {
    let conn = store();
    assert_eq!(save_window_state(&conn, Some((-12, 34)), Some((1280, 720))), Ok(()));
    assert_eq!(get_config_value(&conn, "window_x").unwrap(), kept("-12"));
    assert_eq!(get_config_value(&conn, "window_y").unwrap(), kept("34"));
    assert_eq!(get_config_value(&conn, "window_width").unwrap(), kept("1280"));
    assert_eq!(get_config_value(&conn, "window_height").unwrap(), kept("720"));
    assert_eq!(
        load_window_state(&conn),
        Ok(WindowGeometry { x: -12, y: 34, width: 1280, height: 720 })
    );
    assert_eq!(save_window_state(&conn, None, Some((640, 480))), Ok(()));
    assert_eq!(save_window_state(&conn, Some((1, 2)), None), Ok(()));
    assert_eq!(save_window_state(&conn, None, None), Ok(()));
    assert_eq!(
        load_window_state(&conn),
        Ok(WindowGeometry { x: 1, y: 2, width: 640, height: 480 })
    );
    update_config_value(&conn, "window_width", "huge").unwrap();
    assert_eq!(load_window_state(&conn).unwrap().width, 800);
}

#[test]
fn geometry_needs_the_store() {
    let conn = Connection::open_in_memory().unwrap();
    assert!(load_window_state(&conn).is_err());
    assert!(save_window_state(&conn, Some((1, 2)), None).is_err());
    assert!(save_window_state(&conn, None, Some((1, 2))).is_err());
    assert_eq!(save_window_state(&conn, None, None), Ok(()));
}
