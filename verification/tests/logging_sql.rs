use jhapi::logging::{
    clip_entry, get_timestamp, log_limit, log_username, status_line, token_for_log, user_log_deletion,
    username_for_log, LogData, LogEntry, Logger,
};
use jhapi::signing::User as TokenUser;
use jhapi::sql::{query_name, SQLManager};
use jhapi::errors::APIError;

#[test]
fn log_names() {
    assert_eq!(username_for_log(false, &None), "No User");
    assert_eq!(username_for_log(true, &None), "Unknown");
    assert_eq!(username_for_log(true, &Some(TokenUser::new())), "Unknown");
    let mut u = TokenUser::new();
    u.USER_ID = Some("sami".to_string());
    assert_eq!(username_for_log(true, &Some(u)), "sami");
    assert_eq!(log_username(&None, "secret"), "No User");
    assert_eq!(log_username(&Some("garbage".to_string()), "secret"), "Unknown");
    assert_eq!(token_for_log(&None), "No Token");
    assert_eq!(token_for_log(&Some("abc".to_string())), "abc");
}

#[test]
fn status_lines() {
    assert_eq!(status_line(200, Some("OK")), "200 OK");
    assert_eq!(status_line(599, None), "599 No Reason");
}

#[test]
fn entries_are_clipped() {
    let e = LogEntry {
        username: "u".repeat(70),
        ip_addr: "127.0.0.1".to_string(),
        route: "/api/products".to_string(),
        parameters: Some("p".repeat(2100)),
        token: "t".repeat(300),
        result: "200 OK".to_string(),
        method: "POST".to_string(),
    };
    let c = clip_entry(&e);
    assert_eq!(c.username.len(), 64);
    assert_eq!(c.ip_addr, "127.0.0.1");
    assert_eq!(c.token.len(), 255);
    assert_eq!(c.parameters.unwrap().len(), 2000);
    assert_eq!(c.result, "200 OK");
}

#[test]
fn logger_entry() {
    let e = Logger::entry(&None, "secret", "10.0.0.1".to_string(), "/api/stores".to_string(), "GET".to_string(), 401, Some("Unauthorized"));
    assert_eq!(e.username, "No User");
    assert_eq!(e.token, "No Token");
    assert_eq!(e.result, "401 Unauthorized");
    assert_eq!(e.route, "/api/stores");
    assert!(e.parameters.is_none());
}

#[test]
fn timestamp_ranges() {
    let t = get_timestamp();
    assert!((1..=12).contains(&t.month));
    assert!((1..=31).contains(&t.day));
    assert!(t.hour <= 23 && t.minute <= 59 && t.second <= 59);
    assert!(t.year >= 2024);
}

#[test]
fn log_rows() {
    assert_eq!(log_limit(None), 100);
    assert_eq!(log_limit(Some(5)), 5);
    let row = LogData::from_columns(None, None, None, Some(Some("x".to_string())), Some("ok".to_string()), None, None, Some(None), None);
    assert_eq!(row.LOG_ID, -1);
    assert_eq!(row.USERNAME, None);
    assert_eq!(row.ROUTE, "NULL");
    assert_eq!(row.PARAMETERS.as_deref(), Some("x"));
    assert_eq!(row.RESULT, "ok");
    assert_eq!(row.TIMESTAMP, "NULL");
    assert_eq!(row.TOKEN_USED, "NULL");
    assert_eq!(row.IP_ADDRESS, None);
    assert_eq!(user_log_deletion(Some(3)), "delete_user_logs_limit");
    assert_eq!(user_log_deletion(None), "delete_user_logs");
}

#[test]
fn statement_names() {
    assert_eq!(query_name("get_users.sql"), "get_users");
    assert_eq!(query_name("a.sql.sql"), "a");
    assert_eq!(query_name("x.sqlite"), "xite");
    assert_eq!(query_name("plain"), "plain");
    for n in ["get_users.sql", "a.sql.sql", "x.sqlite", ".s.sql", "..sqll"] {
        assert_eq!(query_name(n), n.replace(".sql", ""));
    }
}

#[test]
fn statements_read_back() {
    let mut m = SQLManager::new();
    assert!(matches!(m.get_sql("get_users"), Err(APIError::IOError)));
    m.add_file("get_users.sql", "SELECT 1".to_string());
    m.add_file("get_stores.sql", "SELECT 2".to_string());
    m.add_file("get_users.sql", "SELECT 3".to_string());
    assert_eq!(m.get_sql("get_users").unwrap(), "SELECT 1");
    assert_eq!(m.get_sql("get_stores").unwrap(), "SELECT 2");
    assert!(matches!(m.get_sql("get_users.sql"), Err(APIError::IOError)));
    assert_eq!(m.map.len(), 2);
}
