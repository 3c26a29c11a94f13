use todo_list::entry::Entry;
use todo_list::errors::AppError;
use todo_list::store::{collect_entries, init_schema, list_entries};

#[test]
fn init_schema_creates_table_and_is_idempotent() {
    let conn = rusqlite::Connection::open_in_memory().unwrap();
    assert!(init_schema(&conn).is_ok());
    assert!(init_schema(&conn).is_ok());
    let entries = list_entries(&conn).unwrap();
    assert_eq!(entries.len(), 0);
}

#[test]
fn listing_returns_rows_in_order() {
    let conn = rusqlite::Connection::open_in_memory().unwrap();
    init_schema(&conn).unwrap();
    conn.execute("INSERT INTO todo (text) VALUES (?1)", ["buy milk"]).unwrap();
    conn.execute("INSERT INTO todo (text) VALUES (?1)", ["<script>alert(1)</script>"]).unwrap();
    let entries = list_entries(&conn).unwrap();
    assert_eq!(entries.len(), 2);
    assert_eq!(entries[0].id, 1);
    assert_eq!(entries[0].text, "buy milk");
    assert_eq!(entries[1].id, 2);
    assert_eq!(entries[1].text, "<script>alert(1)</script>");
}

#[test]
fn listing_without_table_is_a_query_error() {
    let conn = rusqlite::Connection::open_in_memory().unwrap();
    let r = list_entries(&conn);
    assert_eq!(r.unwrap_err(), AppError::Query);
}

#[test]
fn one_bad_row_aborts_the_whole_listing() {
    let rows = vec![
        Ok((1u32, "first".to_owned())),
        Err(rusqlite::Error::QueryReturnedNoRows),
        Ok((3u32, "third".to_owned())),
    ];
    let r = collect_entries(rows);
    assert_eq!(r.unwrap_err(), AppError::Query);
}

#[test]
fn good_rows_collect_in_order() {
    let rows: Vec<Result<(u32, String), rusqlite::Error>> =
        vec![Ok((5u32, "a".to_owned())), Ok((6u32, "b".to_owned()))];
    let entries: Vec<Entry> = collect_entries(rows).unwrap();
    assert_eq!(entries.len(), 2);
    assert_eq!(entries[0].id, 5);
    assert_eq!(entries[0].text, "a");
    assert_eq!(entries[1].id, 6);
    assert_eq!(entries[1].text, "b");
}
