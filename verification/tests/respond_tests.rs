use todo_list::entry::Entry;
use todo_list::errors::AppError;
use todo_list::respond::{handle_index, reply_for};
use todo_list::store::{init_schema_from_pool, DbPool};

#[test]
fn reply_success_is_the_rendered_page() {
    let entries = vec![Entry { id: 1, text: "buy milk".to_owned() }];
    let reply = reply_for(Ok(entries));
    assert_eq!(reply.status, 200);
    assert_eq!(reply.content_type, "text/html");
    assert!(reply.body.contains("<li>1: buy milk</li>"));
}

#[test]
fn reply_failure_is_opaque() {
    let reply = reply_for(Err(AppError::ConnectionPool));
    assert_eq!(reply.status, 500);
    assert_eq!(reply.content_type, "text/plain; charset=utf-8");
    assert_eq!(reply.body, "Failed to get connection");
    let reply = reply_for(Err(AppError::Query));
    assert_eq!(reply.status, 500);
    assert_eq!(reply.body, "Failed to SQL execution");
    let reply = reply_for(Err(AppError::Render));
    assert_eq!(reply.status, 500);
    assert_eq!(reply.body, "Failed to render HTML.");
}

#[test]
fn status_is_always_500_on_failure() {
    assert_eq!(AppError::Render.status_code(), 500);
    assert_eq!(AppError::ConnectionPool.status_code(), 500);
    assert_eq!(AppError::Query.status_code(), 500);
}

#[test]
fn empty_table_yields_a_well_formed_page() {
    let pool = DbPool::open(":memory:", 1, 1000).unwrap();
    init_schema_from_pool(&pool).unwrap();
    let reply = handle_index(&pool);
    assert_eq!(reply.status, 200);
    assert_eq!(reply.content_type, "text/html");
    assert!(reply.body.starts_with("<!DOCTYPE html>"));
    assert!(reply.body.contains("<ul>\n</ul>"));
    assert_eq!(reply.body.matches("<li>").count(), 0);
}

#[test]
fn exhausted_pool_fails_and_recovers() {
    let pool = DbPool::open(":memory:", 1, 200).unwrap();
    init_schema_from_pool(&pool).unwrap();
    let held = pool.acquire().unwrap();
    let reply = handle_index(&pool);
    assert_eq!(reply.status, 500);
    assert_eq!(reply.body, "Failed to get connection");
    drop(held);
    let reply = handle_index(&pool);
    assert_eq!(reply.status, 200);
}

#[test]
fn repeated_requests_return_identical_bodies() {
    let pool = DbPool::open(":memory:", 1, 1000).unwrap();
    init_schema_from_pool(&pool).unwrap();
    let a = handle_index(&pool);
    let b = handle_index(&pool);
    assert_eq!(a.status, 200);
    assert_eq!(a.status, b.status);
    assert_eq!(a.body, b.body);
    assert_eq!(a.content_type, b.content_type);
}

#[test]
fn unreachable_storage_fails_pool_construction() {
    let r = DbPool::open("/nonexistent-dir/todo.db", 1, 200);
    assert!(matches!(r, Err(AppError::ConnectionPool)));
}
