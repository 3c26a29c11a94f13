use todo_list::entry::Entry;
use todo_list::render::{append_decimal, escape_html, render_page};

#[test]
fn empty_page_has_no_rows() {
    let entries: Vec<Entry> = Vec::new();
    let page = render_page(&entries);
    assert_eq!(
        page,
        "<!DOCTYPE html>\n<html>\n<head><title>Todo</title></head>\n<body>\n<h1>Todo</h1>\n<ul>\n</ul>\n</body>\n</html>\n"
    );
    assert_eq!(page.matches("<li>").count(), 0);
}

#[test]
fn page_lists_each_entry_once() {
    let entries = vec![
        Entry { id: 1, text: "buy milk".to_owned() },
        Entry { id: 2, text: "<script>alert(1)</script>".to_owned() },
    ];
    let page = render_page(&entries);
    assert!(page.contains("<li>1: buy milk</li>"));
    assert!(page.contains("<li>2: &lt;script&gt;alert(1)&lt;/script&gt;</li>"));
    assert!(!page.contains("<script>"));
    assert_eq!(page.matches("buy milk").count(), 1);
    assert_eq!(page.matches("<li>").count(), 2);
    assert_eq!(page.matches("</li>").count(), 2);
}

#[test]
fn rendering_is_deterministic() {
    let entries = vec![
        Entry { id: 7, text: "alpha".to_owned() },
        Entry { id: 9, text: "beta & gamma".to_owned() },
    ];
    let a = render_page(&entries);
    let b = render_page(&entries);
    assert_eq!(a.as_bytes(), b.as_bytes());
}

#[test]
fn escapes_every_special_character() {
    assert_eq!(escape_html("&<>\"'"), "&amp;&lt;&gt;&quot;&#x27;");
    assert_eq!(escape_html(""), "");
    assert_eq!(escape_html("plain text"), "plain text");
    assert_eq!(escape_html("a<b & c>d"), "a&lt;b &amp; c&gt;d");
}

#[test]
fn decimal_notation_is_exact() {
    let mut s = String::new();
    append_decimal(&mut s, 0);
    assert_eq!(s, "0");
    let mut t = String::new();
    append_decimal(&mut t, 1234567890);
    assert_eq!(t, "1234567890");
    let mut u = String::new();
    append_decimal(&mut u, 4294967295);
    assert_eq!(u, "4294967295");
}
