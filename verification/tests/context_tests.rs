use context_agent::context::{context_entry, label_entry};
use context_agent::loader::SourceDocument;

fn document(path: &str, content: &str) -> SourceDocument {
    SourceDocument { path: path.to_string(), content: content.to_string() }
}

#[test]
fn label_entry_puts_prefix_and_separator_around_the_label() {
    let entry = label_entry("\"a.rs\"", "fn main() {}\n");
    assert_eq!(entry, "Rust Example \"a.rs\":\nfn main() {}\n");
}

#[test]
fn label_entry_takes_the_label_as_it_is() {
    let entry = label_entry("plain", "body");
    assert_eq!(entry, "Rust Example plain:\nbody");
}

#[test]
fn label_entry_of_empty_parts() {
    assert_eq!(label_entry("", ""), "Rust Example :\n");
}

#[test]
fn context_entry_quotes_the_path() {
    let entry = context_entry(&document("container_management.rs", "pub fn stop() {}"));
    assert_eq!(entry, "Rust Example \"container_management.rs\":\npub fn stop() {}");
}

#[test]
fn context_entry_escapes_quotes_and_backslashes_in_the_path() {
    let entry = context_entry(&document("dir\\a\"b.rs", "x"));
    assert_eq!(entry, "Rust Example \"dir\\\\a\\\"b.rs\":\nx");
}

#[test]
fn context_entry_escapes_control_characters_in_the_path() {
    let entry = context_entry(&document("a\tb\n.rs", "x"));
    assert_eq!(entry, "Rust Example \"a\\tb\\n.rs\":\nx");
}

#[test]
fn context_entry_keeps_the_content_verbatim() {
    let content = "// first\n\nfn f() -> &'static str {\n    \"quoted\\n\"\n}\n";
    let entry = context_entry(&document("src/f.rs", content));
    assert_eq!(entry, format!("Rust Example \"src/f.rs\":\n{}", content));
}

#[test]
fn context_entry_agrees_with_the_debug_form() {
    let path = "weird \u{7f} \u{e9} 'single' \u{301}.rs".to_string();
    let content = "body".to_string();
    let entry = context_entry(&document(&path, &content));
    assert_eq!(entry, format!("Rust Example {:?}:\n{}", path, content));
}

#[test]
fn context_entry_of_an_empty_document() {
    let entry = context_entry(&document("", ""));
    assert_eq!(entry, "Rust Example \"\":\n");
}
