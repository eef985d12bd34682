use amalthea::lsp::document::should_refresh_diagnostics;
use amalthea::lsp::document::Document;
use amalthea::lsp::document::DocumentChange;
use amalthea::lsp::document::DocumentError;
use amalthea::lsp::document::Position;
use amalthea::lsp::document::position_offset;
use amalthea::lsp::document::TextEdit;
use amalthea::lsp::sync::LeaseSync;

#[test]
fn writer_waits_for_readers_and_readers_wait_for_writer() {
    let mut sync = LeaseSync::new();
    // Three hovers run at once.
    assert!(sync.request(1, false));
    assert!(sync.request(2, false));
    assert!(sync.request(3, false));
    // The change waits for them, and later hovers wait behind it.
    assert!(!sync.request(4, true));
    assert!(!sync.request(5, false));
    assert!(!sync.request(6, false));
    assert!(!sync.request(7, false));
    assert!(sync.release(false).is_empty());
    assert!(sync.release(false).is_empty());
    // The last hover out lets the change run alone.
    assert_eq!(sync.release(false), vec![4]);
    // When it ends, the waiting hovers all proceed.
    assert_eq!(sync.release(true), vec![5, 6, 7]);
    assert!(sync.release(false).is_empty());
    assert!(sync.release(false).is_empty());
    assert!(sync.release(false).is_empty());
    assert!(sync.request(8, true));
}

#[test]
fn writers_queue_in_order() {
    let mut sync = LeaseSync::new();
    assert!(sync.request(1, true));
    assert!(!sync.request(2, true));
    assert!(!sync.request(3, false));
    assert_eq!(sync.release(true), vec![2]);
    assert_eq!(sync.release(true), vec![3]);
    assert!(sync.has_room());
}

fn change(version: i32, edits: Vec<TextEdit>) -> DocumentChange {
    DocumentChange { version, edits }
}

fn at(line: u32, character: u32) -> Position {
    Position { line, character }
}

fn replace(start: usize, end: usize, text: &str) -> TextEdit {
    TextEdit { range: Some((at(0, start as u32), at(0, end as u32))), text: text.to_string() }
}

#[test]
fn in_order_change_sets_version() {
    let mut doc = Document::new("x <- 1", Some(1));
    let v = doc.on_did_change(change(2, vec![replace(5, 6, "42")])).unwrap();
    assert_eq!(v, 2);
    assert_eq!(doc.version(), Some(2));
    assert_eq!(doc.contents(), "x <- 42");
}

#[test]
fn out_of_order_change_waits_for_its_predecessor() {
    let mut doc = Document::new("abc", Some(1));
    let v = doc.on_did_change(change(3, vec![replace(0, 1, "Z")])).unwrap();
    assert_eq!(v, 1);
    assert_eq!(doc.contents(), "abc");
    let v = doc.on_did_change(change(2, vec![replace(3, 3, "d")])).unwrap();
    assert_eq!(v, 3);
    assert_eq!(doc.contents(), "Zbcd");
}

#[test]
fn stale_and_duplicate_changes_are_refused() {
    let mut doc = Document::new("abc", Some(5));
    assert_eq!(doc.on_did_change(change(5, vec![])), Err(DocumentError::StaleVersion(5, 5)));
    assert_eq!(doc.on_did_change(change(4, vec![])), Err(DocumentError::StaleVersion(4, 5)));
    assert_eq!(doc.on_did_change(change(8, vec![])), Ok(5));
    assert_eq!(doc.on_did_change(change(8, vec![])), Err(DocumentError::DuplicateVersion(8)));
    assert_eq!(doc.version(), Some(5));
}

#[test]
fn invalid_edit_leaves_document_unchanged() {
    let mut doc = Document::new("abc", Some(1));
    assert_eq!(doc.on_did_change(change(2, vec![replace(2, 9, "x")])), Err(DocumentError::InvalidEdit));
    assert_eq!(doc.contents(), "abc");
    assert_eq!(doc.version(), Some(1));
}

#[test]
fn whole_text_replacement_and_unicode() {
    let mut doc = Document::new("é", None);
    let v = doc
        .on_did_change(change(7, vec![TextEdit { range: None, text: "ñandú".to_string() }, replace(5, 5, "!")]))
        .unwrap();
    assert_eq!(v, 7);
    assert_eq!(doc.contents(), "ñandú!");
}

#[test]
fn positions_count_lines_and_characters() {
    let text = "a\nbc\n";
    assert_eq!(position_offset(text, at(0, 0)), Some(0));
    assert_eq!(position_offset(text, at(0, 1)), Some(1));
    assert_eq!(position_offset(text, at(0, 2)), None);
    assert_eq!(position_offset(text, at(1, 2)), Some(4));
    assert_eq!(position_offset(text, at(2, 0)), Some(5));
    assert_eq!(position_offset(text, at(3, 0)), None);
    let mut doc = Document::new(text, Some(0));
    let edit = TextEdit { range: Some((at(1, 1), at(1, 1))), text: "X".to_string() };
    assert_eq!(doc.on_did_change(change(1, vec![edit])), Ok(1));
    assert_eq!(doc.contents(), "a\nbXc\n");
    let across = TextEdit { range: Some((at(0, 1), at(1, 1))), text: "-".to_string() };
    assert_eq!(doc.on_did_change(change(2, vec![across])), Ok(2));
    assert_eq!(doc.contents(), "a-Xc\n");
    let backwards = TextEdit { range: Some((at(0, 2), at(0, 1))), text: String::new() };
    assert_eq!(doc.on_did_change(change(3, vec![backwards])), Err(DocumentError::InvalidEdit));
}

#[test]
fn diagnostics_only_for_the_arriving_version() {
    assert!(should_refresh_diagnostics(3, &Ok(3)));
    assert!(!should_refresh_diagnostics(3, &Ok(2)));
    assert!(!should_refresh_diagnostics(3, &Err(DocumentError::InvalidEdit)));
}

#[test]
fn positions_count_utf16_code_units() {
    let text = "a\u{1F600}b\nc";
    assert_eq!(position_offset(text, at(0, 1)), Some(1));
    assert_eq!(position_offset(text, at(0, 2)), None);
    assert_eq!(position_offset(text, at(0, 3)), Some(2));
    assert_eq!(position_offset(text, at(0, 4)), Some(3));
    assert_eq!(position_offset(text, at(1, 1)), Some(5));
    let mut doc = Document::new(text, Some(1));
    let edit = TextEdit { range: Some((at(0, 3), at(0, 4))), text: "B".to_string() };
    assert_eq!(doc.on_did_change(change(2, vec![edit])), Ok(2));
    assert_eq!(doc.contents(), "a\u{1F600}B\nc");
}
