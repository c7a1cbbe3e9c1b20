use ruty::clipboard::{
    get_system_clipboard, read_tool, ClipboardHistory, ClipboardItem, ClipboardManager,
    HISTORY_LIMIT, POLL_INTERVAL_SECS,
};
use ruty::tools::ToolOutput;

fn contents(manager: &ClipboardManager) -> Vec<String> {
    manager.get_history().into_iter().map(|item| item.content).collect()
}

#[test]
fn three_readings_promote_the_repeated_one() {
    let mut m = ClipboardManager::new();
    assert!(m.observe(Some("a".to_string()), 1));
    assert!(m.observe(Some("b".to_string()), 2));
    assert!(m.observe(Some("a".to_string()), 3));
    let history = m.get_history();
    assert_eq!(history.len(), 2);
    assert_eq!(history[0], ClipboardItem { content: "a".to_string(), timestamp: 3 });
    assert_eq!(history[1], ClipboardItem { content: "b".to_string(), timestamp: 2 });
    assert_eq!(contents(&m), vec!["a", "b"]);
}

#[test]
fn history_never_exceeds_its_limit() {
    let mut m = ClipboardManager::new();
    for i in 0..60u64 {
        assert!(m.observe(Some(format!("item {}", i)), i));
        assert!(m.get_history().len() <= HISTORY_LIMIT);
    }
    let history = m.get_history();
    assert_eq!(history.len(), 50);
    assert_eq!(history[0].content, "item 59");
    assert_eq!(history[0].timestamp, 59);
    assert_eq!(history[49].content, "item 10");
}

#[test]
fn promotion_in_a_full_history_evicts_nothing() {
    let mut m = ClipboardManager::new();
    for i in 0..50u64 {
        m.observe(Some(format!("item {}", i)), i);
    }
    assert!(m.observe(Some("item 0".to_string()), 99));
    let history = m.get_history();
    assert_eq!(history.len(), 50);
    assert_eq!(history[0], ClipboardItem { content: "item 0".to_string(), timestamp: 99 });
    assert_eq!(history[1].content, "item 49");
    assert_eq!(history[49].content, "item 1");
    assert_eq!(history.iter().filter(|i| i.content == "item 0").count(), 1);
}

#[test]
fn blank_and_failed_readings_are_no_ops() {
    let mut m = ClipboardManager::new();
    assert!(!m.observe(None, 1));
    assert!(!m.observe(Some(String::new()), 2));
    assert!(!m.observe(Some("  \t\n\u{a0}\u{3000}".to_string()), 3));
    assert!(m.get_history().is_empty());
    assert!(m.observe(Some(" x ".to_string()), 4));
    assert!(!m.observe(Some("\r\n".to_string()), 5));
    assert_eq!(contents(&m), vec![" x "]);
}

#[test]
fn unchanged_reading_is_not_recorded_again() {
    let mut m = ClipboardManager::new();
    assert!(m.observe(Some("a".to_string()), 1));
    assert!(!m.observe(Some("a".to_string()), 2));
    let history = m.get_history();
    assert_eq!(history.len(), 1);
    assert_eq!(history[0].timestamp, 1);
}

#[test]
fn blank_reading_does_not_reset_the_last_content() {
    let mut m = ClipboardManager::new();
    assert!(m.observe(Some("a".to_string()), 1));
    assert!(!m.observe(Some(" ".to_string()), 2));
    assert!(!m.observe(Some("a".to_string()), 3));
    assert_eq!(m.get_history()[0].timestamp, 1);
}

#[test]
fn content_identity_is_case_sensitive() {
    let mut m = ClipboardManager::new();
    m.observe(Some("Text".to_string()), 1);
    m.observe(Some("text".to_string()), 2);
    assert_eq!(contents(&m), vec!["text", "Text"]);
}

#[test]
fn start_is_idempotent() {
    let mut m = ClipboardManager::new();
    assert!(!m.is_running());
    assert!(m.start());
    assert!(m.is_running());
    assert!(!m.start());
    assert!(m.is_running());
    assert!(m.should_continue());
    assert!(!m.start());
    assert!(!ClipboardManager::default().is_running());
}

#[test]
fn stop_then_start_at_once_keeps_the_one_poller() {
    let mut m = ClipboardManager::new();
    assert!(m.start());
    m.stop();
    assert!(!m.is_running());
    assert!(!m.start());
    assert!(m.is_running());
    assert!(m.should_continue());
    assert!(!m.start());
}

#[test]
fn a_poller_that_left_is_replaced_by_the_next_start() {
    let mut m = ClipboardManager::new();
    assert!(m.start());
    m.stop();
    m.stop();
    assert!(!m.should_continue());
    assert!(!m.is_running());
    assert!(m.start());
    assert!(m.should_continue());
    m.stop();
    assert!(!m.should_continue());
    assert!(!m.should_continue());
    assert!(m.start());
}

#[test]
fn poll_stamps_the_entry_with_the_clock() {
    let mut m = ClipboardManager::new();
    assert!(m.poll(Some("now".to_string())));
    assert!(!m.poll(Some("now".to_string())));
    let history = m.get_history();
    assert_eq!(history.len(), 1);
    assert!(history[0].timestamp > 1_600_000_000);
}

#[test]
fn history_records_and_finds() {
    let mut h = ClipboardHistory::new();
    assert_eq!(h.len(), 0);
    h.record(ClipboardItem { content: "one".to_string(), timestamp: 1 });
    h.record(ClipboardItem { content: "two".to_string(), timestamp: 2 });
    assert_eq!(h.position(&"one".to_string()), Some(1));
    assert_eq!(h.position(&"two".to_string()), Some(0));
    assert_eq!(h.position(&"three".to_string()), None);
    h.record(ClipboardItem { content: "one".to_string(), timestamp: 3 });
    assert_eq!(h.len(), 2);
    let items = h.to_vec();
    assert_eq!(items[0].clone(), ClipboardItem { content: "one".to_string(), timestamp: 3 });
    assert_eq!(items[1].content, "two");
    assert_eq!(POLL_INTERVAL_SECS, 1);
}

#[test]
fn history_does_not_record_blank_content() {
    let mut h = ClipboardHistory::new();
    h.record(ClipboardItem { content: " \n".to_string(), timestamp: 1 });
    h.record(ClipboardItem { content: String::new(), timestamp: 2 });
    assert_eq!(h.len(), 0);
    h.record(ClipboardItem { content: "x".to_string(), timestamp: 3 });
    h.record(ClipboardItem { content: "\t".to_string(), timestamp: 4 });
    assert_eq!(h.to_vec(), vec![ClipboardItem { content: "x".to_string(), timestamp: 3 }]);
}

#[test]
fn read_tools_come_in_order() {
    let first = read_tool(0).unwrap();
    assert_eq!(first.program, "wl-paste");
    assert_eq!(first.args, vec!["--no-newline"]);
    let second = read_tool(1).unwrap();
    assert_eq!(second.program, "xclip");
    assert_eq!(second.args, vec!["-selection", "clipboard", "-o"]);
    assert!(read_tool(2).is_none());
}

#[test]
fn reading_needs_success_and_valid_text() {
    let ok = ToolOutput { success: true, stdout: "héllo".as_bytes().to_vec() };
    assert_eq!(get_system_clipboard(Some(ok)).as_deref(), Some("héllo"));
    let failed = ToolOutput { success: false, stdout: b"text".to_vec() };
    assert_eq!(get_system_clipboard(Some(failed)), None);
    let invalid = ToolOutput { success: true, stdout: vec![0x66, 0xff, 0x6f] };
    assert_eq!(get_system_clipboard(Some(invalid)), None);
    assert_eq!(get_system_clipboard(None), None);
}
