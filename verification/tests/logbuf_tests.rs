use deskcore::logbuf::{LogCollector, LogLevel};
use deskcore::wire::{read_u16_be, read_u32_be, read_u64_be};

#[test]
fn logs_join_with_labels_and_newlines() {
    let mut collector = LogCollector::new();
    collector.log(LogLevel::Info, "hello".to_string(), None, None);
    collector.log(LogLevel::Error, "bad".to_string(), Some("main.rs".to_string()), Some(7));
    assert_eq!(collector.get_logs_string(), "[INFO] hello\n[ERROR] bad");

    let entries = collector.get_logs();
    assert_eq!(entries.len(), 2);
    assert_eq!(entries[0].level, LogLevel::Info);
    assert_eq!(entries[0].message, "hello");
    assert_eq!(entries[1].file.as_deref(), Some("main.rs"));
    assert_eq!(entries[1].line, Some(7));
}

#[test]
fn empty_collector_renders_empty_string() {
    let collector = LogCollector::new();
    assert_eq!(collector.get_logs_string(), "");
    assert!(collector.get_logs().is_empty());
    assert!(collector.get_error().is_none());
    assert!(collector.get_panic().is_none());
}

#[test]
fn set_error_records_and_logs() {
    let mut collector = LogCollector::new();
    collector.set_error("connection refused".to_string());
    assert_eq!(collector.get_error().as_deref(), Some("connection refused"));
    assert_eq!(collector.get_logs_string(), "[ERROR] connection refused");
}

#[test]
fn set_panic_prefixes_the_log_line() {
    let mut collector = LogCollector::new();
    collector.set_panic("boom".to_string());
    assert_eq!(collector.get_panic().as_deref(), Some("boom"));
    assert_eq!(collector.get_logs_string(), "[ERROR] PANIC: boom");
}

#[test]
fn clear_drops_entries_and_error_but_keeps_panic() {
    let mut collector = LogCollector::new();
    collector.set_error("oops".to_string());
    collector.set_panic("boom".to_string());
    collector.clear();
    assert!(collector.get_logs().is_empty());
    assert!(collector.get_error().is_none());
    assert_eq!(collector.get_panic().as_deref(), Some("boom"));
}

#[test]
fn ring_evicts_oldest_beyond_capacity() {
    let mut collector = LogCollector::new();
    for i in 0..1005u32 {
        collector.log(LogLevel::Debug, format!("entry {}", i), None, None);
    }
    let entries = collector.get_logs();
    assert_eq!(entries.len(), 1000);
    assert_eq!(entries[0].message, "entry 5");
    assert_eq!(entries[999].message, "entry 1004");
}

#[test]
fn big_endian_readers_match_std() {
    assert_eq!(read_u16_be(0x12, 0x34), 0x1234);
    assert_eq!(read_u32_be(0xDE, 0xAD, 0xBE, 0xEF), 0xDEADBEEF);
    assert_eq!(
        read_u64_be(0x01, 0x02, 0x03, 0x04, 0x05, 0x06, 0x07, 0x08),
        u64::from_be_bytes([1, 2, 3, 4, 5, 6, 7, 8])
    );
    assert_eq!(read_u16_be(0xFF, 0xFF), u16::MAX);
    assert_eq!(read_u32_be(0, 0, 0, 0), 0);
}
