use locations::config::{parse_output_mode, OutputMode};
use locations::sink::{encode_lines, WriteRetry};
use locations::status::{CounterType, ProgramStatus};
use locations::tiles::Tile;
use locations::workers::{forward_identifiers, note_batch_start};

#[test]
fn test_empty_identifier_batch_not_forwarded() {
    let mut status = ProgramStatus::new();
    let r = forward_identifiers(Vec::new(), &mut status);
    assert!(r.is_none());
    assert_eq!(status.get(CounterType::Found), 0);
}

#[test]
fn test_non_empty_identifier_batch_forwarded_and_counted() {
    let mut status = ProgramStatus::new();
    let ids = vec!["ff".to_string(), "10".to_string()];
    let r = forward_identifiers(ids.clone(), &mut status);
    assert_eq!(r.unwrap(), ids);
    assert_eq!(status.get(CounterType::Found), 2);
}

#[test]
fn test_note_batch_start_records_first_tile() {
    let mut status = ProgramStatus::new();
    let batch = vec![
        Tile { x: 9, y: 8, zoom: 7 },
        Tile { x: 1, y: 1, zoom: 7 },
    ];
    note_batch_start(&batch, &mut status);
    let t = status.get_last_input();
    assert_eq!((t.x, t.y, t.zoom), (9, 8, 7));
    assert_eq!(status.get_and_reset(CounterType::Request), 0);
}

#[test]
fn test_encode_lines_one_identifier_per_line() {
    let ids = vec!["ff".to_string(), "a".to_string(), "10".to_string()];
    assert_eq!(encode_lines(&ids), "ff\na\n10\n");
    let empty: Vec<String> = Vec::new();
    assert_eq!(encode_lines(&empty), "");
}

#[test]
fn test_write_retry_budget() {
    let mut r = WriteRetry::new(5);
    for _ in 0..5 {
        assert!(r.should_retry());
    }
    assert!(!r.should_retry());
    assert!(!r.should_retry());
}

#[test]
fn test_output_mode_values() {
    assert_eq!(parse_output_mode("database"), Some(OutputMode::Database));
    assert_eq!(parse_output_mode("file"), Some(OutputMode::File));
    assert_eq!(parse_output_mode("stdout"), None);
    assert_eq!(parse_output_mode(""), None);
    assert_eq!(parse_output_mode("Database"), None);
}
