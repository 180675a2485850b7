use lcsm_slave::log::{
    decimal_string, LogAction, LogEvent, LogRecorder, LogService, OutputSource, ProcessLogService,
};

#[test]
fn decimal_string_renders_ids() {
    assert_eq!(decimal_string(0), "0");
    assert_eq!(decimal_string(7), "7");
    assert_eq!(decimal_string(10), "10");
    assert_eq!(decimal_string(1234567890), "1234567890");
    assert_eq!(decimal_string(u64::MAX), u64::MAX.to_string());
}

#[test]
fn log_path_joins_directory_and_id() {
    let service = ProcessLogService::new("data/logs".to_string());
    assert_eq!(service.get_log_path(1), "data/logs/1.log");
    assert_eq!(service.get_log_path(42), "data/logs/42.log");
}

#[test]
fn log_path_with_trailing_separator_adds_no_second_one() {
    let service = ProcessLogService::new("/var/lcsm/logs/".to_string());
    assert_eq!(service.get_log_path(3), "/var/lcsm/logs/3.log");
}

#[test]
fn log_path_in_empty_directory_is_the_file_name() {
    let service = LogService::new(String::new());
    assert_eq!(service.get_log_path(18446744073709551615), "18446744073709551615.log");
}

#[test]
fn log_service_uses_the_same_layout() {
    let a = ProcessLogService::new("logs".to_string());
    let b = LogService::new("logs".to_string());
    for id in [0u64, 5, 99, 100] {
        assert_eq!(a.get_log_path(id), b.get_log_path(id));
    }
}

fn append(recorder: &mut LogRecorder, source: OutputSource, bytes: &[u8]) -> Vec<u8> {
    match recorder.on_event(source, LogEvent::Chunk(bytes.to_vec())) {
        LogAction::Append(chunk) => {
            recorder.on_written(&chunk);
            chunk
        }
        _ => panic!("a chunk must be appended"),
    }
}

#[test]
fn recorder_appends_chunks_and_counts_bytes() {
    let mut recorder = LogRecorder::new(true, true);
    assert_eq!(recorder.log_size(), 0);
    let mut file = Vec::new();
    file.extend(append(&mut recorder, OutputSource::Stdout, b"hi\n"));
    assert_eq!(recorder.log_size(), 3);
    file.extend(append(&mut recorder, OutputSource::Stderr, b"oops\n"));
    assert_eq!(recorder.log_size(), 8);
    assert_eq!(file, b"hi\noops\n");
}

#[test]
fn recorder_size_never_decreases() {
    let mut recorder = LogRecorder::new(true, true);
    let mut last = recorder.log_size();
    let steps: Vec<(OutputSource, LogEvent)> = vec![
        (OutputSource::Stdout, LogEvent::Chunk(b"abc".to_vec())),
        (OutputSource::Stdout, LogEvent::Lagged(4)),
        (OutputSource::Stderr, LogEvent::Chunk(Vec::new())),
        (OutputSource::Stderr, LogEvent::Closed),
        (OutputSource::Stdout, LogEvent::Chunk(b"de".to_vec())),
    ];
    for (source, event) in steps {
        if let LogAction::Append(chunk) = recorder.on_event(source, event) {
            recorder.on_written(&chunk);
        }
        assert!(recorder.log_size() >= last);
        last = recorder.log_size();
    }
    assert_eq!(last, 5);
}

#[test]
fn recorder_passes_over_lag() {
    let mut recorder = LogRecorder::new(true, false);
    assert!(matches!(recorder.on_event(OutputSource::Stdout, LogEvent::Lagged(12)), LogAction::Wait));
    assert!(recorder.running());
    assert_eq!(recorder.log_size(), 0);
}

#[test]
fn recorder_exits_once_both_sources_close() {
    let mut recorder = LogRecorder::new(true, true);
    assert!(matches!(recorder.on_event(OutputSource::Stdout, LogEvent::Closed), LogAction::Wait));
    assert!(!recorder.listens(OutputSource::Stdout));
    assert!(recorder.listens(OutputSource::Stderr));
    assert!(matches!(recorder.on_event(OutputSource::Stderr, LogEvent::Closed), LogAction::Exit));
    assert!(!recorder.running());
}

#[test]
fn recorder_without_sources_does_not_run() {
    let mut recorder = LogRecorder::new(false, false);
    assert!(!recorder.running());
    assert!(matches!(recorder.on_event(OutputSource::Stdout, LogEvent::Chunk(b"x".to_vec())), LogAction::Exit));
}

#[test]
fn recorder_stops_after_write_failure() {
    let mut recorder = LogRecorder::new(true, true);
    append(&mut recorder, OutputSource::Stdout, b"12345");
    recorder.on_write_failed();
    assert!(!recorder.running());
    assert_eq!(recorder.log_size(), 5);
    assert!(matches!(recorder.on_event(OutputSource::Stdout, LogEvent::Chunk(b"x".to_vec())), LogAction::Exit));
}
