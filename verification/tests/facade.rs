use ffi_log::event::{EventMetadata, LogEvent};
use ffi_log::facade::{
    dispatch, rust_log_enabled, rust_log_flush, rust_log_log, BoundaryCall, BoundarySymbol,
    ExternCLog, ResolvedSymbols, SinkCall,
};
use ffi_log::level::LogLevel;
use ffi_log::wire::{ExternCMetadata, ExternCRecord, RustStr, RustString};

/// What the back-end of these tests keeps of an event.
#[derive(Debug, Clone, PartialEq, Eq)]
struct Stored {
    level: LogLevel,
    target: String,
    message: String,
    module: Option<String>,
    file: Option<String>,
    line: Option<u32>,
}

/// A back-end that keeps events in memory and answers `Enabled` by a
/// threshold.
struct MemorySink {
    threshold: LogLevel,
    pending: Vec<Stored>,
    durable: Vec<Stored>,
}

impl MemorySink {
    fn new(threshold: LogLevel) -> MemorySink {
        MemorySink { threshold, pending: Vec::new(), durable: Vec::new() }
    }

    fn perform(&mut self, call: SinkCall) -> Option<bool> {
        match call {
            SinkCall::Enabled(m) => Some(m.level.passes(self.threshold)),
            SinkCall::Log(e) => {
                self.pending.push(Stored {
                    level: e.metadata.level,
                    target: e.metadata.target.to_string(),
                    message: e.message.to_string(),
                    module: e.module.map(|s| s.to_string()),
                    file: e.file.map(|s| s.to_string()),
                    line: e.line,
                });
                None
            }
            SinkCall::Flush => {
                self.durable.append(&mut self.pending);
                None
            }
        }
    }

    fn receive(&mut self, call: BoundaryCall) -> Option<bool> {
        let sink_call = dispatch(&call).expect("a call with a target");
        self.perform(sink_call)
    }
}

fn event<'a>(level: LogLevel, message: &'a str) -> LogEvent<'a> {
    LogEvent {
        metadata: EventMetadata { level, target: "net" },
        message,
        module: Some("svc::net"),
        file: Some("net.rs"),
        line: Some(42),
    }
}

#[test]
fn event_reaches_the_back_end_with_its_six_fields() {
    let mut sink = MemorySink::new(LogLevel::Trace);
    let logger = ExternCLog;
    sink.receive(logger.log(&event(LogLevel::Info, "listening")));
    assert_eq!(
        sink.pending,
        vec![Stored {
            level: LogLevel::Info,
            target: "net".to_string(),
            message: "listening".to_string(),
            module: Some("svc::net".to_string()),
            file: Some("net.rs".to_string()),
            line: Some(42),
        }]
    );
}

#[test]
fn event_without_module_file_and_line_reaches_the_back_end() {
    let mut sink = MemorySink::new(LogLevel::Trace);
    let logger = ExternCLog;
    let bare = LogEvent {
        metadata: EventMetadata { level: LogLevel::Warn, target: "core" },
        message: "bare",
        module: None,
        file: None,
        line: None,
    };
    let call = logger.log(&bare);
    match &call {
        BoundaryCall::Log(wire) => {
            assert!(wire.module.is_null());
            assert!(wire.file.is_null());
            assert_eq!(wire.line, -1);
        }
        _ => panic!("not a log call"),
    }
    sink.receive(call);
    assert_eq!(sink.pending.len(), 1);
    assert_eq!(sink.pending[0].module, None);
    assert_eq!(sink.pending[0].file, None);
    assert_eq!(sink.pending[0].line, None);
    assert_eq!(sink.pending[0].target, "core");
    assert_eq!(sink.pending[0].message, "bare");
}

#[test]
fn enabled_is_answered_by_the_host_threshold() {
    let mut sink = MemorySink::new(LogLevel::Info);
    let logger = ExternCLog;
    let debug = EventMetadata { level: LogLevel::Debug, target: "net" };
    let info = EventMetadata { level: LogLevel::Info, target: "net" };
    assert_eq!(sink.receive(logger.enabled(&debug)), Some(false));
    assert_eq!(sink.receive(logger.enabled(&info)), Some(true));
    assert!(sink.pending.is_empty());
}

#[test]
fn direct_log_is_honored_after_enabled_said_no() {
    let mut sink = MemorySink::new(LogLevel::Info);
    let logger = ExternCLog;
    let debug = event(LogLevel::Debug, "detail");
    assert_eq!(sink.receive(logger.enabled(&debug.metadata)), Some(false));
    sink.receive(logger.log(&debug));
    assert_eq!(sink.pending.len(), 1);
    assert_eq!(sink.pending[0].level, LogLevel::Debug);
    assert_eq!(sink.pending[0].message, "detail");
}

#[test]
fn flush_makes_a_hundred_events_durable() {
    let mut sink = MemorySink::new(LogLevel::Trace);
    let logger = ExternCLog;
    let messages: Vec<String> = (0..100).map(|i| format!("event {}", i)).collect();
    for m in &messages {
        sink.receive(logger.log(&event(LogLevel::Info, m)));
    }
    assert!(sink.durable.is_empty());
    sink.receive(logger.flush());
    sink.receive(logger.log(&event(LogLevel::Info, "one more")));
    assert_eq!(sink.durable.len(), 100);
    for (i, stored) in sink.durable.iter().enumerate() {
        assert_eq!(stored.message, format!("event {}", i));
    }
}

#[test]
fn flush_with_nothing_to_flush_is_harmless() {
    let mut sink = MemorySink::new(LogLevel::Trace);
    sink.receive(ExternCLog.flush());
    assert!(sink.durable.is_empty());
    assert!(sink.pending.is_empty());
}

#[test]
fn interleaved_modules_deliver_what_a_sequence_does() {
    let loggers = [ExternCLog, ExternCLog, ExternCLog];
    let mut interleaved = MemorySink::new(LogLevel::Trace);
    let mut baseline = MemorySink::new(LogLevel::Trace);
    let messages: Vec<String> = (0..30).map(|i| format!("m{}", i)).collect();
    let mut calls = Vec::new();
    for (i, m) in messages.iter().enumerate() {
        calls.push(loggers[i % 3].log(&event(LogLevel::Info, m)));
        baseline.receive(ExternCLog.log(&event(LogLevel::Info, m)));
    }
    for call in calls {
        interleaved.receive(call);
    }
    assert_eq!(interleaved.pending, baseline.pending);
    assert_eq!(interleaved.pending.len(), 30);
}

#[test]
fn host_entry_points_read_the_wire() {
    let metadata = ExternCMetadata { level: LogLevel::Warn, target: RustStr::from("db") };
    match rust_log_enabled(metadata) {
        SinkCall::Enabled(m) => {
            assert_eq!(m.level, LogLevel::Warn);
            assert_eq!(m.target, "db");
        }
        _ => panic!("not an enabled call"),
    }
    let record = ExternCRecord {
        metadata,
        message: RustString::from(String::from("slow query")),
        module: RustStr::from(None),
        file: RustStr::from("db.rs"),
        line: 7,
    };
    match rust_log_log(&record) {
        SinkCall::Log(e) => {
            assert_eq!(e.metadata.level, LogLevel::Warn);
            assert_eq!(e.metadata.target, "db");
            assert_eq!(e.message, "slow query");
            assert_eq!(e.module, None);
            assert_eq!(e.file, Some("db.rs"));
            assert_eq!(e.line, Some(7));
        }
        _ => panic!("not a log call"),
    }
    assert!(matches!(rust_log_flush(), SinkCall::Flush));
}

#[test]
fn call_with_null_target_is_refused() {
    let metadata = ExternCMetadata { level: LogLevel::Info, target: RustStr::from(None) };
    assert!(dispatch(&BoundaryCall::Enabled(metadata)).is_none());
    let record = ExternCRecord {
        metadata,
        message: RustString::from(String::from("lost")),
        module: RustStr::from(None),
        file: RustStr::from(None),
        line: -1,
    };
    assert!(dispatch(&BoundaryCall::Log(record)).is_none());
    assert!(matches!(dispatch(&BoundaryCall::Flush), Some(SinkCall::Flush)));
}

#[test]
fn message_is_released_once_by_whoever_ends_the_call() {
    let call = ExternCLog.log(&event(LogLevel::Info, "listening"));
    let ptr = match &call {
        BoundaryCall::Log(wire) => wire.message.to_str().as_ptr(),
        _ => panic!("not a log call"),
    };
    match dispatch(&call) {
        Some(SinkCall::Log(e)) => assert_eq!(e.message.as_ptr(), ptr),
        _ => panic!("not delivered"),
    }
    match call {
        BoundaryCall::Log(wire) => {
            let message = wire.into_message();
            assert_eq!(message.as_ptr(), ptr);
            assert_eq!(message, "listening");
        }
        _ => panic!("not a log call"),
    }
}

#[test]
fn boundary_symbols_have_their_exported_names() {
    assert_eq!(BoundarySymbol::Initialize.name(), "my_cdylib_log_init");
    assert_eq!(BoundarySymbol::Enabled.name(), "rust_log_enabled");
    assert_eq!(BoundarySymbol::Log.name(), "rust_log_log");
    assert_eq!(BoundarySymbol::Flush.name(), "rust_log_flush");
}

#[test]
fn complete_table_is_accepted() {
    let all = ResolvedSymbols { initialize: true, enabled: true, log: true, flush: true };
    assert_eq!(all.check(), Ok(()));
}

#[test]
fn missing_symbol_is_named() {
    let all = ResolvedSymbols { initialize: true, enabled: true, log: true, flush: true };
    assert_eq!(
        ResolvedSymbols { initialize: false, ..all }.check(),
        Err(BoundarySymbol::Initialize)
    );
    assert_eq!(ResolvedSymbols { enabled: false, ..all }.check(), Err(BoundarySymbol::Enabled));
    assert_eq!(ResolvedSymbols { log: false, ..all }.check(), Err(BoundarySymbol::Log));
    assert_eq!(ResolvedSymbols { flush: false, ..all }.check(), Err(BoundarySymbol::Flush));
}

#[test]
fn first_missing_symbol_is_the_one_reported() {
    let none = ResolvedSymbols { initialize: false, enabled: false, log: false, flush: false };
    assert_eq!(none.check(), Err(BoundarySymbol::Initialize));
    let two = ResolvedSymbols { initialize: true, enabled: true, log: false, flush: false };
    assert_eq!(two.check(), Err(BoundarySymbol::Log));
}
