use openworkers_core::{LogEvent, LogLevel};

#[test]
fn level_parses_in_any_case() {
    assert_eq!(LogLevel::from_str("error"), LogLevel::Error);
    assert_eq!(LogLevel::from_str("WARN"), LogLevel::Warn);
    assert_eq!(LogLevel::from_str("Info"), LogLevel::Info);
    assert_eq!(LogLevel::from_str("log"), LogLevel::Log);
    assert_eq!(LogLevel::from_str("DeBuG"), LogLevel::Debug);
    assert_eq!(LogLevel::from_str("TRACE"), LogLevel::Trace);
}

#[test]
fn unknown_level_reads_as_info() {
    assert_eq!(LogLevel::from_str(""), LogLevel::Info);
    assert_eq!(LogLevel::from_str("warning"), LogLevel::Info);
    assert_eq!(LogLevel::from_str("fatal"), LogLevel::Info);
    assert_eq!(LogLevel::from_str(" error"), LogLevel::Info);
}

#[test]
fn level_parse_knows_no_case_but_that_of_ascii_letters() {
    assert_eq!(LogLevel::from_str("\u{212a}"), LogLevel::Info);
    assert_eq!(LogLevel::from_str("\u{130}nfo"), LogLevel::Info);
    assert_eq!(LogLevel::from_str("d\u{e9}bug"), LogLevel::Info);
    assert_eq!(LogLevel::from_str("tRaCe"), LogLevel::Trace);
}

#[test]
fn level_labels() {
    let all = [
        (LogLevel::Error, "ERROR", "Error"),
        (LogLevel::Warn, "WARN", "Warn"),
        (LogLevel::Info, "INFO", "Info"),
        (LogLevel::Log, "LOG", "Log"),
        (LogLevel::Debug, "DEBUG", "Debug"),
        (LogLevel::Trace, "TRACE", "Trace"),
    ];
    for (level, label, name) in all {
        assert_eq!(level.as_str(), label);
        assert_eq!(level.to_string(), label);
        assert_eq!(level.name(), name);
        assert_eq!(format!("{:?}", level), name);
        assert_eq!(LogLevel::from_str(label), level);
    }
}

#[test]
fn event_renders_as_a_line() {
    let event = LogEvent { level: LogLevel::Info, message: "x".to_string() };
    assert_eq!(event.render(), "[Info] x");
    let event = LogEvent { level: LogLevel::Error, message: "it broke: [1, 2]".to_string() };
    assert_eq!(event.render(), "[Error] it broke: [1, 2]");
    let event = LogEvent { level: LogLevel::Trace, message: String::new() };
    assert_eq!(event.render(), "[Trace] ");
}
