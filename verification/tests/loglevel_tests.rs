use simple_web_server::argparser::FromArg;
use simple_web_server::loglevel::LogLevel;

#[test]
fn level_names_convert() {
    assert_eq!(LogLevel::from_arg("error"), Some(LogLevel::Error));
    assert_eq!(LogLevel::from_arg("warn"), Some(LogLevel::Warn));
    assert_eq!(LogLevel::from_arg("info"), Some(LogLevel::Info));
    assert_eq!(LogLevel::from_arg("debug"), Some(LogLevel::Debug));
    assert_eq!(LogLevel::from_arg("trace"), Some(LogLevel::Trace));
}

#[test]
fn level_names_convert_in_any_case() {
    assert_eq!(LogLevel::from_arg("DEBUG"), Some(LogLevel::Debug));
    assert_eq!(LogLevel::from_arg("Warn"), Some(LogLevel::Warn));
    assert_eq!(LogLevel::from_arg("tRaCe"), Some(LogLevel::Trace));
}

#[test]
fn level_numbers_convert() {
    assert_eq!(LogLevel::from_arg("1"), Some(LogLevel::Error));
    assert_eq!(LogLevel::from_arg("2"), Some(LogLevel::Warn));
    assert_eq!(LogLevel::from_arg("3"), Some(LogLevel::Info));
    assert_eq!(LogLevel::from_arg("4"), Some(LogLevel::Debug));
    assert_eq!(LogLevel::from_arg("5"), Some(LogLevel::Trace));
}

#[test]
fn other_tokens_are_no_level() {
    assert_eq!(LogLevel::from_arg("banana"), None);
    assert_eq!(LogLevel::from_arg(""), None);
    assert_eq!(LogLevel::from_arg("0"), None);
    assert_eq!(LogLevel::from_arg("6"), None);
    assert_eq!(LogLevel::from_arg("--loglevel"), None);
    assert_eq!(LogLevel::from_arg(" info"), None);
    assert_eq!(LogLevel::from_arg("warning"), None);
    assert_eq!(LogLevel::from_arg("off"), None);
}

#[test]
fn level_conversion_is_repeatable() {
    assert_eq!(LogLevel::from_arg("info"), LogLevel::from_arg("info"));
    assert_eq!(LogLevel::from_arg("banana"), LogLevel::from_arg("banana"));
}

#[test]
fn level_agrees_with_tracing() {
    let tokens = ["error", "WARN", "3", "debug", "trace", "banana", "", "42"];
    for token in tokens {
        let ours = LogLevel::from_arg(token);
        let theirs = token.parse::<tracing::Level>().ok();
        let told = theirs.map(|level| {
            if level == tracing::Level::ERROR {
                LogLevel::Error
            } else if level == tracing::Level::WARN {
                LogLevel::Warn
            } else if level == tracing::Level::INFO {
                LogLevel::Info
            } else if level == tracing::Level::DEBUG {
                LogLevel::Debug
            } else {
                LogLevel::Trace
            }
        });
        assert_eq!(ours, told);
    }
}
