use craft_cli::error::{map_reqwest_error, CliError, HttpFailure};
use craft_cli::text::{bool_text, concat3, i32_decimal, str_less, trim_trailing_slashes, u64_decimal};
use craft_cli::logger::Logger;

fn all_errors() -> Vec<CliError> {
    vec![
        CliError::Api { code: 404, message: "missing".to_string() },
        CliError::Config("c".to_string()),
        CliError::Argument("a".to_string()),
        CliError::Network("n".to_string()),
        CliError::Io("i".to_string()),
        CliError::Parse("p".to_string()),
        CliError::Json("j".to_string()),
    ]
}

#[test]
fn exit_codes_follow_the_documented_table() {
    let codes: Vec<i32> = all_errors().iter().map(|e| e.exit_code()).collect();
    assert_eq!(codes, vec![1, 2, 3, 10, 4, 5, 6]);
}

#[test]
fn kinds_name_each_error() {
    let kinds: Vec<&str> = all_errors().iter().map(|e| e.kind()).collect();
    assert_eq!(
        kinds,
        vec!["api_error", "config_error", "argument_error", "network_error", "io_error", "parse_error", "json_error"]
    );
}

#[test]
fn display_texts() {
    let texts: Vec<String> = all_errors().iter().map(|e| e.display_text()).collect();
    assert_eq!(
        texts,
        vec![
            "API error: 404 - missing",
            "Configuration error: c",
            "Argument error: a",
            "Network error: n",
            "IO error: i",
            "Parse error: p",
            "JSON error: j",
        ]
    );
}

fn failure(timeout: bool, connect: bool, status: Option<u16>) -> HttpFailure {
    HttpFailure { timeout, connect, status, text: "boom".to_string() }
}

#[test]
fn transport_timeout_is_a_network_error() {
    match map_reqwest_error(failure(true, true, Some(500))) {
        CliError::Network(m) => assert_eq!(m, "Request timeout"),
        e => panic!("{:?}", e),
    }
}

#[test]
fn transport_connect_failure_is_a_network_error() {
    match map_reqwest_error(failure(false, true, Some(500))) {
        CliError::Network(m) => assert_eq!(m, "Connection failed"),
        e => panic!("{:?}", e),
    }
}

#[test]
fn transport_status_is_an_api_error() {
    match map_reqwest_error(failure(false, false, Some(503))) {
        CliError::Api { code, message } => {
            assert_eq!(code, 503);
            assert_eq!(message, "boom");
        }
        e => panic!("{:?}", e),
    }
}

#[test]
fn other_transport_failure_keeps_its_text() {
    match map_reqwest_error(failure(false, false, None)) {
        CliError::Network(m) => assert_eq!(m, "boom"),
        e => panic!("{:?}", e),
    }
}

#[test]
fn decimal_rendering() {
    assert_eq!(u64_decimal(0), "0");
    assert_eq!(u64_decimal(1234567890), "1234567890");
    assert_eq!(u64_decimal(u64::MAX), u64::MAX.to_string());
    assert_eq!(i32_decimal(-1), "-1");
    assert_eq!(i32_decimal(0), "0");
    assert_eq!(i32_decimal(i32::MIN), "-2147483648");
    assert_eq!(i32_decimal(i32::MAX), "2147483647");
    assert_eq!(bool_text(true), "true");
    assert_eq!(bool_text(false), "false");
}

#[test]
fn trailing_slashes_are_trimmed() {
    assert_eq!(trim_trailing_slashes("https://x.test/api/v1///"), "https://x.test/api/v1");
    assert_eq!(trim_trailing_slashes("https://x.test/api/v1"), "https://x.test/api/v1");
    assert_eq!(trim_trailing_slashes("///"), "");
    assert_eq!(trim_trailing_slashes(""), "");
    assert_eq!(trim_trailing_slashes("/a/"), "/a");
}

#[test]
fn trimming_twice_changes_nothing() {
    let once = trim_trailing_slashes("https://x.test//");
    assert_eq!(trim_trailing_slashes(&once), once);
}

#[test]
fn string_order_is_lexicographic() {
    assert!(str_less("a", "b"));
    assert!(str_less("ab", "abc"));
    assert!(!str_less("abc", "ab"));
    assert!(!str_less("same", "same"));
    assert!(str_less("", "x"));
    assert!(str_less("Zeta", "alpha"));
    assert!(str_less("é", "ü"));
    assert_eq!(concat3("a", "é", "c"), "aéc");
}

#[test]
fn verbosity_starts_off_and_reads_back() {
    let mut l = Logger::new();
    assert!(!l.is_verbose());
    assert_eq!(l.debug_line("hidden"), None);
    l.set_verbose(true);
    assert!(l.is_verbose());
    assert_eq!(l.debug_line("shown"), Some("[DEBUG] shown".to_string()));
    l.set_verbose(false);
    assert!(!l.is_verbose());
}
