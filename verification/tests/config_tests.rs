use craft_cli::cli::{parse_key_val, BlocksAction, BlocksArgs, Cli, Commands};
use craft_cli::config::{
    add_api, default_config_path, find_config_file, get_current_api, init_config, list_apis,
    remove_api, resolve_connection, set_current_api, needs_config_file, local_config_path,
    user_config_path, ApiEntry, ConfigCandidate,
    ConfigFile,
};
use craft_cli::error::CliError;

fn entry(api: &str, key: &str) -> ApiEntry {
    ApiEntry { api: api.to_string(), key: if key.is_empty() { None } else { Some(key.to_string()) } }
}

fn config(current: &str, rows: &[(&str, &str, &str)]) -> ConfigFile {
    ConfigFile::from_entries(
        current.to_string(),
        rows.iter().map(|(n, a, k)| (n.to_string(), entry(a, k))).collect(),
    )
}

fn names(c: &ConfigFile) -> Vec<String> {
    let mut v: Vec<String> = c.apis.iter().map(|(n, _)| n.clone()).collect();
    v.sort();
    v
}

fn cli(url: Option<&str>, key: Option<&str>) -> Cli {
    cli_conn(url, key, None)
}

fn cli_conn(url: Option<&str>, key: Option<&str>, conn: Option<&str>) -> Cli {
    Cli {
        url: url.map(|s| s.to_string()),
        key: key.map(|s| s.to_string()),
        config: None,
        conn: conn.map(|s| s.to_string()),
        verbose: false,
        command: Commands::Blocks(BlocksArgs { action: BlocksAction::Delete { ids: vec![] } }),
    }
}

#[test]
fn key_value_splits_at_first_equals() {
    assert_eq!(parse_key_val("a=b=c"), Ok(("a".to_string(), "b=c".to_string())));
    assert_eq!(parse_key_val("=x"), Ok(("".to_string(), "x".to_string())));
    assert_eq!(parse_key_val("k="), Ok(("k".to_string(), "".to_string())));
    assert_eq!(parse_key_val("ключ=значение"), Ok(("ключ".to_string(), "значение".to_string())));
}

#[test]
fn key_value_without_equals_is_refused() {
    assert_eq!(
        parse_key_val("abc"),
        Err("invalid KEY=value: no `=` found in `abc`".to_string())
    );
}

#[test]
fn from_entries_keeps_the_last_row_of_a_name() {
    let c = config("a", &[("a", "u1", "k1"), ("b", "u2", "k2"), ("a", "u3", "k3")]);
    assert_eq!(names(&c), vec!["a", "b"]);
    let e = c.get_api(&"a".to_string()).unwrap();
    assert_eq!(e.api, "u3");
    assert_eq!(e.key, Some("k3".to_string()));
}

#[test]
fn init_writes_a_fresh_config_only_when_missing() {
    let c = init_config(false).unwrap();
    assert_eq!(c.current, "default");
    assert!(c.apis.is_empty());
    assert!(init_config(true).is_none());
}

#[test]
fn default_path_needs_a_config_directory() {
    assert_eq!(default_config_path(Some("/home/u/.config/craft-cli/config.json".to_string())).unwrap(),
        "/home/u/.config/craft-cli/config.json");
    match default_config_path(None) {
        Err(CliError::Config(m)) => assert_eq!(m, "Cannot determine config directory"),
        other => panic!("{:?}", other),
    }
}

#[test]
fn first_added_api_becomes_current() {
    let c = add_api(None, "daily", "https://a.test", Some("k"));
    assert_eq!(c.current, "daily");
    let e = c.get_api(&"daily".to_string()).unwrap();
    assert_eq!(e.api, "https://a.test");
    assert_eq!(e.key, Some("k".to_string()));
}

#[test]
fn adding_replaces_and_keeps_current() {
    let c = config("a", &[("a", "u1", "k1")]);
    let c = add_api(Some(c), "b", "u2", Some("k2"));
    let c = add_api(Some(c), "a", "u9", None);
    assert_eq!(c.current, "a");
    assert_eq!(names(&c), vec!["a", "b"]);
    assert_eq!(c.get_api(&"a".to_string()).unwrap().api, "u9");
    assert_eq!(c.get_api(&"a".to_string()).unwrap().key, None);
    assert_eq!(c.get_api(&"b".to_string()).unwrap().api, "u2");
}

#[test]
fn removing_an_unknown_api_fails() {
    let c = config("a", &[("a", "u1", "k1")]);
    match remove_api(c, "zz") {
        Err(CliError::Config(m)) => assert_eq!(m, "API 'zz' not found"),
        other => panic!("{:?}", other),
    }
}

#[test]
fn removing_current_switches_to_a_remaining_api() {
    let c = config("a", &[("a", "u1", "k1"), ("b", "u2", "k2")]);
    let c = remove_api(c, "a").unwrap();
    assert_eq!(names(&c), vec!["b"]);
    assert_eq!(c.current, "b");
}

#[test]
fn removing_the_last_api_falls_back_to_default() {
    let c = config("a", &[("a", "u1", "k1")]);
    let c = remove_api(c, "a").unwrap();
    assert!(c.apis.is_empty());
    assert_eq!(c.current, "default");
}

#[test]
fn removing_another_api_keeps_current() {
    let c = config("a", &[("a", "u1", "k1"), ("b", "u2", "k2")]);
    let c = remove_api(c, "b").unwrap();
    assert_eq!(c.current, "a");
    assert_eq!(names(&c), vec!["a"]);
}

#[test]
fn add_then_remove_restores_the_table() {
    let c = config("a", &[("a", "u1", "k1")]);
    let c = add_api(Some(c), "new", "u", Some("k"));
    let c = remove_api(c, "new").unwrap();
    assert_eq!(names(&c), vec!["a"]);
    assert_eq!(c.current, "a");
}

#[test]
fn list_is_sorted_by_name() {
    let c = config("m", &[("m", "um", "km"), ("b", "ub", "kb"), ("z", "uz", "kz"), ("a", "ua", "ka")]);
    let l = list_apis(Some(c));
    let ns: Vec<&str> = l.iter().map(|(n, _)| n.as_str()).collect();
    assert_eq!(ns, vec!["a", "b", "m", "z"]);
    assert_eq!(l[2].1.api, "um");
    assert!(list_apis(None).is_empty());
}

#[test]
fn current_needs_a_config_file() {
    match get_current_api(None) {
        Err(CliError::Config(m)) => assert_eq!(m, "Config file not found"),
        other => panic!("{:?}", other),
    }
    assert_eq!(get_current_api(Some(config("x", &[]))).unwrap(), "x");
}

#[test]
fn set_current_then_get_current() {
    let c = config("a", &[("a", "u1", "k1"), ("b", "u2", "k2")]);
    let c = set_current_api(c, "b").unwrap();
    assert_eq!(get_current_api(Some(c)).unwrap(), "b");
}

#[test]
fn set_current_to_unknown_fails() {
    let c = config("a", &[("a", "u1", "k1")]);
    match set_current_api(c, "q") {
        Err(CliError::Config(m)) => assert_eq!(m, "API 'q' not found"),
        other => panic!("{:?}", other),
    }
}

#[test]
fn command_line_wins() {
    let c = cli(Some("https://cli"), Some("ck"));
    assert!(!needs_config_file(&c, &Some("e".into()), &None));
    let r = resolve_connection(&c, Some("https://env".into()), Some("ek".into()), Some(config("a", &[("a", "u", "k")]))).unwrap();
    assert_eq!(r.url, "https://cli");
    assert_eq!(r.secret_key, Some("ck".to_string()));
}

#[test]
fn environment_wins_over_file() {
    let c = cli(None, Some("ignored"));
    assert!(!needs_config_file(&c, &Some("e".into()), &Some("k".into())));
    let r = resolve_connection(&c, Some("https://env".into()), Some("ek".into()), Some(config("a", &[("a", "u", "k")]))).unwrap();
    assert_eq!(r.url, "https://env");
    assert_eq!(r.secret_key, Some("ek".to_string()));
}

#[test]
fn url_alone_is_enough() {
    let c = cli(Some("https://connect.test/links/PUBLIC/api/v1"), None);
    assert!(!needs_config_file(&c, &None, &None));
    let r = resolve_connection(&c, None, None, None).unwrap();
    assert_eq!(r.url, "https://connect.test/links/PUBLIC/api/v1");
    assert_eq!(r.secret_key, None);
}

#[test]
fn command_line_url_wins_over_environment() {
    let c = cli(Some("https://cli"), None);
    let r = resolve_connection(&c, Some("https://env".into()), Some("ek".into()), None).unwrap();
    assert_eq!(r.url, "https://cli");
    assert_eq!(r.secret_key, None);
}

#[test]
fn config_file_current_api_is_used() {
    let c = cli(None, None);
    assert!(needs_config_file(&c, &Some("e".into()), &None));
    let file = config("b", &[("a", "ua", "ka"), ("b", "ub", "kb")]);
    let r = resolve_connection(&c, Some("only-api".into()), None, Some(file)).unwrap();
    assert_eq!(r.url, "ub");
    assert_eq!(r.secret_key, Some("kb".to_string()));
}

#[test]
fn unknown_current_api_in_file_fails() {
    let file = config("gone", &[("a", "ua", "ka")]);
    match resolve_connection(&cli(None, None), None, None, Some(file)) {
        Err(CliError::Config(m)) => assert_eq!(m, "Current API 'gone' not found in config file"),
        other => panic!("{:?}", other),
    }
}

#[test]
fn nothing_configured_fails() {
    match resolve_connection(&cli(None, None), None, None, None) {
        Err(CliError::Config(m)) => assert_eq!(
            m,
            "No API configured. Use --api/--key, CRAFT_API/CRAFT_KEY env, or create a config file"
        ),
        other => panic!("{:?}", other),
    }
}

fn cand(path: &str, exists: bool) -> Option<ConfigCandidate> {
    Some(ConfigCandidate { path: path.to_string(), exists })
}

#[test]
fn config_file_search_order() {
    assert_eq!(find_config_file(cand("/s", true), cand("/l", true), cand("/u", true)), Some("/s".to_string()));
    assert_eq!(find_config_file(cand("/s", false), cand("/l", true), cand("/u", true)), Some("/l".to_string()));
    assert_eq!(find_config_file(None, cand("/l", false), cand("/u", true)), Some("/u".to_string()));
    assert_eq!(find_config_file(None, cand("/l", false), cand("/u", false)), None);
    assert_eq!(find_config_file(None, None, cand("/u", true)), None);
    assert_eq!(find_config_file(None, cand("/l", false), None), None);
}

#[test]
fn named_connection_is_used() {
    let file = config("a", &[("a", "ua", "ka"), ("b", "ub", "")]);
    let r = resolve_connection(&cli_conn(None, None, Some("b")), None, None, Some(file)).unwrap();
    assert_eq!(r.url, "ub");
    assert_eq!(r.secret_key, None);
    let file = config("a", &[("a", "ua", "ka")]);
    match resolve_connection(&cli_conn(None, None, Some("zz")), None, None, Some(file)) {
        Err(CliError::Config(m)) => assert_eq!(m, "Current API 'zz' not found in config file"),
        other => panic!("{:?}", other),
    }
}

#[test]
fn first_added_api_is_used_without_flags() {
    let c = add_api(None, "daily", "https://a.test/links/X/api/v1", None);
    let r = resolve_connection(&cli(None, None), None, None, Some(c)).unwrap();
    assert_eq!(r.url, "https://a.test/links/X/api/v1");
    assert_eq!(r.secret_key, None);
}

#[test]
fn made_current_api_is_used() {
    let c = config("a", &[("a", "ua", "ka"), ("b", "ub", "kb")]);
    let c = set_current_api(c, "b").unwrap();
    let r = resolve_connection(&cli(None, None), None, None, Some(c)).unwrap();
    assert_eq!(r.url, "ub");
    assert_eq!(r.secret_key, Some("kb".to_string()));
}

#[test]
fn config_file_names_join_their_directories() {
    assert_eq!(local_config_path("/work/dir"), "/work/dir/craft-cli.json");
    assert_eq!(local_config_path("/work/dir/"), "/work/dir/craft-cli.json");
    assert_eq!(user_config_path("/home/u/.config/craft-cli"), "/home/u/.config/craft-cli/config.json");
    assert_eq!(user_config_path(""), "config.json");
}
