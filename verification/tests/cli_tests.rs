use relaunch::cli::configure_monitor;
use relaunch::cli::make_launch_options;
use relaunch::cli::split_passthrough;
use relaunch::options::MonitorOptions;
use relaunch::options::UsageError;

fn strings(items: &[&str]) -> Vec<String> {
    items.iter().map(|s| s.to_string()).collect()
}

fn bytes(s: &str) -> Vec<u8> {
    s.as_bytes().to_vec()
}

#[test]
fn split_at_separator() {
    let args = strings(&["-a", "target", "--", "x", "y"]);
    let (head, tail) = split_passthrough(&args);
    assert_eq!(head, strings(&["-a", "target"]));
    assert_eq!(tail, strings(&["x", "y"]));
}

#[test]
fn split_without_separator() {
    let args = strings(&["-a", "target"]);
    let (head, tail) = split_passthrough(&args);
    assert_eq!(head, strings(&["-a", "target"]));
    assert_eq!(tail, Vec::<String>::new());
}

#[test]
fn split_drops_every_separator() {
    let args = strings(&["a", "--", "b", "--", "c"]);
    let (head, tail) = split_passthrough(&args);
    assert_eq!(head, strings(&["a"]));
    assert_eq!(tail, strings(&["b", "c"]));
}

#[test]
fn split_with_separator_first_and_last() {
    let args = strings(&["--", "b"]);
    let (head, tail) = split_passthrough(&args);
    assert_eq!(head, Vec::<String>::new());
    assert_eq!(tail, strings(&["b"]));

    let args = strings(&["a", "--"]);
    let (head, tail) = split_passthrough(&args);
    assert_eq!(head, strings(&["a"]));
    assert_eq!(tail, Vec::<String>::new());
}

#[test]
fn split_empty_arguments() {
    let args = Vec::<String>::new();
    let (head, tail) = split_passthrough(&args);
    assert!(head.is_empty());
    assert!(tail.is_empty());
}

#[test]
fn defaults_from_new() {
    let opts = MonitorOptions::new();
    assert_eq!(opts.max_restarts, None);
    assert!(!opts.restart_always);
    assert_eq!(opts.restart_interval, None);
    assert!(opts.stdout.is_none());
    assert!(opts.stderr.is_none());
    assert!(opts.log.is_none());
}

#[test]
fn configure_with_all_values() {
    let opts = configure_monitor(
        true,
        Some(bytes("5")),
        Some(bytes("30")),
        Some("out.txt".to_string()),
        Some("err.txt".to_string()),
        Some("log.txt".to_string()),
    )
    .unwrap();
    assert!(opts.restart_always);
    assert_eq!(opts.max_restarts, Some(5));
    assert_eq!(opts.restart_interval, Some(30));
    assert_eq!(opts.stdout, Some("out.txt".to_string()));
    assert_eq!(opts.stderr, Some("err.txt".to_string()));
    assert_eq!(opts.log, Some("log.txt".to_string()));
}

#[test]
fn configure_with_nothing_set() {
    let opts = configure_monitor(false, None, None, None, None, None).unwrap();
    assert_eq!(opts.max_restarts, None);
    assert!(!opts.restart_always);
    assert_eq!(opts.restart_interval, None);
    assert!(opts.stdout.is_none());
    assert!(opts.stderr.is_none());
    assert!(opts.log.is_none());
}

#[test]
fn configure_rejects_bad_max_restarts() {
    let r = configure_monitor(false, Some(bytes("three")), None, None, None, None);
    assert_eq!(r.unwrap_err(), UsageError::InvalidMaxRestarts);
}

#[test]
fn configure_rejects_bad_restart_interval() {
    let r = configure_monitor(false, None, Some(bytes("1.5")), None, None, None);
    assert_eq!(r.unwrap_err(), UsageError::InvalidRestartInterval);
}

#[test]
fn configure_reports_max_restarts_first() {
    let r = configure_monitor(false, Some(bytes("x")), Some(bytes("y")), None, None, None);
    assert_eq!(r.unwrap_err(), UsageError::InvalidMaxRestarts);
}

#[test]
fn configure_accepts_negative_bound() {
    let opts = configure_monitor(false, Some(bytes("-5")), None, None, None, None).unwrap();
    assert_eq!(opts.max_restarts, Some(-5));
}

#[test]
fn launch_options_require_exactly_one_target() {
    let r = make_launch_options(strings(&["prog"]), strings(&["-v"])).unwrap();
    assert_eq!(r.exe, "prog".to_string());
    assert_eq!(r.args, strings(&["-v"]));

    let r = make_launch_options(Vec::new(), Vec::new());
    assert_eq!(r.unwrap_err(), UsageError::InvalidTarget);

    let r = make_launch_options(strings(&["a", "b"]), Vec::new());
    assert_eq!(r.unwrap_err(), UsageError::InvalidTarget);
}
