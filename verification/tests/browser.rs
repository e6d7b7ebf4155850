use puprs::browser::{ensure_user_data_dir, flatten_args, split_switch, ws_url_from_line, BrowserLauncher, HeadlessMode};

fn has(args: &[(String, Option<String>)], name: &str, value: Option<&str>) -> bool {
    args.iter().any(|(k, v)| k == name && v.as_deref() == value)
}

#[test]
fn launcher_starts_from_the_default_switches() {
    let o = BrowserLauncher::new().into_options();
    assert_eq!(o.args.len(), 19);
    assert!(has(&o.args, "--remote-debugging-port", Some("0")));
    assert!(has(&o.args, "--headless", None));
    assert!(o.executable.is_none());
    assert!(o.launch_timeout.is_none());
}

#[test]
fn arg_splits_at_the_first_equals_sign() {
    assert_eq!(split_switch("--window-size=800,600"), ("--window-size".to_string(), Some("800,600".to_string())));
    assert_eq!(split_switch("--a=b=c"), ("--a".to_string(), Some("b=c".to_string())));
    assert_eq!(split_switch("--kiosk"), ("--kiosk".to_string(), None));
    let o = BrowserLauncher::new().arg("--proxy-server=http://p:1").into_options();
    assert!(has(&o.args, "--proxy-server", Some("http://p:1")));
}

#[test]
fn headless_modes() {
    let o = BrowserLauncher::new().headless(HeadlessMode::False).into_options();
    assert!(!o.args.iter().any(|(k, _)| k == "--headless"));
    assert_eq!(o.args.len(), 18);
    let o = BrowserLauncher::new().headless(HeadlessMode::New).into_options();
    assert!(has(&o.args, "--headless", Some("new")));
    let o = BrowserLauncher::new().no_sandbox().user_data_dir("/tmp/p").into_options();
    assert!(has(&o.args, "--no-sandbox", None));
    assert!(has(&o.args, "--disable-setuid-sandbox", None));
    assert!(has(&o.args, "--user-data-dir", Some("/tmp/p")));
}

#[test]
fn profile_directory_is_added_once_and_args_flatten() {
    let mut args = vec![("--a".to_string(), None), ("--b".to_string(), Some("1".to_string()))];
    assert!(ensure_user_data_dir(&mut args, "/tmp/x"));
    assert!(!ensure_user_data_dir(&mut args, "/tmp/y"));
    assert_eq!(flatten_args(&args), vec!["--a".to_string(), "--b=1".to_string(), "--user-data-dir=/tmp/x".to_string()]);
}

#[test]
fn websocket_address_is_read_from_the_listening_line() {
    assert_eq!(
        ws_url_from_line("DevTools listening on ws://127.0.0.1:9222/devtools/browser/abc\n"),
        Some("ws://127.0.0.1:9222/devtools/browser/abc".to_string())
    );
    assert_eq!(ws_url_from_line("DevTools listening on http://x\n"), None);
    assert_eq!(ws_url_from_line("some other line"), None);
}
