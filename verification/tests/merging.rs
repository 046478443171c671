use nabu::auth::resolve_authentication;
use nabu::auth::AuthenticationMethod;
use nabu::auth::SetupError;
use nabu::config::default_delay;
use nabu::config::Config;
use nabu::config::WatchConfig;
use nabu::config::WatchOptions;

fn bare_options() -> WatchOptions {
    WatchOptions {
        directory: String::from("."),
        recursive: false,
        dry_run: false,
        delay: None,
        ignore: Vec::new(),
        settings_path: None,
        push_on_exit: false,
        push_timeout: None,
        use_agent: false,
        key_path: None,
        key_passphrase: String::new(),
        username: None,
        password: None,
    }
}

#[test]
fn built_in_defaults() {
    let c = Config::default();
    assert_eq!(c.delay, 30);
    assert_eq!(default_delay(), 30);
    assert_eq!(c.ignore, vec![String::from(".git")]);
    assert!(!c.push_on_exit);
}

#[test]
fn partial_settings_take_field_defaults() {
    let c = Config::from_partial(None, None, None);
    assert_eq!(c.delay, 30);
    assert_eq!(c.ignore, vec![String::from(".git")]);
    assert!(!c.push_on_exit);

    let c = Config::from_partial(Some(7), Some(vec![String::from("target")]), Some(true));
    assert_eq!(c.delay, 7);
    assert_eq!(c.ignore, vec![String::from("target")]);
    assert!(c.push_on_exit);
}

#[test]
fn delay_defaults_without_file_and_override() {
    let merged = WatchConfig::merge(&bare_options(), None, None).expect("defaults are valid");
    assert_eq!(merged.event_delay_seconds, 30);
    assert_eq!(merged.push_timeout_seconds, 5);
    assert!(!merged.push_on_exit);
    assert_eq!(merged.ignore_names, vec![String::from(".git")]);
}

#[test]
fn cli_delay_wins_over_settings() {
    let mut opts = bare_options();
    opts.delay = Some(3);
    let settings = Config::from_partial(Some(120), None, None);
    let merged = WatchConfig::merge(&opts, Some(settings), None).expect("valid");
    assert_eq!(merged.event_delay_seconds, 3);
}

#[test]
fn settings_delay_wins_over_default() {
    let settings = Config::from_partial(Some(120), None, None);
    let merged = WatchConfig::merge(&bare_options(), Some(settings), None).expect("valid");
    assert_eq!(merged.event_delay_seconds, 120);
}

#[test]
fn cli_ignore_wins_and_settings_fill_in() {
    let mut opts = bare_options();
    opts.ignore = vec![String::from(".obsidian")];
    let settings = Config::from_partial(None, Some(vec![String::from("build")]), None);
    let merged = WatchConfig::merge(&opts, Some(settings), None).expect("valid");
    assert_eq!(merged.ignore_names, vec![String::from(".obsidian")]);

    let settings = Config::from_partial(None, Some(vec![String::from("build")]), None);
    let merged = WatchConfig::merge(&bare_options(), Some(settings), None).expect("valid");
    assert_eq!(merged.ignore_names, vec![String::from("build")]);
}

#[test]
fn push_on_exit_comes_from_either_source() {
    let settings = Config::from_partial(None, None, Some(true));
    let merged = WatchConfig::merge(
        &bare_options(),
        Some(settings),
        Some(AuthenticationMethod::Agent),
    )
    .expect("valid");
    assert!(merged.push_on_exit);
    assert!(matches!(merged.auth_method, Some(AuthenticationMethod::Agent)));
}

#[test]
fn largest_delay_is_accepted() {
    let mut opts = bare_options();
    opts.delay = Some(u64::MAX);
    let merged = WatchConfig::merge(&opts, None, None).expect("valid");
    assert_eq!(merged.event_delay_seconds, u64::MAX);
}

#[test]
fn zero_delay_is_rejected() {
    let mut opts = bare_options();
    opts.delay = Some(0);
    let r = WatchConfig::merge(&opts, None, None);
    assert_eq!(r.err(), Some(SetupError::InvalidDelay));
}

#[test]
fn push_without_authentication_is_rejected() {
    let mut opts = bare_options();
    opts.push_on_exit = true;
    let r = WatchConfig::merge(&opts, None, None);
    assert_eq!(r.err(), Some(SetupError::UnresolvedAuthentication));
}

#[test]
fn agent_selection_resolves() {
    let r = resolve_authentication(true, &None, false, &String::new(), &None, &None, true);
    assert!(matches!(r, Ok(Some(AuthenticationMethod::Agent))));
}

#[test]
fn existing_key_resolves() {
    let r = resolve_authentication(
        false,
        &Some(String::from("/home/user/key")),
        true,
        &String::from("open sesame"),
        &None,
        &None,
        true,
    );
    match r {
        Ok(Some(AuthenticationMethod::Key { path, passphrase })) => {
            assert_eq!(path, "/home/user/key");
            assert_eq!(passphrase, "open sesame");
        }
        other => panic!("expected the key strategy, got {:?}", other),
    }
}

#[test]
fn missing_key_is_not_found() {
    let r = resolve_authentication(
        false,
        &Some(String::from("/home/user/absent")),
        false,
        &String::new(),
        &None,
        &None,
        false,
    );
    assert_eq!(r.err(), Some(SetupError::KeyNotFound));
}

#[test]
fn username_and_password_resolve() {
    let r = resolve_authentication(
        false,
        &None,
        false,
        &String::new(),
        &Some(String::from("user")),
        &Some(String::from("secret")),
        true,
    );
    match r {
        Ok(Some(AuthenticationMethod::UsernamePassword { username, password })) => {
            assert_eq!(username, "user");
            assert_eq!(password, "secret");
        }
        other => panic!("expected username and password, got {:?}", other),
    }
}

#[test]
fn unresolved_with_push_fails_fast() {
    let r = resolve_authentication(false, &None, false, &String::new(), &None, &None, true);
    assert_eq!(r.err(), Some(SetupError::UnresolvedAuthentication));
}

#[test]
fn unresolved_without_push_is_no_strategy() {
    let r = resolve_authentication(false, &None, false, &String::new(), &None, &None, false);
    assert!(matches!(r, Ok(None)));
}
