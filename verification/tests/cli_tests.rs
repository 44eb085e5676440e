use ghpc::cli::{password_from_stdin, resolve_credentials, Cli, PasswordSource, UsernameSource};
use ghpc::errors::GhpcError;

fn cli() -> Cli {
    Cli {
        username: None,
        password: None,
        quiet: false,
        verbose: false,
        force: false,
        status: false,
        json: false,
        password_stdin: false,
        print_token: false,
    }
}

#[test]
fn clap_metadata_matches_crate_metadata() {
    let command = Cli::command();

    assert_eq!(command.get_name(), "ghpc");
    assert_eq!(command.get_version(), Some("26.4.12"));
}

#[test]
fn logger_options_follow_flags() {
    let mut c = cli();
    c.quiet = true;
    c.json = true;
    let o = c.get_logger_options();
    assert!(o.quiet);
    assert!(!o.verbose);
    assert!(o.json);
}

#[test]
fn credentials_from_options() {
    let mut c = cli();
    c.username = Some("alice".to_string());
    c.password = Some("secret".to_string());
    match resolve_credentials(&c) {
        Ok((UsernameSource::Given(u), PasswordSource::Given(p))) => {
            assert_eq!(u, "alice");
            assert_eq!(p, "secret");
        }
        other => panic!("unexpected {:?}", other),
    }
}

#[test]
fn empty_options_are_prompted_for() {
    let mut c = cli();
    c.username = Some(String::new());
    c.password = Some(String::new());
    assert!(matches!(
        resolve_credentials(&c),
        Ok((UsernameSource::Prompt, PasswordSource::Prompt))
    ));
}

#[test]
fn password_stdin_needs_username() {
    let mut c = cli();
    c.password_stdin = true;
    let err = resolve_credentials(&c).unwrap_err();
    assert!(matches!(err, GhpcError::UsernameRequired));
    assert_eq!(
        err.message(),
        "Username is required when using --password-stdin. Pass --username or set HPC_USERNAME"
    );
    c.username = Some("bob".to_string());
    c.password = Some("ignored".to_string());
    assert!(matches!(
        resolve_credentials(&c),
        Ok((UsernameSource::Given(_), PasswordSource::Stdin))
    ));
}

#[test]
fn stdin_password_loses_line_ends() {
    assert_eq!(password_from_stdin("hunter2\r\n\n").unwrap(), "hunter2");
    assert_eq!(password_from_stdin("a b\n").unwrap(), "a b");
    assert_eq!(password_from_stdin(" x ").unwrap(), " x ");
    let err = password_from_stdin("\n\r\n").unwrap_err();
    assert!(matches!(err, GhpcError::EmptyStdinPassword));
    assert_eq!(err.message(), "Password read from stdin was empty");
    assert!(password_from_stdin("").is_err());
}
