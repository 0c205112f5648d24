use webserver::cli::Cli;
use webserver::cli::Command;
use webserver::cli::DEFAULT_MIGRATIONS_DIR;
use webserver::config::load_env;
use webserver::config::EnvError;
use webserver::config::EnvErrorReason;

fn missing(name: &str) -> Result<(), EnvError> {
    Err(EnvError { name: name.to_string(), reason: EnvErrorReason::Missing })
}

#[test]
fn complete_environment_loads() {
    let results = vec![Ok(()), Ok(()), Ok(())];
    assert!(load_env(&results).is_ok());
    assert!(load_env(&Vec::new()).is_ok());
}

#[test]
fn every_error_is_reported_in_order() {
    let malformed = EnvError {
        name: "LISTEN_PORT".to_string(),
        reason: EnvErrorReason::Malformed("invalid digit found in string".to_string()),
    };
    let results =
        vec![Ok(()), missing("OIDC_DISCOVER_URL"), Ok(()), Err(malformed), missing("POSTGRES_DB")];
    let errors = load_env(&results).unwrap_err();
    let names: Vec<&str> = errors.iter().map(|error| error.name.as_str()).collect();
    assert_eq!(names, vec!["OIDC_DISCOVER_URL", "LISTEN_PORT", "POSTGRES_DB"]);
    assert!(matches!(errors[0].reason, EnvErrorReason::Missing));
    assert!(matches!(&errors[1].reason, EnvErrorReason::Malformed(why) if why.contains("digit")));
}

#[test]
fn single_error_fails_the_load() {
    let results = vec![Ok(()), Ok(()), missing("OIDC_CLIENT_SECRET")];
    let errors = load_env(&results).unwrap_err();
    assert_eq!(errors.len(), 1);
    assert_eq!(errors[0].name, "OIDC_CLIENT_SECRET");
}

#[test]
fn commands_carry_their_directory() {
    assert_eq!(DEFAULT_MIGRATIONS_DIR, "/migrations");
    let cli = Cli { command: Command::Migrate { migrations_dir: DEFAULT_MIGRATIONS_DIR.to_string() } };
    assert!(matches!(cli.command, Command::Migrate { migrations_dir } if migrations_dir == "/migrations"));
    assert!(matches!(Cli { command: Command::Start }.command, Command::Start));
}
