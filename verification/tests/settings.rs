use notary::config::{pg_dsn, port, Config, ConfigErr};

fn base() -> Config {
    Config {
        rust_log: "auth-rs-warp=debug".to_string(),
        rust_backtrace: "1".to_string(),
        http_port: 8080,
        pg_dsn: None,
        pg_user: None,
        pg_pass: None,
        pg_db: None,
        pg_host: None,
        keyfile_path: "./.config/keys/keypair_sign".to_string(),
    }
}

fn with_vars(mut c: Config) -> Config {
    c.pg_user = Some("u".to_string());
    c.pg_pass = Some("p".to_string());
    c.pg_host = Some("h:5432".to_string());
    c.pg_db = Some("db".to_string());
    c
}

#[test]
fn address_is_written_from_the_four_settings() {
    let c = with_vars(base());
    assert_eq!(c.pg_dsn_from_env_vars(), Some("postgres://u:p@h:5432/db".to_string()));
    assert_eq!(c.pg_dsn(), Ok("postgres://u:p@h:5432/db".to_string()));
    assert_eq!(pg_dsn(&c), "postgres://u:p@h:5432/db");
    assert_eq!(c.pg_env_vars(), Ok(Some(("u", "p", "h:5432", "db"))));
}

#[test]
fn address_set_outright_wins() {
    let mut c = base();
    c.pg_dsn = Some("postgres://a:b@c/d".to_string());
    assert_eq!(c.pg_dsn(), Ok("postgres://a:b@c/d".to_string()));
    assert_eq!(c.pg_dsn_from_env_vars(), None);
    assert_eq!(c.pg_env_vars(), Ok(None));
    assert_eq!(c.validate(), Ok(()));
}

#[test]
fn no_address_at_all_is_an_error() {
    let c = base();
    assert_eq!(c.pg_dsn(), Err(ConfigErr::NoPgDsn));
    assert_eq!(c.validate(), Ok(()));
}

#[test]
fn port_zero_is_refused() {
    let mut c = with_vars(base());
    c.http_port = 0;
    assert_eq!(c.validate(), Err(ConfigErr::PortZero));
    assert_eq!(port(&c), 0);
    assert_eq!(port(&base()), 8080);
}

#[test]
fn some_of_the_four_settings_are_refused() {
    let mut c = with_vars(base());
    c.pg_pass = None;
    assert_eq!(c.pg_env_vars(), Err(ConfigErr::PartialPgEnvVars));
    assert_eq!(c.validate(), Err(ConfigErr::PartialPgEnvVars));
    assert_eq!(c.pg_dsn_from_env_vars(), None);
    let mut c = base();
    c.pg_db = Some("db".to_string());
    assert_eq!(c.validate(), Err(ConfigErr::PartialPgEnvVars));
}

#[test]
fn address_and_settings_must_agree() {
    let mut c = with_vars(base());
    c.pg_dsn = Some("postgres://u:p@h:5432/db".to_string());
    assert_eq!(c.validate(), Ok(()));
    c.pg_dsn = Some("postgres://u:p@h:5432/other".to_string());
    assert_eq!(c.validate(), Err(ConfigErr::DsnMismatch));
}
