use backend::{
    advance, health_check, resolve_config, route, stats, Action, Endpoint, Phase, QueryError,
    StartupError,
};

fn run(outcomes: &[bool]) -> (Phase, Vec<Action>) {
    let mut phase = Phase::Unconfigured;
    let mut actions = Vec::new();
    for &ok in outcomes {
        let (next, action) = advance(phase, ok);
        phase = next;
        actions.push(action);
    }
    (phase, actions)
}

#[test]
fn health_reports_ok() {
    assert_eq!(health_check().status, "ok");
}

#[test]
fn health_is_repeatable() {
    let a = health_check();
    let b = health_check();
    assert_eq!(a.status, b.status);
    assert_eq!(route("GET", "/health").status(), 200);
}

#[test]
fn stats_empty_table() {
    assert_eq!(stats(Ok(0)).proposition_count, 0);
    assert_eq!(route("GET", "/api/stats").status(), 200);
}

#[test]
fn stats_forty_two_rows() {
    assert_eq!(stats(Ok(42)).proposition_count, 42);
}

#[test]
fn stats_store_dropped() {
    assert_eq!(stats(Err(QueryError)).proposition_count, 0);
    assert_eq!(route("GET", "/api/stats").status(), 200);
}

#[test]
fn stats_negative_is_not_a_count() {
    assert_eq!(stats(Ok(-5)).proposition_count, 0);
}

#[test]
fn stats_large_count() {
    assert_eq!(stats(Ok(i64::MAX)).proposition_count, i64::MAX);
}

#[test]
fn unknown_path_is_not_found() {
    let e = route("GET", "/unknown");
    assert_eq!(e, Endpoint::NotFound);
    assert_eq!(e.status(), 404);
    assert_eq!(route("GET", "/health"), Endpoint::Health);
    assert_eq!(health_check().status, "ok");
}

#[test]
fn routes_match_exactly() {
    assert_eq!(route("GET", "/api/stats"), Endpoint::Stats);
    assert_eq!(route("POST", "/health"), Endpoint::NotFound);
    assert_eq!(route("GET", "/health/"), Endpoint::NotFound);
    assert_eq!(route("GET", "/api/stat"), Endpoint::NotFound);
    assert_eq!(route("get", "/health"), Endpoint::NotFound);
    assert_eq!(route("GET", ""), Endpoint::NotFound);
}

#[test]
fn missing_password_is_configuration_error() {
    let r = resolve_config(None, Some("9000".to_string()));
    assert!(matches!(r, Err(StartupError::Configuration)));
    let (phase, actions) = run(&[false]);
    assert_eq!(phase, Phase::Terminated(StartupError::Configuration));
    assert_eq!(actions, vec![Action::Exit(StartupError::Configuration)]);
    assert_eq!(StartupError::Configuration.message(), "DB_PASSWORD must be set");
}

#[test]
fn config_defaults_port() {
    let c = resolve_config(Some("pw".to_string()), None).ok().unwrap();
    assert_eq!(c.bind_address, "0.0.0.0:8080");
    assert_eq!(c.target.host, "127.0.0.1");
    assert_eq!(c.target.port, 5433);
    assert_eq!(c.target.database, "knowledge_graph");
    assert_eq!(c.target.username, "app");
    assert_eq!(c.target.password, "pw");
    assert!(!c.target.use_tls);
    assert_eq!(c.max_connections, 10);
}

#[test]
fn config_uses_given_port() {
    let c = resolve_config(Some(String::new()), Some("3000".to_string())).ok().unwrap();
    assert_eq!(c.bind_address, "0.0.0.0:3000");
    assert_eq!(c.target.password, "");
}

#[test]
fn startup_succeeds_in_order() {
    let (phase, actions) = run(&[true, true, true, true]);
    assert_eq!(phase, Phase::Serving);
    assert_eq!(
        actions,
        vec![Action::ConnectPool, Action::RunMigrations, Action::BindListener, Action::Serve]
    );
}

#[test]
fn pool_failure_never_binds() {
    let (phase, actions) = run(&[true, false, true, true, true]);
    assert_eq!(phase, Phase::Terminated(StartupError::Connection));
    assert!(!actions.contains(&Action::BindListener));
    assert!(!actions.contains(&Action::Serve));
}

#[test]
fn migration_failure_never_binds() {
    let (phase, actions) = run(&[true, true, false, true]);
    assert_eq!(phase, Phase::Terminated(StartupError::Migration));
    assert!(!actions.contains(&Action::BindListener));
    assert_eq!(StartupError::Migration.message(), "Failed to run migrations");
}

#[test]
fn bind_failure_never_serves() {
    let (phase, actions) = run(&[true, true, true, false, true]);
    assert_eq!(phase, Phase::Terminated(StartupError::Bind));
    assert!(!actions.contains(&Action::Serve));
    assert_eq!(StartupError::Bind.message(), "Failed to bind address");
    assert_eq!(StartupError::Connection.message(), "Failed to connect to database");
}

#[test]
fn serving_stays_serving() {
    assert_eq!(advance(Phase::Serving, false), (Phase::Serving, Action::Serve));
}
