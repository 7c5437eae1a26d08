use dft::execution::{AppExecution, AppType, FlightSQLContext};

#[test]
fn latest_client_wins() {
    let mut ctx: FlightSQLContext<&str> = FlightSQLContext::new("http://a:50051".to_string());
    assert_eq!(ctx.install_client::<String>(Ok("client-a")), Ok(()));
    assert_eq!(ctx.install_client::<String>(Ok("client-b")), Ok(()));
    assert_eq!(*ctx.client(), Some("client-b"));
    assert_eq!(ctx.target().as_deref(), Some("http://a:50051"));
}

#[test]
fn failed_connection_leaves_client_untouched() {
    let mut ctx: FlightSQLContext<&str> = FlightSQLContext::unconfigured();
    assert_eq!(*ctx.client(), None);
    assert_eq!(ctx.install_client(Err::<&str, String>("refused".to_string())), Err("refused".to_string()));
    assert_eq!(*ctx.client(), None);
    assert_eq!(ctx.install_client::<String>(Ok("client-a")), Ok(()));
    assert_eq!(ctx.install_client(Err::<&str, String>("refused".to_string())), Err("refused".to_string()));
    assert_eq!(*ctx.client(), Some("client-a"));
}

#[test]
fn facade_from_built_context() {
    let mut app: AppExecution<u8, &str> = AppExecution::new(3);
    assert_eq!(*app.execution_ctx(), 3);
    assert_eq!(*app.flightsql_client(), None);
    assert!(app.flightsql_ctx().target().is_none());
    let mut remote = FlightSQLContext::new("http://b:50051".to_string());
    assert_eq!(remote.install_client::<String>(Ok("client-b")), Ok(()));
    app.with_flightsql_ctx(remote);
    assert_eq!(*app.flightsql_client(), Some("client-b"));
    assert_eq!(*app.execution_ctx(), 3);
}

#[test]
fn facade_from_config() {
    let app: Result<AppExecution<u8, &str>, String> =
        AppExecution::try_new_from_config(Ok(1), "http://c:50051".to_string());
    let app = app.unwrap();
    assert_eq!(*app.execution_ctx(), 1);
    assert_eq!(app.flightsql_ctx().target().as_deref(), Some("http://c:50051"));
    assert_eq!(*app.flightsql_client(), None);
}

#[test]
fn construction_error_is_handed_back() {
    let app: Result<AppExecution<u8, &str>, String> =
        AppExecution::try_new_from_config(Err("extension failed".to_string()), "http://c".to_string());
    assert_eq!(app.err(), Some("extension failed".to_string()));
}

#[test]
fn app_types_are_distinct() {
    assert_ne!(AppType::Cli, AppType::Tui);
    assert_ne!(AppType::Tui, AppType::FlightSQLServer);
}

#[test]
fn failed_connection_keeps_target_and_client() {
    let mut ctx: FlightSQLContext<&str> = FlightSQLContext::new("http://d:50051".to_string());
    assert_eq!(ctx.install_client::<String>(Ok("client-d")), Ok(()));
    assert_eq!(ctx.install_client(Err::<&str, String>("down".to_string())), Err("down".to_string()));
    assert_eq!(*ctx.client(), Some("client-d"));
    assert_eq!(ctx.target().as_deref(), Some("http://d:50051"));
}
