use postgis_image::image::{CopyDataSource, WaitFor};
use postgis_image::postgis::Postgis;
use postgis_image::postgres::Postgres;

fn entry(key: &str, value: &str) -> (String, String) {
    (key.to_string(), value.to_string())
}

#[test]
fn identity_is_fixed_override() {
    let derived = Postgis::default();
    let base = Postgres::default();
    assert_eq!(derived.name(), "postgis/postgis");
    assert_eq!(derived.tag(), "17-3.5");
    assert_ne!(derived.name(), base.name());
    assert_ne!(derived.tag(), base.tag());
}

#[test]
fn identity_survives_builder_calls() {
    let derived = Postgis::default()
        .with_host_auth()
        .with_db_name("geo")
        .with_user("admin")
        .with_password("secret")
        .with_init_sql(CopyDataSource::Data(b"SELECT 1;".to_vec()))
        .with_fsync_enabled();
    assert_eq!(derived.name(), "postgis/postgis");
    assert_eq!(derived.tag(), "17-3.5");
}

#[test]
fn credentials_reach_environment() {
    let derived = Postgis::default()
        .with_db_name("geo")
        .with_user("admin")
        .with_password("secret");
    let env = derived.env_vars();
    assert!(env.contains(&entry("POSTGRES_DB", "geo")));
    assert!(env.contains(&entry("POSTGRES_USER", "admin")));
    assert!(env.contains(&entry("POSTGRES_PASSWORD", "secret")));
    assert_eq!(derived.name(), "postgis/postgis");
    assert_eq!(derived.tag(), "17-3.5");
}

#[test]
fn init_sql_accumulates_in_order() {
    let first = CopyDataSource::Data(b"CREATE EXTENSION IF NOT EXISTS postgis;".to_vec());
    let second = CopyDataSource::Data(b"CREATE TABLE places (id BIGINT);".to_vec());
    let derived = Postgis::default()
        .with_init_sql(first.clone())
        .with_init_sql(second.clone());
    let staged = derived.copy_to_sources();
    assert_eq!(staged.len(), 2);
    assert_eq!(staged[0].source, first);
    assert_eq!(staged[1].source, second);
    assert_eq!(staged[0].target, "/docker-entrypoint-initdb.d/init_0.sql");
    assert_eq!(staged[1].target, "/docker-entrypoint-initdb.d/init_1.sql");
}

#[test]
fn init_sql_order_is_observable() {
    let first = CopyDataSource::Data(b"A".to_vec());
    let second = CopyDataSource::Data(b"B".to_vec());
    let ab = Postgis::default()
        .with_init_sql(first.clone())
        .with_init_sql(second.clone());
    let ba = Postgis::default()
        .with_init_sql(second.clone())
        .with_init_sql(first.clone());
    assert_ne!(ab.copy_to_sources(), ba.copy_to_sources());
    assert_eq!(ab.copy_to_sources()[0].source, first);
    assert_eq!(ba.copy_to_sources()[0].source, second);
}

#[test]
fn host_auth_sets_trust_marker() {
    let derived = Postgis::default().with_host_auth();
    let env = derived.env_vars();
    assert!(env.contains(&entry("POSTGRES_HOST_AUTH_METHOD", "trust")));
    assert!(env.contains(&entry("POSTGRES_USER", "postgres")));
    assert!(env.contains(&entry("POSTGRES_PASSWORD", "postgres")));
}

#[test]
fn trust_marker_absent_by_default() {
    let env = Postgis::default().env_vars();
    assert!(env.iter().all(|(key, _)| key != "POSTGRES_HOST_AUTH_METHOD"));
}

#[test]
fn default_matches_base_except_identity() {
    let derived = Postgis::default();
    let base = Postgres::default();
    assert_eq!(derived.env_vars(), base.env_vars());
    assert_eq!(derived.ready_conditions(), base.ready_conditions());
    assert_eq!(derived.copy_to_sources(), base.copy_to_sources());
    assert_eq!(derived.cmd(), base.cmd());
    assert_ne!(derived.name(), base.name());
    assert_ne!(derived.tag(), base.tag());
}

#[test]
fn default_environment_values() {
    let env = Postgis::default().env_vars();
    assert_eq!(
        env,
        vec![
            entry("POSTGRES_DB", "postgres"),
            entry("POSTGRES_USER", "postgres"),
            entry("POSTGRES_PASSWORD", "postgres"),
        ]
    );
}

#[test]
fn setters_idempotent_under_repetition() {
    let once = Postgis::default()
        .with_host_auth()
        .with_db_name("geo")
        .with_user("admin")
        .with_password("secret")
        .with_fsync_enabled();
    let twice = Postgis::default()
        .with_host_auth()
        .with_host_auth()
        .with_db_name("geo")
        .with_db_name("geo")
        .with_user("admin")
        .with_user("admin")
        .with_password("secret")
        .with_password("secret")
        .with_fsync_enabled()
        .with_fsync_enabled();
    assert_eq!(once.env_vars(), twice.env_vars());
    assert_eq!(once.ready_conditions(), twice.ready_conditions());
    assert_eq!(once.copy_to_sources(), twice.copy_to_sources());
    assert_eq!(once.cmd(), twice.cmd());
    assert_eq!(once.name(), twice.name());
    assert_eq!(once.tag(), twice.tag());
}

#[test]
fn fsync_toggle_changes_command() {
    let derived = Postgis::default();
    assert_eq!(
        derived.cmd(),
        vec!["postgres".to_string(), "-c".to_string(), "fsync=off".to_string()]
    );
    let derived = derived.with_fsync_enabled();
    assert_eq!(derived.cmd(), Vec::<String>::new());
}

#[test]
fn readiness_is_a_log_message() {
    let derived = Postgis::default().with_db_name("geo");
    assert_eq!(
        derived.ready_conditions(),
        vec![WaitFor::MessageOnStderr(
            "database system is ready to accept connections".to_string()
        )]
    );
}

#[test]
fn file_reference_source_is_kept_unresolved() {
    let derived = Postgis::default()
        .with_init_sql(CopyDataSource::File("./fixtures/init.sql".to_string()));
    let staged = derived.copy_to_sources();
    assert_eq!(staged.len(), 1);
    assert_eq!(
        staged[0].source,
        CopyDataSource::File("./fixtures/init.sql".to_string())
    );
    assert_eq!(staged[0].target, "/docker-entrypoint-initdb.d/init_0.sql");
}

#[test]
fn many_scripts_number_in_decimal() {
    let mut derived = Postgis::default();
    for i in 0..12u8 {
        derived = derived.with_init_sql(CopyDataSource::Data(vec![i]));
    }
    let staged = derived.copy_to_sources();
    assert_eq!(staged.len(), 12);
    assert_eq!(staged[9].target, "/docker-entrypoint-initdb.d/init_9.sql");
    assert_eq!(staged[10].target, "/docker-entrypoint-initdb.d/init_10.sql");
    assert_eq!(staged[11].target, "/docker-entrypoint-initdb.d/init_11.sql");
}

#[test]
fn branching_from_one_value_does_not_interfere() {
    let common = Postgis::default().with_db_name("geo");
    let with_admin = common.clone().with_user("admin");
    let with_guest = common.with_user("guest");
    assert!(with_admin.env_vars().contains(&entry("POSTGRES_USER", "admin")));
    assert!(with_guest.env_vars().contains(&entry("POSTGRES_USER", "guest")));
    assert!(with_admin.env_vars().contains(&entry("POSTGRES_DB", "geo")));
    assert!(with_guest.env_vars().contains(&entry("POSTGRES_DB", "geo")));
}
