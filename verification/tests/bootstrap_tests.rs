use authbase::bootstrap::{
    bootstrap_start, bootstrap_step, create_database_parts, reset_statements, BootstrapAction,
    BootstrapEvent, BootstrapState,
};
use authbase::dialect::DatabaseScheme;
use authbase::schema::{SchemaManager, Table};

fn two_table_manager() -> SchemaManager {
    let parent = Table {
        name: "parent".to_string(),
        dependencies: vec![],
        create_sql: "CREATE TABLE parent".to_string(),
        dispose_sql: "DROP TABLE parent".to_string(),
    };
    let child = Table {
        name: "child".to_string(),
        dependencies: vec!["parent".to_string()],
        create_sql: "CREATE TABLE child".to_string(),
        dispose_sql: "DROP TABLE child".to_string(),
    };
    SchemaManager::new(vec![child, parent]).unwrap()
}

#[test]
fn no_reset_statements_without_clean_start() {
    let manager = two_table_manager();
    let statements = reset_statements(&manager, &DatabaseScheme::POSTGRES, false);
    assert!(statements.is_empty());
}

#[test]
fn clean_start_reset_sequence_is_exact() {
    let manager = two_table_manager();
    let statements = reset_statements(&manager, &DatabaseScheme::POSTGRES, true);
    assert_eq!(
        statements,
        vec![
            "DROP TABLE IF EXISTS _sqlx_migrations".to_string(),
            "DROP TABLE child".to_string(),
            "DROP TABLE parent".to_string(),
            "CREATE TABLE parent".to_string(),
            "CREATE TABLE child".to_string(),
        ]
    );
}

#[test]
fn provisioned_run_never_asks_to_create() {
    // Probe succeeds: the happy path of an already-provisioned target.
    let (state, action) = bootstrap_start();
    assert_eq!(action, BootstrapAction::Probe);
    let mut state = state;
    let mut actions = vec![];
    for event in [
        BootstrapEvent::ProbeSucceeded,
        BootstrapEvent::PoolOpened,
        BootstrapEvent::MigrationsApplied,
    ] {
        let (next, action) = bootstrap_step(&state, &event, false, true);
        actions.push(action);
        state = next;
    }
    assert_eq!(state, BootstrapState::Ready);
    assert_eq!(
        actions,
        vec![
            BootstrapAction::OpenPool,
            BootstrapAction::RunMigrations,
            BootstrapAction::Done,
        ]
    );
    assert!(!actions.contains(&BootstrapAction::CreateDatabase));
    assert!(!actions.contains(&BootstrapAction::RunReset));
}

#[test]
fn failed_probe_asks_to_create() {
    let (state, _) = bootstrap_start();
    let (state, action) = bootstrap_step(&state, &BootstrapEvent::ProbeFailed, false, false);
    assert_eq!(state, BootstrapState::Creating);
    assert_eq!(action, BootstrapAction::CreateDatabase);
    let (state, action) = bootstrap_step(&state, &BootstrapEvent::DatabaseCreated, false, false);
    assert_eq!(state, BootstrapState::Connected);
    assert_eq!(action, BootstrapAction::OpenPool);
    let (state, action) = bootstrap_step(&state, &BootstrapEvent::PoolOpened, false, false);
    assert_eq!(state, BootstrapState::Ready);
    assert_eq!(action, BootstrapAction::Done);
}

#[test]
fn clean_start_run_resets_then_migrates() {
    let (state, _) = bootstrap_start();
    let (state, _) = bootstrap_step(&state, &BootstrapEvent::ProbeSucceeded, true, true);
    let (state, action) = bootstrap_step(&state, &BootstrapEvent::PoolOpened, true, true);
    assert_eq!(state, BootstrapState::Resetting);
    assert_eq!(action, BootstrapAction::RunReset);
    let (state, action) = bootstrap_step(&state, &BootstrapEvent::ResetApplied, true, true);
    assert_eq!(state, BootstrapState::Migrating);
    assert_eq!(action, BootstrapAction::RunMigrations);
    let (state, action) = bootstrap_step(&state, &BootstrapEvent::MigrationsApplied, true, true);
    assert_eq!(state, BootstrapState::Ready);
    assert_eq!(action, BootstrapAction::Done);
}

#[test]
fn any_failure_aborts() {
    let (state, _) = bootstrap_start();
    let (state, action) = bootstrap_step(&state, &BootstrapEvent::Failed, true, true);
    assert_eq!(state, BootstrapState::Failed);
    assert_eq!(action, BootstrapAction::Abort);
    // A mismatched answer is a protocol fault and aborts as well.
    let (fresh, _) = bootstrap_start();
    let (state, action) = bootstrap_step(&fresh, &BootstrapEvent::PoolOpened, false, false);
    assert_eq!(state, BootstrapState::Failed);
    assert_eq!(action, BootstrapAction::Abort);
}

#[test]
fn create_database_parts_splits_at_last_slash() {
    let parts = create_database_parts("postgres://localhost:5432/testdb").unwrap();
    assert_eq!(parts.0, "postgres://localhost:5432");
    assert_eq!(parts.1, "CREATE DATABASE testdb");
}

#[test]
fn create_database_parts_without_slash_is_none() {
    assert!(create_database_parts("nodatabase").is_none());
}
