use authbase::dialect::DatabaseScheme;
use authbase::schema::{SchemaManager, Table};

fn mock_group_table() -> Table {
    Table {
        name: "groups".to_string(),
        dependencies: vec![],
        create_sql: "CREATE TABLE groups;".to_string(),
        dispose_sql: "DROP TABLE groups;".to_string(),
    }
}

fn mock_user_table() -> Table {
    Table {
        name: "users".to_string(),
        dependencies: vec!["groups".to_string()],
        create_sql: "CREATE TABLE users;".to_string(),
        dispose_sql: "DROP TABLE users;".to_string(),
    }
}

fn mock_tool_table() -> Table {
    Table {
        name: "tools".to_string(),
        dependencies: vec!["groups".to_string()],
        create_sql: "CREATE TABLE tools;".to_string(),
        dispose_sql: "DROP TABLE tools;".to_string(),
    }
}

fn mock_user_region_table() -> Table {
    Table {
        name: "users_tools_link".to_string(),
        dependencies: vec!["users".to_string(), "tools".to_string()],
        create_sql: "CREATE TABLE users_tools_link;".to_string(),
        dispose_sql: "DROP TABLE users_tools_link;".to_string(),
    }
}

#[test]
fn test_correct_creation_order() {
    let tables: Vec<Table> = vec![
        mock_user_region_table(),
        mock_tool_table(),
        mock_user_table(),
        mock_group_table(),
    ];

    let manager = SchemaManager::new(tables).unwrap();
    let statements = manager.create_schema(&DatabaseScheme::POSTGRES);

    assert_eq!(statements[0], "CREATE TABLE groups;");
    assert_eq!(statements[1], "CREATE TABLE users;");
    assert_eq!(statements[2], "CREATE TABLE tools;");
    assert_eq!(statements[3], "CREATE TABLE users_tools_link;");
}

#[test]
fn dispose_is_exact_reverse_of_creation() {
    let tables: Vec<Table> = vec![
        mock_user_region_table(),
        mock_tool_table(),
        mock_user_table(),
        mock_group_table(),
    ];

    let manager = SchemaManager::new(tables).unwrap();
    let drops = manager.dispose_schema();

    assert_eq!(drops[0], "DROP TABLE users_tools_link;");
    assert_eq!(drops[1], "DROP TABLE tools;");
    assert_eq!(drops[2], "DROP TABLE users;");
    assert_eq!(drops[3], "DROP TABLE groups;");
}

#[test]
fn cyclic_dependencies_are_rejected() {
    let a = Table {
        name: "a".to_string(),
        dependencies: vec!["b".to_string()],
        create_sql: "CREATE TABLE a;".to_string(),
        dispose_sql: "DROP TABLE a;".to_string(),
    };
    let b = Table {
        name: "b".to_string(),
        dependencies: vec!["a".to_string()],
        create_sql: "CREATE TABLE b;".to_string(),
        dispose_sql: "DROP TABLE b;".to_string(),
    };
    assert!(SchemaManager::new(vec![a, b]).is_err());
}

#[test]
fn undeclared_dependency_is_rejected() {
    let orphan = Table {
        name: "orphan".to_string(),
        dependencies: vec!["missing".to_string()],
        create_sql: "CREATE TABLE orphan;".to_string(),
        dispose_sql: "DROP TABLE orphan;".to_string(),
    };
    assert!(SchemaManager::new(vec![orphan]).is_err());
}

#[test]
fn self_dependency_is_rejected() {
    let knot = Table {
        name: "knot".to_string(),
        dependencies: vec!["knot".to_string()],
        create_sql: "CREATE TABLE knot;".to_string(),
        dispose_sql: "DROP TABLE knot;".to_string(),
    };
    assert!(SchemaManager::new(vec![knot]).is_err());
}

#[test]
fn empty_schema_is_accepted() {
    let manager = SchemaManager::new(vec![]).unwrap();
    assert!(manager.create_schema(&DatabaseScheme::SQLITE).is_empty());
    assert!(manager.dispose_schema().is_empty());
}

#[test]
fn default_schema_holds_the_user_table() {
    let manager = SchemaManager::default();
    let statements = manager.create_schema(&DatabaseScheme::SQLITE);
    assert_eq!(statements.len(), 1);
    assert!(statements[0].contains("users"));
    let drops = manager.dispose_schema();
    assert_eq!(drops, vec!["DROP TABLE IF EXISTS users".to_string()]);
}

#[test]
fn creation_statements_are_translated_per_dialect() {
    let t = Table {
        name: "widgets".to_string(),
        dependencies: vec![],
        create_sql: "CREATE TABLE widgets AS SELECT $1 AS seed".to_string(),
        dispose_sql: "DROP TABLE widgets".to_string(),
    };
    let manager = SchemaManager::new(vec![t]).unwrap();
    let pg = manager.create_schema(&DatabaseScheme::POSTGRES);
    let my = manager.create_schema(&DatabaseScheme::MYSQL);
    assert_eq!(pg[0], "CREATE TABLE widgets AS SELECT $1 AS seed");
    assert_eq!(my[0], "CREATE TABLE widgets AS SELECT ? AS seed");
}
