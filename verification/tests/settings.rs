use bb8_surrealdb2::endpoint::push_decimal;
use bb8_surrealdb2::errors::{ConnectionError, DatabaseConnectionErrors};
use bb8_surrealdb2::{DatabaseSettings, DatabaseType};

fn network(db_type: DatabaseType) -> DatabaseSettings {
    DatabaseSettings {
        db_type,
        username: "root".to_string(),
        password: "secret".to_string(),
        port: 8000,
        host: "localhost".to_string(),
        path: String::new(),
        namespace: "test".to_string(),
        database_name: "test".to_string(),
    }
}

fn err(kind: DatabaseConnectionErrors) -> Result<(), ConnectionError> {
    Err(ConnectionError { error: kind })
}

#[test]
fn memory_settings_hold_only_namespace_and_database_name() {
    let s = DatabaseSettings::new_memory_db("ns".to_string(), "db".to_string());
    assert_eq!(s.db_type, DatabaseType::Memory);
    assert_eq!(s.username, "");
    assert_eq!(s.password, "");
    assert_eq!(s.port, 0);
    assert_eq!(s.host, "");
    assert_eq!(s.path, "");
    assert_eq!(s.namespace, "ns");
    assert_eq!(s.database_name, "db");
}

#[test]
fn file_settings_hold_path_namespace_and_database_name() {
    let s = DatabaseSettings::new_file_db(
        "/var/lib/data".to_string(),
        "ns".to_string(),
        "db".to_string(),
    );
    assert_eq!(s.db_type, DatabaseType::File);
    assert_eq!(s.username, "");
    assert_eq!(s.password, "");
    assert_eq!(s.port, 0);
    assert_eq!(s.host, "");
    assert_eq!(s.path, "/var/lib/data");
    assert_eq!(s.namespace, "ns");
    assert_eq!(s.database_name, "db");
}

#[test]
fn construction_checks_nothing() {
    let s = DatabaseSettings::new_memory_db(String::new(), String::new());
    assert_eq!(s.namespace, "");
    assert_eq!(s.validate(), err(DatabaseConnectionErrors::InvalidNamespace));
}

#[test]
fn valid_settings_pass_validation() {
    assert_eq!(
        DatabaseSettings::new_memory_db("test".to_string(), "test".to_string()).validate(),
        Ok(())
    );
    assert_eq!(
        DatabaseSettings::new_file_db(String::new(), "a".to_string(), "b".to_string()).validate(),
        Ok(())
    );
    assert_eq!(network(DatabaseType::WebSocket).validate(), Ok(()));
    assert_eq!(network(DatabaseType::WebSocketSecure).validate(), Ok(()));
}

#[test]
fn validation_reports_the_first_failing_check() {
    let mut s = network(DatabaseType::WebSocket);
    s.password = String::new();
    assert_eq!(s.validate(), err(DatabaseConnectionErrors::InvalidPassword));
    s.username = String::new();
    assert_eq!(s.validate(), err(DatabaseConnectionErrors::InvalidUsername));
    s.port = 1024;
    assert_eq!(s.validate(), err(DatabaseConnectionErrors::InvalidPort));
    s.host = String::new();
    assert_eq!(s.validate(), err(DatabaseConnectionErrors::InvalidHost));
    s.database_name = String::new();
    assert_eq!(s.validate(), err(DatabaseConnectionErrors::InvalidDatabaseName));
    s.namespace = String::new();
    assert_eq!(s.validate(), err(DatabaseConnectionErrors::InvalidNamespace));
}

#[test]
fn embedded_backends_ignore_the_network_fields() {
    let mut s = network(DatabaseType::Memory);
    s.host = String::new();
    s.port = 0;
    s.username = String::new();
    s.password = String::new();
    assert_eq!(s.validate(), Ok(()));
    s.db_type = DatabaseType::File;
    assert_eq!(s.validate(), Ok(()));
}

#[test]
fn decimal_of_a_port() {
    let cases: [(u16, &str); 9] = [
        (0, "0"),
        (7, "7"),
        (9, "9"),
        (10, "10"),
        (99, "99"),
        (100, "100"),
        (1024, "1024"),
        (8000, "8000"),
        (65535, "65535"),
    ];
    for (n, text) in cases {
        let mut out = String::new();
        push_decimal(&mut out, n);
        assert_eq!(out, text);
    }
}

#[test]
fn decimal_is_appended_to_what_is_there() {
    let mut out = "port=".to_string();
    push_decimal(&mut out, 12345);
    assert_eq!(out, "port=12345");
    push_decimal(&mut out, 6);
    assert_eq!(out, "port=123456");
}

#[test]
fn decimal_agrees_with_the_standard_rendering() {
    for n in [1u16, 12, 123, 1234, 12345, 1025, 2379, 40000, 65534] {
        let mut out = String::new();
        push_decimal(&mut out, n);
        assert_eq!(out, n.to_string());
    }
}

#[test]
fn endpoint_of_each_served_backend() {
    let s = DatabaseSettings::new_memory_db("test".to_string(), "test".to_string());
    assert_eq!(s.endpoint(), "mem://");
    let s = DatabaseSettings::new_file_db(
        "path/to/database-folder".to_string(),
        "test".to_string(),
        "test".to_string(),
    );
    assert_eq!(s.endpoint(), "rocksdb://path/to/database-folder");
    assert_eq!(network(DatabaseType::WebSocket).endpoint(), "ws://localhost:8000");
    assert_eq!(
        network(DatabaseType::WebSocketSecure).endpoint(),
        "wss://localhost:8000"
    );
}

#[test]
fn endpoint_of_an_unserved_backend_is_empty() {
    for db_type in [
        DatabaseType::KeyValue,
        DatabaseType::Http,
        DatabaseType::Https,
        DatabaseType::Indxdb,
        DatabaseType::TiKV,
        DatabaseType::FoundationDB,
    ] {
        assert_eq!(network(db_type).endpoint(), "");
    }
}

#[test]
fn file_endpoint_with_empty_path_is_the_scheme_alone() {
    let s = DatabaseSettings::new_file_db(String::new(), "a".to_string(), "b".to_string());
    assert_eq!(s.endpoint(), "rocksdb://");
}
