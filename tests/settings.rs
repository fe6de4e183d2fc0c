use mpesa_rs::DatabaseSettings;

#[test]
fn connection_url_joins_parts() {
    let db = DatabaseSettings {
        username: "user".to_string(),
        password: "pw".to_string(),
        host: "localhost".to_string(),
        port: 5432,
        database_name: "mpesa".to_string(),
    };
    assert_eq!(db.connection_url(), "postgres://user:pw@localhost:5432/mpesa");
}

#[test]
fn connection_url_port_zero() {
    let db = DatabaseSettings {
        username: "u".to_string(),
        password: "p".to_string(),
        host: "h".to_string(),
        port: 0,
        database_name: "d".to_string(),
    };
    assert_eq!(db.connection_url(), "postgres://u:p@h:0/d");
}
