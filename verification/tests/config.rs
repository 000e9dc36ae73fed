use mqtt_reader::config::{
    build_transport_config, ca_path, certificate_collection_path, database_path, insert_sql,
    keystore_path, schema_sql, subscription_qos, subscription_topic,
};

#[test]
fn certificate_collection_path_is_fixed() {
    assert_eq!(
        certificate_collection_path(),
        "/home/troels/src/esp32-wifi-updates/certificate-collection/"
    );
}

#[test]
fn ca_path_is_under_the_collection_root() {
    assert_eq!(
        ca_path(),
        "/home/troels/src/esp32-wifi-updates/certificate-collection/ca/ca.pem"
    );
}

#[test]
fn keystore_path_is_under_the_collection_root() {
    assert_eq!(
        keystore_path(),
        "/home/troels/src/esp32-wifi-updates/certificate-collection/certificates/temperature_sensor.keystore"
    );
}

#[test]
fn transport_config_binds_uri_identity_and_tls_material() {
    let cfg = build_transport_config();
    assert_eq!(cfg.server_uri, "ssl://178.128.42.0:8883");
    assert_eq!(cfg.client_id, "mqtt_reader");
    assert_eq!(cfg.trust_store, ca_path());
    assert_eq!(cfg.key_store, keystore_path());
}

#[test]
fn subscription_is_one_topic_at_least_once() {
    assert_eq!(subscription_topic(), "topic/temperature");
    assert_eq!(subscription_qos(), 1);
}

#[test]
fn database_path_is_fixed() {
    assert_eq!(database_path(), "db.sqlite");
}

#[test]
fn schema_sql_creates_the_events_table_only_if_missing() {
    let sql = schema_sql().to_lowercase();
    assert!(sql.contains("create table if not exists events"));
    assert!(sql.contains("temperature real"));
    assert!(sql.contains("relative_humidity real"));
    assert!(sql.contains("time text"));
    assert!(sql.contains("id integer primary key"));
}

#[test]
fn insert_sql_binds_the_three_reading_columns() {
    let sql = insert_sql().to_lowercase();
    assert!(sql.contains("insert into events (temperature, relative_humidity, time)"));
    assert!(sql.contains("values (?1, ?2, ?3)"));
}
