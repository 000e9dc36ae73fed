//! Fixed configuration: filesystem locations of the TLS material, the
//! broker connection descriptor, the subscription, and the SQL text used
//! against the local database.

use vstd::prelude::*;
use vstd::string::StringExecFns;

verus! {

/// Directory that holds all certificate material for the broker connection.
pub open spec fn collection_dir() -> Seq<char> {
    "/home/troels/src/esp32-wifi-updates/certificate-collection/"@
}

/// CA bundle used to validate the broker's server certificate.
pub open spec fn ca_file() -> Seq<char> {
    collection_dir() + "ca/ca.pem"@
}

/// Keystore holding this device's private key and client certificate.
pub open spec fn keystore_file() -> Seq<char> {
    collection_dir() + "certificates/temperature_sensor.keystore"@
}

/// Root directory of the certificate collection.
pub fn certificate_collection_path() -> (r: String)
    ensures
        r@ == collection_dir(),
{
    "/home/troels/src/esp32-wifi-updates/certificate-collection/".to_owned()
}

/// Path of the CA certificate bundle (trust store), under the collection root.
pub fn ca_path() -> (r: String)
    ensures
        r@ == ca_file(),
{
    certificate_collection_path().concat("ca/ca.pem")
}

/// Path of the client keystore, under the collection root.
pub fn keystore_path() -> (r: String)
    ensures
        r@ == keystore_file(),
{
    certificate_collection_path().concat("certificates/temperature_sensor.keystore")
}

/// URI of the broker, TLS on a fixed host and port.
pub open spec fn broker_uri() -> Seq<char> {
    "ssl://178.128.42.0:8883"@
}

/// Connection descriptor for the broker: where to connect, as whom, and
/// with which TLS material. Pure configuration; no network I/O happens
/// here.
pub struct TransportConfig {
    /// Broker URI, `ssl://<host>:<port>`.
    pub server_uri: String,
    /// Fixed client identifier presented to the broker.
    pub client_id: String,
    /// CA bundle validating the broker's server certificate.
    pub trust_store: String,
    /// This device's private key and certificate, for mutual TLS.
    pub key_store: String,
}

/// Assemble the connection descriptor from the fixed locations.
pub fn build_transport_config() -> (c: TransportConfig)
    ensures
        c.server_uri@ == broker_uri(),
        c.client_id@ == "mqtt_reader"@,
        c.trust_store@ == ca_file(),
        c.key_store@ == keystore_file(),
{
    TransportConfig {
        server_uri: "ssl://178.128.42.0:8883".to_owned(),
        client_id: "mqtt_reader".to_owned(),
        trust_store: ca_path(),
        key_store: keystore_path(),
    }
}

/// The one topic subscribed to.
pub fn subscription_topic() -> (r: String)
    ensures
        r@ == "topic/temperature"@,
{
    "topic/temperature".to_owned()
}

/// Delivery guarantee of the subscription: QoS 1, at least once.
pub fn subscription_qos() -> (q: i32)
    ensures
        q == 1,
{
    1
}

/// Path of the local database file, created if absent.
pub fn database_path() -> (r: String)
    ensures
        r@ == "db.sqlite"@,
{
    "db.sqlite".to_owned()
}

/// Schema bootstrap: creates the events table if it does not exist, so
/// running it on every startup is idempotent. One integer primary key the
/// storage assigns, and the three nullable reading columns.
pub fn schema_sql() -> (r: String)
    ensures
        r@ == "create table if not exists events (
             id integer primary key,
             temperature real,
             relative_humidity real,
             time text)"@,
{
    "create table if not exists events (
             id integer primary key,
             temperature real,
             relative_humidity real,
             time text)".to_owned()
}

/// Insert of one reading: the three (possibly null) values, in the order
/// temperature, relative humidity, time; the key is storage-assigned.
pub fn insert_sql() -> (r: String)
    ensures
        r@ == "insert into events (temperature, relative_humidity, time)
                     values (?1, ?2, ?3)"@,
{
    "insert into events (temperature, relative_humidity, time)
                     values (?1, ?2, ?3)".to_owned()
}

} // verus!
