//! End-to-end tests against a real in-memory store.

use ndmsd::api::{handle_device, handle_devices};
use ndmsd::bootstrap::{ensure_schema, SchemaError};
use ndmsd::model::WebserverConfig;
use ndmsd::registry::{get_device, list_devices};
use ndmsd::store::fetch_rows;

fn fresh_store() -> sqlite::Connection {
    sqlite::open(":memory:").expect("open in-memory store")
}

fn booted_store() -> sqlite::Connection {
    let conn = fresh_store();
    ensure_schema(&conn).expect("bootstrap");
    conn
}

fn seed_router(conn: &sqlite::Connection) {
    conn.execute(
        "INSERT INTO devices (name, error, uuid) \
         VALUES ('Router', '0', '069666e8-28ef-4411-8fa8-1072ebd519f6');",
    )
    .expect("seed device");
}

#[test]
fn first_boot_seeds_config() {
    let conn = fresh_store();
    let config = ensure_schema(&conn).expect("bootstrap");
    assert_eq!(
        config,
        WebserverConfig { host: "0.0.0.0".to_string(), port: 12526 }
    );
    let rows = fetch_rows(&conn, "SELECT key, value FROM config ORDER BY key", None)
        .expect("read config");
    assert_eq!(rows.len(), 2);
    assert_eq!(rows[0][0].1.as_deref(), Some("web_host"));
    assert_eq!(rows[0][1].1.as_deref(), Some("0.0.0.0"));
    assert_eq!(rows[1][0].1.as_deref(), Some("web_port"));
    assert_eq!(rows[1][1].1.as_deref(), Some("12526"));
}

#[test]
fn bootstrap_is_idempotent() {
    let conn = fresh_store();
    let first = ensure_schema(&conn).expect("first bootstrap");
    let second = ensure_schema(&conn).expect("second bootstrap");
    assert_eq!(first, second);
    let rows = fetch_rows(&conn, "SELECT key FROM config", None).expect("read config");
    assert_eq!(rows.len(), 2, "seeded config rows must not be duplicated");
}

#[test]
fn bootstrap_keeps_existing_config_values() {
    let conn = fresh_store();
    ensure_schema(&conn).expect("first bootstrap");
    conn.execute("UPDATE config SET value = '8080' WHERE key = 'web_port';")
        .expect("update port");
    let config = ensure_schema(&conn).expect("second bootstrap");
    assert_eq!(config.port, 8080);
}

#[test]
fn non_numeric_stored_port_aborts_bootstrap() {
    let conn = fresh_store();
    ensure_schema(&conn).expect("first bootstrap");
    conn.execute("UPDATE config SET value = 'eighty' WHERE key = 'web_port';")
        .expect("update port");
    let r = ensure_schema(&conn);
    assert_eq!(r, Err(SchemaError::InvalidPort("eighty".to_string())));
}

#[test]
fn missing_config_key_aborts_bootstrap() {
    let conn = fresh_store();
    ensure_schema(&conn).expect("first bootstrap");
    conn.execute("DELETE FROM config WHERE key = 'web_host';")
        .expect("delete host");
    let r = ensure_schema(&conn);
    assert_eq!(r, Err(SchemaError::MissingKey("web_host".to_string())));
}

#[test]
fn empty_devices_relation_lists_nothing() {
    let conn = booted_store();
    let devices = list_devices(&conn).expect("scan");
    assert!(devices.is_empty());
    let resp = handle_devices(&conn).expect("page");
    assert_eq!(resp.status, 200);
    assert_eq!(resp.body, "{\"devices\":[]}");
}

#[test]
fn seeded_router_is_listed() {
    let conn = booted_store();
    seed_router(&conn);
    let devices = list_devices(&conn).expect("scan");
    assert_eq!(devices.len(), 1);
    assert_eq!(devices[0].name, "Router");
    assert!(!devices[0].error);
    assert_eq!(devices[0].id, "069666e8-28ef-4411-8fa8-1072ebd519f6");
    let resp = handle_devices(&conn).expect("page");
    assert_eq!(resp.status, 200);
    assert_eq!(
        resp.body,
        "{\"devices\":[{\"name\":\"Router\",\"error\":false,\"id\":\"069666e8-28ef-4411-8fa8-1072ebd519f6\"}]}"
    );
}

#[test]
fn unknown_id_is_not_found() {
    let conn = booted_store();
    seed_router(&conn);
    let found = get_device(&conn, "no-such-id").expect("lookup");
    assert_eq!(found, None);
    let resp = handle_device(&conn, "no-such-id").expect("page");
    assert_eq!(resp.status, 404);
    assert_eq!(resp.body, "{ \"error\": \"Non existent device id: no-such-id\" }");
}

#[test]
fn device_with_two_services() {
    let conn = booted_store();
    seed_router(&conn);
    conn.execute(
        "INSERT INTO services (device, name, error, uuid) \
         VALUES ('069666e8-28ef-4411-8fa8-1072ebd519f6', 'http', '0', 's1');\
         INSERT INTO services (device, name, error, uuid) \
         VALUES ('069666e8-28ef-4411-8fa8-1072ebd519f6', 'dns', '1', 's2');\
         INSERT INTO services (device, name, error, uuid) \
         VALUES ('other-device', 'ftp', '0', 's3');",
    )
    .expect("seed services");
    let detail = get_device(&conn, "069666e8-28ef-4411-8fa8-1072ebd519f6")
        .expect("lookup")
        .expect("device should be found");
    assert_eq!(detail.device.name, "Router");
    assert_eq!(detail.services.len(), 2, "only the attached services are surfaced");
    let resp = handle_device(&conn, "069666e8-28ef-4411-8fa8-1072ebd519f6").expect("page");
    assert_eq!(resp.status, 200);
    let v: serde_json::Value = serde_json::from_str(&resp.body).expect("valid JSON");
    assert_eq!(v["device"]["name"].as_str(), Some("Router"));
    assert_eq!(v["device"]["error"].as_bool(), Some(false));
    let services = v["services"].as_array().expect("array");
    assert_eq!(services.len(), 2);
    let names: Vec<&str> = services.iter().filter_map(|s| s["name"].as_str()).collect();
    assert!(names.contains(&"http"));
    assert!(names.contains(&"dns"));
}

#[test]
fn dangling_service_is_never_surfaced() {
    let conn = booted_store();
    seed_router(&conn);
    conn.execute(
        "INSERT INTO services (device, name, error, uuid) \
         VALUES ('unknown-device', 'ghost', '0', 's9');",
    )
    .expect("seed service");
    let detail = get_device(&conn, "069666e8-28ef-4411-8fa8-1072ebd519f6")
        .expect("lookup")
        .expect("found");
    assert!(detail.services.is_empty());
}

#[test]
fn lookup_id_cannot_alter_the_query() {
    let conn = booted_store();
    seed_router(&conn);
    let hostile = "x\" OR 1=1; DROP TABLE devices;--";
    let found = get_device(&conn, hostile).expect("lookup");
    assert_eq!(found, None);
    let devices = list_devices(&conn).expect("devices table must survive");
    assert_eq!(devices.len(), 1);
}
