use ndmsd::api::{
    device_response, devices_body, devices_response, device_detail_body, index_body,
    not_found_body, version_body,
};
use ndmsd::model::{Device, DeviceDetail, Service};

fn device(name: &str, error: bool, id: &str) -> Device {
    Device { name: name.to_string(), error, id: id.to_string() }
}

fn service(name: &str, error: bool, id: &str) -> Service {
    Service { name: name.to_string(), error, id: id.to_string() }
}

#[test]
fn empty_devices_page() {
    let body = devices_body(&Vec::new());
    assert_eq!(body, "{\"devices\":[]}");
}

#[test]
fn one_device_page_exact() {
    let body = devices_body(&vec![device("Router", false, "069666e8-28ef-4411-8fa8-1072ebd519f6")]);
    assert_eq!(
        body,
        "{\"devices\":[{\"name\":\"Router\",\"error\":false,\"id\":\"069666e8-28ef-4411-8fa8-1072ebd519f6\"}]}"
    );
}

#[test]
fn two_devices_are_comma_joined() {
    let body = devices_body(&vec![device("A", false, "a"), device("B", true, "b")]);
    assert_eq!(
        body,
        "{\"devices\":[{\"name\":\"A\",\"error\":false,\"id\":\"a\"},{\"name\":\"B\",\"error\":true,\"id\":\"b\"}]}"
    );
}

#[test]
fn device_detail_page_exact() {
    let detail = DeviceDetail {
        device: device("Router", false, "d1"),
        services: vec![service("http", false, "s1"), service("dns", true, "s2")],
    };
    let body = device_detail_body(&detail);
    assert_eq!(
        body,
        "{\"device\":{\"name\":\"Router\",\"error\":false,\"id\":\"d1\"},\"services\":[{\"name\":\"http\",\"error\":false,\"id\":\"s1\"},{\"name\":\"dns\",\"error\":true,\"id\":\"s2\"}]}"
    );
}

#[test]
fn bodies_are_valid_json_and_round_trip() {
    let tricky = "a\"b\\c\nd\te\u{0001}f";
    let body = devices_body(&vec![device(tricky, true, "id-1")]);
    let v: serde_json::Value = serde_json::from_str(&body).expect("body must be valid JSON");
    let list = v["devices"].as_array().expect("devices must be an array");
    assert_eq!(list.len(), 1);
    assert_eq!(list[0]["name"].as_str(), Some(tricky));
    assert_eq!(list[0]["error"].as_bool(), Some(true));
    assert_eq!(list[0]["id"].as_str(), Some("id-1"));
}

#[test]
fn control_characters_use_unicode_escapes() {
    let body = devices_body(&vec![device("\u{0001}", false, "\u{001f}")]);
    assert!(body.contains("\\u0001"));
    assert!(body.contains("\\u001f"));
}

#[test]
fn escaping_matches_serde_json() {
    let tricky = "q\"b\\s\nn\rr\tt\u{0008}b\u{000c}f\u{0002}c plain ütf";
    let ours = devices_body(&vec![device(tricky, false, "i")]);
    let encoded = serde_json::to_string(&serde_json::Value::String(tricky.to_string()))
        .expect("encode");
    assert!(ours.contains(&encoded[1..encoded.len() - 1]));
}

#[test]
fn not_found_page_exact() {
    assert_eq!(
        not_found_body("no-such-id"),
        "{ \"error\": \"Non existent device id: no-such-id\" }"
    );
}

#[test]
fn devices_response_is_200() {
    let r = devices_response(&Vec::new());
    assert_eq!(r.status, 200);
    assert_eq!(r.body, "{\"devices\":[]}");
}

#[test]
fn missing_device_response_is_404() {
    let r = device_response("abc", &None);
    assert_eq!(r.status, 404);
    assert_eq!(r.body, "{ \"error\": \"Non existent device id: abc\" }");
}

#[test]
fn found_device_response_is_200() {
    let detail = DeviceDetail { device: device("Router", false, "d1"), services: Vec::new() };
    let r = device_response("d1", &Some(detail));
    assert_eq!(r.status, 200);
    assert_eq!(r.body, "{\"device\":{\"name\":\"Router\",\"error\":false,\"id\":\"d1\"},\"services\":[]}");
}

#[test]
fn informational_bodies() {
    assert_eq!(index_body(), "ndmsd is running");
    assert_eq!(version_body("0.1.0"), "{ \"version\": \"0.1.0\" }");
}
