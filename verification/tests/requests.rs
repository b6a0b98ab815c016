use serde_json::Value;
use webdock::{Method, Webdock, WebdockError, BASE_URL};

fn client() -> Webdock {
    Webdock::try_new("token").expect("the token is plain text")
}

fn server_data() -> Value {
    let mut object = serde_json::Map::new();
    object.insert("name".to_string(), Value::String("rust_dem".to_string()));
    object.insert("slug".to_string(), Value::String("rust-dem".to_string()));
    object.insert("locationId".to_string(), Value::String("eu".to_string()));
    object.insert("profileSlug".to_string(), Value::String(String::new()));
    object.insert("imageSlug".to_string(), Value::String(String::new()));
    Value::Object(object)
}

fn validation_message(error: WebdockError) -> String {
    match error {
        WebdockError::ValidationException(message) => message,
        other => panic!("expected a validation error, got {:?}", other),
    }
}

#[test]
fn base_url_is_the_service_address() {
    assert_eq!(BASE_URL, "https://api.webdock.io/v1");
}

#[test]
fn endpoint_table_holds_the_nine_resources() {
    let api = client();
    assert_eq!(api.endpoint("ping"), Some("ping"));
    assert_eq!(api.endpoint("servers"), Some("servers"));
    assert_eq!(api.endpoint("locations"), Some("locations"));
    assert_eq!(api.endpoint("profiles"), Some("profiles"));
    assert_eq!(api.endpoint("images"), Some("images"));
    assert_eq!(api.endpoint("pubkeys"), Some("account/publicKeys"));
    assert_eq!(api.endpoint("scripts"), Some("scripts"));
    assert_eq!(api.endpoint("hooks"), Some("hooks"));
    assert_eq!(api.endpoint("events"), Some("events"));
}

#[test]
fn endpoint_table_holds_nothing_else() {
    let api = client();
    assert_eq!(api.endpoint("volumes"), None);
    assert_eq!(api.endpoint(""), None);
    assert_eq!(api.endpoint("Ping"), None);
    assert_eq!(api.endpoint("account/publicKeys"), None);
}

#[test]
fn request_builds_the_url_of_every_resource() {
    let api = client();
    let table = [
        ("ping", "https://api.webdock.io/v1/ping"),
        ("servers", "https://api.webdock.io/v1/servers"),
        ("locations", "https://api.webdock.io/v1/locations"),
        ("profiles", "https://api.webdock.io/v1/profiles"),
        ("images", "https://api.webdock.io/v1/images"),
        ("pubkeys", "https://api.webdock.io/v1/account/publicKeys"),
        ("scripts", "https://api.webdock.io/v1/scripts"),
        ("hooks", "https://api.webdock.io/v1/hooks"),
        ("events", "https://api.webdock.io/v1/events"),
    ];
    for (name, url) in table {
        let request = api.request(name, "GET", None).unwrap();
        assert_eq!(request.url, url);
        assert_eq!(request.url, format!("{}/{}", BASE_URL, api.endpoint(name).unwrap()));
    }
}

#[test]
fn get_carries_no_body_and_reads_the_reply() {
    let api = client();
    let data = server_data();
    let request = api.make_request("servers", "GET", Some(&data)).unwrap();
    assert_eq!(request.url, "https://api.webdock.io/v1/servers");
    assert_eq!(request.method, Method::Get);
    assert!(request.body.is_none());
    assert!(request.decode);
}

#[test]
fn post_carries_the_body() {
    let api = client();
    let data = server_data();
    let request = api.make_request("hooks", "POST", Some(&data)).unwrap();
    assert_eq!(request.url, "https://api.webdock.io/v1/hooks");
    assert_eq!(request.method, Method::Post);
    assert_eq!(request.body, Some(&data));
    assert!(request.decode);
}

#[test]
fn patch_goes_out_as_a_patch() {
    let api = client();
    let mut object = serde_json::Map::new();
    object.insert("name".to_string(), Value::String("x".to_string()));
    let data = Value::Object(object);
    let before = data.clone();
    let request = Webdock::new("abc").make_request("servers", "PATCH", Some(&data)).unwrap();
    assert_eq!(request.url, "https://api.webdock.io/v1/servers");
    assert_eq!(request.method, Method::Patch);
    assert_ne!(request.method, Method::Post);
    assert_eq!(request.body, Some(&before));
    assert!(request.decode);
    let request = api.request("hooks", "PATCH", Some(&data)).unwrap();
    assert_eq!(request.url, "https://api.webdock.io/v1/hooks");
    assert_eq!(request.method, Method::Patch);
}

#[test]
fn each_verb_goes_out_as_the_method_of_its_name() {
    let api = client();
    let data = server_data();
    let verbs = [
        ("GET", Method::Get),
        ("POST", Method::Post),
        ("PATCH", Method::Patch),
        ("DELETE", Method::Delete),
    ];
    for (verb, method) in verbs {
        let request = api.request("servers", verb, Some(&data)).unwrap();
        assert_eq!(request.method, method);
        assert_eq!(request.url, "https://api.webdock.io/v1/servers");
    }
}

#[test]
fn delete_carries_no_body_and_leaves_the_reply_unread() {
    let api = client();
    let data = server_data();
    let request = api.make_request("scripts", "DELETE", Some(&data)).unwrap();
    assert_eq!(request.url, "https://api.webdock.io/v1/scripts");
    assert_eq!(request.method, Method::Delete);
    assert!(request.body.is_none());
    assert!(!request.decode);
}

#[test]
fn put_is_refused_by_name() {
    let api = client();
    let error = api.make_request("servers", "PUT", None).unwrap_err();
    assert_eq!(validation_message(error), "Unsupported request type: PUT");
}

#[test]
fn unknown_verbs_are_refused_by_name() {
    let api = client();
    for verb in ["get", "Post", "HEAD", "OPTIONS", "", " GET", "GET ", "DELETE\n", "PATCHX"] {
        let error = api.request("servers", verb, None).unwrap_err();
        assert_eq!(validation_message(error), format!("Unsupported request type: {}", verb));
    }
}

#[test]
fn request_takes_the_path_through_the_table() {
    let api = client();
    let request = api.request("pubkeys", "DELETE", None).unwrap();
    assert_eq!(request.url, "https://api.webdock.io/v1/account/publicKeys");
    assert_eq!(request.method, Method::Delete);
    assert!(!request.decode);
}

#[test]
fn make_request_takes_the_path_as_it_is() {
    let api = client();
    let request = api.make_request("servers/server-1/shellUsers", "GET", None).unwrap();
    assert_eq!(request.url, "https://api.webdock.io/v1/servers/server-1/shellUsers");
    let request = api.make_request("", "GET", None).unwrap();
    assert_eq!(request.url, "https://api.webdock.io/v1/");
}

#[test]
fn ping_is_a_get_of_the_ping_resource() {
    let request = client().ping().unwrap();
    assert_eq!(request.url, "https://api.webdock.io/v1/ping");
    assert_eq!(request.method, Method::Get);
    assert!(request.body.is_none());
    assert!(request.decode);
}

#[test]
fn servers_is_a_get_of_the_servers_resource() {
    let request = client().servers().unwrap();
    assert_eq!(request.url, "https://api.webdock.io/v1/servers");
    assert_eq!(request.method, Method::Get);
    assert!(request.body.is_none());
    assert!(request.decode);
}

#[test]
fn provision_server_posts_complete_data_unchanged() {
    let api = client();
    let data = server_data();
    let before = data.clone();
    let request = api.provision_server(&data).unwrap();
    assert_eq!(request.url, "https://api.webdock.io/v1/servers");
    assert_eq!(request.method, Method::Post);
    assert!(request.decode);
    let body = request.body.expect("a provisioning request has a body");
    assert!(std::ptr::eq(body, &data));
    assert_eq!(*body, before);
}

#[test]
fn provision_server_names_each_missing_field() {
    let api = client();
    for field in ["name", "slug", "locationId", "profileSlug", "imageSlug"] {
        let mut data = server_data();
        data.as_object_mut().unwrap().remove(field);
        let error = api.provision_server(&data).unwrap_err();
        assert_eq!(validation_message(error), format!("Required field {} is missing.", field));
    }
}

#[test]
fn provision_server_names_the_first_missing_field() {
    let api = client();
    let mut data = server_data();
    data.as_object_mut().unwrap().remove("imageSlug");
    data.as_object_mut().unwrap().remove("slug");
    data.as_object_mut().unwrap().remove("profileSlug");
    let error = api.provision_server(&data).unwrap_err();
    assert_eq!(validation_message(error), "Required field slug is missing.");
    let error = api.provision_server(&Value::Object(serde_json::Map::new())).unwrap_err();
    assert_eq!(validation_message(error), "Required field name is missing.");
}

#[test]
fn provision_server_asks_for_the_exact_names() {
    let api = client();
    let mut data = server_data();
    let id = data.as_object_mut().unwrap().remove("locationId").unwrap();
    data.as_object_mut().unwrap().insert("locationid".to_string(), id);
    let error = api.provision_server(&data).unwrap_err();
    assert_eq!(validation_message(error), "Required field locationId is missing.");
}

#[test]
fn provision_server_counts_a_null_member_as_present() {
    let api = client();
    let mut data = server_data();
    data.as_object_mut().unwrap().insert("slug".to_string(), Value::Null);
    data.as_object_mut().unwrap().insert("extra".to_string(), Value::Bool(true));
    let request = api.provision_server(&data).unwrap();
    assert_eq!(request.body, Some(&data));
}

#[test]
fn provision_server_refuses_what_is_no_object() {
    let api = client();
    let others = [
        Value::Null,
        Value::Bool(true),
        Value::String("name".to_string()),
        Value::Array(vec![server_data()]),
        serde_json::from_str::<Value>("17").unwrap(),
    ];
    for data in others {
        let error = api.provision_server(&data).unwrap_err();
        assert_eq!(validation_message(error), "Invalid data format");
    }
}
