use mta_sdk::client::classify_response;
use mta_sdk::client::status_is_success;
use mta_sdk::client::transmission_failure;
use mta_sdk::client::Auth;
use mta_sdk::client::Mta;
use mta_sdk::error::Errors;
use mta_sdk::json::request_body;
use mta_sdk::numeral::dec_string;

fn endpoint(http: bool) -> Mta {
    let auth = Auth { username: "user".to_string(), password: "pass".to_string() };
    Mta::new("127.0.0.1".to_string(), 22005, auth, http)
}

#[test]
fn new_stores_the_fields_verbatim() {
    let mta = endpoint(true);
    assert_eq!(mta.ip, "127.0.0.1");
    assert_eq!(mta.port, 22005);
    assert_eq!(mta.auth.username, "user");
    assert_eq!(mta.auth.password, "pass");
    assert!(mta.http);
}

#[test]
fn base_uri_with_encryption() {
    assert_eq!(endpoint(false).get_uri(), "https://127.0.0.1:22005/");
}

#[test]
fn base_uri_without_encryption() {
    assert_eq!(endpoint(true).get_uri(), "http://127.0.0.1:22005/");
}

#[test]
fn base_uri_port_edges() {
    let low = Mta::new(
        "host".to_string(),
        0,
        Auth { username: String::new(), password: String::new() },
        true,
    );
    assert_eq!(low.get_uri(), "http://host:0/");
    let high = Mta::new(
        "host".to_string(),
        65535,
        Auth { username: String::new(), password: String::new() },
        false,
    );
    assert_eq!(high.get_uri(), "https://host:65535/");
}

#[test]
fn call_url_appends_resource_and_function() {
    let mta = endpoint(false);
    assert_eq!(
        mta.call_url("admin", "getServerVersion"),
        "https://127.0.0.1:22005/admin/call/getServerVersion"
    );
}

#[test]
fn call_url_extends_the_base_uri() {
    let mta = endpoint(true);
    let expected = format!("{}{}/call/{}", mta.get_uri(), "teste", "getData");
    assert_eq!(mta.call_url("teste", "getData"), expected);
}

#[test]
fn request_body_of_no_arguments_is_the_empty_array() {
    assert_eq!(request_body(&Vec::new()), "[]");
}

#[test]
fn request_body_keeps_argument_order() {
    let args = vec!["arg1".to_string(), "arg2".to_string()];
    assert_eq!(request_body(&args), "[\"arg1\",\"arg2\"]");
}

#[test]
fn request_body_escapes_as_json_demands() {
    let args = vec!["say \"hi\"\n".to_string()];
    assert_eq!(request_body(&args), "[\"say \\\"hi\\\"\\n\"]");
}

#[test]
fn success_status_is_exactly_200_ok() {
    assert!(status_is_success("200 OK"));
    assert!(!status_is_success("200 ok"));
    assert!(!status_is_success("404 Not Found"));
    assert!(!status_is_success(""));
}

#[test]
fn ok_response_yields_the_body() {
    let r = classify_response("200 OK".to_string(), "1.5.9".to_string());
    assert_eq!(r, Ok("1.5.9".to_string()));
}

#[test]
fn unauthorized_response_yields_server_status() {
    let r = classify_response("401 Unauthorized".to_string(), String::new());
    match r {
        Err(Errors::ServerStatus(status)) => {
            assert_eq!(status, "401 Unauthorized");
        }
        other => panic!("expected a ServerStatus error, got {:?}", other),
    }
}

#[test]
fn server_status_message_contains_the_status() {
    let err = Errors::ServerStatus("401 Unauthorized".to_string());
    let message = err.message();
    assert!(message.contains("401"));
    assert_eq!(
        message,
        "[Request Error]:🙀 The server returned an error. Status: 401 Unauthorized 🛑 ."
    );
}

#[test]
fn transmission_failure_is_a_transmission_error() {
    match transmission_failure() {
        Errors::Transmission(note) => {
            assert_eq!(
                note,
                "There was a failure in transmitting your request to the server. \
                 We recommend checking the connection and trying again."
            );
        }
        other => panic!("expected a Transmission error, got {:?}", other),
    }
}

#[test]
fn transmission_message_carries_no_status_text() {
    let message = transmission_failure().message();
    assert!(!message.chars().any(|c| c.is_ascii_digit()));
    assert!(!message.contains("OK"));
    assert!(!message.contains("Unauthorized"));
}

#[test]
fn decimal_rendering_of_ports() {
    assert_eq!(dec_string(0), "0");
    assert_eq!(dec_string(9), "9");
    assert_eq!(dec_string(10), "10");
    assert_eq!(dec_string(22005), "22005");
    assert_eq!(dec_string(65535), "65535");
}
