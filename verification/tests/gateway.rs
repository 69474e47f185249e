use edge_handler::gateway::{
    gateway_document, gateway_reply, mongo_request, GatewayError, Transmission,
};
use edge_handler::http::Method;
use edge_handler::json::{compact, NotJson};
use edge_handler::payload::{field_payload, find_payload, insert_payload, user_payload};

#[test]
fn mongo_request_builds_the_outbound_request() {
    let request =
        mongo_request(Method::Post, Some("s3cret".to_string()), "{\"a\":1}", "action", "find")
            .unwrap();
    assert_eq!(
        request.url(),
        "https://data.mongodb-api.com/app/data-bkmnk/endpoint/data/beta/action/find"
    );
    assert_eq!(request.method(), Method::Post);
    assert_eq!(request.body(), "{\"a\":1}");
    assert_eq!(request.header_count(), 3);
    let headers: Vec<(String, String)> = (0..request.header_count())
        .map(|i| {
            let (name, value) = request.header(i);
            (name.clone(), value.clone())
        })
        .collect();
    assert_eq!(
        headers,
        vec![
            ("Access-Control-Request-Headers".to_string(), "*".to_string()),
            ("Content-Type".to_string(), "application/json".to_string()),
            ("api-key".to_string(), "s3cret".to_string()),
        ]
    );
}

#[test]
fn mongo_request_places_both_segments_in_the_address() {
    let request =
        mongo_request(Method::Get, Some("k".to_string()), "", "action", "insertOne").unwrap();
    assert_eq!(
        request.url(),
        "https://data.mongodb-api.com/app/data-bkmnk/endpoint/data/beta/action/insertOne"
    );
    assert_eq!(request.method(), Method::Get);
    assert_eq!(request.body(), "");
}

#[test]
fn mongo_request_fails_without_a_secret() {
    assert_eq!(
        mongo_request(Method::Post, None, "{}", "action", "find"),
        Err(GatewayError::Secret)
    );
}

#[test]
fn mongo_request_fails_on_an_empty_secret() {
    assert_eq!(
        mongo_request(Method::Post, Some(String::new()), "{}", "action", "find"),
        Err(GatewayError::Secret)
    );
}

#[test]
fn gateway_reply_hands_the_text_on_untouched() {
    assert_eq!(
        gateway_reply(Transmission::Delivered(" not { json ".to_string())),
        Ok(" not { json ".to_string())
    );
    assert_eq!(gateway_reply(Transmission::Delivered(String::new())), Ok(String::new()));
}

#[test]
fn gateway_reply_names_the_stage_that_failed() {
    assert_eq!(gateway_reply(Transmission::HeadersRefused), Err(GatewayError::Headers));
    assert_eq!(gateway_reply(Transmission::Failed), Err(GatewayError::Transport));
    assert_eq!(gateway_reply(Transmission::Unreadable), Err(GatewayError::ResponseText));
}

#[test]
fn compact_renders_what_it_read() {
    assert_eq!(compact(" { \"b\" : [1, 2.5, null] ,\n \"a\" : true } "), Ok("{\"a\":true,\"b\":[1,2.5,null]}".to_string()));
    assert_eq!(compact("\"text\""), Ok("\"text\"".to_string()));
    assert_eq!(compact(" 12 "), Ok("12".to_string()));
}

#[test]
fn compact_refuses_what_is_no_json() {
    assert_eq!(compact(""), Err(NotJson));
    assert_eq!(compact("{"), Err(NotJson));
    assert_eq!(compact("{\"a\":1} trailing"), Err(NotJson));
    assert_eq!(compact("hello"), Err(NotJson));
}

#[test]
fn find_payload_names_source_database_and_collection() {
    let body = find_payload();
    let value: serde_json::Value = serde_json::from_str(&body).unwrap();
    let object = value.as_object().unwrap();
    assert_eq!(object.len(), 3);
    assert_eq!(value["dataSource"], serde_json::Value::from("Cluster0"));
    assert_eq!(value["database"], serde_json::Value::from("task-manager-api"));
    assert_eq!(value["collection"], serde_json::Value::from("tasks"));
    assert_eq!(
        body,
        "{\"collection\":\"tasks\",\"dataSource\":\"Cluster0\",\"database\":\"task-manager-api\"}"
    );
}

#[test]
fn find_payload_is_the_same_on_every_call() {
    assert_eq!(find_payload(), find_payload());
}

#[test]
fn insert_payload_wraps_the_document() {
    let body = insert_payload(" { \"task\" : \"buy milk\" } ").unwrap();
    assert_eq!(
        body,
        "{\"collection\":\"tasks\",\"dataSource\":\"Cluster0\",\"database\":\"task-manager-api\",\"document\":{\"task\":\"buy milk\"}}"
    );
}

#[test]
fn insert_payload_takes_any_json_value() {
    let body = insert_payload("[1,2]").unwrap();
    let value: serde_json::Value = serde_json::from_str(&body).unwrap();
    assert_eq!(value["document"], serde_json::Value::from(vec![1, 2]));
}

#[test]
fn insert_payload_refuses_what_is_no_json() {
    assert_eq!(insert_payload("{\"task\":"), Err(NotJson));
    assert_eq!(insert_payload(""), Err(NotJson));
}

#[test]
fn user_payload_wraps_the_stored_value() {
    assert_eq!(
        user_payload("{\"task\": \"buy milk\"}"),
        Ok("{\"user\":{\"task\":\"buy milk\"}}".to_string())
    );
    assert_eq!(user_payload("null"), Ok("{\"user\":null}".to_string()));
    assert_eq!(user_payload("not json"), Err(NotJson));
}

#[test]
fn field_payload_echoes_name_and_value() {
    assert_eq!(field_payload("field1", "hello"), "{\"field1\":\"hello\"}");
}

#[test]
fn field_payload_escapes_what_json_must_escape() {
    assert_eq!(field_payload("a\"b", "line\nnext\\"), "{\"a\\\"b\":\"line\\nnext\\\\\"}");
    assert_eq!(field_payload("", ""), "{\"\":\"\"}");
}

#[test]
fn gateway_document_reads_the_reply_as_json() {
    assert_eq!(
        gateway_document(Transmission::Delivered("{ \"documents\" : [ ] }".to_string())),
        Ok("{\"documents\":[]}".to_string())
    );
}

#[test]
fn gateway_document_names_a_reply_that_is_no_json() {
    assert_eq!(
        gateway_document(Transmission::Delivered("Service Unavailable".to_string())),
        Err(GatewayError::ResponseMalformed)
    );
    assert_eq!(
        gateway_document(Transmission::Delivered(String::new())),
        Err(GatewayError::ResponseMalformed)
    );
}

#[test]
fn gateway_document_keeps_the_stage_of_a_failed_transmission() {
    assert_eq!(gateway_document(Transmission::HeadersRefused), Err(GatewayError::Headers));
    assert_eq!(gateway_document(Transmission::Failed), Err(GatewayError::Transport));
    assert_eq!(gateway_document(Transmission::Unreadable), Err(GatewayError::ResponseText));
}
