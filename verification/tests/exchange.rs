use std::collections::HashMap;

use edge_handler::exchange::{begin, resume, Action, Event, FormLookup, KvLookup, Pending};
use edge_handler::gateway::Transmission;
use edge_handler::http::{Content, Method, Response};
use edge_handler::router::Router;

/// A host made of plain values: what it holds, and what it was asked to do.
struct Host {
    body: Option<String>,
    form: Vec<(String, Option<String>)>,
    form_readable: bool,
    vars: HashMap<String, String>,
    secrets: HashMap<String, String>,
    store: HashMap<(String, String), String>,
    store_works: bool,
    gateway: Transmission,
    sent: Vec<(String, Method, Vec<(String, String)>, String)>,
    asked: Vec<String>,
}

impl Host {
    fn new() -> Host {
        let mut secrets = HashMap::new();
        secrets.insert("mongo_data_api_key".to_string(), "k3y".to_string());
        let mut vars = HashMap::new();
        vars.insert("WORKERS_RS_VERSION".to_string(), "0.8.7".to_string());
        Host {
            body: None,
            form: Vec::new(),
            form_readable: true,
            vars,
            secrets,
            store: HashMap::new(),
            store_works: true,
            gateway: Transmission::Delivered("{\"documents\": []}".to_string()),
            sent: Vec::new(),
            asked: Vec::new(),
        }
    }

    fn perform(&mut self, action: Action) -> Result<Event, Response> {
        match action {
            Action::Respond(response) => Err(response),
            Action::ReadBody => {
                self.asked.push("body".to_string());
                Ok(Event::Body(self.body.clone()))
            }
            Action::ReadForm { field } => {
                self.asked.push(format!("form:{field}"));
                if !self.form_readable {
                    return Ok(Event::Form(FormLookup::Unreadable));
                }
                let found = self.form.iter().find(|(name, _)| *name == field);
                Ok(Event::Form(match found {
                    None => FormLookup::Absent,
                    Some((_, None)) => FormLookup::File,
                    Some((_, Some(value))) => FormLookup::Field(value.clone()),
                }))
            }
            Action::ReadVar { name } => {
                self.asked.push(format!("var:{name}"));
                Ok(Event::Var(self.vars.get(&name).cloned()))
            }
            Action::ReadSecret { name } => {
                self.asked.push(format!("secret:{name}"));
                Ok(Event::Secret(self.secrets.get(&name).cloned()))
            }
            Action::Put { store, key, value } => {
                self.asked.push(format!("put:{store}:{key}"));
                if self.store_works {
                    self.store.insert((store, key), value);
                }
                Ok(Event::Stored(self.store_works))
            }
            Action::Get { store, key } => {
                self.asked.push(format!("get:{store}:{key}"));
                Ok(Event::Record(if !self.store_works {
                    KvLookup::Failed
                } else {
                    match self.store.get(&(store, key)) {
                        Some(text) => KvLookup::Found(text.clone()),
                        None => KvLookup::Absent,
                    }
                }))
            }
            Action::Send(request) => {
                self.asked.push("send".to_string());
                let headers = (0..request.header_count())
                    .map(|i| {
                        let (name, value) = request.header(i);
                        (name.clone(), value.clone())
                    })
                    .collect();
                self.sent.push((
                    request.url().clone(),
                    request.method(),
                    headers,
                    request.body().clone(),
                ));
                Ok(Event::Reply(self.gateway.clone()))
            }
        }
    }

    fn handle(&mut self, method: Method, path: &str) -> Response {
        let router = Router::standard();
        let (mut pending, mut action) = begin(&router, method, path);
        let mut steps = 0;
        loop {
            match self.perform(action) {
                Err(response) => {
                    assert_eq!(pending, Pending::Done);
                    return response;
                }
                Ok(event) => {
                    assert_ne!(pending, Pending::Done);
                    steps += 1;
                    assert!(steps <= 3);
                    let next = resume(pending, event);
                    pending = next.0;
                    action = next.1;
                }
            }
        }
    }
}

fn text(body: &str) -> Response {
    Response { status: 200, content: Content::Text, body: body.to_string() }
}

fn json(body: &str) -> Response {
    Response { status: 200, content: Content::Json, body: body.to_string() }
}

fn error(status: u16, body: &str) -> Response {
    Response { status, content: Content::Unset, body: body.to_string() }
}

fn server_error() -> Response {
    error(500, "Internal Server Error")
}

#[test]
fn root_greets() {
    let mut host = Host::new();
    assert_eq!(host.handle(Method::Get, "/"), text("Hello from Workers!"));
    assert!(host.asked.is_empty());
}

#[test]
fn unmatched_requests_are_not_found() {
    let mut host = Host::new();
    for (method, path) in [
        (Method::Get, "/nope"),
        (Method::Get, "/mongo_post"),
        (Method::Post, "/mongo"),
        (Method::Delete, "/user/alice"),
        (Method::Get, "/user/alice/extra"),
        (Method::Get, "/user/"),
        (Method::Get, ""),
        (Method::Options, "/"),
    ] {
        assert_eq!(host.handle(method, path), error(404, "Not Found"), "{path}");
    }
    assert!(host.asked.is_empty());
}

#[test]
fn created_user_is_read_back() {
    let mut host = Host::new();
    host.body = Some("{\"task\":\"buy milk\"}".to_string());
    assert_eq!(host.handle(Method::Post, "/create_user/alice"), text("created kv pair"));
    assert_eq!(
        host.store.get(&("KV_FROM_RUST".to_string(), "alice".to_string())),
        Some(&"{\"task\":\"buy milk\"}".to_string())
    );
    let answer = host.handle(Method::Get, "/user/alice");
    assert_eq!(answer, json("{\"user\":{\"task\":\"buy milk\"}}"));
    let expected: serde_json::Value =
        serde_json::from_str("{\"user\": {\"task\":\"buy milk\"}}").unwrap();
    assert_eq!(serde_json::from_str::<serde_json::Value>(&answer.body).unwrap(), expected);
}

#[test]
fn created_user_is_stored_as_compact_json() {
    let mut host = Host::new();
    host.body = Some(" { \"task\" :\n \"buy milk\" } ".to_string());
    assert_eq!(host.handle(Method::Post, "/create_user/bob"), text("created kv pair"));
    assert_eq!(
        host.store.get(&("KV_FROM_RUST".to_string(), "bob".to_string())),
        Some(&"{\"task\":\"buy milk\"}".to_string())
    );
    assert_eq!(host.asked, vec!["body", "put:KV_FROM_RUST:bob"]);
}

#[test]
fn create_user_refuses_a_body_that_is_no_json() {
    let mut host = Host::new();
    host.body = Some("{\"task\":".to_string());
    assert_eq!(host.handle(Method::Post, "/create_user/alice"), error(400, "Bad Request"));
    host.body = None;
    assert_eq!(host.handle(Method::Post, "/create_user/alice"), error(400, "Bad Request"));
    assert!(host.store.is_empty());
}

#[test]
fn create_user_reports_a_failed_write() {
    let mut host = Host::new();
    host.body = Some("{}".to_string());
    host.store_works = false;
    assert_eq!(host.handle(Method::Post, "/create_user/alice"), server_error());
}

#[test]
fn create_user_without_a_captured_name_is_a_server_error() {
    let step = resume(Pending::CreateBody { name: None }, Event::Body(Some("{}".to_string())));
    assert_eq!(
        step,
        (Pending::Done, Action::Respond(error(500, "an error occured while adding kv pair")))
    );
}

#[test]
fn unknown_user_is_a_server_error() {
    let mut host = Host::new();
    let answer = host.handle(Method::Get, "/user/ghost");
    assert_eq!(answer.status, 500);
    assert_eq!(answer, server_error());
    assert_eq!(host.asked, vec!["get:KV_FROM_RUST:ghost"]);
}

#[test]
fn user_whose_record_is_no_json_is_a_server_error() {
    let mut host = Host::new();
    host.store.insert(("KV_FROM_RUST".to_string(), "odd".to_string()), "buy milk".to_string());
    assert_eq!(host.handle(Method::Get, "/user/odd"), server_error());
}

#[test]
fn user_read_failure_is_a_server_error() {
    let mut host = Host::new();
    host.store_works = false;
    assert_eq!(host.handle(Method::Get, "/user/alice"), server_error());
}

#[test]
fn form_field_is_echoed() {
    let mut host = Host::new();
    host.form.push(("field1".to_string(), Some("hello".to_string())));
    assert_eq!(host.handle(Method::Post, "/form/field1"), json("{\"field1\":\"hello\"}"));
    assert_eq!(host.asked, vec!["form:field1"]);
}

#[test]
fn form_file_is_refused() {
    let mut host = Host::new();
    host.form.push(("field1".to_string(), None));
    assert_eq!(
        host.handle(Method::Post, "/form/field1"),
        error(422, "`field` param in form shouldn't be a File")
    );
}

#[test]
fn form_without_the_field_is_a_bad_request() {
    let mut host = Host::new();
    host.form.push(("other".to_string(), Some("hello".to_string())));
    assert_eq!(host.handle(Method::Post, "/form/field1"), error(400, "Bad Request"));
}

#[test]
fn form_that_cannot_be_read_is_a_bad_request() {
    let mut host = Host::new();
    host.form_readable = false;
    assert_eq!(host.handle(Method::Post, "/form/field1"), error(400, "Bad Request"));
}

#[test]
fn mongo_sends_the_find_query_and_relays_the_reply() {
    let mut host = Host::new();
    host.body = Some("{\"ignored\":true}".to_string());
    let answer = host.handle(Method::Get, "/mongo");
    assert_eq!(answer, json("{\"documents\":[]}"));
    assert_eq!(host.asked, vec!["secret:mongo_data_api_key", "send"]);
    assert_eq!(
        host.sent,
        vec![(
            "https://data.mongodb-api.com/app/data-bkmnk/endpoint/data/beta/action/find"
                .to_string(),
            Method::Post,
            vec![
                ("Access-Control-Request-Headers".to_string(), "*".to_string()),
                ("Content-Type".to_string(), "application/json".to_string()),
                ("api-key".to_string(), "k3y".to_string()),
            ],
            "{\"collection\":\"tasks\",\"dataSource\":\"Cluster0\",\"database\":\"task-manager-api\"}"
                .to_string(),
        )]
    );
}

#[test]
fn mongo_sends_the_same_query_every_time() {
    let mut host = Host::new();
    host.handle(Method::Get, "/mongo");
    host.body = Some("{\"dataSource\":\"Other\"}".to_string());
    host.secrets.insert("mongo_data_api_key".to_string(), "another".to_string());
    host.handle(Method::Get, "/mongo");
    assert_eq!(host.sent.len(), 2);
    assert_eq!(host.sent[0].3, host.sent[1].3);
    assert_eq!(host.sent[0].0, host.sent[1].0);
    let query: serde_json::Value = serde_json::from_str(&host.sent[1].3).unwrap();
    assert_eq!(query["dataSource"], serde_json::Value::from("Cluster0"));
    assert_eq!(query["database"], serde_json::Value::from("task-manager-api"));
    assert_eq!(query["collection"], serde_json::Value::from("tasks"));
}

#[test]
fn mongo_without_secret_sends_nothing() {
    let mut host = Host::new();
    host.secrets.clear();
    assert_eq!(host.handle(Method::Get, "/mongo"), server_error());
    assert!(host.sent.is_empty());
    assert_eq!(host.asked, vec!["secret:mongo_data_api_key"]);
}

#[test]
fn mongo_with_an_empty_secret_sends_nothing() {
    let mut host = Host::new();
    host.secrets.insert("mongo_data_api_key".to_string(), String::new());
    assert_eq!(host.handle(Method::Get, "/mongo"), server_error());
    host.body = Some("{}".to_string());
    assert_eq!(host.handle(Method::Post, "/mongo_post"), server_error());
    assert!(host.sent.is_empty());
}

#[test]
fn mongo_reports_each_failed_transmission() {
    for outcome in [Transmission::HeadersRefused, Transmission::Failed, Transmission::Unreadable] {
        let mut host = Host::new();
        host.gateway = outcome;
        assert_eq!(host.handle(Method::Get, "/mongo"), server_error());
    }
}

#[test]
fn mongo_reply_that_is_no_json_is_a_server_error() {
    let mut host = Host::new();
    host.gateway = Transmission::Delivered("<html>bad gateway</html>".to_string());
    assert_eq!(host.handle(Method::Get, "/mongo"), server_error());
}

#[test]
fn mongo_post_inserts_the_body_as_document() {
    let mut host = Host::new();
    host.body = Some("{ \"task\": \"buy milk\" }".to_string());
    host.gateway = Transmission::Delivered("{\"insertedId\":\"1\"}".to_string());
    assert_eq!(host.handle(Method::Post, "/mongo_post"), json("{\"insertedId\":\"1\"}"));
    assert_eq!(host.asked, vec!["body", "secret:mongo_data_api_key", "send"]);
    assert_eq!(host.sent.len(), 1);
    assert_eq!(
        host.sent[0].0,
        "https://data.mongodb-api.com/app/data-bkmnk/endpoint/data/beta/action/insertOne"
    );
    assert_eq!(host.sent[0].1, Method::Post);
    assert_eq!(
        host.sent[0].3,
        "{\"collection\":\"tasks\",\"dataSource\":\"Cluster0\",\"database\":\"task-manager-api\",\"document\":{\"task\":\"buy milk\"}}"
    );
}

#[test]
fn mongo_post_refuses_a_body_that_is_no_json() {
    let mut host = Host::new();
    host.body = Some("task=buy milk".to_string());
    assert_eq!(host.handle(Method::Post, "/mongo_post"), error(400, "Bad Request"));
    host.body = None;
    assert_eq!(host.handle(Method::Post, "/mongo_post"), error(400, "Bad Request"));
    assert!(host.sent.is_empty());
    assert_eq!(host.asked, vec!["body", "body"]);
}

#[test]
fn version_is_answered_as_it_is() {
    let mut host = Host::new();
    host.vars.insert("WORKERS_RS_VERSION".to_string(), " \"0.0.9\"\n\u{e9}".to_string());
    assert_eq!(host.handle(Method::Get, "/worker-version"), text(" \"0.0.9\"\n\u{e9}"));
    assert_eq!(host.asked, vec!["var:WORKERS_RS_VERSION"]);
}

#[test]
fn missing_version_is_a_server_error() {
    let mut host = Host::new();
    host.vars.clear();
    assert_eq!(host.handle(Method::Get, "/worker-version"), server_error());
}

#[test]
fn an_event_that_was_not_asked_for_ends_the_exchange() {
    let done = (Pending::Done, Action::Respond(server_error()));
    assert_eq!(resume(Pending::Version, Event::Secret(Some("k".to_string()))), done);
    assert_eq!(resume(Pending::FindSecret, Event::Var(Some("k".to_string()))), done);
    assert_eq!(resume(Pending::Reply, Event::Stored(true)), done);
    assert_eq!(resume(Pending::Storing, Event::Body(None)), done);
    assert_eq!(resume(Pending::Loading, Event::Form(FormLookup::Absent)), done);
    assert_eq!(resume(Pending::Done, Event::Stored(true)), done);
    assert_eq!(
        resume(Pending::FormRead { field: "f".to_string() }, Event::Record(KvLookup::Absent)),
        done
    );
}

#[test]
fn begin_says_what_to_do_first() {
    let router = Router::standard();
    assert_eq!(
        begin(&router, Method::Get, "/user/alice"),
        (
            Pending::Loading,
            Action::Get { store: "KV_FROM_RUST".to_string(), key: "alice".to_string() }
        )
    );
    assert_eq!(
        begin(&router, Method::Post, "/create_user/alice"),
        (Pending::CreateBody { name: Some("alice".to_string()) }, Action::ReadBody)
    );
    assert_eq!(
        begin(&router, Method::Get, "/worker-version"),
        (Pending::Version, Action::ReadVar { name: "WORKERS_RS_VERSION".to_string() })
    );
    assert_eq!(begin(&router, Method::Post, "/mongo_post"), (Pending::InsertBody, Action::ReadBody));
}

#[test]
fn response_constructors_set_status_and_content() {
    assert_eq!(Response::ok("x".to_string()), text("x"));
    assert_eq!(Response::json("{}".to_string()), json("{}"));
    assert_eq!(Response::error("gone", 410), error(410, "gone"));
}
