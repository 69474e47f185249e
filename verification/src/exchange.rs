//! One exchange: an inbound request, the work it asks of the host, and the
//! answer.
//!
//! The library cannot read a body, look up a secret or reach a service. It
//! says what is to be done next, as an [`Action`]; the host does it and
//! reports the outcome as an [`Event`]. [`begin`] opens an exchange,
//! [`resume`] continues it, and an exchange is over once the action is
//! [`Action::Respond`].

use crate::gateway::{
    api_key_secret, carries_key, gateway_document, gateway_request, mongo_request, outbound,
    reply_document, GatewayError, GatewayRequest, GatewayRequestView, Transmission,
    TransmissionView,
};
use crate::http::{error_response, json_response, text_response, Method, Response, ResponseView};
use crate::json::{compact, parsed_json};
use crate::pattern::{lookup, slash_free};
use crate::payload::{
    field_echo, field_payload, find_payload, find_query, insert_payload, insert_query,
    user_payload, user_record,
};
use crate::router::{
    lemma_resolve_none, lemma_standard_one_word, lemma_standard_two_words, resolve, route_hit,
    standard_routes, Handler, RouteView, Router,
};
use crate::text::text_of;
use vstd::prelude::*;
use vstd::string::StringExecFns;

verus! {

/// What the host found in the inbound form under the name asked for.
#[derive(Clone, Debug, PartialEq, Eq)]
pub enum FormLookup {
    /// The inbound body could not be read as a form.
    Unreadable,
    /// The form has no entry of that name.
    Absent,
    /// The first entry of that name is a field with this value.
    Field(String),
    /// The first entry of that name is a file.
    File,
}

/// The mathematical value of a [`FormLookup`].
pub enum FormLookupView {
    Unreadable,
    Absent,
    Field(Seq<char>),
    File,
}

impl View for FormLookup {
    type V = FormLookupView;

    open spec fn view(&self) -> FormLookupView {
        match self {
            FormLookup::Unreadable => FormLookupView::Unreadable,
            FormLookup::Absent => FormLookupView::Absent,
            FormLookup::Field(value) => FormLookupView::Field(value@),
            FormLookup::File => FormLookupView::File,
        }
    }
}

/// What the host found in the key-value store under the key asked for.
#[derive(Clone, Debug, PartialEq, Eq)]
pub enum KvLookup {
    /// The store could not be reached or refused the read.
    Failed,
    /// The store holds nothing under that key.
    Absent,
    /// The store holds this text under that key.
    Found(String),
}

/// The mathematical value of a [`KvLookup`].
pub enum KvLookupView {
    Failed,
    Absent,
    Found(Seq<char>),
}

impl View for KvLookup {
    type V = KvLookupView;

    open spec fn view(&self) -> KvLookupView {
        match self {
            KvLookup::Failed => KvLookupView::Failed,
            KvLookup::Absent => KvLookupView::Absent,
            KvLookup::Found(text) => KvLookupView::Found(text@),
        }
    }
}

/// What the host is to do next.
#[derive(Clone, Debug, PartialEq, Eq)]
pub enum Action {
    /// Answer the inbound request with this response. The exchange is over.
    Respond(Response),
    /// Read the inbound body as text, and report [`Event::Body`].
    ReadBody,
    /// Read the inbound body as a form, look up the first entry named
    /// `field`, and report [`Event::Form`].
    ReadForm { field: String },
    /// Look up the configuration variable `name`, and report [`Event::Var`].
    ReadVar { name: String },
    /// Look up the secret `name`, and report [`Event::Secret`].
    ReadSecret { name: String },
    /// Write the JSON text `value` under `key` to the key-value store
    /// `store`, and report [`Event::Stored`].
    Put { store: String, key: String, value: String },
    /// Read what the key-value store `store` holds under `key`, and report
    /// [`Event::Record`].
    Get { store: String, key: String },
    /// Transmit this request to the gateway, and report [`Event::Reply`].
    Send(GatewayRequest),
}

/// The mathematical value of an [`Action`].
pub enum ActionView {
    Respond(ResponseView),
    ReadBody,
    ReadForm { field: Seq<char> },
    ReadVar { name: Seq<char> },
    ReadSecret { name: Seq<char> },
    Put { store: Seq<char>, key: Seq<char>, value: Seq<char> },
    Get { store: Seq<char>, key: Seq<char> },
    Send(GatewayRequestView),
}

impl View for Action {
    type V = ActionView;

    open spec fn view(&self) -> ActionView {
        match self {
            Action::Respond(response) => ActionView::Respond(response@),
            Action::ReadBody => ActionView::ReadBody,
            Action::ReadForm { field } => ActionView::ReadForm { field: field@ },
            Action::ReadVar { name } => ActionView::ReadVar { name: name@ },
            Action::ReadSecret { name } => ActionView::ReadSecret { name: name@ },
            Action::Put { store, key, value } => ActionView::Put {
                store: store@,
                key: key@,
                value: value@,
            },
            Action::Get { store, key } => ActionView::Get { store: store@, key: key@ },
            Action::Send(request) => ActionView::Send(request@),
        }
    }
}

/// What the host reports of the action it was asked for.
#[derive(Clone, Debug, PartialEq, Eq)]
pub enum Event {
    /// The inbound body as text; `None` where it could not be read.
    Body(Option<String>),
    /// What the inbound form holds under the name asked for.
    Form(FormLookup),
    /// The value of the configuration variable; `None` where there is none.
    Var(Option<String>),
    /// The value of the secret; `None` where the lookup failed.
    Secret(Option<String>),
    /// Whether the key-value store took the write.
    Stored(bool),
    /// What the key-value store holds under the key asked for.
    Record(KvLookup),
    /// What became of the transmission to the gateway.
    Reply(Transmission),
}

/// The mathematical value of an [`Event`].
pub enum EventView {
    Body(Option<Seq<char>>),
    Form(FormLookupView),
    Var(Option<Seq<char>>),
    Secret(Option<Seq<char>>),
    Stored(bool),
    Record(KvLookupView),
    Reply(TransmissionView),
}

impl View for Event {
    type V = EventView;

    open spec fn view(&self) -> EventView {
        match self {
            Event::Body(text) => EventView::Body(text_of(*text)),
            Event::Form(found) => EventView::Form(found@),
            Event::Var(value) => EventView::Var(text_of(*value)),
            Event::Secret(value) => EventView::Secret(text_of(*value)),
            Event::Stored(done) => EventView::Stored(*done),
            Event::Record(found) => EventView::Record(found@),
            Event::Reply(sent) => EventView::Reply(sent@),
        }
    }
}

/// What an exchange is waiting for.
#[derive(Clone, Debug, PartialEq, Eq)]
pub enum Pending {
    /// Nothing: the response was given.
    Done,
    /// The version variable.
    Version,
    /// The API key, for the find query.
    FindSecret,
    /// The inbound body, for the insert query.
    InsertBody,
    /// The API key, for the insert query `payload`.
    InsertSecret { payload: String },
    /// The outcome of the transmission to the gateway.
    Reply,
    /// The inbound body, to be stored under the captured `name`.
    CreateBody { name: Option<String> },
    /// The outcome of the write to the key-value store.
    Storing,
    /// What the key-value store holds.
    Loading,
    /// The form entry named `field`.
    FormRead { field: String },
}

/// The mathematical value of a [`Pending`].
pub enum PendingView {
    Done,
    Version,
    FindSecret,
    InsertBody,
    InsertSecret { payload: Seq<char> },
    Reply,
    CreateBody { name: Option<Seq<char>> },
    Storing,
    Loading,
    FormRead { field: Seq<char> },
}

impl View for Pending {
    type V = PendingView;

    open spec fn view(&self) -> PendingView {
        match self {
            Pending::Done => PendingView::Done,
            Pending::Version => PendingView::Version,
            Pending::FindSecret => PendingView::FindSecret,
            Pending::InsertBody => PendingView::InsertBody,
            Pending::InsertSecret { payload } => PendingView::InsertSecret { payload: payload@ },
            Pending::Reply => PendingView::Reply,
            Pending::CreateBody { name } => PendingView::CreateBody { name: text_of(*name) },
            Pending::Storing => PendingView::Storing,
            Pending::Loading => PendingView::Loading,
            Pending::FormRead { field } => PendingView::FormRead { field: field@ },
        }
    }
}

/// The key-value store that holds the user records.
pub open spec fn user_store() -> Seq<char> {
    "KV_FROM_RUST"@
}

/// The configuration variable that holds the version.
pub open spec fn version_var() -> Seq<char> {
    "WORKERS_RS_VERSION"@
}

/// The answer to a request that no route takes.
pub open spec fn not_found() -> ResponseView {
    error_response(404, "Not Found"@)
}

/// The answer to a request whose body or form is not what the route needs.
pub open spec fn bad_request() -> ResponseView {
    error_response(400, "Bad Request"@)
}

/// The answer to a form entry that is a file where a field was expected.
pub open spec fn file_refused() -> ResponseView {
    error_response(422, "`field` param in form shouldn't be a File"@)
}

/// The answer where something that the handler depends on failed.
pub open spec fn server_error() -> ResponseView {
    error_response(500, "Internal Server Error"@)
}

/// The end of an exchange with `response`.
pub open spec fn answer(response: ResponseView) -> (PendingView, ActionView) {
    (PendingView::Done, ActionView::Respond(response))
}

/// The step that follows the lookup of the API key: the transmission of
/// what `built` holds, or a server error where no request was built.
pub open spec fn transmit(built: Result<GatewayRequestView, GatewayError>) -> (
    PendingView,
    ActionView,
) {
    match built {
        Ok(request) => (PendingView::Reply, ActionView::Send(request)),
        Err(_) => answer(server_error()),
    }
}

/// The first step of an exchange: the route that `routes` chooses for
/// `method` and `path` decides. No route gives the not-found answer.
pub open spec fn start(routes: Seq<RouteView>, method: Method, path: Seq<char>) -> (
    PendingView,
    ActionView,
) {
    match resolve(routes, method, path) {
        None => answer(not_found()),
        Some(chosen) => match chosen.handler {
            Handler::Root => answer(text_response("Hello from Workers!"@)),
            Handler::Mongo => (
                PendingView::FindSecret,
                ActionView::ReadSecret { name: api_key_secret() },
            ),
            Handler::MongoPost => (PendingView::InsertBody, ActionView::ReadBody),
            Handler::CreateUser => (
                PendingView::CreateBody { name: lookup(chosen.params, "name"@) },
                ActionView::ReadBody,
            ),
            Handler::User => match lookup(chosen.params, "name"@) {
                Some(name) => (
                    PendingView::Loading,
                    ActionView::Get { store: user_store(), key: name },
                ),
                None => answer(error_response(500, "an error occured getting kv"@)),
            },
            Handler::Form => match lookup(chosen.params, "field"@) {
                Some(field) => (PendingView::FormRead { field }, ActionView::ReadForm { field }),
                None => answer(bad_request()),
            },
            Handler::WorkerVersion => (
                PendingView::Version,
                ActionView::ReadVar { name: version_var() },
            ),
        },
    }
}

/// The step that follows `event` in an exchange that waits for `pending`.
/// An event that was not asked for ends the exchange with a server error.
pub open spec fn next(pending: PendingView, event: EventView) -> (PendingView, ActionView) {
    match (pending, event) {
        (PendingView::Version, EventView::Var(Some(version))) => answer(text_response(version)),
        (PendingView::FindSecret, EventView::Secret(secret)) => transmit(
            outbound(Method::Post, secret, find_query(), "action"@, "find"@),
        ),
        (PendingView::InsertBody, EventView::Body(Some(body))) => match parsed_json(body) {
            Some(document) => (
                PendingView::InsertSecret { payload: insert_query(document) },
                ActionView::ReadSecret { name: api_key_secret() },
            ),
            None => answer(bad_request()),
        },
        (PendingView::InsertBody, EventView::Body(None)) => answer(bad_request()),
        (PendingView::InsertSecret { payload }, EventView::Secret(secret)) => transmit(
            outbound(Method::Post, secret, payload, "action"@, "insertOne"@),
        ),
        (PendingView::Reply, EventView::Reply(sent)) => match reply_document(sent) {
            Ok(document) => answer(json_response(document)),
            Err(_) => answer(server_error()),
        },
        (PendingView::CreateBody { name }, EventView::Body(Some(body))) => match parsed_json(body) {
            Some(document) => match name {
                Some(key) => (
                    PendingView::Storing,
                    ActionView::Put { store: user_store(), key, value: document },
                ),
                None => answer(error_response(500, "an error occured while adding kv pair"@)),
            },
            None => answer(bad_request()),
        },
        (PendingView::CreateBody { name }, EventView::Body(None)) => answer(bad_request()),
        (PendingView::Storing, EventView::Stored(true)) => answer(
            text_response("created kv pair"@),
        ),
        (PendingView::Loading, EventView::Record(KvLookupView::Found(stored))) => match parsed_json(
            stored,
        ) {
            Some(value) => answer(json_response(user_record(value))),
            None => answer(server_error()),
        },
        (PendingView::FormRead { field }, EventView::Form(FormLookupView::Field(value))) => answer(
            json_response(field_echo(field, value)),
        ),
        (PendingView::FormRead { field }, EventView::Form(FormLookupView::File)) => answer(
            file_refused(),
        ),
        (PendingView::FormRead { field }, EventView::Form(_)) => answer(bad_request()),
        _ => answer(server_error()),
    }
}

/// Ends an exchange with the error answer `message` under `status`.
fn fail(message: &str, status: u16) -> (step: (Pending, Action))
    ensures
        (step.0@, step.1@) == answer(error_response(status, message@)),
{
    (Pending::Done, Action::Respond(Response::error(message, status)))
}

/// Ends an exchange where something that the handler depends on failed.
fn fail_server() -> (step: (Pending, Action))
    ensures
        (step.0@, step.1@) == answer(server_error()),
{
    fail("Internal Server Error", 500)
}

/// Ends an exchange whose body or form is not what the route needs.
fn fail_request() -> (step: (Pending, Action))
    ensures
        (step.0@, step.1@) == answer(bad_request()),
{
    fail("Bad Request", 400)
}

/// Asks for the API key.
fn ask_for_key() -> (action: Action)
    ensures
        action@ == (ActionView::ReadSecret { name: api_key_secret() }),
{
    Action::ReadSecret { name: String::from_str("mongo_data_api_key") }
}

/// Sends `payload` to the action `query` once the lookup of the API key
/// gave `secret`.
fn send(secret: Option<String>, payload: &str, query: &str) -> (step: (Pending, Action))
    ensures
        (step.0@, step.1@) == transmit(
            outbound(Method::Post, text_of(secret), payload@, "action"@, query@),
        ),
{
    match mongo_request(Method::Post, secret, payload, "action", query) {
        Ok(request) => (Pending::Reply, Action::Send(request)),
        Err(_) => fail_server(),
    }
}

/// Opens the exchange for an inbound request with `method` and `path`.
/// Returns what the exchange waits for, and what the host is to do first.
pub fn begin(router: &Router, method: Method, path: &str) -> (first: (Pending, Action))
    ensures
        (first.0@, first.1@) == start(router@, method, path@),
{
    let chosen = match router.resolve(method, path) {
        Some(chosen) => chosen,
        None => { return fail("Not Found", 404); },
    };
    match chosen.handler {
        Handler::Root => (
            Pending::Done,
            Action::Respond(Response::ok(String::from_str("Hello from Workers!"))),
        ),
        Handler::Mongo => (Pending::FindSecret, ask_for_key()),
        Handler::MongoPost => (Pending::InsertBody, Action::ReadBody),
        Handler::CreateUser => {
            let name = match chosen.params.get("name") {
                Some(name) => Some(name.clone()),
                None => None,
            };
            (Pending::CreateBody { name }, Action::ReadBody)
        },
        Handler::User => match chosen.params.get("name") {
            Some(name) => (
                Pending::Loading,
                Action::Get { store: String::from_str("KV_FROM_RUST"), key: name.clone() },
            ),
            None => fail("an error occured getting kv", 500),
        },
        Handler::Form => match chosen.params.get("field") {
            Some(field) => (
                Pending::FormRead { field: field.clone() },
                Action::ReadForm { field: field.clone() },
            ),
            None => fail_request(),
        },
        Handler::WorkerVersion => (
            Pending::Version,
            Action::ReadVar { name: String::from_str("WORKERS_RS_VERSION") },
        ),
    }
}

/// Continues an exchange that waits for `pending` with what the host
/// reports. Returns what the exchange waits for now, and what the host is to
/// do next.
pub fn resume(pending: Pending, event: Event) -> (step: (Pending, Action))
    ensures
        (step.0@, step.1@) == next(pending@, event@),
{
    match pending {
        Pending::Version => match event {
            Event::Var(Some(version)) => (Pending::Done, Action::Respond(Response::ok(version))),
            _ => fail_server(),
        },
        Pending::FindSecret => match event {
            Event::Secret(secret) => {
                let payload = find_payload();
                send(secret, payload.as_str(), "find")
            },
            _ => fail_server(),
        },
        Pending::InsertBody => match event {
            Event::Body(Some(body)) => match insert_payload(body.as_str()) {
                Ok(payload) => (Pending::InsertSecret { payload }, ask_for_key()),
                Err(_) => fail_request(),
            },
            Event::Body(None) => fail_request(),
            _ => fail_server(),
        },
        Pending::InsertSecret { payload } => match event {
            Event::Secret(secret) => send(secret, payload.as_str(), "insertOne"),
            _ => fail_server(),
        },
        Pending::Reply => match event {
            Event::Reply(sent) => match gateway_document(sent) {
                Ok(document) => (Pending::Done, Action::Respond(Response::json(document))),
                Err(_) => fail_server(),
            },
            _ => fail_server(),
        },
        Pending::CreateBody { name } => match event {
            Event::Body(Some(body)) => match compact(body.as_str()) {
                Ok(document) => match name {
                    Some(key) => (
                        Pending::Storing,
                        Action::Put {
                            store: String::from_str("KV_FROM_RUST"),
                            key,
                            value: document,
                        },
                    ),
                    None => fail("an error occured while adding kv pair", 500),
                },
                Err(_) => fail_request(),
            },
            Event::Body(None) => fail_request(),
            _ => fail_server(),
        },
        Pending::Storing => match event {
            Event::Stored(true) => (
                Pending::Done,
                Action::Respond(Response::ok(String::from_str("created kv pair"))),
            ),
            _ => fail_server(),
        },
        Pending::Loading => match event {
            Event::Record(KvLookup::Found(stored)) => match user_payload(stored.as_str()) {
                Ok(record) => (Pending::Done, Action::Respond(Response::json(record))),
                Err(_) => fail_server(),
            },
            _ => fail_server(),
        },
        Pending::FormRead { field } => match event {
            Event::Form(FormLookup::Field(value)) => (
                Pending::Done,
                Action::Respond(Response::json(field_payload(field.as_str(), value.as_str()))),
            ),
            Event::Form(FormLookup::File) => fail("`field` param in form shouldn't be a File", 422),
            Event::Form(_) => fail_request(),
            _ => fail_server(),
        },
        Pending::Done => fail_server(),
    }
}

/// A request that no registered route answers gets the not-found answer,
/// whatever its method and path.
pub proof fn lemma_unmatched_is_not_found(routes: Seq<RouteView>, method: Method, path: Seq<char>)
    requires
        forall|i: int| 0 <= i < routes.len() ==> !route_hit(#[trigger] routes[i], method, path),
    ensures
        start(routes, method, path) == answer(not_found()),
{
    lemma_resolve_none(routes, method, path);
}

/// The number of events that an exchange can still take.
pub open spec fn steps_left(pending: PendingView) -> nat {
    match pending {
        PendingView::Done => 0,
        PendingView::InsertBody => 3,
        PendingView::FindSecret => 2,
        PendingView::InsertSecret { .. } => 2,
        PendingView::CreateBody { .. } => 2,
        _ => 1,
    }
}

/// Every exchange ends: each event brings the exchange closer to its
/// answer, and the exchange is over exactly when the answer is given.
pub proof fn lemma_exchange_ends(pending: PendingView, event: EventView)
    ensures
        next(pending, event).1 is Respond <==> next(pending, event).0 is Done,
        pending !is Done ==> steps_left(next(pending, event).0) < steps_left(pending),
{
}

/// An exchange opens with a response or with a question to the host, never
/// with a transmission to the gateway.
pub proof fn lemma_start_never_sends(routes: Seq<RouteView>, method: Method, path: Seq<char>)
    ensures
        !(start(routes, method, path).1 is Send),
        start(routes, method, path).1 is Respond <==> start(routes, method, path).0 is Done,
{
}

/// Nothing goes to the gateway without an API key: a transmission follows
/// only the lookup of a secret that gave a key that is not empty, and the
/// request carries that key in its `api-key` header.
pub proof fn lemma_send_carries_key(pending: PendingView, event: EventView)
    ensures
        next(pending, event).1 matches ActionView::Send(request) ==> (event matches
        EventView::Secret(Some(key)) && key.len() > 0 && request.headers[2] == ("api-key"@, key))
            && carries_key(request),
{
    if let ActionView::Send(request) = next(pending, event).1 {
        assert(request.headers[2].0 == "api-key"@);
    }
}

/// Where the lookup of the API key fails or gives an empty key, the exchange
/// ends with a server error and nothing is transmitted.
pub proof fn lemma_no_key_no_send(pending: PendingView, secret: Option<Seq<char>>)
    requires
        secret matches Some(key) ==> key.len() == 0,
    ensures
        next(pending, EventView::Secret(secret)) == answer(server_error()),
{
}

/// `GET /mongo` asks for the API key and then sends the find query. The
/// body that goes out is the same for every request and every key.
pub proof fn lemma_find_query_is_fixed(key: Seq<char>)
    requires
        key.len() > 0,
    ensures
        start(standard_routes(), Method::Get, "/mongo"@) == (
            PendingView::FindSecret,
            ActionView::ReadSecret { name: api_key_secret() },
        ),
        next(PendingView::FindSecret, EventView::Secret(Some(key))) == (
            PendingView::Reply,
            ActionView::Send(gateway_request(Method::Post, key, find_query(), "action"@, "find"@)),
        ),
{
    reveal_strlit("/mongo");
    reveal_strlit("mongo");
    assert("/mongo"@ =~= seq!['/'] + "mongo"@);
    lemma_standard_one_word(Method::Get, "mongo"@);
}

/// `GET /worker-version` asks for the version variable and answers with
/// its value as it is: plain text, nothing added and nothing taken away.
pub proof fn lemma_version_is_verbatim(version: Seq<char>)
    ensures
        start(standard_routes(), Method::Get, "/worker-version"@) == (
            PendingView::Version,
            ActionView::ReadVar { name: version_var() },
        ),
        next(PendingView::Version, EventView::Var(Some(version))) == answer(
            ResponseView { status: 200, content: crate::http::Content::Text, body: version },
        ),
{
    reveal_strlit("/worker-version");
    reveal_strlit("worker-version");
    reveal_strlit("mongo");
    assert("/worker-version"@ =~= seq!['/'] + "worker-version"@);
    lemma_standard_one_word(Method::Get, "worker-version"@);
}

/// `GET /user/<name>` reads the store under `name`. A name that was never
/// written gives a server error, not a success.
pub proof fn lemma_absent_user_is_server_error(name: Seq<char>)
    requires
        slash_free(name),
        name.len() > 0,
    ensures
        start(standard_routes(), Method::Get, "/user/"@ + name) == (
            PendingView::Loading,
            ActionView::Get { store: user_store(), key: name },
        ),
        next(PendingView::Loading, EventView::Record(KvLookupView::Absent)) == answer(
            server_error(),
        ),
        server_error().status == 500,
{
    reveal_strlit("/user/");
    reveal_strlit("user");
    assert("/user/"@ + name =~= seq!['/'] + "user"@ + seq!['/'] + name);
    lemma_standard_two_words(Method::Get, "user"@, name);
    lemma_lookup_single("name"@, name);
}

/// `POST /create_user/<name>` stores the inbound JSON under `name`, and
/// `GET /user/<name>` answers with what the store holds under `name`,
/// wrapped as the user's record.
pub proof fn lemma_user_round_trip(name: Seq<char>, body: Seq<char>, stored: Seq<char>)
    requires
        slash_free(name),
        name.len() > 0,
    ensures
        start(standard_routes(), Method::Post, "/create_user/"@ + name) == (
            PendingView::CreateBody { name: Some(name) },
            ActionView::ReadBody,
        ),
        parsed_json(body) matches Some(document) ==> next(
            PendingView::CreateBody { name: Some(name) },
            EventView::Body(Some(body)),
        ) == (
            PendingView::Storing,
            ActionView::Put { store: user_store(), key: name, value: document },
        ),
        parsed_json(stored) matches Some(value) ==> next(
            PendingView::Loading,
            EventView::Record(KvLookupView::Found(stored)),
        ) == answer(json_response(user_record(value))),
{
    reveal_strlit("/create_user/");
    reveal_strlit("create_user");
    assert("/create_user/"@ + name =~= seq!['/'] + "create_user"@ + seq!['/'] + name);
    lemma_standard_two_words(Method::Post, "create_user"@, name);
    lemma_lookup_single("name"@, name);
}

/// `POST /form/<field>` asks for the form entry named `field`: a field is
/// echoed, a file is refused with 422, and a missing entry with 400.
pub proof fn lemma_form_answers(field: Seq<char>, value: Seq<char>)
    requires
        slash_free(field),
        field.len() > 0,
    ensures
        start(standard_routes(), Method::Post, "/form/"@ + field) == (
            PendingView::FormRead { field },
            ActionView::ReadForm { field },
        ),
        next(PendingView::FormRead { field }, EventView::Form(FormLookupView::Field(value)))
            == answer(json_response(field_echo(field, value))),
        next(PendingView::FormRead { field }, EventView::Form(FormLookupView::File)) == answer(
            file_refused(),
        ),
        next(PendingView::FormRead { field }, EventView::Form(FormLookupView::Absent)) == answer(
            bad_request(),
        ),
        file_refused().status == 422,
        bad_request().status == 400,
{
    reveal_strlit("/form/");
    reveal_strlit("form");
    reveal_strlit("create_user");
    assert("/form/"@ + field =~= seq!['/'] + "form"@ + seq!['/'] + field);
    lemma_standard_two_words(Method::Post, "form"@, field);
    lemma_lookup_single("field"@, field);
}

/// A single capture is found under its name.
pub proof fn lemma_lookup_single(name: Seq<char>, value: Seq<char>)
    ensures
        lookup(seq![(name, value)], name) == Some(value),
{
    let captures = seq![(name, value)];
    assert(captures.last() == (name, value));
}

} // verus!
