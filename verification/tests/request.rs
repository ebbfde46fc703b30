use gemon::config::arguments::GemonArguments;
use gemon::config::effector::Effector;
use gemon::config::types::{GemonMethodType, GemonType};
use gemon::config::GemonConfig;
use gemon::dict::Dict;
use gemon::project::project_handler::{get_request, restore_request, save_request, saved_file};
use gemon::project::{Environment, Project};
use gemon::request::request_builder::RequestBuilder;
use gemon::request::rest_request::{GemonRestRequest, GemonRestRequestBuilder, Payload};

fn s(text: &str) -> String {
    text.to_string()
}

fn config(list: &[&str]) -> GemonConfig {
    let arguments = GemonArguments::new(list.iter().map(|t| t.to_string()).collect()).unwrap();
    GemonConfig::new(&arguments).unwrap()
}

fn dict(pairs: &[(&str, &str)]) -> Dict<String> {
    let mut d: Dict<String> = Dict::new();
    for (k, v) in pairs {
        d.insert(s(k), s(v));
    }
    d
}

fn pairs(d: &Dict<String>) -> Vec<(String, String)> {
    (0..d.len()).map(|i| (d.key_at(i).clone(), d.value_at(i).clone())).collect()
}

fn same(a: &GemonRestRequest, b: &GemonRestRequest) -> bool {
    a.gemon_method_type() == b.gemon_method_type()
        && a.uri() == b.uri()
        && pairs(a.headers()) == pairs(b.headers())
        && a.body() == b.body()
        && pairs(a.form_data()) == pairs(b.form_data())
}

fn sample() -> GemonRestRequest {
    GemonRestRequest::from_parts(
        GemonMethodType::Post,
        s("https://api.example.com/login"),
        dict(&[("X-Id", "1"), ("Accept", "text/plain")]),
        Some(s("{\"user\":\"u\"}")),
        dict(&[]),
    )
}

#[test]
fn request_of_a_configuration() {
    let c = config(&["prog", "-m=PUT", "-u=https://x/y", "-h=A::1", "-b=body", "-fd=k::v"]);
    let r = RequestBuilder::build(&c, None);
    assert_eq!(r.gemon_method_type(), GemonMethodType::Put);
    assert_eq!(r.uri(), "https://x/y");
    assert_eq!(pairs(r.headers()), vec![(s("A"), s("1"))]);
    assert_eq!(*r.body(), Some(s("body")));
    assert_eq!(pairs(r.form_data()), vec![(s("k"), s("v"))]);
}

#[test]
fn request_defaults_to_get_and_the_empty_url() {
    let r = RequestBuilder::build(&config(&["prog", "-l"]), None);
    assert_eq!(r.gemon_method_type(), GemonMethodType::Get);
    assert_eq!(r.uri(), "");
    assert_eq!(*r.body(), None);
}

#[test]
fn secure_request_takes_the_authorization_of_the_project() {
    let c = config(&["prog", "-u=x", "-sec"]);
    let r = RequestBuilder::build(&c, Some(s("Bearer t")));
    assert_eq!(r.headers().get("Authorization"), Some(&s("Bearer t")));
    let r = RequestBuilder::build_rest_request(&c, None);
    assert_eq!(r.headers().get("Authorization"), None);
}

#[test]
fn own_authorization_header_is_kept() {
    let c = config(&["prog", "-u=x", "-sec", "-h=Authorization::Basic own"]);
    let r = RequestBuilder::build(&c, Some(s("Bearer t")));
    assert_eq!(r.headers().get("Authorization"), Some(&s("Basic own")));
    assert_eq!(r.headers().len(), 1);
}

#[test]
fn request_that_is_not_secure_carries_no_authorization() {
    let c = config(&["prog", "-u=x"]);
    let r = RequestBuilder::build(&c, Some(s("Bearer t")));
    assert_eq!(r.headers().len(), 0);
}

#[test]
fn markers_name_the_request_kinds() {
    assert_eq!(RequestBuilder::request_kind("REST"), Some(GemonType::Rest));
    assert_eq!(RequestBuilder::request_kind("WEBSOCKET"), Some(GemonType::Websocket));
    assert_eq!(RequestBuilder::request_kind("PROTO"), Some(GemonType::Proto));
    assert_eq!(RequestBuilder::request_kind("rest"), None);
    assert_eq!(RequestBuilder::request_kind("REST\n"), None);
    assert_eq!(RequestBuilder::request_kind(""), None);
}

#[test]
fn rest_builder_collects_the_fields() {
    let builder = GemonRestRequestBuilder::new();
    assert!(!builder.is_complete());
    let builder = builder.set_gemon_method_type(GemonMethodType::Delete);
    assert!(!builder.is_complete());
    let builder = builder
        .set_url(s("u"))
        .set_headers(&dict(&[("a", "1")]))
        .set_body(Some(s("b")))
        .set_form_data(&dict(&[("f", "2")]));
    assert!(builder.is_complete());
    let r = builder.build();
    assert_eq!(r.gemon_method_type(), GemonMethodType::Delete);
    assert_eq!(r.uri(), "u");
    assert_eq!(pairs(r.headers()), vec![(s("a"), s("1"))]);
    assert_eq!(*r.body(), Some(s("b")));
    assert_eq!(pairs(r.form_data()), vec![(s("f"), s("2"))]);
}

#[test]
fn default_headers_come_first_and_are_overridden() {
    let r = sample();
    let out = r.outgoing_headers();
    assert_eq!(out.get("content-type"), Some(&s("application/json")));
    assert_eq!(out.get("accept"), Some(&s("application/json")));
    assert_eq!(out.get("X-Id"), Some(&s("1")));
    assert_eq!(out.get("Accept"), Some(&s("text/plain")));
    assert_eq!(out.len(), 4);
    assert_eq!(out.key_at(0), "content-type");
    assert_eq!(out.key_at(1), "accept");
    let r = GemonRestRequest::from_parts(
        GemonMethodType::Get,
        s("u"),
        dict(&[("accept", "text/html")]),
        None,
        dict(&[]),
    );
    let out = r.outgoing_headers();
    assert_eq!(out.len(), 2);
    assert_eq!(out.get("accept"), Some(&s("text/html")));
    assert_eq!(out.get("content-type"), Some(&s("application/json")));
}

#[test]
fn form_data_takes_precedence_over_the_body() {
    let r = GemonRestRequest::from_parts(
        GemonMethodType::Post,
        s("u"),
        dict(&[]),
        Some(s("raw")),
        dict(&[("k", "v")]),
    );
    assert!(matches!(r.payload(), Payload::Form(f) if f.get("k") == Some(&s("v")) && f.len() == 1));
    let r = GemonRestRequest::from_parts(GemonMethodType::Post, s("u"), dict(&[]), Some(s("raw")), dict(&[]));
    assert!(matches!(r.payload(), Payload::Text(t) if t == "raw"));
    let r = GemonRestRequest::from_parts(GemonMethodType::Post, s("u"), dict(&[]), None, dict(&[]));
    assert!(matches!(r.payload(), Payload::Empty));
}

#[test]
fn saved_request_is_split_into_its_files() {
    let project = Some(Project::new(s("demo")));
    let (request, saved) = save_request(&project, Box::new(sample()), &s("login"));
    assert!(same(&request, &sample()));
    assert_eq!(saved.metadata_path, "login/metadata.json");
    assert_eq!(saved.body_path, "login/body.json");
    assert_eq!(saved.marker_path, "login/.marker");
    assert_eq!(saved.marker, "REST");
    assert_eq!(saved.body, "{\"user\":\"u\"}");
    assert_eq!(*saved.metadata.body(), None);
    assert_eq!(saved.metadata.uri(), "https://api.example.com/login");
    assert_eq!(saved_file(&s("a"), "b"), "a/b");
}

#[test]
fn saved_request_comes_back_as_it_was() {
    let project = Some(Project::new(s("demo")));
    let (request, saved) = save_request(&project, Box::new(sample()), &s("login"));
    let restored = restore_request(saved.metadata, Some(saved.body));
    assert!(same(&restored, &request));
    assert!(same(&restored, &sample()));
}

#[test]
fn request_without_body_comes_back_with_the_empty_body() {
    let project = Some(Project::new(s("demo")));
    let plain = GemonRestRequest::from_parts(GemonMethodType::Get, s("u"), dict(&[]), None, dict(&[]));
    let (_, saved) = save_request(&project, Box::new(plain), &s("ping"));
    assert_eq!(saved.body, "");
    let restored = restore_request(saved.metadata.duplicate(), Some(saved.body));
    assert_eq!(*restored.body(), Some(s("")));
    assert_eq!(restored.uri(), "u");
    let restored = restore_request(saved.metadata, None);
    assert_eq!(*restored.body(), None);
}

#[test]
fn loaded_request_has_its_placeholders_replaced() {
    let project = Some(Project::new(s("demo")));
    let env = Some(Environment::from((s("host"), s("example.com"))));
    let loaded = get_request(
        &project,
        &env,
        "REST",
        s("{\"uri\":\"https://{host}/x\"}"),
        Some(s("{\"h\":\"{host}\"}")),
    );
    assert_eq!(loaded.kind, GemonType::Rest);
    assert_eq!(loaded.metadata_json, "{\"uri\":\"https://example.com/x\"}");
    assert_eq!(loaded.body_json, Some(s("{\"h\":\"example.com\"}")));
    let loaded = get_request(&project, &None, "PROTO", s("{host}"), None);
    assert_eq!(loaded.kind, GemonType::Proto);
    assert_eq!(loaded.metadata_json, "{host}");
    assert_eq!(loaded.body_json, None);
    assert_eq!(Effector::apply_env_to_string(&env, s("{host}")), "example.com");
}

#[test]
fn request_body_is_set_and_cleared() {
    let mut r = sample();
    assert_eq!(r.json_body(), "{\"user\":\"u\"}");
    assert_eq!(r.request_type(), "REST");
    r.set_body(None);
    assert_eq!(r.json_body(), "");
    assert_eq!(*r.body(), None);
    r.set_body(Some(s("x")));
    assert_eq!(*r.metadata().body(), None);
    assert_eq!(*r.body(), Some(s("x")));
}

#[test]
fn request_of_a_rest_marker_is_the_request_that_was_read() {
    let r = RequestBuilder::build_from_string(sample(), "REST");
    assert!(same(&r, &sample()));
}
