use short_url::{
    resolve, short_key, Action, Decision, Event, Lookup, MemoryStore, Resolver,
};

fn sample_store() -> MemoryStore {
    let mut store = MemoryStore::new();
    store.insert("default", "https://example.org");
    store.insert("abc", "https://dest.example/page");
    store
}

fn redirect(location: &str) -> Decision {
    Decision::Redirect(location.to_string())
}

#[test]
fn stored_key_redirects_to_its_destination() {
    let store = sample_store();
    let d = resolve(&store, "/abc");
    assert_eq!(d, redirect("https://dest.example/page"));
    assert_eq!(d.status(), 301);
}

#[test]
fn missing_key_redirects_to_default() {
    let store = sample_store();
    // A URL with an empty path is serialised with a trailing slash.
    let d = resolve(&store, "/missing");
    assert_eq!(d, redirect("https://example.org/"));
    assert_eq!(d.status(), 301);
}

#[test]
fn empty_path_redirects_to_default() {
    let store = sample_store();
    assert_eq!(resolve(&store, ""), redirect("https://example.org/"));
}

#[test]
fn root_path_matches_empty_path() {
    let store = sample_store();
    assert_eq!(resolve(&store, "/"), resolve(&store, ""));
    assert_eq!(resolve(&store, "/"), redirect("https://example.org/"));
}

#[test]
fn no_default_fails_with_empty_body() {
    let mut store = MemoryStore::new();
    store.insert("abc", "https://dest.example/page");
    let d = resolve(&store, "");
    assert_eq!(d, Decision::Failure(String::new()));
    assert_eq!(d.status(), 500);
}

#[test]
fn no_default_fails_for_stored_key_too() {
    let mut store = MemoryStore::new();
    store.insert("abc", "https://dest.example/page");
    assert_eq!(resolve(&store, "/abc"), Decision::Failure(String::new()));
}

#[test]
fn failed_default_fetch_reports_store_error() {
    let mut store = sample_store();
    store.set("default", Lookup::Failed("kv timeout".to_string()));
    let d = resolve(&store, "/abc");
    assert_eq!(d, Decision::Failure("kv timeout".to_string()));
    assert_eq!(d.status(), 500);
}

#[test]
fn failed_keyed_fetch_redirects_to_default() {
    let mut store = sample_store();
    store.set("abc", Lookup::Failed("network error".to_string()));
    let d = resolve(&store, "/abc");
    assert_eq!(d, redirect("https://example.org/"));
    assert_eq!(d.status(), 301);
}

#[test]
fn same_request_twice_gets_same_answer() {
    let store = sample_store();
    assert_eq!(resolve(&store, "/abc"), resolve(&store, "/abc"));
    assert_eq!(resolve(&store, "/zzz"), resolve(&store, "/zzz"));
}

#[test]
fn destination_is_normalised_by_url_parser() {
    let mut store = sample_store();
    store.insert("up", "HTTPS://Dest.Example/page");
    assert_eq!(resolve(&store, "/up"), redirect("https://dest.example/page"));
}

#[test]
fn malformed_destination_fails() {
    let mut store = sample_store();
    store.insert("bad", "not a url");
    let d = resolve(&store, "/bad");
    assert_eq!(d, Decision::Failure("relative URL without a base".to_string()));
    assert_eq!(d.status(), 500);
}

#[test]
fn malformed_default_fails_only_when_used() {
    let mut store = sample_store();
    store.insert("default", "not a url");
    assert_eq!(resolve(&store, "/abc"), redirect("https://dest.example/page"));
    assert_eq!(resolve(&store, "/gone"), Decision::Failure("relative URL without a base".to_string()));
}

#[test]
fn latest_insert_wins() {
    let mut store = sample_store();
    store.insert("abc", "https://other.example/x");
    assert_eq!(resolve(&store, "/abc"), redirect("https://other.example/x"));
    assert_eq!(store.get("abc"), Lookup::Found("https://other.example/x".to_string()));
    assert_eq!(store.get("nothing"), Lookup::Absent);
}

#[test]
fn short_key_strips_one_leading_slash() {
    assert_eq!(short_key(""), "");
    assert_eq!(short_key("/"), "");
    assert_eq!(short_key("/abc"), "abc");
    assert_eq!(short_key("abc"), "abc");
    assert_eq!(short_key("//x"), "/x");
}

#[test]
fn from_parsed_maps_both_results() {
    assert_eq!(Decision::from_parsed(Ok("https://a.example/".to_string())), redirect("https://a.example/"));
    assert_eq!(Decision::from_parsed(Err("bad".to_string())), Decision::Failure("bad".to_string()));
    assert_eq!(Decision::redirect_to("https://a.example"), redirect("https://a.example/"));
}

#[test]
fn resolver_asks_for_default_then_key() {
    let (mut r, first) = Resolver::start("abc".to_string());
    assert_eq!(first, Action::Fetch("default".to_string()));
    assert!(!r.is_done());
    let next = r.on_event(Event::Fetched(Lookup::Found("https://example.org".to_string())));
    assert_eq!(next, Action::Fetch("abc".to_string()));
    let last = r.on_event(Event::Fetched(Lookup::Absent));
    assert_eq!(last, Action::Respond(redirect("https://example.org/")));
    assert!(r.is_done());
    let again = r.on_event(Event::Fetched(Lookup::Found("https://x.example/".to_string())));
    assert_eq!(again, Action::Respond(redirect("https://example.org/")));
}

#[test]
fn resolver_for_empty_key_answers_after_default() {
    let (mut r, _) = Resolver::start(String::new());
    let a = r.on_event(Event::Fetched(Lookup::Found("https://example.org/home".to_string())));
    assert_eq!(a, Action::Respond(redirect("https://example.org/home")));
}

#[test]
fn unavailable_store_fails_with_its_message() {
    let (mut r, _) = Resolver::start("abc".to_string());
    let a = r.on_event(Event::StoreUnavailable("binding SHORT_URL missing".to_string()));
    assert_eq!(a, Action::Respond(Decision::Failure("binding SHORT_URL missing".to_string())));
    assert!(r.is_done());
}
