use orchestrate::client::{Client, Method, Request, Response};
use orchestrate::error::{DecodeError, TransportError};
use orchestrate::json::JsonValue;
use orchestrate::{Orchestrate, OrchestrateError, RepresentsJSON};

#[derive(Debug, PartialEq)]
struct Person {
    name: String,
    email: String,
}

impl RepresentsJSON for Person {
    fn from_json(value: &JsonValue) -> Option<Person> {
        let name = value.field("name")?.as_text()?.clone();
        let email = value.field("email")?.as_text()?.clone();
        Some(Person { name, email })
    }
}

fn reply(status: u16, headers: Vec<(&str, &str)>, body: &str) -> Response {
    Response {
        status,
        headers: headers
            .into_iter()
            .map(|(n, v)| (n.to_string(), v.to_string()))
            .collect(),
        body: body.to_string(),
    }
}

fn header<'a>(request: &'a Request, name: &str) -> Option<&'a str> {
    let mut found = None;
    for (n, v) in request.headers.iter() {
        if n == name {
            assert!(found.is_none());
            found = Some(v.as_str());
        }
    }
    found
}

const CHAD: &str = "{\"name\":\"chad\",\"email\":\"c@x.com\"}";

#[test]
fn create_then_get_scenario() {
    let client = Orchestrate::new("secret");
    let mut sent: Option<Request> = None;
    let path = client
        .post("users")
        .data(CHAD)
        .exec(|q: Request| {
            sent = Some(q);
            Ok(reply(
                201,
                vec![("Location", "/v0/users/0ab1c2/refs/cbb48f9464612f20")],
                "",
            ))
        })
        .unwrap();
    assert_eq!(path.collection, "users");
    assert_eq!(path.key, "0ab1c2");
    assert_eq!(path.ref_.as_deref(), Some("cbb48f9464612f20"));
    let q = sent.unwrap();
    assert_eq!(q.method, Method::Post);
    assert_eq!(q.url, "https://api.orchestrate.io/v0/users");
    assert_eq!(q.body.as_deref(), Some(CHAD));
    assert_eq!(header(&q, "Content-Type"), Some("application/json"));
    assert_eq!(header(&q, "Content-Length"), Some("33"));
    assert_eq!(header(&q, "User-Agent"), Some("orc-rs 0.1.0"));
    assert_eq!(header(&q, "Authorization"), Some("Basic c2VjcmV0Og=="));

    let mut asked: Option<Request> = None;
    let found = client
        .get(&path.collection, &path.key)
        .exec::<Person, _>(|q: Request| {
            asked = Some(q);
            Ok(reply(
                200,
                vec![("Content-Location", "/v0/users/0ab1c2/refs/cbb48f9464612f20")],
                CHAD,
            ))
        })
        .unwrap();
    assert_eq!(
        found.value,
        Person {
            name: "chad".to_string(),
            email: "c@x.com".to_string()
        }
    );
    assert_eq!(found.path.collection, "users");
    assert_eq!(found.path.key, "0ab1c2");
    assert_eq!(found.path.ref_.as_deref(), Some("cbb48f9464612f20"));
    let q = asked.unwrap();
    assert_eq!(q.method, Method::Get);
    assert_eq!(q.url, "https://api.orchestrate.io/v0/users/0ab1c2");
    assert_eq!(q.body, None);
    assert_eq!(header(&q, "Content-Length"), Some("0"));
    assert_eq!(header(&q, "Content-Type"), None);
}

#[test]
fn get_without_content_location_has_no_ref() {
    let found = Orchestrate::new("t")
        .get("users", "k")
        .exec::<Person, _>(|_q: Request| Ok(reply(200, vec![], CHAD)))
        .unwrap();
    assert_eq!(found.path.ref_, None);
}

#[test]
fn search_scenario() {
    let body = "{\"count\":1,\"total_count\":1,\"results\":[{\"path\":{\"collection\":\"users\",\"key\":\"k1\",\"ref\":\"r1\"},\"score\":1.5,\"distance\":0,\"value\":{\"name\":\"chad\",\"email\":\"c@x.com\"}}]}";
    let mut sent: Option<Request> = None;
    let page = Orchestrate::new("t")
        .search("users")
        .query("name:chad")
        .limit(10)
        .offset(0)
        .exec::<Person, _>(|q: Request| {
            sent = Some(q);
            Ok(reply(200, vec![], body))
        })
        .unwrap();
    assert_eq!(page.count, 1);
    assert_eq!(page.total_count, 1);
    assert_eq!(page.results.len(), 1);
    assert_eq!(page.results[0].value.name, "chad");
    assert_eq!(page.results[0].path.key, "k1");
    assert_eq!(
        page.results[0].score,
        orchestrate::json::Number::Real(1.5f64.to_bits())
    );
    assert_eq!(
        page.results[0].distance,
        orchestrate::json::Number::Unsigned(0)
    );
    assert_eq!(page.next, None);
    assert!(!page.has_next());
    assert!(!page.has_prev());
    assert_eq!(
        sent.unwrap().url,
        "https://api.orchestrate.io/v0/users?query=name%3Achad&limit=10&offset=0"
    );
}

#[test]
fn search_defaults_to_everything_and_repeats_sort() {
    let mut sent: Option<Request> = None;
    let _ = Orchestrate::new("t")
        .search("users")
        .sort("age", "asc")
        .sort("name", "desc")
        .exec::<Person, _>(|q: Request| {
            sent = Some(q);
            Err(TransportError::Io("closed".to_string()))
        });
    assert_eq!(
        sent.unwrap().url,
        "https://api.orchestrate.io/v0/users?sort=value.age%3Aasc&sort=value.name%3Adesc&query=*"
    );
}

#[test]
fn search_follows_links_as_they_are() {
    let body = "{\"count\":0,\"total_count\":5,\"results\":[],\"next\":\"/v0/users?limit=2&query=*&offset=4\",\"prev\":\"/v0/users?limit=2&query=*&offset=0\"}";
    let client = Orchestrate::new("t");
    let page = client
        .search("users")
        .limit(2)
        .offset(2)
        .exec::<Person, _>(|_q: Request| Ok(reply(200, vec![], body)))
        .unwrap();
    assert!(page.has_next());
    assert!(page.has_prev());
    assert_eq!(page.total_count, 5);
    let mut sent: Option<Request> = None;
    let _ = client
        .search("users")
        .limit(2)
        .get_next(&page)
        .exec::<Person, _>(|q: Request| {
            sent = Some(q);
            Err(TransportError::Io("closed".to_string()))
        });
    assert_eq!(
        sent.unwrap().url,
        "https://api.orchestrate.io/v0/users?limit=2&query=*&offset=4"
    );
    let mut back: Option<Request> = None;
    let _ = client
        .search("users")
        .get_prev(&page)
        .exec::<Person, _>(|q: Request| {
            back = Some(q);
            Err(TransportError::Io("closed".to_string()))
        });
    assert_eq!(
        back.unwrap().url,
        "https://api.orchestrate.io/v0/users?limit=2&query=*&offset=0"
    );
}

#[test]
fn update_with_stale_ref_is_a_domain_error() {
    let mut sent: Option<Request> = None;
    let r = Orchestrate::new("t")
        .put("users", "k1")
        .data(CHAD)
        .if_match("0123abcd")
        .exec(|q: Request| {
            sent = Some(q);
            Ok(reply(
                412,
                vec![],
                "{\"message\":\"The version of the item does not match.\",\"code\":\"item_version_mismatch\"}",
            ))
        });
    match r {
        Err(OrchestrateError::RequestError(e)) => {
            assert_eq!(e.status, 412);
            assert_eq!(e.message, "The version of the item does not match.");
        }
        other => panic!("unexpected: {:?}", other),
    }
    let q = sent.unwrap();
    assert_eq!(q.method, Method::Put);
    assert_eq!(q.url, "https://api.orchestrate.io/v0/users/k1");
    assert_eq!(header(&q, "If-Match"), Some("\"0123abcd\""));
    assert_eq!(header(&q, "If-None-Match"), None);
}

#[test]
fn update_if_absent_conflicts_or_creates() {
    let client = Orchestrate::new("t");
    let mut sent: Option<Request> = None;
    let taken = client
        .put("users", "k1")
        .data(CHAD)
        .if_absent()
        .exec(|q: Request| {
            sent = Some(q);
            Ok(reply(409, vec![], "already there"))
        });
    match taken {
        Err(OrchestrateError::RequestError(e)) => {
            assert_eq!(e.status, 409);
            assert_eq!(e.message, "already there");
        }
        other => panic!("unexpected: {:?}", other),
    }
    assert_eq!(header(&sent.unwrap(), "If-None-Match"), Some("*"));
    let fresh = client
        .put("users", "k2")
        .data(CHAD)
        .if_absent()
        .exec(|_q: Request| {
            Ok(reply(
                201,
                vec![("location", "/v0/users/k2/refs/82eafab14dc84ed3")],
                "",
            ))
        })
        .unwrap();
    assert_eq!(fresh.collection, "users");
    assert_eq!(fresh.key, "k2");
    assert_eq!(fresh.ref_.as_deref(), Some("82eafab14dc84ed3"));
}

#[test]
fn created_without_location_is_a_decode_error() {
    let r = Orchestrate::new("t")
        .post("users")
        .data(CHAD)
        .exec(|_q: Request| Ok(reply(201, vec![], "")));
    assert!(matches!(
        r,
        Err(OrchestrateError::JsonError(DecodeError::Location))
    ));
    let r = Orchestrate::new("t")
        .put("users", "k")
        .data(CHAD)
        .exec(|_q: Request| Ok(reply(201, vec![("Location", "/v0/users/k")], "")));
    assert!(matches!(
        r,
        Err(OrchestrateError::JsonError(DecodeError::Location))
    ));
}

#[test]
fn delete_with_purge() {
    let mut sent: Option<Request> = None;
    let done = Orchestrate::new("t")
        .delete("users", "k1")
        .if_match("abc")
        .purge()
        .exec(|q: Request| {
            sent = Some(q);
            Ok(reply(204, vec![], ""))
        })
        .unwrap();
    assert!(done);
    let q = sent.unwrap();
    assert_eq!(q.method, Method::Delete);
    assert_eq!(q.url, "https://api.orchestrate.io/v0/users/k1?purge=true");
    assert_eq!(header(&q, "If-Match"), Some("\"abc\""));
    let gone = Orchestrate::new("t")
        .get("users", "k1")
        .exec::<Person, _>(|_q: Request| Ok(reply(404, vec![], "{\"message\":\"not found\"}")));
    match gone {
        Err(OrchestrateError::RequestError(e)) => {
            assert_eq!(e.status, 404);
            assert_eq!(e.message, "not found");
        }
        other => panic!("unexpected: {:?}", other),
    }
}

#[test]
fn delete_that_is_refused() {
    let r = Orchestrate::new("t")
        .delete("users", "k1")
        .exec(|_q: Request| Ok(reply(200, vec![], "odd")));
    match r {
        Err(OrchestrateError::RequestError(e)) => {
            assert_eq!(e.status, 200);
            assert_eq!(e.message, "odd");
        }
        other => panic!("unexpected: {:?}", other),
    }
}

#[test]
fn list_pages_are_walked_by_their_links() {
    let first = "{\"count\":2,\"results\":[{\"path\":{\"collection\":\"users\",\"key\":\"k1\",\"ref\":\"r1\"},\"value\":{\"name\":\"a\",\"email\":\"a@x\"}},{\"path\":{\"collection\":\"users\",\"key\":\"k2\",\"ref\":\"r2\"},\"value\":{\"name\":\"b\",\"email\":\"b@x\"}}],\"next\":\"/v0/users?limit=2&afterKey=k2\"}";
    let last = "{\"count\":1,\"results\":[{\"path\":{\"collection\":\"users\",\"key\":\"k3\",\"ref\":\"r3\"},\"value\":{\"name\":\"c\",\"email\":\"c@x\"}}]}";
    let client = Orchestrate::new("t");
    let mut urls: Vec<String> = Vec::new();
    let mut keys: Vec<String> = Vec::new();
    let mut page = client
        .list("users")
        .limit(2)
        .exec::<Person, _>(|q: Request| {
            urls.push(q.url);
            Ok(reply(200, vec![], first))
        })
        .unwrap();
    loop {
        for item in page.results.iter() {
            keys.push(item.path.key.clone());
        }
        if !page.has_next() {
            break;
        }
        page = client
            .list("users")
            .limit(2)
            .get_next(&page)
            .exec::<Person, _>(|q: Request| {
                urls.push(q.url);
                Ok(reply(200, vec![], last))
            })
            .unwrap();
    }
    assert_eq!(keys, vec!["k1", "k2", "k3"]);
    assert_eq!(
        urls,
        vec![
            "https://api.orchestrate.io/v0/users?limit=2",
            "https://api.orchestrate.io/v0/users?limit=2&afterKey=k2"
        ]
    );
}

#[test]
fn list_range_parameters() {
    let mut sent: Option<Request> = None;
    let _ = Orchestrate::new("t")
        .list("users")
        .start_key("a")
        .after_key("b")
        .before_key("y")
        .end_key("z")
        .limit(-1)
        .exec::<Person, _>(|q: Request| {
            sent = Some(q);
            Err(TransportError::Http("refused".to_string()))
        });
    assert_eq!(
        sent.unwrap().url,
        "https://api.orchestrate.io/v0/users?startKey=a&afterKey=b&beforeKey=y&endKey=z&limit=-1"
    );
}

#[test]
fn bodies_that_do_not_decode() {
    let client = Orchestrate::new("t");
    let broken = client
        .get("users", "k")
        .exec::<Person, _>(|_q: Request| Ok(reply(200, vec![], "{\"name\":")));
    assert!(matches!(
        broken,
        Err(OrchestrateError::JsonError(DecodeError::Syntax))
    ));
    let other = client
        .get("users", "k")
        .exec::<Person, _>(|_q: Request| Ok(reply(200, vec![], "{\"name\":1}")));
    assert!(matches!(
        other,
        Err(OrchestrateError::JsonError(DecodeError::Shape))
    ));
    let miscounted = client
        .list("users")
        .exec::<Person, _>(|_q: Request| Ok(reply(200, vec![], "{\"count\":3,\"results\":[]}")));
    assert!(matches!(
        miscounted,
        Err(OrchestrateError::JsonError(DecodeError::Shape))
    ));
}

#[test]
fn transport_failures_are_surfaced() {
    let client = Orchestrate::new("t");
    let r = client.ping(|_q: Request| Err(TransportError::Http("no route".to_string())));
    match r {
        Err(OrchestrateError::HttpError(m)) => assert_eq!(m, "no route"),
        other => panic!("unexpected: {:?}", other),
    }
    let r = client.ping(|_q: Request| Err(TransportError::Io("reset".to_string())));
    match r {
        Err(OrchestrateError::IoError(m)) => assert_eq!(m, "reset"),
        other => panic!("unexpected: {:?}", other),
    }
}

#[test]
fn ping_and_delete_collection() {
    let client = Orchestrate::new("t");
    let mut sent: Option<Request> = None;
    let up = client
        .ping(|q: Request| {
            sent = Some(q);
            Ok(reply(200, vec![], ""))
        })
        .unwrap();
    assert!(up);
    let q = sent.unwrap();
    assert_eq!(q.method, Method::Head);
    assert_eq!(q.url, "https://api.orchestrate.io/v0/");
    let mut sent: Option<Request> = None;
    let done = client
        .delete_collection("users", |q: Request| {
            sent = Some(q);
            Ok(reply(204, vec![], ""))
        })
        .unwrap();
    assert!(done);
    let q = sent.unwrap();
    assert_eq!(q.method, Method::Delete);
    assert_eq!(q.url, "https://api.orchestrate.io/v0/users?force=true");
    let denied = client.ping(|_q: Request| Ok(reply(401, vec![], "{\"message\":\"who?\"}")));
    match denied {
        Err(OrchestrateError::RequestError(e)) => {
            assert_eq!(e.status, 401);
            assert_eq!(e.message, "who?");
        }
        other => panic!("unexpected: {:?}", other),
    }
}

#[test]
fn another_host() {
    let mut sent: Option<Request> = None;
    let _ = Orchestrate::at("localhost:8080", "t").ping(|q: Request| {
        sent = Some(q);
        Ok(reply(200, vec![], ""))
    });
    assert_eq!(sent.unwrap().url, "https://localhost:8080/v0/");
}

#[test]
fn descriptor_without_method_or_target_sends_nothing() {
    let mut called = false;
    let r = Client::new("t").trailing("users").exec(|_q: Request| {
        called = true;
        Ok(reply(200, vec![], ""))
    });
    match r {
        Err(OrchestrateError::HttpError(m)) => assert_eq!(m, "request has no method"),
        other => panic!("unexpected: {:?}", other),
    }
    assert!(!called);
    let r = Client::new("t").method(Method::Get).request();
    match r {
        Err(OrchestrateError::HttpError(m)) => assert_eq!(m, "request has no target"),
        other => panic!("unexpected: {:?}", other),
    }
    let r = Client::new("t")
        .at("bad host")
        .trailing("users")
        .method(Method::Get)
        .request();
    match r {
        Err(OrchestrateError::HttpError(m)) => assert_eq!(m, "request URL is malformed"),
        other => panic!("unexpected: {:?}", other),
    }
}

#[test]
fn caller_cannot_shadow_the_credential() {
    let q = Client::new("secret")
        .trailing("users")
        .method(Method::Post)
        .header("Authorization", "Basic forged")
        .header("User-Agent", "someone else")
        .header("Content-Length", "999")
        .header("Content-Type", "text/plain")
        .header("authorization", "Basic forged too")
        .header("CONTENT-LENGTH", "7")
        .header("X-Trace", "1")
        .header("X-Trace", "2")
        .body("{}")
        .request()
        .unwrap();
    assert_eq!(header(&q, "authorization"), None);
    assert_eq!(header(&q, "CONTENT-LENGTH"), None);
    assert_eq!(header(&q, "Authorization"), Some("Basic c2VjcmV0Og=="));
    assert_eq!(header(&q, "User-Agent"), Some("orc-rs 0.1.0"));
    assert_eq!(header(&q, "Content-Length"), Some("2"));
    assert_eq!(header(&q, "Content-Type"), Some("application/json"));
    assert_eq!(header(&q, "X-Trace"), Some("2"));
    assert_eq!(q.headers.len(), 5);
}

#[test]
fn content_length_counts_bytes() {
    let q = Client::new("t")
        .trailing("users")
        .method(Method::Post)
        .body("\"é\"")
        .request()
        .unwrap();
    assert_eq!(header(&q, "Content-Length"), Some("4"));
}

#[test]
fn query_parameters_replace_the_query_of_the_target() {
    let q = Client::new("t")
        .trailing("users?limit=1")
        .method(Method::Get)
        .query("limit", "5")
        .request()
        .unwrap();
    assert_eq!(q.url, "https://api.orchestrate.io/v0/users?limit=5");
    let q = Client::new("t")
        .trailing("users?limit=1")
        .method(Method::Get)
        .request()
        .unwrap();
    assert_eq!(q.url, "https://api.orchestrate.io/v0/users?limit=1");
}

#[test]
fn response_headers_are_found_whatever_their_case() {
    let r = reply(
        200,
        vec![("content-location", "a"), ("Content-Location", "b")],
        "",
    );
    assert_eq!(r.header("Content-Location").map(|s| s.as_str()), Some("a"));
    assert_eq!(r.header("CONTENT-LOCATION").map(|s| s.as_str()), Some("a"));
    assert_eq!(r.header("Location"), None);
}

#[test]
fn get_of_one_version_keeps_the_ref_asked_for() {
    let mut sent: Option<Request> = None;
    let found = Orchestrate::new("t")
        .get("users", "k1")
        .at_ref("old1")
        .exec::<Person, _>(|q: Request| {
            sent = Some(q);
            Ok(reply(
                200,
                vec![("Content-Location", "/v0/users/k1/refs/new2")],
                CHAD,
            ))
        })
        .unwrap();
    assert_eq!(
        sent.unwrap().url,
        "https://api.orchestrate.io/v0/users/k1/refs/old1"
    );
    assert_eq!(found.path.key, "k1");
    assert_eq!(found.path.ref_.as_deref(), Some("old1"));
}

#[test]
fn empty_parts_of_an_address_send_nothing() {
    let client = Orchestrate::new("t");
    let mut called = false;
    let r = client.delete("users", "").exec(|_q: Request| {
        called = true;
        Ok(reply(204, vec![], ""))
    });
    match r {
        Err(OrchestrateError::HttpError(m)) => {
            assert_eq!(m, "request address has an empty part")
        }
        other => panic!("unexpected: {:?}", other),
    }
    assert!(!called);
    let r = client
        .get("", "k")
        .exec::<Person, _>(|_q: Request| Ok(reply(200, vec![], CHAD)));
    assert!(matches!(r, Err(OrchestrateError::HttpError(_))));
    let r = client.delete_collection("", |_q: Request| Ok(reply(204, vec![], "")));
    assert!(matches!(r, Err(OrchestrateError::HttpError(_))));
    let r = client
        .get("users", "k")
        .at_ref("")
        .exec::<Person, _>(|_q: Request| Ok(reply(200, vec![], CHAD)));
    assert!(matches!(r, Err(OrchestrateError::HttpError(_))));
    let r = client
        .list("")
        .exec::<Person, _>(|_q: Request| Ok(reply(200, vec![], "{}")));
    assert!(matches!(r, Err(OrchestrateError::HttpError(_))));
}

#[test]
fn url_comes_from_the_parser() {
    let mut sent: Option<Request> = None;
    let _ = Orchestrate::at("LOCALHOST", "t")
        .get("my users", "k 1")
        .exec::<Person, _>(|q: Request| {
            sent = Some(q);
            Ok(reply(200, vec![], CHAD))
        });
    assert_eq!(sent.unwrap().url, "https://localhost/v0/my%20users/k%201");
}

#[test]
fn content_type_is_the_callers_without_a_body() {
    let q = Client::new("t")
        .trailing("users")
        .method(Method::Get)
        .header("content-type", "text/plain")
        .request()
        .unwrap();
    assert_eq!(header(&q, "content-type"), Some("text/plain"));
    assert_eq!(header(&q, "Content-Type"), None);
}

#[test]
fn search_pairs_go_out_in_call_order() {
    let mut sent: Option<Request> = None;
    let _ = Orchestrate::new("t")
        .search("users")
        .limit(5)
        .query("a")
        .sort("age", "asc")
        .query("b")
        .exec::<Person, _>(|q: Request| {
            sent = Some(q);
            Err(TransportError::Io("closed".to_string()))
        });
    assert_eq!(
        sent.unwrap().url,
        "https://api.orchestrate.io/v0/users?limit=5&query=a&sort=value.age%3Aasc&query=b"
    );
}

#[test]
fn writes_without_a_document_send_nothing() {
    let client = Orchestrate::new("t");
    let mut called = false;
    let r = client.post("users").exec(|_q: Request| {
        called = true;
        Ok(reply(201, vec![("Location", "/v0/users/k/refs/r")], ""))
    });
    match r {
        Err(OrchestrateError::HttpError(m)) => assert_eq!(m, "request lacks its document"),
        other => panic!("unexpected: {:?}", other),
    }
    assert!(!called);
    let r = client.put("users", "k").if_absent().exec(|_q: Request| {
        called = true;
        Ok(reply(201, vec![("Location", "/v0/users/k/refs/r")], ""))
    });
    match r {
        Err(OrchestrateError::HttpError(m)) => assert_eq!(m, "request lacks its document"),
        other => panic!("unexpected: {:?}", other),
    }
    let r = client
        .create_event("users", "k", "update")
        .timestamp(7)
        .exec(|_q: Request| {
            called = true;
            Ok(reply(201, vec![], ""))
        });
    match r {
        Err(OrchestrateError::HttpError(m)) => assert_eq!(m, "request lacks its document"),
        other => panic!("unexpected: {:?}", other),
    }
    assert!(!called);
}

#[test]
fn walk_follows_links_to_the_end() {
    let first = "{\"count\":2,\"results\":[{\"path\":{\"collection\":\"users\",\"key\":\"k1\",\"ref\":\"r1\"},\"value\":{\"name\":\"a\",\"email\":\"a@x\"}},{\"path\":{\"collection\":\"users\",\"key\":\"k2\",\"ref\":\"r2\"},\"value\":{\"name\":\"b\",\"email\":\"b@x\"}}],\"next\":\"/v0/users?limit=2&afterKey=k2\"}";
    let last = "{\"count\":1,\"results\":[{\"path\":{\"collection\":\"users\",\"key\":\"k3\",\"ref\":\"r3\"},\"value\":{\"name\":\"c\",\"email\":\"c@x\"}}]}";
    let urls = std::cell::RefCell::new(Vec::new());
    let store = |q: Request| {
        let body = if q.url.ends_with("afterKey=k2") {
            last
        } else {
            first
        };
        urls.borrow_mut().push(q.url);
        Ok(reply(200, vec![], body))
    };
    let client = Orchestrate::new("t");
    let pages = client
        .list("users")
        .limit(2)
        .walk::<Person, _>(&store, 10)
        .unwrap();
    assert_eq!(pages.len(), 2);
    assert_eq!(pages[0].results.len(), 2);
    assert_eq!(pages[1].results[0].path.key, "k3");
    assert!(pages[0].has_next());
    assert!(!pages[1].has_next());
    assert_eq!(
        *urls.borrow(),
        vec![
            "https://api.orchestrate.io/v0/users?limit=2",
            "https://api.orchestrate.io/v0/users?limit=2&afterKey=k2"
        ]
    );
    let one = client
        .list("users")
        .limit(2)
        .walk::<Person, _>(&store, 1)
        .unwrap();
    assert_eq!(one.len(), 1);
    assert!(one[0].has_next());
    let none = client
        .list("users")
        .walk::<Person, _>(&store, 0)
        .unwrap();
    assert!(none.is_empty());
}

#[test]
fn walk_ends_though_the_store_never_does() {
    let page = "{\"count\":0,\"results\":[],\"next\":\"/v0/users?afterKey=again\"}";
    let asked = std::cell::Cell::new(0);
    let store = |_q: Request| {
        asked.set(asked.get() + 1);
        Ok(reply(200, vec![], page))
    };
    let pages = Orchestrate::new("t")
        .list("users")
        .walk::<Person, _>(&store, 5)
        .unwrap();
    assert_eq!(pages.len(), 5);
    assert_eq!(asked.get(), 5);
    assert!(pages[4].has_next());
}

#[test]
fn walk_stops_at_the_first_failure() {
    let first = "{\"count\":0,\"results\":[],\"next\":\"/v0/users?afterKey=k\"}";
    let asked = std::cell::Cell::new(0);
    let store = |_q: Request| {
        asked.set(asked.get() + 1);
        if asked.get() == 1 {
            Ok(reply(200, vec![], first))
        } else {
            Ok(reply(500, vec![], "{\"message\":\"down\"}"))
        }
    };
    let r = Orchestrate::new("t")
        .list("users")
        .walk::<Person, _>(&store, 5);
    match r {
        Err(OrchestrateError::RequestError(e)) => {
            assert_eq!(e.status, 500);
            assert_eq!(e.message, "down");
        }
        other => panic!("unexpected: {:?}", other.map(|p| p.len())),
    }
    assert_eq!(asked.get(), 2);
}

#[test]
fn a_body_with_a_dangling_comma_is_a_syntax_error() {
    let r = Orchestrate::new("t")
        .get("users", "k")
        .exec::<Person, _>(|_q: Request| {
            Ok(reply(200, vec![], "[{\"a\":{\"b\":1,},\"c\":2}]"))
        });
    assert!(matches!(
        r,
        Err(OrchestrateError::JsonError(DecodeError::Syntax))
    ));
    let r = Orchestrate::new("t")
        .delete("users", "k")
        .exec(|_q: Request| Ok(reply(500, vec![], "{\"message\":\"down\",}")));
    match r {
        Err(OrchestrateError::RequestError(e)) => {
            assert_eq!(e.status, 500);
            assert_eq!(e.message, "{\"message\":\"down\",}");
        }
        other => panic!("unexpected: {:?}", other),
    }
}
