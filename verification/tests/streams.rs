use orchestrate::client::{Method, Request, Response};
use orchestrate::error::TransportError;
use orchestrate::json::{parse, JsonValue};
use orchestrate::{Orchestrate, OrchestrateError, RepresentsJSON};

#[derive(Debug, PartialEq)]
struct Note {
    message: String,
}

impl RepresentsJSON for Note {
    fn from_json(value: &JsonValue) -> Option<Note> {
        Some(Note {
            message: value.field("message")?.as_text()?.clone(),
        })
    }
}

fn answer(status: u16, body: &str) -> Response {
    Response {
        status,
        headers: Vec::new(),
        body: body.to_string(),
    }
}

#[test]
fn events_are_listed() {
    let body = "{\"count\":2,\"results\":[{\"ordinal\":9,\"timestamp\":1369832019085,\"value\":{\"message\":\"hi\"}},{\"ordinal\":8,\"timestamp\":1369832019080,\"value\":{\"message\":\"ho\"}}]}";
    let mut sent: Option<Request> = None;
    let page = Orchestrate::new("t")
        .get_events("users", "k1", "update")
        .start(5)
        .end(10)
        .limit(100)
        .start_event(1)
        .after_event(2)
        .before_event(3)
        .end_event(4)
        .exec::<Note, _>(|q: Request| {
            sent = Some(q);
            Ok(answer(200, body))
        })
        .unwrap();
    assert_eq!(page.count, 2);
    assert_eq!(page.results[0].ordinal, 9);
    assert_eq!(page.results[0].timestamp, 1369832019085);
    assert_eq!(page.results[0].value.message, "hi");
    assert_eq!(page.results[1].value.message, "ho");
    let q = sent.unwrap();
    assert_eq!(q.method, Method::Get);
    assert_eq!(
        q.url,
        "https://api.orchestrate.io/v0/users/k1/events/update?start=5&end=10&limit=100&startEvent=1&afterEvent=2&beforeEvent=3&endEvent=4"
    );
}

#[test]
fn event_is_appended() {
    let client = Orchestrate::new("t");
    let mut sent: Option<Request> = None;
    let done = client
        .create_event("users", "k1", "update")
        .data("{\"message\":\"hi\"}")
        .exec(|q: Request| {
            sent = Some(q);
            Ok(answer(201, ""))
        })
        .unwrap();
    assert!(done);
    let q = sent.unwrap();
    assert_eq!(q.method, Method::Post);
    assert_eq!(q.url, "https://api.orchestrate.io/v0/users/k1/events/update");
    assert_eq!(q.body.as_deref(), Some("{\"message\":\"hi\"}"));
    let mut sent: Option<Request> = None;
    let _ = client
        .create_event("users", "k1", "update")
        .timestamp(1)
        .timestamp(1369832019085)
        .data("{}")
        .exec(|q: Request| {
            sent = Some(q);
            Ok(answer(201, ""))
        });
    assert_eq!(
        sent.unwrap().url,
        "https://api.orchestrate.io/v0/users/k1/events/update/1369832019085"
    );
    let refused = client
        .create_event("users", "k1", "update")
        .data("{}")
        .exec(|_q: Request| Ok(answer(400, "bad")));
    match refused {
        Err(OrchestrateError::RequestError(e)) => assert_eq!(e.status, 400),
        other => panic!("unexpected: {:?}", other),
    }
}

#[test]
fn event_is_deleted_once_identified() {
    let client = Orchestrate::new("t");
    let mut sent: Option<Request> = None;
    let done = client
        .delete_event("users", "k1", "update")
        .timestamp(1369832019085)
        .ordinal(9)
        .if_match("abc")
        .purge()
        .exec(|q: Request| {
            sent = Some(q);
            Ok(answer(204, ""))
        })
        .unwrap();
    assert!(done);
    let q = sent.unwrap();
    assert_eq!(q.method, Method::Delete);
    assert_eq!(
        q.url,
        "https://api.orchestrate.io/v0/users/k1/events/update/1369832019085/9?purge=true"
    );
    let mut called = false;
    let r = client
        .delete_event("users", "k1", "update")
        .timestamp(5)
        .exec(|_q: Request| {
            called = true;
            Ok(answer(204, ""))
        });
    match r {
        Err(OrchestrateError::HttpError(m)) => {
            assert_eq!(m, "event lacks timestamp or ordinal")
        }
        other => panic!("unexpected: {:?}", other),
    }
    assert!(!called);
}

#[test]
fn relations_are_traversed() {
    let body = "{\"count\":1,\"results\":[{\"path\":{\"collection\":\"users\",\"key\":\"k9\",\"ref\":\"r9\"},\"value\":{\"message\":\"friend of friend\"}}]}";
    let mut sent: Option<Request> = None;
    let reached = Orchestrate::new("t")
        .get_relations("users", "k1", vec!["friend", "friend"])
        .limit(5)
        .offset(10)
        .exec::<Note, _>(|q: Request| {
            sent = Some(q);
            Ok(answer(200, body))
        })
        .unwrap();
    assert_eq!(reached.count, 1);
    assert_eq!(reached.results[0].path.key, "k9");
    assert_eq!(reached.results[0].path.ref_.as_deref(), Some("r9"));
    assert_eq!(reached.results[0].value.message, "friend of friend");
    assert_eq!(
        sent.unwrap().url,
        "https://api.orchestrate.io/v0/users/k1/relations/friend/friend?limit=5&offset=10"
    );
}

#[test]
fn relation_is_put_and_deleted() {
    let client = Orchestrate::new("t");
    let mut sent: Option<Request> = None;
    let done = client
        .put_relation("users", "k1", "friend", "users", "k2")
        .exec(|q: Request| {
            sent = Some(q);
            Ok(answer(204, ""))
        })
        .unwrap();
    assert!(done);
    let q = sent.unwrap();
    assert_eq!(q.method, Method::Put);
    assert_eq!(q.body, None);
    assert_eq!(
        q.url,
        "https://api.orchestrate.io/v0/users/k1/relation/friend/users/k2"
    );
    let mut sent: Option<Request> = None;
    let _ = client
        .delete_relation("users", "k1", "friend", "users", "k2")
        .exec(|q: Request| {
            sent = Some(q);
            Err(TransportError::Io("closed".to_string()))
        });
    let q = sent.unwrap();
    assert_eq!(q.method, Method::Delete);
    assert_eq!(
        q.url,
        "https://api.orchestrate.io/v0/users/k1/relation/friend/users/k2"
    );
}

#[test]
fn plain_values_are_read() {
    let doc = parse("[\"a\", 3, -3, true, 2.5]").unwrap();
    let items = doc.as_array().unwrap();
    assert_eq!(String::from_json(&items[0]), Some("a".to_string()));
    assert_eq!(u64::from_json(&items[1]), Some(3));
    assert_eq!(u64::from_json(&items[2]), None);
    assert_eq!(i64::from_json(&items[2]), Some(-3));
    assert_eq!(bool::from_json(&items[3]), Some(true));
    assert_eq!(bool::from_json(&items[0]), None);
    assert_eq!(u64::from_json(&items[4]), None);
    assert_eq!(
        orchestrate::decode_items::<String>(items).is_none(),
        true
    );
}

#[test]
fn error_descriptions() {
    let e = OrchestrateError::JsonError(orchestrate::error::DecodeError::Shape);
    assert_eq!(e.description(), "failed to decode json");
    assert_eq!(e.detail(), None);
    let e = OrchestrateError::from(TransportError::Http("no route".to_string()));
    assert_eq!(e.description(), "no route");
    let e = OrchestrateError::from(orchestrate::error::DomainError::from_reply(
        500,
        "{\"message\":7}",
    ));
    assert_eq!(e.description(), "{\"message\":7}");
    let e = OrchestrateError::from(orchestrate::error::DecodeError::Syntax);
    assert!(matches!(
        e,
        OrchestrateError::JsonError(orchestrate::error::DecodeError::Syntax)
    ));
    assert_eq!(orchestrate::client::version(), "orc-rs 0.1.0");
}

#[test]
fn one_event_is_read() {
    let body = "{\"ordinal\":9,\"timestamp\":1369832019085,\"value\":{\"message\":\"hi\"}}";
    let mut sent: Option<Request> = None;
    let event = Orchestrate::new("t")
        .get_event("users", "k1", "update", 1369832019085, 9)
        .exec::<Note, _>(|q: Request| {
            sent = Some(q);
            Ok(answer(200, body))
        })
        .unwrap();
    assert_eq!(event.ordinal, 9);
    assert_eq!(event.timestamp, 1369832019085);
    assert_eq!(event.value.message, "hi");
    assert_eq!(
        sent.unwrap().url,
        "https://api.orchestrate.io/v0/users/k1/events/update/1369832019085/9"
    );
}

#[test]
fn unnamed_streams_and_edges_send_nothing() {
    let client = Orchestrate::new("t");
    let r = client
        .get_relations("users", "k1", vec![])
        .exec::<Note, _>(|_q: Request| Ok(answer(200, "{}")));
    assert!(matches!(r, Err(OrchestrateError::HttpError(_))));
    let r = client
        .get_relations("users", "k1", vec!["friend", ""])
        .exec::<Note, _>(|_q: Request| Ok(answer(200, "{}")));
    assert!(matches!(r, Err(OrchestrateError::HttpError(_))));
    let r = client
        .put_relation("users", "k1", "friend", "users", "")
        .exec(|_q: Request| Ok(answer(204, "")));
    assert!(matches!(r, Err(OrchestrateError::HttpError(_))));
    let r = client
        .create_event("users", "k1", "")
        .data("{}")
        .exec(|_q: Request| Ok(answer(201, "")));
    assert!(matches!(r, Err(OrchestrateError::HttpError(_))));
    let r = client
        .delete_event("users", "", "update")
        .timestamp(1)
        .ordinal(2)
        .exec(|_q: Request| Ok(answer(204, "")));
    assert!(matches!(r, Err(OrchestrateError::HttpError(_))));
    let r = client
        .get_events("", "k", "update")
        .exec::<Note, _>(|_q: Request| Ok(answer(200, "{}")));
    assert!(matches!(r, Err(OrchestrateError::HttpError(_))));
}
