use strip_header::header::{names_equal, HeaderName, Headers};
use strip_header::message::{Async, Message};
use strip_header::request::{self, ReqHeader};
use strip_header::response::{self, ResHeader};
use strip_header::{layer, Layer, Service};

fn name(s: &str) -> HeaderName {
    HeaderName::new(s.as_bytes().to_vec())
}

fn headers(pairs: &[(&str, &str)]) -> Headers {
    let mut h = Headers::new();
    for (n, v) in pairs {
        h.append(n.as_bytes().to_vec(), v.as_bytes().to_vec());
    }
    h
}

fn pairs(h: &Headers) -> Vec<(String, String)> {
    let mut out = Vec::new();
    for i in 0..h.len() {
        let f = h.field(i);
        out.push((
            String::from_utf8(f.name.clone()).unwrap(),
            String::from_utf8(f.value.clone()).unwrap(),
        ));
    }
    out
}

fn owned(p: &[(&str, &str)]) -> Vec<(String, String)> {
    p.iter().map(|(n, v)| (n.to_string(), v.to_string())).collect()
}

fn request_service(header: &str) -> Service<(), ReqHeader> {
    request::layer(name(header)).layer(7u32).make(())
}

fn response_service(header: &str) -> Service<(), ResHeader> {
    response::layer(name(header)).layer(7u32).make(())
}

#[test]
fn request_side_strips_internal_trace() {
    let svc = request_service("x-internal-trace");
    let req = Message::new(
        headers(&[("x-internal-trace", "abc"), ("content-type", "text/plain")]),
        "body",
    );
    let seen = svc.strip_request(req);
    assert_eq!(pairs(&seen.headers), owned(&[("content-type", "text/plain")]));
    assert_eq!(seen.body, "body");
}

#[test]
fn response_side_strips_server() {
    let svc = response_service("server");
    let fut = svc.response_future(42u8);
    let res = Message::new(
        headers(&[("server", "internal-proxy/1.0"), ("date", "Tue, 15 Nov 1994 08:12:31 GMT")]),
        vec![1u8, 2, 3],
    );
    match fut.poll::<Vec<u8>, ()>(Ok(Async::Ready(res))) {
        Ok(Async::Ready(m)) => {
            assert_eq!(pairs(&m.headers), owned(&[("date", "Tue, 15 Nov 1994 08:12:31 GMT")]));
            assert_eq!(m.body, vec![1u8, 2, 3]);
        }
        _ => panic!("expected a ready response"),
    }
}

#[test]
fn request_without_the_header_is_unchanged() {
    let svc = request_service("x-absent");
    let given = [("content-type", "text/plain"), ("accept", "*/*"), ("content-type", "a")];
    let seen = svc.strip_request(Message::new(headers(&given), 5u64));
    assert_eq!(pairs(&seen.headers), owned(&given));
    assert_eq!(seen.body, 5u64);
}

#[test]
fn every_occurrence_is_removed_in_any_case() {
    let svc = request_service("X-Trace");
    let given = [
        ("x-trace", "1"),
        ("a", "x"),
        ("X-TRACE", "2"),
        ("b", "y"),
        ("x-trace", ""),
        ("x-tracer", "kept"),
    ];
    let seen = svc.strip_request(Message::new(headers(&given), ()));
    assert_eq!(pairs(&seen.headers), owned(&[("a", "x"), ("b", "y"), ("x-tracer", "kept")]));
    assert!(!seen.headers.contains(&name("x-trace")));
}

#[test]
fn stripping_an_empty_list_gives_an_empty_list() {
    let mut m = Message::new(Headers::new(), ());
    m.strip(&name("server"));
    assert_eq!(m.headers.len(), 0);
}

#[test]
fn stripping_twice_equals_stripping_once() {
    let given = [("server", "a"), ("date", "d"), ("Server", "b"), ("via", "v")];
    let mut once = Message::new(headers(&given), ());
    once.strip(&name("server"));
    let mut twice = Message::new(headers(&given), ());
    twice.strip(&name("server"));
    twice.strip(&name("server"));
    assert_eq!(pairs(&once.headers), pairs(&twice.headers));
    assert_eq!(pairs(&once.headers), owned(&[("date", "d"), ("via", "v")]));
}

#[test]
fn two_request_layers_strip_like_one() {
    let inner = request_service("x-a");
    let outer = request::layer(name("x-a")).layer(()).make(inner);
    let given = [("x-a", "1"), ("y", "2")];
    let once = outer.strip_request(Message::new(headers(&given), ()));
    let twice = outer.strip_request(Message::new(headers(&given), ()));
    let twice = request_service("x-a").strip_request(twice);
    assert_eq!(pairs(&once.headers), pairs(&twice.headers));
    assert_eq!(pairs(&twice.headers), owned(&[("y", "2")]));
}

#[test]
fn pending_and_failed_responses_pass_through() {
    let fut = response_service("server").response_future(());
    match fut.poll::<(), &str>(Ok(Async::NotReady)) {
        Ok(Async::NotReady) => {}
        _ => panic!("expected pending"),
    }
    match fut.poll::<(), &str>(Err("boom")) {
        Err(e) => assert_eq!(e, "boom"),
        _ => panic!("expected the inner error"),
    }
}

#[test]
fn readiness_is_forwarded() {
    let svc = request_service("x");
    assert!(matches!(svc.poll_ready::<u8>(Ok(Async::Ready(()))), Ok(Async::Ready(()))));
    assert!(matches!(svc.poll_ready::<u8>(Ok(Async::NotReady)), Ok(Async::NotReady)));
    assert!(matches!(svc.poll_ready::<u8>(Err(9)), Err(9)));
    let svc = response_service("x");
    assert!(matches!(svc.poll_ready::<u8>(Err(3)), Err(3)));
}

#[test]
fn construction_future_decorates_the_built_service() {
    let stack = response::layer(name("server")).layer(());
    let mut fut = stack.make_future("building");
    assert_eq!(*fut.inner_mut(), "building");
    match fut.poll::<u16, String>(Ok(Async::Ready(11))) {
        Ok(Async::Ready(mut svc)) => {
            assert_eq!(*svc.inner_mut(), 11);
            assert_eq!(svc.header().as_bytes(), b"server");
        }
        _ => panic!("expected a service"),
    }
    assert!(matches!(fut.poll::<u16, String>(Ok(Async::NotReady)), Ok(Async::NotReady)));
    match fut.poll::<u16, String>(Err("refused".to_string())) {
        Err(e) => assert_eq!(e, "refused"),
        _ => panic!("expected the inner error"),
    }
}

#[test]
fn layer_hands_its_header_to_every_service() {
    let l: Layer<ReqHeader> = layer(name("x-one"));
    assert_eq!(l.header().as_bytes(), b"x-one");
    let stack = l.layer(vec![1u8]);
    assert_eq!(stack.inner(), &vec![1u8]);
    assert_eq!(stack.header().as_bytes(), b"x-one");
    let a = stack.make(1u8);
    let b = stack.make(2u8);
    assert_eq!(a.header().as_bytes(), b"x-one");
    assert_eq!(b.header().as_bytes(), b"x-one");
}

#[test]
fn names_compare_without_ascii_case() {
    assert!(names_equal(b"Content-Type", b"content-type"));
    assert!(!names_equal(b"content-type", b"content-typ"));
    assert!(!names_equal(b"a[", b"A{"));
    assert!(name("Server").matches(b"SERVER"));
}

#[test]
fn contains_finds_a_name() {
    let h = headers(&[("a", "1"), ("Via", "2")]);
    assert!(h.contains(&name("via")));
    assert!(!h.contains(&name("b")));
}
