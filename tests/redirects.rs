use nightfly::location::validate;
use nightfly::redirect::next_hop;
use nightfly::{
    Client, Execution, Header, Hop, Method, Policy, Request, Response, StatusCode, Step, Url, Version,
};

fn url(s: &str) -> Url {
    Url::parse(s).unwrap()
}

fn header(name: &str, value: &str) -> Header {
    Header { name: name.to_string(), value: value.to_string() }
}

fn response(code: u16, headers: Vec<Header>, at: &str) -> Response {
    Response::new(StatusCode::from_u16(code).unwrap(), Version::http_11(), headers, url(at), vec![])
}

fn redirect_to(code: u16, location: &str, at: &str) -> Response {
    response(code, vec![header("Location", location)], at)
}

fn post(at: &str, headers: Vec<Header>) -> Request {
    Request::new(Method::Post, url(at), headers, Some(b"payload".to_vec()), None)
}

fn follow(hop: Hop) -> Request {
    match hop {
        Hop::Follow(r) => r,
        other => panic!("expected a followed redirect, got {:?}", other),
    }
}

#[test]
fn chain_of_two_moved_permanently() {
    let client = Client::new();
    let (mut exec, step) = client.start(post("http://a.example/start", vec![]), 0);
    assert!(matches!(step, Step::Send));

    let step = exec.on_response(redirect_to(301, "/one", "http://a.example/start"), 1);
    assert!(matches!(step, Step::Send));
    assert_eq!(exec.current().method(), Method::Get);
    assert!(exec.current().body().is_none());

    let step = exec.on_response(redirect_to(301, "http://b.example/two", "http://a.example/one"), 2);
    assert!(matches!(step, Step::Send));
    assert_eq!(exec.current().method(), Method::Get);
    assert_eq!(exec.hops(), 2);

    let step = exec.on_response(response(200, vec![], "http://elsewhere.example/"), 3);
    match step {
        Step::Done(Ok(r)) => {
            assert_eq!(r.status().as_u16(), 200);
            assert_eq!(r.url().as_str(), "http://b.example/two");
        }
        other => panic!("expected a response, got {:?}", other),
    }
}

#[test]
fn eleven_redirects_over_a_cap_of_ten() {
    let client = Client::builder().redirect(Policy::limited(10)).build().unwrap();
    let first = client.get("http://a.example/0").build().unwrap();
    let (mut exec, step) = client.start(first, 0);
    assert!(matches!(step, Step::Send));
    for i in 1..=10u64 {
        let at = format!("http://a.example/{}", i - 1);
        let next = format!("/{}", i);
        let step = exec.on_response(redirect_to(302, &next, &at), i);
        assert!(matches!(step, Step::Send));
    }
    assert_eq!(exec.hops(), 10);
    let step = exec.on_response(redirect_to(302, "/11", "http://a.example/10"), 11);
    match step {
        Step::Done(Err(e)) => {
            assert!(e.is_redirect());
            assert_eq!(e.url().map(|u| u.as_str()), Some("http://a.example/11"));
        }
        other => panic!("expected a redirect error, got {:?}", other),
    }
}

#[test]
fn temporary_redirect_keeps_method_and_body() {
    let prev = post("http://a.example/form", vec![]);
    let next = follow(next_hop(
        &prev,
        StatusCode::from_u16(307).unwrap(),
        &vec![header("location", "/again")],
        &Policy::default(),
        0,
    ));
    assert_eq!(next.method(), Method::Post);
    assert_eq!(next.body().map(|b| b.as_slice()), Some(&b"payload"[..]));
    assert_eq!(next.url().as_str(), "http://a.example/again");

    let next = follow(next_hop(
        &prev,
        StatusCode::from_u16(308).unwrap(),
        &vec![header("LOCATION", "/again")],
        &Policy::default(),
        0,
    ));
    assert_eq!(next.method(), Method::Post);
    assert_eq!(next.body().map(|b| b.as_slice()), Some(&b"payload"[..]));
}

#[test]
fn see_other_switches_post_to_get() {
    let prev = post("http://a.example/form", vec![]);
    let next = follow(next_hop(
        &prev,
        StatusCode::from_u16(303).unwrap(),
        &vec![header("Location", "/done")],
        &Policy::default(),
        0,
    ));
    assert_eq!(next.method(), Method::Get);
    assert!(next.body().is_none());
}

#[test]
fn head_stays_head_on_found() {
    let prev = Request::new(Method::Head, url("http://a.example/"), vec![], None, None);
    let next = follow(next_hop(
        &prev,
        StatusCode::from_u16(302).unwrap(),
        &vec![header("Location", "/x")],
        &Policy::default(),
        0,
    ));
    assert_eq!(next.method(), Method::Head);
    let next = follow(next_hop(
        &prev,
        StatusCode::from_u16(303).unwrap(),
        &vec![header("Location", "/x")],
        &Policy::default(),
        0,
    ));
    assert_eq!(next.method(), Method::Get);
}

#[test]
fn cross_origin_drops_authorization() {
    let prev = post(
        "http://a.example/start",
        vec![header("Authorization", "Bearer t"), header("Cookie", "a=1"), header("Accept", "*/*")],
    );
    let next = follow(next_hop(
        &prev,
        StatusCode::from_u16(302).unwrap(),
        &vec![header("Location", "http://b.example/start")],
        &Policy::default(),
        0,
    ));
    let names: Vec<&str> = next.headers().iter().map(|h| h.name.as_str()).collect();
    assert_eq!(names, vec!["Accept"]);

    let same = follow(next_hop(
        &prev,
        StatusCode::from_u16(302).unwrap(),
        &vec![header("Location", "/elsewhere")],
        &Policy::default(),
        0,
    ));
    let names: Vec<&str> = same.headers().iter().map(|h| h.name.as_str()).collect();
    assert_eq!(names, vec!["Authorization", "Cookie", "Accept"]);
    assert_eq!(same.headers()[0].value, "Bearer t");
}

#[test]
fn other_port_is_another_origin() {
    let prev = post("http://a.example/", vec![header("authorization", "x")]);
    let next = follow(next_hop(
        &prev,
        StatusCode::from_u16(307).unwrap(),
        &vec![header("Location", "http://a.example:8080/")],
        &Policy::default(),
        0,
    ));
    assert!(next.headers().is_empty());
    let explicit = follow(next_hop(
        &prev,
        StatusCode::from_u16(307).unwrap(),
        &vec![header("Location", "http://a.example:80/b")],
        &Policy::default(),
        0,
    ));
    assert_eq!(explicit.headers().len(), 1);
}

#[test]
fn ftp_is_refused_before_sending() {
    let e = validate(&url("ftp://example.com")).unwrap_err();
    assert!(e.is_builder());
    assert_eq!(e.url().map(|u| u.as_str()), Some("ftp://example.com/"));
    assert!(validate(&url("http://example.com")).is_ok());
    assert!(validate(&url("https://example.com")).is_ok());

    let client = Client::new();
    let (_, step) = client.start(client.get("ftp://example.com").build().unwrap(), 0);
    match step {
        Step::Done(Err(e)) => assert!(e.is_builder()),
        other => panic!("expected a builder error, got {:?}", other),
    }
}

#[test]
fn redirect_to_other_scheme_fails() {
    let prev = post("http://a.example/", vec![]);
    match next_hop(
        &prev,
        StatusCode::from_u16(301).unwrap(),
        &vec![header("Location", "ftp://files.example/x")],
        &Policy::default(),
        0,
    ) {
        Hop::Fail(e) => {
            assert!(e.is_redirect());
            assert_eq!(e.url().map(|u| u.as_str()), Some("ftp://files.example/x"));
        }
        other => panic!("expected a redirect error, got {:?}", other),
    }
}

#[test]
fn unreadable_location_fails_with_previous_url() {
    let prev = post("http://a.example/here", vec![]);
    match next_hop(
        &prev,
        StatusCode::from_u16(302).unwrap(),
        &vec![header("Location", "http://[bad")],
        &Policy::default(),
        0,
    ) {
        Hop::Fail(e) => {
            assert!(e.is_redirect());
            assert_eq!(e.url().map(|u| u.as_str()), Some("http://a.example/here"));
        }
        other => panic!("expected a redirect error, got {:?}", other),
    }
}

#[test]
fn non_redirects_stop() {
    let prev = post("http://a.example/", vec![]);
    for code in [200u16, 304, 300, 404] {
        assert!(matches!(
            next_hop(
                &prev,
                StatusCode::from_u16(code).unwrap(),
                &vec![header("Location", "/x")],
                &Policy::default(),
                0
            ),
            Hop::Stop
        ));
    }
    assert!(matches!(
        next_hop(&prev, StatusCode::from_u16(302).unwrap(), &vec![], &Policy::default(), 0),
        Hop::Stop
    ));
    assert!(matches!(
        next_hop(
            &prev,
            StatusCode::from_u16(302).unwrap(),
            &vec![header("Location", "/x")],
            &Policy::none(),
            0
        ),
        Hop::Stop
    ));
}

#[test]
fn first_location_wins_and_is_relative_to_the_last_hop() {
    let prev = Request::new(Method::Get, url("http://a.example/dir/page"), vec![], None, None);
    let next = follow(next_hop(
        &prev,
        StatusCode::from_u16(302).unwrap(),
        &vec![header("Location", "next"), header("Location", "/ignored")],
        &Policy::default(),
        0,
    ));
    assert_eq!(next.url().as_str(), "http://a.example/dir/next");
}

#[test]
fn execution_without_redirects_returns_the_response() {
    let req = Request::new(Method::Get, url("http://a.example/"), vec![], None, None);
    let (mut exec, _) = Execution::start(req, Policy::none(), None, None, 0);
    let step = exec.on_response(redirect_to(301, "/x", "http://a.example/"), 5);
    match step {
        Step::Done(Ok(r)) => assert_eq!(r.status().as_u16(), 301),
        other => panic!("expected the response, got {:?}", other),
    }
}

#[test]
fn custom_policy_asks_the_caller() {
    let client = Client::builder().redirect(Policy::custom()).build().unwrap();
    let (mut exec, _) = client.start(client.get("http://a.example/0").build().unwrap(), 0);

    let step = exec.on_response(redirect_to(302, "/1", "http://a.example/0"), 1);
    assert!(matches!(step, Step::Decide));
    assert_eq!(exec.hops(), 0);
    assert!(matches!(exec.on_decision(true), Step::Send));
    assert_eq!(exec.current().url().as_str(), "http://a.example/1");
    let visited: Vec<&str> = exec.visited().iter().map(|u| u.as_str()).collect();
    assert_eq!(visited, vec!["http://a.example/0"]);

    let step = exec.on_response(redirect_to(302, "/2", "http://a.example/1"), 2);
    assert!(matches!(step, Step::Decide));
    match exec.on_decision(false) {
        Step::Done(Ok(r)) => {
            assert_eq!(r.status().as_u16(), 302);
            assert_eq!(r.url().as_str(), "http://a.example/1");
        }
        other => panic!("expected the redirect response, got {:?}", other),
    }
    assert_eq!(exec.hops(), 1);
}
