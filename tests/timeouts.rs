use nightfly::execution::deadline_for;
use nightfly::{Client, Source, Step};

fn slow_url() -> String {
    format!("http://{}/slow", "0.0.0.0:3008")
}

#[test]
fn client_timeout() {
    let client = Client::builder().timeout(500).build().unwrap();
    let url = slow_url();
    let request = client.get(&url).build().unwrap();
    let (exec, step) = client.start(request, 1_000);
    assert!(matches!(step, Step::Send));
    assert_eq!(exec.remaining(1_000), Some(500));

    // the endpoint answers after two seconds; the caller's wait ends first
    assert_eq!(exec.remaining(1_500), Some(0));
    let err = match exec.on_expiry() {
        Step::Done(Err(e)) => e,
        other => panic!("expected a timeout, got {:?}", other),
    };
    assert!(err.is_timeout());
    assert_eq!(err.url().map(|u| u.as_str()), Some(url.as_str()));
}

#[test]
fn request_timeout() {
    let client = Client::builder().build().unwrap();
    let url = slow_url();
    let request = client.get(&url).timeout(500).build().unwrap();
    let (mut exec, _) = client.start(request, 0);
    let late = nightfly::Response::new(
        nightfly::StatusCode::from_u16(200).unwrap(),
        nightfly::Version::http_11(),
        vec![],
        nightfly::Url::parse(&url).unwrap(),
        vec![],
    );
    let err = match exec.on_response(late, 2_000) {
        Step::Done(Err(e)) => e,
        other => panic!("expected a timeout, got {:?}", other),
    };
    assert!(err.is_timeout());
    assert_eq!(err.url().map(|u| u.as_str()), Some(url.as_str()));
}

#[test]
fn deadline_spans_every_hop() {
    let client = Client::builder().timeout(500).build().unwrap();
    let request = client.get("http://a.example/0").build().unwrap();
    let (mut exec, _) = client.start(request, 100);
    assert_eq!(exec.deadline(), Some(600));
    let moved = nightfly::Response::new(
        nightfly::StatusCode::from_u16(302).unwrap(),
        nightfly::Version::http_11(),
        vec![nightfly::Header { name: "Location".to_string(), value: "/1".to_string() }],
        nightfly::Url::parse("http://a.example/0").unwrap(),
        vec![],
    );
    assert!(matches!(exec.on_response(moved, 400), Step::Send));
    assert_eq!(exec.deadline(), Some(600));
    let err = match exec.on_failure(Source::Message("reset".to_string()), 700) {
        Step::Done(Err(e)) => e,
        other => panic!("expected a timeout, got {:?}", other),
    };
    assert!(err.is_timeout());
    assert_eq!(err.url().map(|u| u.as_str()), Some("http://a.example/1"));
}

#[test]
fn failure_before_deadline_is_a_request_error() {
    let client = Client::builder().timeout(500).connect_timeout(100).build().unwrap();
    let request = client.get("http://a.example/").build().unwrap();
    let (exec, _) = client.start(request, 0);
    assert_eq!(exec.connect_deadline(50), Some(150));
    let err = match exec.on_failure(Source::Message("connection refused".to_string()), 10) {
        Step::Done(Err(e)) => e,
        other => panic!("expected an error, got {:?}", other),
    };
    assert!(err.is_request());
    assert!(!err.is_timeout());
    assert_eq!(
        err.describe(),
        "error sending request for url (http://a.example/): connection refused"
    );
}

#[test]
fn deadline_choice() {
    assert_eq!(deadline_for(10, Some(5), Some(100)), Some(15));
    assert_eq!(deadline_for(10, None, Some(100)), Some(110));
    assert_eq!(deadline_for(10, None, None), None);
    assert_eq!(deadline_for(u64::MAX - 1, Some(5), None), Some(u64::MAX));
}

fn closes_url() -> String {
    format!("http://{}/closes", "0.0.0.0:3008")
}

#[test]
fn timeout_blocking_request() {
    let client = Client::builder().build().unwrap();
    let url = closes_url();
    let request = client.get(&url).timeout(500).build().unwrap();
    let (mut exec, _) = client.start(request, 0);
    // the response comes after two seconds
    let late = nightfly::Response::new(
        nightfly::StatusCode::from_u16(200).unwrap(),
        nightfly::Version::default(),
        vec![],
        nightfly::Url::parse(&url).unwrap(),
        vec![],
    );
    let err = match exec.on_response(late, 2_000) {
        Step::Done(Err(e)) => e,
        other => panic!("expected a timeout, got {:?}", other),
    };
    assert!(err.is_timeout());
    assert_eq!(err.url().map(|u| u.as_str()), Some(url.as_str()));
}

#[test]
fn blocking_request_timeout_body() {
    let client = Client::builder().connect_timeout(200).timeout(200).build().unwrap();
    let url = closes_url();
    // longer than the client's timeout, which it overrides
    let request = client.get(&url).timeout(5_000).build().unwrap();
    let (mut exec, _) = client.start(request, 0);
    assert_eq!(exec.deadline(), Some(5_000));
    let slow_body = nightfly::Response::new(
        nightfly::StatusCode::from_u16(200).unwrap(),
        nightfly::Version::default(),
        vec![],
        nightfly::Url::parse(&url).unwrap(),
        b"Hello".to_vec(),
    );
    let res = match exec.on_response(slow_body, 1_000) {
        Step::Done(Ok(r)) => r,
        other => panic!("get response: {:?}", other),
    };
    assert_eq!(String::from_utf8(res.body().clone()).unwrap(), "Hello");
}

#[test]
fn write_timeout_large_body() {
    let body = vec![b'x'; 20_000];
    let len = 8192;
    let client = Client::builder().timeout(500).build().unwrap();
    let url = format!("http://{}/write-timeout", "0.0.0.0:3008");
    let request = client.post(&url).body(body[..len].to_vec()).build().unwrap();
    assert_eq!(request.body().map(|b| b.len()), Some(8192));
    let (exec, _) = client.start(request, 0);
    // writing the body is still blocked after two seconds
    let err = match exec.on_failure(Source::Message("write blocked".to_string()), 2_000) {
        Step::Done(Err(e)) => e,
        other => panic!("expected a timeout, got {:?}", other),
    };
    assert!(err.is_timeout());
    assert_eq!(err.url().map(|u| u.as_str()), Some(url.as_str()));
}
