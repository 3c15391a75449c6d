use todo_fetch::decode::{DecodeError, Todo};
use todo_fetch::fetch::{conclude, is_success, plan, run_against_stub, FetchError};
use todo_fetch::guard::{validate_domain, DomainGuard, APPROVED_BASE};
use todo_fetch::stub::{expect, StubHarness};
use todo_fetch::transport::{RawResponse, TransportError};

fn local_harness() -> StubHarness {
    StubHarness::start(&format!("http://{}:{}", "0.0.0.0", 1234))
}

fn json_response(status: u16, body: &str) -> RawResponse {
    RawResponse {
        status,
        content_type: Some("application/json".to_string()),
        body: body.as_bytes().to_vec(),
    }
}

#[test]
fn test_run() {
    let mut server = local_harness();
    let json_body = r#"{"userId": 1, "id": 1, "title": "delectus aut autem", "completed": false}"#;

    let mock = server.register(
        expect("GET", "/todos/1")
            .with_status(200)
            .with_header("content-type", "application/json")
            .with_body(json_body.as_bytes().to_vec()),
    );

    let url = server.url().to_string() + "/todos/";
    let guard = DomainGuard::new(&url);
    let todo = run_against_stub(&guard, &mut server, &url, 1).unwrap();
    let expect_todo = Todo {
        user_id: 1,
        id: 1,
        title: "delectus aut autem".to_string(),
        completed: false,
    };
    assert_eq!(todo, expect_todo);

    assert!(server.expectation(mock).unwrap().is_fulfilled());
    assert_eq!(server.assert_fulfilled(), Ok(()));
}

#[test]
fn happy_path_with_compact_body() {
    let mut server = local_harness();
    server.register(
        expect("GET", "/todos/1").with_status(200).with_body(
            r#"{"userId":1,"id":1,"title":"delectus aut autem","completed":false}"#
                .as_bytes()
                .to_vec(),
        ),
    );
    let base = "http://0.0.0.0:1234/todos/";
    let guard = DomainGuard::new(base);
    let todo = run_against_stub(&guard, &mut server, base, 1);
    assert_eq!(
        todo,
        Ok(Todo { user_id: 1, id: 1, title: "delectus aut autem".to_string(), completed: false })
    );
    assert_eq!(server.requests(), 1);
}

#[test]
fn unapproved_base_makes_no_request() {
    let mut server = local_harness();
    server.register(expect("GET", "/todos/1").with_body(b"{}".to_vec()));
    let guard = DomainGuard::new("http://0.0.0.0:1234/todos/");
    for base in [
        "http://0.0.0.0:1234/todos",
        "http://0.0.0.0:1234/todos//",
        "http://0.0.0.0:1234/Todos/",
        "HTTP://0.0.0.0:1234/todos/",
        "http://0.0.0.0:1234/",
        "https://jsonplaceholder.typicode.com/todos/",
        "",
    ] {
        let result = run_against_stub(&guard, &mut server, base, 1);
        assert_eq!(result, Err(FetchError::UnapprovedDomain));
    }
    assert_eq!(server.requests(), 0);
    assert_eq!(server.expectation(0).unwrap().hits(), 0);
}

#[test]
fn status_404_is_passed_on() {
    let mut server = local_harness();
    server.register(
        expect("GET", "/todos/1").with_status(404).with_body(
            r#"{"userId":1,"id":1,"title":"delectus aut autem","completed":false}"#
                .as_bytes()
                .to_vec(),
        ),
    );
    let base = "http://0.0.0.0:1234/todos/";
    let guard = DomainGuard::new(base);
    let result = run_against_stub(&guard, &mut server, base, 1);
    assert_eq!(result, Err(FetchError::HttpStatus(404)));
}

#[test]
fn failure_status_wins_over_a_bad_body() {
    assert_eq!(conclude(Ok(json_response(404, "not json"))), Err(FetchError::HttpStatus(404)));
    assert_eq!(conclude(Ok(json_response(500, ""))), Err(FetchError::HttpStatus(500)));
}

#[test]
fn malformed_body_is_reported() {
    let mut server = local_harness();
    server.register(expect("GET", "/todos/1").with_status(200).with_body(b"not json".to_vec()));
    let base = "http://0.0.0.0:1234/todos/";
    let guard = DomainGuard::new(base);
    let result = run_against_stub(&guard, &mut server, base, 1);
    assert_eq!(result, Err(FetchError::InvalidBody(DecodeError::Malformed)));
}

#[test]
fn missing_user_id_is_a_schema_error() {
    let mut server = local_harness();
    server.register(
        expect("GET", "/todos/1")
            .with_status(200)
            .with_body(r#"{"id":1,"title":"x","completed":false}"#.as_bytes().to_vec()),
    );
    let base = "http://0.0.0.0:1234/todos/";
    let guard = DomainGuard::new(base);
    let result = run_against_stub(&guard, &mut server, base, 1);
    assert_eq!(result, Err(FetchError::InvalidBody(DecodeError::Schema)));
}

#[test]
fn transport_failure_keeps_its_cause() {
    let outcome = Err(TransportError { cause: "dns error".to_string() });
    assert_eq!(
        conclude(outcome),
        Err(FetchError::Network(TransportError { cause: "dns error".to_string() }))
    );
}

#[test]
fn url_that_misses_the_harness_is_a_network_error() {
    let mut server = local_harness();
    server.register(expect("GET", "/todos/1"));
    let base = "http://0.0.0.0:12345/todos/";
    let guard = DomainGuard::new(base);
    let result = run_against_stub(&guard, &mut server, base, 1);
    assert_eq!(
        result,
        Err(FetchError::Network(TransportError { cause: "connection refused".to_string() }))
    );
    assert_eq!(server.requests(), 0);
}

#[test]
fn success_is_200_to_299() {
    assert!(!is_success(0));
    assert!(!is_success(199));
    assert!(is_success(200));
    assert!(is_success(204));
    assert!(is_success(299));
    assert!(!is_success(300));
    assert!(!is_success(404));
    assert!(!is_success(u16::MAX));
}

#[test]
fn boundary_statuses_in_conclude() {
    let body = r#"{"userId":7,"id":9,"title":"","completed":true}"#;
    let todo = Todo { user_id: 7, id: 9, title: String::new(), completed: true };
    assert_eq!(conclude(Ok(json_response(199, body))), Err(FetchError::HttpStatus(199)));
    assert_eq!(conclude(Ok(json_response(200, body))), Ok(todo.clone()));
    assert_eq!(conclude(Ok(json_response(299, body))), Ok(todo));
    assert_eq!(conclude(Ok(json_response(300, body))), Err(FetchError::HttpStatus(300)));
}

#[test]
fn content_type_is_not_a_condition() {
    let response = RawResponse {
        status: 200,
        content_type: None,
        body: r#"{"userId":1,"id":2,"title":"t","completed":false}"#.as_bytes().to_vec(),
    };
    assert_eq!(
        conclude(Ok(response)),
        Ok(Todo { user_id: 1, id: 2, title: "t".to_string(), completed: false })
    );
}

#[test]
fn plan_appends_the_identifier_in_decimal() {
    let guard = DomainGuard::production();
    let url = |id: u32| plan(&guard, APPROVED_BASE, id).unwrap().url().to_string();
    assert_eq!(url(0), "https://jsonplaceholder.typicode.com/todos/0");
    assert_eq!(url(1), "https://jsonplaceholder.typicode.com/todos/1");
    assert_eq!(url(9), "https://jsonplaceholder.typicode.com/todos/9");
    assert_eq!(url(10), "https://jsonplaceholder.typicode.com/todos/10");
    assert_eq!(url(1905), "https://jsonplaceholder.typicode.com/todos/1905");
    assert_eq!(url(u32::MAX), "https://jsonplaceholder.typicode.com/todos/4294967295");
}

#[test]
fn plan_refuses_what_the_guard_refuses() {
    let guard = DomainGuard::production();
    assert_eq!(plan(&guard, "https://example.com/todos/", 1), Err(FetchError::UnapprovedDomain));
    assert_eq!(
        plan(&guard, "https://jsonplaceholder.typicode.com/todos", 1),
        Err(FetchError::UnapprovedDomain)
    );
    assert!(plan(&guard, "https://jsonplaceholder.typicode.com/todos/", 1).is_ok());
}

#[test]
fn guard_is_an_exact_match() {
    assert!(validate_domain("https://jsonplaceholder.typicode.com/todos/"));
    assert!(validate_domain(APPROVED_BASE));
    assert!(!validate_domain("https://jsonplaceholder.typicode.com/todos"));
    assert!(!validate_domain("https://jsonplaceholder.typicode.com/todos/1"));
    assert!(!validate_domain("http://jsonplaceholder.typicode.com/todos/"));
    assert!(!validate_domain("https://JSONPLACEHOLDER.typicode.com/todos/"));
    assert!(!validate_domain(" https://jsonplaceholder.typicode.com/todos/"));
    assert!(!validate_domain("http://0.0.0.0:1234/todos/"));
    assert!(!validate_domain(""));
}

#[test]
fn guard_answers_the_same_every_time() {
    let guard = DomainGuard::new("http://0.0.0.0:1234/todos/");
    for _ in 0..5 {
        assert!(guard.approve("http://0.0.0.0:1234/todos/"));
        assert!(!guard.approve("http://0.0.0.0:1234/todos"));
        assert!(validate_domain(APPROVED_BASE));
        assert!(!validate_domain("http://0.0.0.0:1234/todos/"));
    }
    assert_eq!(guard.approved_base(), "http://0.0.0.0:1234/todos/");
    assert!(DomainGuard::production().approve(APPROVED_BASE));
    assert!(DomainGuard::new("").approve(""));
    assert!(DomainGuard::new("h\u{e9}").approve("h\u{e9}"));
    assert!(!DomainGuard::new("h\u{e9}").approve("he"));
}
