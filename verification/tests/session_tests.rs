use image_retriever::ImageType;
use image_retriever::session::BodyOutcome;
use image_retriever::session::FetchOutcome;
use image_retriever::session::RetrieverState;

fn fresh(input: &str) -> RetrieverState {
    let mut state = RetrieverState::new(String::from("/tmp/out"));
    state.requests_input = String::from(input);
    state
}

#[test]
fn new_session_is_empty() {
    let state = RetrieverState::new(String::from("downloads"));
    assert_eq!(state.requests_input, "");
    assert!(state.feedback.is_empty());
    assert_eq!(state.export_dir, "downloads");
}

#[test]
fn empty_input_short_circuits_with_one_line() {
    let mut state = fresh("");
    let requests = state.start_batch();
    assert!(requests.is_none());
    assert_eq!(state.feedback, vec!["There was no input provided to fetch"]);
}

#[test]
fn clear_resets_input_and_log_but_keeps_directory() {
    let mut state = fresh("http://a.test/x");
    state.begin_request(&String::from("http://a.test/x"));
    state.clear();
    assert_eq!(state.requests_input, "");
    assert!(state.feedback.is_empty());
    assert_eq!(state.export_dir, "/tmp/out");
}

#[test]
fn transport_failure_logs_the_error() {
    let mut state = fresh("http://a.test/x");
    state.begin_request(&String::from("http://a.test/x"));
    let kind = state.handle_fetch(&FetchOutcome::Failure {
        message: String::from("connection refused"),
    });
    assert!(kind.is_none());
    assert_eq!(
        state.feedback,
        vec![
            "Running request for http://a.test/x",
            "Http request failed! Returned an error: connection refused",
        ]
    );
}

#[test]
fn missing_content_type_aborts_with_distinct_line() {
    let mut state = fresh("u");
    let kind = state.handle_fetch(&FetchOutcome::Success { content_type: None });
    assert!(kind.is_none());
    assert_eq!(
        state.feedback,
        vec![
            "Response returned successfully!",
            "Checking response content type...",
            "Error: response header contained no content type. Could not download.",
        ]
    );
}

#[test]
fn unsupported_content_type_reported_once_and_never_writes() {
    let mut state = fresh("u");
    state.begin_request(&String::from("http://a.test/page"));
    let kind = state.handle_fetch(&FetchOutcome::Success {
        content_type: Some(String::from("text/html")),
    });
    assert!(kind.is_none());
    let unsupported = "Invalid or Unsupported HTTP Content Type: Could not process request";
    let count = state.feedback.iter().filter(|l| l.as_str() == unsupported).count();
    assert_eq!(count, 1);
    assert_eq!(
        state.feedback,
        vec![
            "Running request for http://a.test/page",
            "Response returned successfully!",
            "Checking response content type...",
            unsupported,
        ]
    );
}

#[test]
fn supported_content_type_proceeds_to_download() {
    let mut state = fresh("u");
    let kind = state.handle_fetch(&FetchOutcome::Success {
        content_type: Some(String::from("image/tiff")),
    });
    assert_eq!(kind, Some(ImageType::Tiff));
    assert_eq!(
        state.feedback,
        vec![
            "Response returned successfully!",
            "Checking response content type...",
            "Content type is supported",
            "Beginning download...",
        ]
    );
}

#[test]
fn body_read_failure_is_swallowed_into_a_status_line() {
    let mut state = fresh("u");
    let write = state.handle_body(
        &String::from("http://a.test/a.png"),
        ImageType::Png,
        BodyOutcome::Failure { message: String::from("stream dropped") },
    );
    assert!(write.is_none());
    assert_eq!(
        state.feedback,
        vec!["Error while reading bytes from response body: stream dropped"]
    );
}

#[test]
fn write_outcomes_are_logged() {
    let mut state = fresh("u");
    state.handle_write(&Ok(()));
    state.handle_write(&Err(String::from("permission denied")));
    assert_eq!(
        state.feedback,
        vec![
            "Download Complete",
            "Download aborted! An error occurred: permission denied",
        ]
    );
}

#[test]
fn one_failure_never_stops_the_rest_of_the_batch() {
    let mut state = fresh("http://a.test/1.png\nhttp://a.test/2.png\nhttp://a.test/3.png");
    let requests = state.start_batch().expect("input was not empty");
    assert_eq!(requests.len(), 3);
    for (i, url) in requests.iter().enumerate() {
        state.begin_request(url);
        if i == 1 {
            let kind = state.handle_fetch(&FetchOutcome::Failure {
                message: String::from("dns error"),
            });
            assert!(kind.is_none());
            continue;
        }
        let kind = state.handle_fetch(&FetchOutcome::Success {
            content_type: Some(String::from("image/png")),
        });
        let kind = kind.expect("png is supported");
        let write = state.handle_body(url, kind, BodyOutcome::Bytes { bytes: vec![1, 2, 3] });
        assert!(write.is_some());
        state.handle_write(&Ok(()));
    }
    let running = state
        .feedback
        .iter()
        .filter(|l| l.starts_with("Running request for "))
        .count();
    assert_eq!(running, 3);
    for url in requests.iter() {
        let line = format!("Running request for {}", url);
        assert!(state.feedback.iter().any(|l| l == &line));
    }
}

#[test]
fn end_to_end_one_success_then_one_failure() {
    let mut state = fresh("http://a.test/img.png\nhttp://a.test/bad");
    let requests = state.start_batch().expect("input was not empty");
    assert_eq!(requests, vec!["http://a.test/img.png", "http://a.test/bad"]);

    let body: Vec<u8> = (0..200u8).collect();
    let mut written: Vec<(String, Vec<u8>)> = Vec::new();

    state.begin_request(&requests[0]);
    let kind = state
        .handle_fetch(&FetchOutcome::Success { content_type: Some(String::from("image/png")) })
        .expect("png is supported");
    let (name, bytes) = state
        .handle_body(&requests[0], kind, BodyOutcome::Bytes { bytes: body.clone() })
        .expect("body was read");
    written.push((name, bytes));
    state.handle_write(&Ok(()));

    state.begin_request(&requests[1]);
    let kind = state.handle_fetch(&FetchOutcome::Failure {
        message: String::from("connection refused"),
    });
    assert!(kind.is_none());

    assert_eq!(written.len(), 1);
    assert_eq!(written[0].0, "img.png");
    assert_eq!(written[0].1.len(), 200);
    assert_eq!(written[0].1, body);
    assert!(state.feedback.len() >= 5);
    assert_eq!(
        state.feedback.last().unwrap(),
        "Http request failed! Returned an error: connection refused"
    );
}
