use catascii::errors::ArtError;
use catascii::pipeline::{pipeline_start, pipeline_step, Action, Event, PipelineState};

fn search_event(status: u16, body: &str) -> Event {
    Event::Response { status, body: body.as_bytes().to_vec() }
}

fn png_bytes(r: u8, g: u8, b: u8) -> Vec<u8> {
    let mut img = image::RgbImage::new(8, 8);
    for p in img.pixels_mut() {
        *p = image::Rgb([r, g, b]);
    }
    let mut bytes: Vec<u8> = Vec::new();
    let mut cur = std::io::Cursor::new(&mut bytes);
    img.write_to(&mut cur, image::ImageOutputFormat::Png).unwrap();
    bytes
}

fn expect_respond(action: Action) -> (u16, Option<String>, String, Option<ArtError>) {
    match action {
        Action::Respond { reply, log } => (reply.status, reply.content_type, reply.body, log),
        Action::Fetch { .. } => panic!("expected a response action"),
    }
}

#[test]
fn start_fetches_the_search_endpoint() {
    let (state, action) = pipeline_start();
    assert!(matches!(state, PipelineState::AwaitSearch));
    match action {
        Action::Fetch { url } => {
            assert_eq!(url, "https://api.thecatapi.com/v1/images/search");
        }
        Action::Respond { .. } => panic!("expected a fetch action"),
    }
}

#[test]
fn search_error_status_maps_to_remote_api() {
    let (state, action) = pipeline_step(PipelineState::AwaitSearch, search_event(503, "[]"));
    assert!(matches!(state, PipelineState::Done));
    let (status, ct, body, log) = expect_respond(action);
    assert_eq!(status, 500);
    assert!(ct.is_none());
    assert_eq!(body, "Something went wrong");
    let err = log.expect("a remote-status failure must be logged");
    assert!(matches!(err, ArtError::RemoteApi { status: 503 }));
    let line = err.log_line();
    assert!(line.contains("503"), "log line must mention the status: {line}");
    assert!(line.starts_with("RemoteApiError"));
}

#[test]
fn empty_array_maps_to_empty_result() {
    let (_, action) = pipeline_step(PipelineState::AwaitSearch, search_event(200, " [ ] "));
    let (status, _, body, log) = expect_respond(action);
    assert_eq!(status, 500);
    assert_eq!(body, "Something went wrong");
    let err = log.expect("an empty search must be logged");
    assert!(matches!(err, ArtError::EmptyResult));
    assert_eq!(err.log_line(), "EmptyResultError: the search returned no images");
}

#[test]
fn missing_url_field_maps_to_malformed() {
    let (_, action) = pipeline_step(
        PipelineState::AwaitSearch,
        search_event(200, "[{\"id\":\"abc\",\"width\":880}]"),
    );
    let (status, _, _, log) = expect_respond(action);
    assert_eq!(status, 500);
    let err = log.expect("a malformed body must be logged");
    assert!(matches!(err, ArtError::MalformedResponse));
    assert!(err.log_line().starts_with("MalformedResponseError"));
}

#[test]
fn unparseable_body_maps_to_malformed() {
    let (_, action) =
        pipeline_step(PipelineState::AwaitSearch, search_event(200, "service unavailable"));
    let (status, _, _, log) = expect_respond(action);
    assert_eq!(status, 500);
    assert!(matches!(log, Some(ArtError::MalformedResponse)));
}

#[test]
fn search_success_fetches_the_first_url() {
    let body = "[{\"id\":\"a\",\"url\":\"https://cdn.example/a.png\",\"width\":3},\
                {\"id\":\"b\",\"url\":\"https://cdn.example/b.png\"}]";
    let (state, action) = pipeline_step(PipelineState::AwaitSearch, search_event(200, body));
    assert!(matches!(state, PipelineState::AwaitImage));
    match action {
        Action::Fetch { url } => assert_eq!(url, "https://cdn.example/a.png"),
        Action::Respond { .. } => panic!("expected a fetch action"),
    }
}

#[test]
fn transport_failure_maps_to_transport_error() {
    let (_, action) = pipeline_step(
        PipelineState::AwaitSearch,
        Event::TransportFailed { detail: String::from("connection refused") },
    );
    let (status, _, body, log) = expect_respond(action);
    assert_eq!(status, 500);
    assert_eq!(body, "Something went wrong");
    let err = log.expect("a transport failure must be logged");
    assert_eq!(err.log_line(), "TransportError: connection refused");
}

#[test]
fn image_error_status_maps_to_remote_api() {
    let (_, action) = pipeline_step(PipelineState::AwaitImage, search_event(404, ""));
    let (status, _, _, log) = expect_respond(action);
    assert_eq!(status, 500);
    let err = log.expect("a remote-status failure must be logged");
    assert!(matches!(err, ArtError::RemoteApi { status: 404 }));
    assert!(err.log_line().contains("404"));
}

#[test]
fn undecodable_bytes_map_to_decode_error() {
    let (_, action) =
        pipeline_step(PipelineState::AwaitImage, search_event(200, "plain text, no image"));
    let (status, _, body, log) = expect_respond(action);
    assert_eq!(status, 500);
    assert_eq!(body, "Something went wrong");
    let err = log.expect("a decode failure must be logged");
    assert!(matches!(err, ArtError::Decode));
    assert!(err.log_line().starts_with("DecodeError"));
}

#[test]
fn a_decodable_image_with_zero_dimensions_maps_to_decode_error() {
    // a farbfeld header claiming width 0 and height 0 decodes to an empty
    // image; the pipeline must answer 500, not fall over
    let mut body = b"farbfeld".to_vec();
    body.extend_from_slice(&[0, 0, 0, 0, 0, 0, 0, 0]);
    let (_, action) = pipeline_step(PipelineState::AwaitImage, Event::Response { status: 200, body });
    let (status, _, _, log) = expect_respond(action);
    assert_eq!(status, 500);
    assert!(matches!(log, Some(ArtError::Decode)));
}

#[test]
fn rendering_the_same_bytes_twice_gives_the_same_document() {
    let image = png_bytes(120, 90, 60);
    let (s1, doc1) =
        run_one_request("[{\"url\":\"https://cdn.example/cat.png\"}]", image.clone());
    let (s2, doc2) =
        run_one_request("[{\"url\":\"https://cdn.example/cat.png\"}]", image);
    assert_eq!(s1, 200);
    assert_eq!(s2, 200);
    assert_eq!(doc1, doc2);
}

#[test]
fn successful_pipeline_returns_html_document() {
    let (state, action) = pipeline_step(
        PipelineState::AwaitImage,
        Event::Response { status: 200, body: png_bytes(250, 250, 250) },
    );
    assert!(matches!(state, PipelineState::Done));
    let (status, ct, body, log) = expect_respond(action);
    assert_eq!(status, 200);
    assert_eq!(ct.as_deref(), Some("text/html; charset=utf-8"));
    assert!(log.is_none());
    assert!(!body.is_empty());
    assert!(body.contains("<html"), "the document must hold an HTML-opening tag");
    assert!(body.starts_with("<!DOCTYPE html>"));
}

fn run_one_request(search_body: &str, image_bytes: Vec<u8>) -> (u16, String) {
    let (state, action) = pipeline_start();
    let url = match action {
        Action::Fetch { url } => url,
        Action::Respond { .. } => panic!("the first action must fetch"),
    };
    assert_eq!(url, "https://api.thecatapi.com/v1/images/search");
    let (state, action) = pipeline_step(state, search_event(200, search_body));
    match action {
        Action::Fetch { .. } => {}
        Action::Respond { .. } => panic!("a good search body must lead to an image fetch"),
    }
    let (_, action) = pipeline_step(state, Event::Response { status: 200, body: image_bytes });
    let (status, _, body, _) = expect_respond(action);
    (status, body)
}

#[test]
fn two_requests_are_independent() {
    let (s1, doc1) = run_one_request(
        "[{\"url\":\"https://cdn.example/white.png\"}]",
        png_bytes(255, 255, 255),
    );
    let (s2, doc2) =
        run_one_request("[{\"url\":\"https://cdn.example/black.png\"}]", png_bytes(0, 0, 0));
    assert_eq!(s1, 200);
    assert_eq!(s2, 200);
    assert_ne!(doc1, doc2, "different images must give different documents");
}

#[test]
fn fifty_sequential_requests_all_succeed() {
    for n in 0..50u16 {
        let shade = (n * 5) as u8;
        let (status, body) = run_one_request(
            "[{\"url\":\"https://cdn.example/cat.png\"}]",
            png_bytes(shade, shade, shade),
        );
        assert_eq!(status, 200);
        assert!(body.contains("<html"));
    }
}
