use render_adapter::engine::{EngineImpl, Unified};
use render_adapter::engines::{EchoEngine, LookupEngine, MissingKey, NeverFails, RenderRefused, FailEngine};
use render_adapter::media::MediaType;
use render_adapter::renderer::{renderer, Renderer};
use render_adapter::step::PollOutcome;
use render_adapter::DEFAULT_MEDIA_TYPE;

#[test]
fn test_renderer() {
    let ren = renderer(EchoEngine { hint: None });
    let endpoint = ren.wrap(());
    let outcome = endpoint.poll_future::<String, Unified<NeverFails>>(PollOutcome::Ready(
        "Amaterasu".to_string(),
    ));
    match outcome {
        PollOutcome::Ready(response) => {
            assert_eq!(response.status, 200);
            assert_eq!(response.headers.len(), 1);
            assert_eq!(response.headers[0].0, "content-type");
            assert_eq!(response.headers[0].1, "text/html; charset=utf-8");
            assert_eq!(response.body, "Amaterasu");
        }
        _ => panic!("the composed step should have resolved a response"),
    }
}

#[test]
fn body_is_raw_backend_output_and_header_set_once() {
    let ren = renderer(EchoEngine { hint: None });
    let response = ren
        .render_response::<String, Unified<NeverFails>>("<p>raw & unescaped</p>".to_string())
        .unwrap();
    assert_eq!(response.body, "<p>raw & unescaped</p>");
    let content_type_headers: Vec<&(String, String)> = response
        .headers
        .iter()
        .filter(|h| h.0 == "content-type")
        .collect();
    assert_eq!(content_type_headers.len(), 1);
}

fn resolved_content_type(ren: &Renderer<EchoEngine>) -> String {
    let response = ren
        .render_response::<String, Unified<NeverFails>>("x".to_string())
        .unwrap();
    assert_eq!(response.headers.len(), 1);
    response.headers[0].1.clone()
}

#[test]
fn content_type_precedence_override_beats_hint_and_guess() {
    let hint = MediaType::parse("application/json").unwrap();
    let explicit = MediaType::parse("application/xml").unwrap();
    let ren = Renderer::new(EchoEngine { hint: Some(hint) }, "page.html".to_string())
        .content_type(explicit);
    assert_eq!(resolved_content_type(&ren), "application/xml");
}

#[test]
fn content_type_precedence_hint_beats_guess() {
    let hint = MediaType::parse("application/json").unwrap();
    let ren = Renderer::new(EchoEngine { hint: Some(hint) }, "page.html".to_string());
    assert_eq!(resolved_content_type(&ren), "application/json");
}

#[test]
fn content_type_precedence_guess_from_name() {
    let ren = Renderer::new(EchoEngine { hint: None }, "page.json".to_string());
    assert_eq!(resolved_content_type(&ren), "application/json");
}

#[test]
fn content_type_precedence_fixed_default() {
    let ren = renderer(EchoEngine { hint: None });
    assert_eq!(resolved_content_type(&ren), DEFAULT_MEDIA_TYPE);
    assert_eq!(DEFAULT_MEDIA_TYPE, "text/html; charset=utf-8");
}

#[test]
fn render_response_is_idempotent() {
    let ren = renderer(LookupEngine { key: "name".to_string() });
    let ctx = vec![
        ("greeting".to_string(), "hello".to_string()),
        ("name".to_string(), "Alice".to_string()),
    ];
    let first = ren
        .render_response::<Vec<(String, String)>, Unified<MissingKey>>(ctx.clone())
        .unwrap();
    let second = ren
        .render_response::<Vec<(String, String)>, Unified<MissingKey>>(ctx)
        .unwrap();
    assert_eq!(first.body, second.body);
    assert_eq!(first.headers, second.headers);
}

#[test]
fn invalid_media_type_is_rejected_at_configuration_time() {
    assert!(MediaType::parse("application/xml").is_some());
    assert!(MediaType::parse("not a media type").is_none());
    assert!(MediaType::parse("").is_none());
}

#[test]
fn shared_ownership_of_the_capability_forwards_rendering() {
    let ren = renderer(std::sync::Arc::new(EchoEngine { hint: None }));
    let response = ren
        .render_response::<String, Unified<NeverFails>>("shared".to_string())
        .unwrap();
    assert_eq!(response.body, "shared");
}

#[test]
fn render_failure_is_returned_not_retried() {
    let ren = renderer(FailEngine { message: "backend down".to_string() });
    let err = ren
        .render_response::<String, Unified<RenderRefused>>("ctx".to_string())
        .unwrap_err();
    assert_eq!(err.cause.message, "backend down");
}
