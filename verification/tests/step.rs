use render_adapter::engine::Unified;
use render_adapter::engines::{EchoEngine, FailEngine, LookupEngine, MissingKey, NeverFails, RenderRefused};
use render_adapter::media::MediaType;
use render_adapter::renderer::renderer;
use render_adapter::step::{DummyContext, PollOutcome};

#[test]
fn pending_inner_step_keeps_the_composed_step_pending() {
    let ren = renderer(EchoEngine { hint: None });
    let endpoint = ren.wrap(());
    let outcome = endpoint.poll_future::<String, Unified<NeverFails>>(PollOutcome::NotReady);
    assert!(matches!(outcome, PollOutcome::NotReady));
}

#[test]
fn inner_failure_is_propagated_verbatim_and_render_is_skipped() {
    // The capability would render "SHOULD NOT APPEAR" if it were invoked;
    // the propagated failure shows the render phase was never entered.
    let ren = renderer(EchoEngine { hint: None });
    let endpoint = ren.wrap(());
    let inner_error = Unified { cause: NeverFails };
    let outcome = endpoint.poll_future::<String, Unified<NeverFails>>(PollOutcome::Failed(
        inner_error,
    ));
    match outcome {
        PollOutcome::Failed(p) => assert_eq!(p, Unified { cause: NeverFails }),
        PollOutcome::Ready(response) => {
            panic!("render phase was entered: produced body {:?}", response.body)
        }
        PollOutcome::NotReady => panic!("the failure was swallowed"),
    }
}

#[test]
fn render_failure_wraps_the_backend_error_as_cause() {
    let ren = renderer(FailEngine { message: "template not found".to_string() });
    let endpoint = ren.wrap(());
    let outcome = endpoint.poll_future::<String, Unified<RenderRefused>>(PollOutcome::Ready(
        "ctx".to_string(),
    ));
    match outcome {
        PollOutcome::Failed(p) => {
            assert_eq!(p.cause, RenderRefused { message: "template not found".to_string() });
        }
        PollOutcome::Ready(_) => panic!("a refused render produced a response"),
        PollOutcome::NotReady => panic!("a refused render left the step pending"),
    }
}

#[test]
fn placeholder_renders_to_the_context_value() {
    // A capability bound to the placeholder `name`, composed over a step that
    // yields the context {name: "Alice"}.
    let ren = renderer(LookupEngine { key: "name".to_string() });
    let endpoint = ren.wrap(());
    let ctx = vec![("name".to_string(), "Alice".to_string())];
    let outcome = endpoint.poll_future::<Vec<(String, String)>, Unified<MissingKey>>(
        PollOutcome::Ready(ctx),
    );
    match outcome {
        PollOutcome::Ready(response) => {
            assert_eq!(response.body, "Alice");
            assert_eq!(response.headers.len(), 1);
            assert_eq!(response.headers[0].0, "content-type");
            assert_eq!(response.headers[0].1, "text/html; charset=utf-8");
        }
        _ => panic!("the composed step should have resolved a response"),
    }
}

#[test]
fn explicit_override_is_emitted_regardless_of_hint() {
    let hint = MediaType::parse("text/plain").unwrap();
    let explicit = MediaType::parse("application/xml").unwrap();
    let ren = renderer(EchoEngine { hint: Some(hint) }).content_type(explicit);
    let endpoint = ren.wrap(());
    let outcome = endpoint.poll_future::<String, Unified<NeverFails>>(PollOutcome::Ready(
        "body".to_string(),
    ));
    match outcome {
        PollOutcome::Ready(response) => {
            assert_eq!(response.headers.len(), 1);
            assert_eq!(response.headers[0].1, "application/xml");
        }
        _ => panic!("the composed step should have resolved a response"),
    }
}

#[test]
fn equal_keys_resolve_to_the_first_binding() {
    let ren = renderer(LookupEngine { key: "name".to_string() });
    let ctx = vec![
        ("name".to_string(), "First".to_string()),
        ("name".to_string(), "Second".to_string()),
    ];
    let response = ren
        .render_response::<Vec<(String, String)>, Unified<MissingKey>>(ctx)
        .unwrap();
    assert_eq!(response.body, "First");
}

#[test]
fn missing_placeholder_fails_with_the_key_as_cause() {
    let ren = renderer(LookupEngine { key: "name".to_string() });
    let endpoint = ren.wrap(());
    let ctx = vec![("greeting".to_string(), "hello".to_string())];
    let outcome = endpoint.poll_future::<Vec<(String, String)>, Unified<MissingKey>>(
        PollOutcome::Ready(ctx),
    );
    match outcome {
        PollOutcome::Failed(p) => assert_eq!(p.cause, MissingKey { key: "name".to_string() }),
        _ => panic!("a lookup without the key should fail"),
    }
}

#[test]
fn suspension_waits_then_renders_synchronously() {
    let ren = renderer(EchoEngine { hint: None });
    let endpoint = ren.wrap(());
    let suspension = endpoint.apply("the in-flight inner step");
    let pending = suspension.poll::<String, Unified<NeverFails>>(PollOutcome::NotReady);
    assert!(matches!(pending, PollOutcome::NotReady));
    let outcome = suspension.poll::<String, Unified<NeverFails>>(PollOutcome::Ready(
        "Amaterasu".to_string(),
    ));
    match outcome {
        PollOutcome::Ready(response) => assert_eq!(response.body, "Amaterasu"),
        _ => panic!("the suspension should have produced a response"),
    }
    let (inner, _renderer) = suspension.into_parts();
    assert_eq!(inner, "the in-flight inner step");
}

#[test]
fn set_content_type_replaces_the_override_in_place() {
    let mut ren = renderer(EchoEngine { hint: None });
    ren.set_content_type(MediaType::parse("text/plain").unwrap());
    ren.set_content_type(MediaType::parse("application/xml").unwrap());
    let response = ren
        .render_response::<String, Unified<NeverFails>>("x".to_string())
        .unwrap();
    assert_eq!(response.headers.len(), 1);
    assert_eq!(response.headers[0].1, "application/xml");
}

#[test]
fn bare_renderer_stands_in_as_a_complete_step() {
    let ren = renderer(EchoEngine { hint: None });
    let endpoint = ren.into_endpoint();
    // The composed step supplies the fixed empty context itself.
    assert_eq!(*endpoint.endpoint(), DummyContext::default());
}
