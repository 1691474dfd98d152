use healthsrv::handlers::{health_response, not_found_response, RenderFault};
use healthsrv::http::{ContentType, Method};
use healthsrv::service::App;

const HEALTH_TEMPLATE: &str = "healthcheck.html";

fn app_with_template(source: &str) -> App {
    let mut app = App::new();
    app.install_template(HEALTH_TEMPLATE, source)
        .expect("the template source has no syntax error");
    app
}

#[test]
fn root_get_renders_template() {
    let app = app_with_template("Hello {{ name }}!");
    let r = app.respond(Method::Get, &"/".to_string());
    assert_eq!(r.status, 200);
    assert_eq!(r.content_type, ContentType::Html);
    assert_eq!(r.body, "Hello world!");
    assert!(r.body.contains("world"));
}

#[test]
fn other_requests_are_not_found() {
    let app = app_with_template("Hello {{ name }}!");
    let cases = vec![
        (Method::Get, "/anything-else"),
        (Method::Post, "/"),
        (Method::Put, "/"),
        (Method::Delete, "/zzz"),
        (Method::Get, ""),
        (Method::Get, "/healthcheck.html"),
    ];
    for (method, path) in cases {
        let r = app.respond(method, &path.to_string());
        assert_eq!(r.status, 404);
        assert_eq!(r.body, "ohnoes");
        assert_eq!(r.content_type, ContentType::PlainText);
    }
}

#[test]
fn missing_template_is_a_deterministic_internal_error() {
    // A fresh app resolves templates under ./templates, which does not
    // exist here, so the health check's template cannot be found.
    let app = App::new();
    let first = app.respond(Method::Get, &"/".to_string());
    assert_eq!(first.status, 500);
    assert_eq!(first.content_type, ContentType::PlainText);
    assert_eq!(first.body, "internal error: template not found");

    // The failure is scoped to that request: later requests still work.
    let later = app.respond(Method::Get, &"/other".to_string());
    assert_eq!(later.status, 404);
    assert_eq!(later.body, "ohnoes");
    let again = app.respond(Method::Get, &"/".to_string());
    assert_eq!(again.status, 500);
    assert_eq!(again.body, first.body);
}

#[test]
fn failing_render_is_a_deterministic_internal_error() {
    // Calling a plain string value forces a render-time fault.
    let app = app_with_template("Hello {{ name() }}!");
    let r = app.respond(Method::Get, &"/".to_string());
    assert_eq!(r.status, 500);
    assert_eq!(r.content_type, ContentType::PlainText);
    assert_eq!(r.body, "internal error: template rendering failed");
}

#[test]
fn template_syntax_error_is_reported_at_install() {
    let mut app = App::new();
    let result = app.install_template(HEALTH_TEMPLATE, "Hello {{ name");
    assert_eq!(result, Err(RenderFault::RenderFailed));
}

#[test]
fn repeated_requests_get_identical_responses() {
    let app = app_with_template("Hello {{ name }}!");
    let sequence = vec![
        (Method::Get, "/"),
        (Method::Post, "/"),
        (Method::Get, "/other"),
        (Method::Get, "/"),
    ];
    let mut first_run = Vec::new();
    for (method, path) in &sequence {
        let r = app.respond(*method, &path.to_string());
        first_run.push((r.status, r.content_type, r.body));
    }
    let mut second_run = Vec::new();
    for (method, path) in &sequence {
        let r = app.respond(*method, &path.to_string());
        second_run.push((r.status, r.content_type, r.body));
    }
    assert_eq!(first_run, second_run);
    assert_eq!(first_run[0], first_run[3]);
}

#[test]
fn health_response_on_success_is_an_html_page() {
    let r = health_response(Ok("rendered text".to_string()));
    assert_eq!(r.status, 200);
    assert_eq!(r.content_type, ContentType::Html);
    assert_eq!(r.body, "rendered text");
}

#[test]
fn health_response_on_each_fault_is_internal_error() {
    let missing = health_response(Err(RenderFault::TemplateNotFound));
    assert_eq!(missing.status, 500);
    assert_eq!(missing.content_type, ContentType::PlainText);
    assert_eq!(missing.body, "internal error: template not found");

    let failed = health_response(Err(RenderFault::RenderFailed));
    assert_eq!(failed.status, 500);
    assert_eq!(failed.content_type, ContentType::PlainText);
    assert_eq!(failed.body, "internal error: template rendering failed");
}

#[test]
fn not_found_response_is_fixed() {
    let r = not_found_response();
    assert_eq!(r.status, 404);
    assert_eq!(r.content_type, ContentType::PlainText);
    assert_eq!(r.body, "ohnoes");
}
