use healthsrv::http::Method;
use healthsrv::router::{HandlerKind, Router};

#[test]
fn dispatch_matches_method_and_path_exactly() {
    let mut router = Router::new(HandlerKind::NotFound);
    router.route(Method::Get, "/".to_string(), HandlerKind::Health);
    assert_eq!(
        router.dispatch(Method::Get, &"/".to_string()),
        HandlerKind::Health
    );
    assert_eq!(
        router.dispatch(Method::Post, &"/".to_string()),
        HandlerKind::NotFound
    );
    assert_eq!(
        router.dispatch(Method::Get, &"/x".to_string()),
        HandlerKind::NotFound
    );
    assert_eq!(
        router.dispatch(Method::Get, &"//".to_string()),
        HandlerKind::NotFound
    );
}

#[test]
fn empty_table_always_falls_back() {
    let router = Router::new(HandlerKind::NotFound);
    assert_eq!(
        router.dispatch(Method::Get, &"/".to_string()),
        HandlerKind::NotFound
    );
}

#[test]
fn first_matching_route_wins() {
    let mut router = Router::new(HandlerKind::NotFound);
    router.route(Method::Get, "/dup".to_string(), HandlerKind::Health);
    router.route(Method::Get, "/dup".to_string(), HandlerKind::NotFound);
    assert_eq!(
        router.dispatch(Method::Get, &"/dup".to_string()),
        HandlerKind::Health
    );
}

#[test]
fn fallback_choice_is_respected() {
    let router = Router::new(HandlerKind::Health);
    assert_eq!(
        router.dispatch(Method::Get, &"/nowhere".to_string()),
        HandlerKind::Health
    );
}
