use data_sync::outcome::UNREADABLE_BODY;
use data_sync::{
    classify, transition, ApiResponse, Command, ErrorInfo, Event, FetchOutcome, ResourceController,
    ResourceState, DATA_PATH,
};

fn ok_body() -> Option<String> {
    Some("{\"message\":\"Hello from Rust backend!\",\"status\":\"success\"}".to_string())
}

fn hello() -> ApiResponse {
    ApiResponse::new("Hello from Rust backend!", "success")
}

fn states() -> Vec<ResourceState> {
    vec![
        ResourceState::Idle,
        ResourceState::Loading,
        ResourceState::Success(hello()),
        ResourceState::Failed(ErrorInfo::Network("down".to_string())),
    ]
}

#[test]
fn data_path_is_relative() {
    assert_eq!(DATA_PATH, "/api/data");
}

#[test]
fn transition_is_defined_on_every_pair() {
    for s in states() {
        let (next, cmd) = transition(s.clone(), Event::Initialize);
        assert_eq!(next, ResourceState::Loading);
        assert_eq!(cmd, Command::Fetch);

        let (next, cmd) = transition(s.clone(), Event::Refresh);
        assert_eq!(next, ResourceState::Loading);
        assert_eq!(cmd, Command::Fetch);

        let (next, cmd) = transition(s.clone(), Event::ResponseSuccess(hello()));
        assert_eq!(next, ResourceState::Success(hello()));
        assert_eq!(cmd, Command::Wait);

        let err = ErrorInfo::Parse("bad".to_string());
        let (next, cmd) = transition(s.clone(), Event::ResponseFailure(err.clone()));
        assert_eq!(next, ResourceState::Failed(err));
        assert_eq!(cmd, Command::Wait);
    }
}

#[test]
fn transport_failure_is_network() {
    let r = classify(FetchOutcome::Transport("connection refused".to_string()));
    assert_eq!(r, Err(ErrorInfo::Network("connection refused".to_string())));
}

#[test]
fn status_500_is_http_status() {
    let r = classify(FetchOutcome::Response(500, Some("boom".to_string())));
    assert_eq!(r, Err(ErrorInfo::HttpStatus(500, Some("boom".to_string()))));
}

#[test]
fn status_without_readable_body_keeps_code_only() {
    let r = classify(FetchOutcome::Response(404, None));
    assert_eq!(r, Err(ErrorInfo::HttpStatus(404, None)));
}

#[test]
fn status_range_bounds() {
    assert!(matches!(
        classify(FetchOutcome::Response(199, ok_body())),
        Err(ErrorInfo::HttpStatus(199, _))
    ));
    assert_eq!(classify(FetchOutcome::Response(200, ok_body())), Ok(hello()));
    assert_eq!(classify(FetchOutcome::Response(299, ok_body())), Ok(hello()));
    assert!(matches!(
        classify(FetchOutcome::Response(300, ok_body())),
        Err(ErrorInfo::HttpStatus(300, _))
    ));
}

#[test]
fn malformed_body_is_parse() {
    let r = classify(FetchOutcome::Response(200, Some("not json".to_string())));
    assert!(matches!(r, Err(ErrorInfo::Parse(_))));
}

#[test]
fn unreadable_success_body_is_parse() {
    let r = classify(FetchOutcome::Response(200, None));
    assert_eq!(r, Err(ErrorInfo::Parse(UNREADABLE_BODY.to_string())));
}

#[test]
fn scenario_initialize_succeeds() {
    let mut c = ResourceController::new();
    assert_eq!(*c.state(), ResourceState::Idle);
    assert_eq!(c.initialize(), Command::Fetch);
    assert_eq!(*c.state(), ResourceState::Loading);
    let diagnostic = c.complete(FetchOutcome::Response(200, ok_body()));
    assert_eq!(diagnostic, None);
    assert_eq!(*c.state(), ResourceState::Success(hello()));
    assert_eq!(*c.last_error(), None);
}

#[test]
fn scenario_service_unavailable() {
    let mut c = ResourceController::new();
    c.initialize();
    let diagnostic = c.complete(FetchOutcome::Response(503, Some("unavailable".to_string())));
    let expected = ErrorInfo::HttpStatus(503, Some("unavailable".to_string()));
    assert_eq!(*c.state(), ResourceState::Failed(expected.clone()));
    assert_eq!(diagnostic, Some(expected.clone()));
    assert_eq!(*c.last_error(), Some(expected));
}

#[test]
fn scenario_not_json() {
    let mut c = ResourceController::new();
    c.initialize();
    c.complete(FetchOutcome::Response(200, Some("not json".to_string())));
    assert!(matches!(c.state(), ResourceState::Failed(ErrorInfo::Parse(_))));
}

#[test]
fn initialize_after_a_completed_cycle_fetches_again() {
    let mut c = ResourceController::new();
    assert_eq!(c.initialize(), Command::Fetch);
    c.complete(FetchOutcome::Response(200, ok_body()));
    assert_eq!(*c.state(), ResourceState::Success(hello()));
    assert_eq!(c.initialize(), Command::Fetch);
    assert_eq!(*c.state(), ResourceState::Loading);
    c.complete(FetchOutcome::Transport("down".to_string()));
    assert_eq!(c.initialize(), Command::Fetch);
    assert_eq!(*c.state(), ResourceState::Loading);
}

#[test]
fn refresh_while_loading_fetches_again() {
    let mut c = ResourceController::new();
    c.initialize();
    assert_eq!(c.refresh(), Command::Fetch);
    assert_eq!(*c.state(), ResourceState::Loading);
}

#[test]
fn last_completion_wins_over_issue_order() {
    let mut c = ResourceController::new();
    c.initialize();
    c.complete(FetchOutcome::Response(200, ok_body()));
    c.refresh();
    c.refresh();
    // the second request answers first, the first one last
    c.complete(FetchOutcome::Response(200, ok_body()));
    assert_eq!(*c.state(), ResourceState::Success(hello()));
    c.complete(FetchOutcome::Transport("timed out".to_string()));
    assert_eq!(
        *c.state(),
        ResourceState::Failed(ErrorInfo::Network("timed out".to_string()))
    );
}

#[test]
fn last_error_outlives_a_later_success() {
    let mut c = ResourceController::new();
    c.initialize();
    c.complete(FetchOutcome::Transport("offline".to_string()));
    c.refresh();
    assert_eq!(*c.state(), ResourceState::Loading);
    c.complete(FetchOutcome::Response(200, ok_body()));
    assert_eq!(*c.state(), ResourceState::Success(hello()));
    assert_eq!(*c.last_error(), Some(ErrorInfo::Network("offline".to_string())));
}
