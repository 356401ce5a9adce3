use design_patterns::proxy::{Application, NginxServer, RateLimiter, Server};

#[test]
fn limiter_with_quota_of_two_rejects_third_request() {
    let mut limiter = RateLimiter::new(2);
    assert!(limiter.allow("/app/status"));
    assert!(limiter.allow("/app/status"));
    assert!(!limiter.allow("/app/status"));
    assert!(!limiter.allow("/app/status"));
}

#[test]
fn limiter_with_quota_of_zero_rejects_everything() {
    let mut limiter = RateLimiter::new(0);
    assert!(!limiter.allow("/app/status"));
    assert!(!limiter.allow("/app/status"));
}

#[test]
fn status_three_times() {
    let mut nginx = NginxServer::new();
    assert_eq!(nginx.handle_request("/app/status", "GET"), (200, "Ok".to_string()));
    assert_eq!(nginx.handle_request("/app/status", "GET"), (200, "Ok".to_string()));
    assert_eq!(nginx.handle_request("/app/status", "GET"), (403, "Not Allowed".to_string()));
}

#[test]
fn create_user_then_wrong_method() {
    let mut nginx = NginxServer::new();
    assert_eq!(nginx.handle_request("/create/user", "POST"), (201, "User Created".to_string()));
    assert_eq!(nginx.handle_request("/create/user", "GET"), (404, "Not Ok".to_string()));
}

#[test]
fn routes_are_counted_apart() {
    let mut nginx = NginxServer::new();
    assert!(nginx.check_rate_limiting("/app/status"));
    assert!(nginx.check_rate_limiting("/app/status"));
    assert!(!nginx.check_rate_limiting("/app/status"));
    assert!(nginx.check_rate_limiting("/create/user"));
    assert!(nginx.check_rate_limiting("/create/user"));
    assert!(!nginx.check_rate_limiting("/create/user"));
    assert!(!nginx.check_rate_limiting("/app/status"));
}

#[test]
fn demo_sequence() {
    let mut nginx = NginxServer::new();
    assert_eq!(nginx.handle_request("/app/status", "GET"), (200, "Ok".to_string()));
    assert_eq!(nginx.handle_request("/app/status", "GET"), (200, "Ok".to_string()));
    assert_eq!(nginx.handle_request("/app/status", "GET"), (403, "Not Allowed".to_string()));
    assert_eq!(nginx.handle_request("/create/user", "POST"), (201, "User Created".to_string()));
    assert_eq!(nginx.handle_request("/create/user", "GET"), (404, "Not Ok".to_string()));
}

#[test]
fn application_routing_table() {
    let mut app = Application;
    assert_eq!(app.handle_request("/app/status", "GET"), (200, "Ok".to_string()));
    assert_eq!(app.handle_request("/app/status", "POST"), (404, "Not Ok".to_string()));
    assert_eq!(app.handle_request("/create/user", "POST"), (201, "User Created".to_string()));
    assert_eq!(app.handle_request("/nowhere", "GET"), (404, "Not Ok".to_string()));
    assert_eq!(app.handle_request("", ""), (404, "Not Ok".to_string()));
}
