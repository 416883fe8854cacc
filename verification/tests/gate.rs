use agent_rs_web::middleware::{auth_gate, is_guest_only_page, is_protected_page, Gate};

#[test]
fn protected_matches_expected_paths() {
    assert!(is_protected_page("/"));
    assert!(is_protected_page("/chat"));
    assert!(is_protected_page("/chat/abc"));
    assert!(is_protected_page("/library"));
    assert!(is_protected_page("/library/foo"));

    assert!(!is_protected_page("/login"));
    assert!(!is_protected_page("/signup"));
    assert!(!is_protected_page("/api/ask_action"));
    assert!(!is_protected_page("/pkg/agent-rs-web.css"));
}

#[test]
fn guest_only_matches_expected_paths() {
    assert!(is_guest_only_page("/login"));
    assert!(is_guest_only_page("/signup"));
    assert!(!is_guest_only_page("/chat"));
    assert!(!is_guest_only_page("/"));
}

#[test]
fn names_that_only_begin_alike_are_open() {
    assert!(!is_protected_page("/chatter"));
    assert!(!is_protected_page("/libraryx"));
    assert!(!is_guest_only_page("/login/"));
    assert!(!is_guest_only_page("/signup2"));
}

#[test]
fn gate_sends_each_visitor_where_they_belong() {
    assert_eq!(auth_gate("/chat/abc", false), Gate::ToLogin);
    assert_eq!(auth_gate("/chat/abc", true), Gate::Pass);
    assert_eq!(auth_gate("/login", true), Gate::ToChat);
    assert_eq!(auth_gate("/login", false), Gate::Pass);
    assert_eq!(auth_gate("/api/ask_stream", false), Gate::Pass);
    assert_eq!(auth_gate("/pkg/x.js", true), Gate::Pass);
    assert_eq!(Gate::ToLogin.location(), Some("/login"));
    assert_eq!(Gate::ToChat.location(), Some("/chat"));
    assert_eq!(Gate::Pass.location(), None);
}

#[test]
fn a_redirect_leads_to_a_page_that_passes() {
    for path in ["/", "/chat", "/library/x", "/login", "/signup", "/api/x"] {
        for authed in [false, true] {
            if let Some(next) = auth_gate(path, authed).location() {
                assert_eq!(auth_gate(next, authed), Gate::Pass);
            }
        }
    }
}
