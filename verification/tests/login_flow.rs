use login_capture::provider::lookup;
use login_capture::script::render_observer_script;
use login_capture::session::{closed_event, success_event, LoginAction, LoginManager, Phase};
use login_capture::signal::{judge_navigation, signal_url, Verdict};

fn open_label(action: LoginAction) -> String {
    match action {
        LoginAction::Open(plan) => plan.label,
        LoginAction::Focus(label) => panic!("expected a new window, got focus on {}", label),
    }
}

#[test]
fn lookup_without_key_gives_default_provider() {
    let d = lookup(None);
    assert_eq!(d.key, "hypergryph");
    assert_eq!(d.login_url, "https://user.hypergryph.com/");
    assert_eq!(d.auth_match_pattern, "as.hypergryph.com/user/auth");
    assert_eq!(d.poll_url, "https://web-api.hypergryph.com/account/info/hg");
    assert_eq!(d.title, "登录鹰角通行证");
}

#[test]
fn lookup_of_international_provider() {
    let d = lookup(Some("gryphline"));
    assert_eq!(d.key, "gryphline");
    assert_eq!(d.login_url, "https://user.gryphline.com/");
    assert_eq!(d.auth_match_pattern, "as.gryphline.com/user/auth");
    assert_eq!(d.poll_url, "https://web-api.gryphline.com/cookie_store/account_token");
    assert_eq!(d.title, "登录鹰角通行证（国际服）");
}

#[test]
fn lookup_of_unknown_key_falls_back() {
    for key in ["", "nobody", "Gryphline", "gryphline ", "hypergryph2"] {
        let d = lookup(Some(key));
        let def = lookup(None);
        assert_eq!(d.key, def.key);
        assert_eq!(d.login_url, def.login_url);
        assert_eq!(d.auth_match_pattern, def.auth_match_pattern);
        assert_eq!(d.poll_url, def.poll_url);
        assert_eq!(d.title, def.title);
    }
}

#[test]
fn unknown_provider_request_acts_as_default() {
    let mut a = LoginManager::new();
    let mut b = LoginManager::new();
    let pa = match a.request_login(Some("no-such-provider")) {
        LoginAction::Open(p) => p,
        LoginAction::Focus(_) => panic!("expected a new window"),
    };
    let pb = match b.request_login(None) {
        LoginAction::Open(p) => p,
        LoginAction::Focus(_) => panic!("expected a new window"),
    };
    assert_eq!(pa.label, pb.label);
    assert_eq!(pa.url, pb.url);
    assert_eq!(pa.title, pb.title);
    assert_eq!(pa.script, pb.script);
    // The unknown key shares the default provider's window.
    match a.request_login(None) {
        LoginAction::Focus(label) => assert_eq!(label, "login-hypergryph"),
        LoginAction::Open(_) => panic!("expected focus"),
    }
    assert_eq!(a.count(), 1);
}

#[test]
fn first_request_plans_the_window() {
    let mut m = LoginManager::new();
    match m.request_login(Some("gryphline")) {
        LoginAction::Open(plan) => {
            assert_eq!(plan.label, "login-gryphline");
            assert_eq!(plan.url, "https://user.gryphline.com/");
            assert_eq!(plan.title, "登录鹰角通行证（国际服）");
            assert_eq!(plan.width, 500);
            assert_eq!(plan.height, 700);
            assert!(!plan.resizable);
            assert!(plan.clear_browsing_data);
            assert_eq!(
                plan.script,
                render_observer_script(
                    "as.gryphline.com/user/auth",
                    "https://web-api.gryphline.com/cookie_store/account_token"
                )
            );
        }
        LoginAction::Focus(_) => panic!("expected a new window"),
    }
    assert_eq!(m.phase_of("login-gryphline"), Some(Phase::Observing));
    assert_eq!(m.phase_of("login-hypergryph"), None);
}

#[test]
fn second_request_focuses_the_open_window() {
    let mut m = LoginManager::new();
    let label = open_label(m.request_login(Some("hypergryph")));
    assert_eq!(label, "login-hypergryph");
    match m.request_login(Some("hypergryph")) {
        LoginAction::Focus(l) => assert_eq!(l, "login-hypergryph"),
        LoginAction::Open(_) => panic!("a second window was planned"),
    }
    assert_eq!(m.count(), 1);
    // Another provider has a window of its own.
    let other = open_label(m.request_login(Some("gryphline")));
    assert_eq!(other, "login-gryphline");
    assert_eq!(m.count(), 2);
}

#[test]
fn signal_with_token_reports_it_once() {
    let mut m = LoginManager::new();
    let label = open_label(m.request_login(None));
    let out = m.navigate(&label, "sentinel://login_success?token=ABC123");
    assert!(!out.allow);
    assert_eq!(out.success, Some("ABC123".to_string()));
    assert_eq!(out.close_after_ms, Some(500));
    assert_eq!(m.phase_of(&label), Some(Phase::Captured));
    let again = m.navigate(&label, "sentinel://login_success?token=ABC123");
    assert!(!again.allow);
    assert_eq!(again.success, None);
    assert_eq!(again.close_after_ms, None);
}

#[test]
fn signal_without_token_is_stopped_silently() {
    let mut m = LoginManager::new();
    let label = open_label(m.request_login(None));
    let out = m.navigate(&label, "sentinel://login_success");
    assert!(!out.allow);
    assert_eq!(out.success, None);
    assert_eq!(out.close_after_ms, None);
    assert_eq!(m.phase_of(&label), Some(Phase::Observing));
    // The session can still capture afterwards.
    let out = m.navigate(&label, "sentinel://login_success?token=t");
    assert_eq!(out.success, Some("t".to_string()));
}

#[test]
fn ordinary_navigation_goes_on() {
    let mut m = LoginManager::new();
    let label = open_label(m.request_login(None));
    for url in [
        "https://user.hypergryph.com/",
        "https://as.hypergryph.com/user/auth?token=abc",
        "http://sentinel://login_success?token=abc",
        "sentinel://login_succes?token=abc",
        "",
    ] {
        let out = m.navigate(&label, url);
        assert!(out.allow, "{}", url);
        assert_eq!(out.success, None);
        assert_eq!(out.close_after_ms, None);
    }
    assert_eq!(m.phase_of(&label), Some(Phase::Observing));
}

#[test]
fn success_is_followed_by_close_and_closed_report() {
    let mut m = LoginManager::new();
    let label = open_label(m.request_login(None));
    let out = m.navigate(&label, "sentinel://login_success?token=tok");
    assert_eq!(out.success, Some("tok".to_string()));
    assert!(m.close(&label));
    assert_eq!(m.phase_of(&label), Some(Phase::Closing));
    // No token is reported once the teardown has begun.
    let late = m.navigate(&label, "sentinel://login_success?token=tok2");
    assert_eq!(late.success, None);
    assert!(!late.allow);
    assert!(m.window_destroyed(&label));
    assert_eq!(m.count(), 0);
    assert_eq!(m.phase_of(&label), None);
    // A new request opens a new session.
    assert_eq!(open_label(m.request_login(None)), label);
}

#[test]
fn user_close_without_success_reports_closed_only() {
    let mut m = LoginManager::new();
    let label = open_label(m.request_login(None));
    assert!(m.window_destroyed(&label));
    let out = m.navigate(&label, "sentinel://login_success?token=tok");
    assert_eq!(out.success, None);
    assert!(!out.allow);
    assert!(!m.window_destroyed(&label));
}

#[test]
fn double_close_is_a_no_op() {
    let mut m = LoginManager::new();
    let label = open_label(m.request_login(None));
    assert!(m.close(&label));
    assert!(m.window_destroyed(&label));
    assert!(!m.close(&label));
    assert!(!m.close(&label));
    assert_eq!(m.count(), 0);
    assert!(!m.close("login-never-opened"));
}

#[test]
fn failed_window_ends_the_session_silently() {
    let mut m = LoginManager::new();
    let label = open_label(m.request_login(None));
    m.window_failed(&label);
    assert_eq!(m.count(), 0);
    assert!(!m.window_destroyed(&label));
    assert_eq!(open_label(m.request_login(None)), label);
}

#[test]
fn sessions_of_two_providers_are_independent() {
    let mut m = LoginManager::new();
    let a = open_label(m.request_login(None));
    let b = open_label(m.request_login(Some("gryphline")));
    let out = m.navigate(&a, "sentinel://login_success?token=A");
    assert_eq!(out.success, Some("A".to_string()));
    assert_eq!(m.phase_of(&b), Some(Phase::Observing));
    let out = m.navigate(&b, "sentinel://login_success?token=B");
    assert_eq!(out.success, Some("B".to_string()));
    assert!(m.window_destroyed(&a));
    assert_eq!(m.phase_of(&b), Some(Phase::Captured));
    assert_eq!(m.count(), 1);
}

#[test]
fn event_names() {
    assert_eq!(success_event(), "login-success");
    assert_eq!(closed_event(), "login-closed");
}

#[test]
fn verdict_on_signal_addresses() {
    match judge_navigation("sentinel://login_success?token=ABC123") {
        Verdict::Capture(t) => assert_eq!(t, "ABC123"),
        _ => panic!("expected a capture"),
    }
    assert!(matches!(judge_navigation("sentinel://login_success"), Verdict::Discard));
    assert!(matches!(judge_navigation("sentinel://login_success?tok=1"), Verdict::Discard));
    assert!(matches!(judge_navigation("https://example.com/?token=1"), Verdict::Proceed));
    // Everything after the first marker is the token, whatever it holds.
    match judge_navigation("sentinel://login_success?token=a&token=b") {
        Verdict::Capture(t) => assert_eq!(t, "a&token=b"),
        _ => panic!("expected a capture"),
    }
    match judge_navigation("sentinel://login_success?token=") {
        Verdict::Capture(t) => assert_eq!(t, ""),
        _ => panic!("expected a capture"),
    }
    match judge_navigation("sentinel://login_success/x?a=1&token=令牌/+=") {
        Verdict::Capture(t) => assert_eq!(t, "令牌/+="),
        _ => panic!("expected a capture"),
    }
}

#[test]
fn verdict_allows_only_ordinary_navigation() {
    assert!(judge_navigation("https://user.hypergryph.com/").allows_navigation());
    assert!(!judge_navigation("sentinel://login_success").allows_navigation());
    assert!(!judge_navigation("sentinel://login_success?token=x").allows_navigation());
}

#[test]
fn signal_url_is_read_back() {
    assert_eq!(signal_url("ABC123"), "sentinel://login_success?token=ABC123");
    for token in ["", "x", "token=", "a b", "长令牌", "t?token=u"] {
        match judge_navigation(&signal_url(token)) {
            Verdict::Capture(t) => assert_eq!(t, token),
            _ => panic!("expected a capture"),
        }
    }
}

#[test]
fn observer_script_holds_its_parameters() {
    let s = render_observer_script("as.example.com/auth", "https://api.example.com/poll");
    assert_eq!(s.matches("includes('as.example.com/auth')").count(), 2);
    assert_eq!(s.matches("fetch(\"https://api.example.com/poll\"").count(), 1);
    assert_eq!(
        s.matches("window.location.replace(\"sentinel://login_success?token=\" + token);").count(),
        1
    );
    assert!(s.contains("}, 1500);"));
    assert!(s.contains("credentials: \"include\""));
    assert!(s.contains("if (hasSent || !token) return;"));
    assert!(s.trim_start().starts_with("(function() {"));
    assert!(s.trim_end().ends_with("})();"));
    let other = render_observer_script("A", "B");
    assert_eq!(s.len() - "as.example.com/auth".len() * 2 - "https://api.example.com/poll".len(),
        other.len() - 3);
}
