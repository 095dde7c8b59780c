use youtube_terminal::auth::{capabilities_for, AuthCapabilities, AuthState};

#[test]
fn no_auth_has_no_cookie_path() {
    let state = AuthState::NoAuth;
    assert_eq!(state.cookie_path(), None);
    assert!(!state.is_authenticated());
}

#[test]
fn authenticated_reports_its_cookie_path() {
    let state = AuthState::Authenticated {
        cookie_path: "/home/me/.config/youtube-terminal/cookies.txt".to_string(),
    };
    assert_eq!(
        state.cookie_path(),
        Some("/home/me/.config/youtube-terminal/cookies.txt")
    );
    assert!(state.is_authenticated());
}

#[test]
fn capabilities_follow_sign_in() {
    assert_eq!(
        capabilities_for(true),
        AuthCapabilities { has_home_feed: true, has_subscriptions: true, has_history: true }
    );
    assert_eq!(
        capabilities_for(false),
        AuthCapabilities { has_home_feed: false, has_subscriptions: false, has_history: false }
    );
}
