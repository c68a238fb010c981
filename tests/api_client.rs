use vrc_group_manager::error::AppError;
use vrc_group_manager::text::decimal_string;
use vrc_group_manager::vrc_api::{
    auth_cookie, check_status, create_http_error, groups_outcome, groups_request,
    parse_visibility, represented_groups_request, representation_request, user_outcome,
    user_request, visibility_request, GroupMemberVisibility, HttpMethod, VRCGroup, VRCUser,
};

fn alice() -> VRCUser {
    VRCUser {
        id: "usr_1".to_string(),
        username: None,
        display_name: "Alice".to_string(),
        avatar_url: None,
    }
}

fn group(id: &str, visibility: GroupMemberVisibility) -> VRCGroup {
    VRCGroup {
        name: format!("name of {}", id),
        description: String::new(),
        icon_url: None,
        member_count: Some(3),
        group_id: id.to_string(),
        member_visibility: visibility,
        is_representing: Some(false),
        created_at: None,
    }
}

#[test]
fn visibility_names_round_trip() {
    for v in [
        GroupMemberVisibility::Visible,
        GroupMemberVisibility::Friends,
        GroupMemberVisibility::Hidden,
    ] {
        let name = v.to_string();
        assert_eq!(parse_visibility(&name).unwrap(), v);
        assert_eq!(v.as_str(), name.as_str());
    }
    assert_eq!(GroupMemberVisibility::Visible.as_str(), "visible");
    assert_eq!(GroupMemberVisibility::Friends.as_str(), "friends");
    assert_eq!(GroupMemberVisibility::Hidden.as_str(), "hidden");
}

#[test]
fn other_visibility_names_are_unknown() {
    for s in ["", "Visible", "public", "hidden ", "friend"] {
        match parse_visibility(s) {
            Err(AppError::Unknown(m)) => assert_eq!(m, format!("Invalid visibility: {}", s)),
            other => panic!("unexpected {:?}", other),
        }
    }
}

#[test]
fn status_table() {
    assert!(matches!(create_http_error(401), AppError::Auth(m) if m == "Invalid or expired token"));
    assert!(
        matches!(create_http_error(403), AppError::Auth(m) if m == "Forbidden: insufficient permissions")
    );
    assert!(
        matches!(create_http_error(404), AppError::Http { status: 404, message } if message == "Resource not found")
    );
    assert!(matches!(create_http_error(429), AppError::RateLimit));
    assert!(
        matches!(create_http_error(500), AppError::Http { status: 500, message } if message == "Server error")
    );
    assert!(
        matches!(create_http_error(599), AppError::Http { status: 599, message } if message == "Server error")
    );
    assert!(
        matches!(create_http_error(302), AppError::Http { status: 302, message } if message == "HTTP error: 302")
    );
    assert!(
        matches!(create_http_error(600), AppError::Http { status: 600, message } if message == "HTTP error: 600")
    );
}

#[test]
fn success_statuses() {
    assert!(check_status(200).is_ok());
    assert!(check_status(204).is_ok());
    assert!(check_status(299).is_ok());
    assert!(check_status(199).is_err());
    assert!(matches!(check_status(302), Err(AppError::Http { status: 302, .. })));
    assert!(matches!(check_status(429), Err(AppError::RateLimit)));
}

#[test]
fn decimal_rendering() {
    assert_eq!(decimal_string(0), "0");
    assert_eq!(decimal_string(7), "7");
    assert_eq!(decimal_string(10), "10");
    assert_eq!(decimal_string(302), "302");
    assert_eq!(decimal_string(65535), "65535");
}

#[test]
fn error_messages() {
    let http = AppError::Http { status: 404, message: "Resource not found".to_string() };
    assert_eq!(http.message(), "HTTP error: status 404, message: Resource not found");
    assert_eq!(AppError::RateLimit.message(), "Rate limit exceeded");
    assert_eq!(AppError::Network("x".to_string()).message(), "Network error: x");
    assert_eq!(AppError::Auth("x".to_string()).message(), "Authentication failed: x");
    assert_eq!(
        AppError::Json("x".to_string()).message(),
        "JSON serialization/deserialization error: x"
    );
    assert_eq!(AppError::Storage("x".to_string()).message(), "Storage error: x");
    assert_eq!(AppError::Unknown("x".to_string()).message(), "Unknown error: x");
}

#[test]
fn transport_failures() {
    let t = AppError::from_transport(true, true, "raw".to_string());
    assert!(matches!(t, AppError::Network(m) if m == "Request timeout"));
    let c = AppError::from_transport(false, true, "raw".to_string());
    assert!(matches!(c, AppError::Network(m) if m == "Connection failed"));
    let o = AppError::from_transport(false, false, "raw".to_string());
    assert!(matches!(o, AppError::Network(m) if m == "raw"));
}

#[test]
fn control_characters_in_token_are_refused() {
    for token in ["tok\n123", "tok\r", "\u{0}", "a\u{7f}b"] {
        match user_request(token) {
            Err(AppError::Auth(m)) => {
                assert_eq!(m, "Invalid token format: failed to parse header value")
            }
            other => panic!("unexpected {:?}", other),
        }
        assert!(matches!(auth_cookie(token), Err(AppError::Auth(_))));
    }
}

#[test]
fn printable_tokens_are_accepted() {
    for token in ["tok123", "a\tb", "トークン", ""] {
        let cookie = auth_cookie(token).unwrap();
        assert_eq!(cookie.as_bytes(), format!("auth={}", token).as_bytes());
    }
}

#[test]
fn request_urls_and_bodies() {
    let base = "https://api.vrchat.cloud/api/1";
    let q = user_request("tok").unwrap();
    assert_eq!(q.method, HttpMethod::Get);
    assert_eq!(q.cookie.as_bytes(), b"auth=tok");
    assert_eq!(q.user_agent.as_bytes(), b"VRC Group Manager/0.2.3 discord:takadayoo_1203");
    assert_eq!(q.timeout_secs, 30);
    assert_eq!(q.url, format!("{}/auth/user", base));
    assert!(q.body.is_none());

    let q = groups_request("tok", "usr_1").unwrap();
    assert_eq!(q.url, format!("{}/users/usr_1/groups", base));
    assert_eq!(q.method, HttpMethod::Get);

    let q = represented_groups_request("tok", "usr_1").unwrap();
    assert_eq!(q.url, format!("{}/users/usr_1/groups/represented", base));

    let q = visibility_request("tok", "usr_1", "grp_9", GroupMemberVisibility::Hidden).unwrap();
    assert_eq!(q.method, HttpMethod::Put);
    assert_eq!(q.url, format!("{}/groups/grp_9/members/usr_1", base));
    assert_eq!(q.body.as_deref(), Some("{\"visibility\":\"hidden\"}"));
    assert_eq!(q.cookie.as_bytes(), b"auth=tok");

    let q = representation_request("tok", "grp_9", true).unwrap();
    assert_eq!(q.url, format!("{}/groups/grp_9/representation", base));
    assert_eq!(q.body.as_deref(), Some("{\"isRepresenting\":true}"));
    let q = representation_request("tok", "grp_9", false).unwrap();
    assert_eq!(q.body.as_deref(), Some("{\"isRepresenting\":false}"));
}

#[test]
fn decode_failure_keeps_decoder_text() {
    let text = "missing field `displayName` at line 1 column 12".to_string();
    match user_outcome(200, Err(text.clone())) {
        Err(AppError::Json(m)) => assert_eq!(m, format!("Failed to decode user data: {}", text)),
        other => panic!("unexpected {:?}", other),
    }
    match groups_outcome(200, Err(text.clone())) {
        Err(AppError::Json(m)) => {
            assert_eq!(m, format!("Failed to decode groups data: {}", text))
        }
        other => panic!("unexpected {:?}", other),
    }
}

#[test]
fn status_is_checked_before_the_body() {
    assert!(matches!(user_outcome(401, Ok(alice())), Err(AppError::Auth(_))));
    assert!(matches!(user_outcome(500, Err("bad".to_string())), Err(AppError::Http { status: 500, .. })));
    let u = user_outcome(200, Ok(alice())).unwrap();
    assert_eq!(u.id, "usr_1");
}

#[test]
fn rate_limited_group_list() {
    let groups = vec![group("grp_1", GroupMemberVisibility::Visible)];
    assert!(matches!(groups_outcome(429, Ok(groups)), Err(AppError::RateLimit)));
    let ok = groups_outcome(200, Ok(vec![group("grp_2", GroupMemberVisibility::Friends)])).unwrap();
    assert_eq!(ok.len(), 1);
    assert_eq!(ok[0].group_id, "grp_2");
}
