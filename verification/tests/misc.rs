use agent_server::clock::Timestamp;
use agent_server::routes::{api_routes, Endpoint, Verb, OPENAPI_PATH};
use agent_server::text::{decimal, is_blank, same_text, white_space};
use agent_server::users::User;

#[test]
fn new_user_gets_fresh_v4_id_and_one_time_stamp() {
    let user = User::new("a@example.com".to_string(), Some("Ann".to_string()));
    assert_eq!(user.email, "a@example.com");
    assert_eq!(user.name, Some("Ann".to_string()));
    assert_eq!(user.created_at, user.updated_at);
    let id = uuid::Uuid::from_u128(user.id);
    assert_eq!(id.get_version_num(), 4);
    assert_eq!(id.get_variant(), uuid::Variant::RFC4122);
    let other = User::new("a@example.com".to_string(), None);
    assert_ne!(other.id, user.id);
}

#[test]
fn user_record_holds_the_drawn_identity() {
    let now = Timestamp { secs: 1_714_219_200, nanos: 5 };
    let id = 0x6ba7_b810_9dad_41d1_80b4_00c0_4fd4_30c8u128;
    let user = User::with_identity(id, now, "b@example.com".to_string(), None);
    assert_eq!(user.id, id);
    assert_eq!(user.created_at, now);
    assert_eq!(user.updated_at, now);
    assert_eq!(user.email, "b@example.com");
    assert_eq!(user.name, None);
}

#[test]
fn route_table() {
    let routes: Vec<(Verb, String, Endpoint)> =
        api_routes().into_iter().map(|r| (r.verb, r.path, r.endpoint)).collect();
    assert_eq!(
        routes,
        vec![
            (Verb::Get, "/".to_string(), Endpoint::Root),
            (Verb::Post, "/projects".to_string(), Endpoint::CreateProject),
            (Verb::Get, "/projects".to_string(), Endpoint::GetProjects),
        ]
    );
    assert_eq!(OPENAPI_PATH, "/docs/openapi.json");
}

#[test]
fn blank_text_matches_trim() {
    for s in ["", " ", "\t\n\r\u{b}\u{c}", "\u{85}\u{a0}\u{1680}\u{2000}\u{200a}\u{2028}\u{202f}\u{205f}\u{3000}", " x ", "\u{200b}", "a"] {
        assert_eq!(is_blank(s), s.trim().is_empty(), "{:?}", s);
    }
    for c in ['\u{0}', ' ', '\u{1f}', '\u{85}', '\u{180e}', '\u{2000}', '\u{200b}', '\u{feff}', 'x'] {
        assert_eq!(white_space(c), c.is_whitespace(), "{:?}", c);
    }
}

#[test]
fn decimal_matches_display() {
    for n in [0usize, 7, 9, 10, 42, 100, 12345, usize::MAX] {
        assert_eq!(decimal(n), n.to_string());
    }
}

#[test]
fn same_text_compares_characters() {
    assert!(same_text("abc", "abc"));
    assert!(!same_text("abc", "abd"));
    assert!(!same_text("", " "));
}
