use blog_auth::password::{hash_password, verify_password};
use blog_auth::post::decimal_chars;
use blog_auth::recovery::code_from_draws;
use blog_auth::text::{starts_with, strip_prefix_once};
use blog_auth::{
    generate_code, generate_slug, ApiError, ControllerPost, ErrorKind, PostRequest, PostRequestItem,
    RecoveryCode, Role,
};

#[test]
fn slug_from_title() {
    assert_eq!(generate_slug("Hello World", vec![]), "hello-world");
    assert_eq!(generate_slug("Rust, Verus & Proofs!", vec![]), "rust-verus--proofs");
    assert_eq!(generate_slug("ÀÉ Ü", vec![]), "àé-ü");
    assert_eq!(generate_slug("", vec![]), "");
}

#[test]
fn slug_gets_first_free_suffix() {
    let taken = vec!["hello-world".to_string(), "hello-world-1".to_string(), "other".to_string()];
    assert_eq!(generate_slug("Hello World", taken), "hello-world-2");
    assert_eq!(generate_slug("Hello World", vec!["hello-world".to_string()]), "hello-world-1");
    let many: Vec<String> = (0..12)
        .map(|k| if k == 0 { "a".to_string() } else { format!("a-{}", k) })
        .collect();
    assert_eq!(generate_slug("A", many), "a-12");
}

#[test]
fn create_post_fills_slug() {
    let req = PostRequest {
        post: PostRequestItem {
            author_id: 1,
            category_id: 2,
            title: "My Post".to_string(),
            description: "d".to_string(),
            post_image_url: Some("http://img".to_string()),
            content: "c".to_string(),
            slug: "ignored".to_string(),
        },
    };
    let item = ControllerPost::create_post(&req, vec!["my-post".to_string()]);
    assert_eq!(item.slug, "my-post-1");
    assert_eq!(item.title, "My Post");
    assert_eq!((item.author_id, item.category_id), (1, 2));
    assert_eq!(item.post_image_url.as_deref(), Some("http://img"));
    assert_eq!(item.content, "c");
    assert_eq!(item.description, "d");
}

#[test]
fn code_has_two_digits_and_three_letters() {
    for _ in 0..50 {
        let code = generate_code();
        assert_eq!(code.chars().count(), 5);
        assert_eq!(code.chars().filter(|c| c.is_ascii_digit()).count(), 2);
        assert_eq!(code.chars().filter(|c| c.is_ascii_uppercase()).count(), 3);
    }
}

#[test]
fn password_hash_round_trip() {
    let d = hash_password("secret1", 4).unwrap();
    assert_ne!(d, "secret1");
    assert!(verify_password("secret1", &d));
    assert!(!verify_password("secret2", &d));
    assert!(!verify_password("secret1", "not a digest"));
    assert_eq!(hash_password("x", 2), Err(ApiError::HashFailure));
}

#[test]
fn error_classes_and_statuses() {
    let cases = [
        (ApiError::EmailTaken, ErrorKind::Validation, 400),
        (ApiError::EmailNotRegistered, ErrorKind::Validation, 400),
        (ApiError::NoCodePending, ErrorKind::Validation, 400),
        (ApiError::CodeExpired, ErrorKind::Validation, 400),
        (ApiError::InvalidCode, ErrorKind::Validation, 400),
        (ApiError::InvalidCredentials, ErrorKind::Auth, 401),
        (ApiError::MissingToken, ErrorKind::Auth, 401),
        (ApiError::InvalidToken, ErrorKind::Auth, 401),
        (ApiError::Forbidden, ErrorKind::Forbidden, 403),
        (ApiError::HashFailure, ErrorKind::Internal, 500),
        (ApiError::StoreFull, ErrorKind::Internal, 500),
    ];
    for (e, k, s) in cases {
        assert_eq!(e.kind(), k);
        assert_eq!(e.status_code(), s);
        assert!(!e.message().is_empty());
    }
    assert_eq!(ApiError::InvalidCredentials.message(), "invalid credentials");
    assert_eq!(ApiError::HashFailure.message(), ApiError::StoreFull.message());
}

#[test]
fn role_names() {
    assert_eq!(Role::Admin.name(), "admin");
    assert_eq!(Role::User.name(), "user");
    assert_eq!(Role::from_name("admin"), Some(Role::Admin));
    assert_eq!(Role::from_name("user"), Some(Role::User));
    assert_eq!(Role::from_name("Admin"), None);
    assert_eq!(Role::from_name(""), None);
}

#[test]
fn prefix_helpers() {
    assert!(starts_with("/post/create", "/post"));
    assert!(!starts_with("/pos", "/post"));
    assert!(starts_with("x", ""));
    assert_eq!(strip_prefix_once("Bearer abc", "Bearer "), "abc");
    assert_eq!(strip_prefix_once("abc", "Bearer "), "abc");
    assert_eq!(strip_prefix_once("Bearer Bearer x", "Bearer "), "Bearer x");
}

#[test]
fn stored_role_defaults_to_user() {
    assert_eq!(Role::from_stored("admin"), Role::Admin);
    assert_eq!(Role::from_stored("user"), Role::User);
    assert_eq!(Role::from_stored("editor"), Role::User);
    assert_eq!(Role::from_stored(""), Role::User);
}

#[test]
fn recovery_columns_are_paired() {
    let both = RecoveryCode::from_columns(Some("h".to_string()), Some(9)).unwrap();
    assert_eq!((both.code_hash.as_str(), both.expires_at), ("h", 9));
    assert!(RecoveryCode::from_columns(Some("h".to_string()), None).is_none());
    assert!(RecoveryCode::from_columns(None, Some(9)).is_none());
    assert!(RecoveryCode::from_columns(None, None).is_none());
}

#[test]
fn code_layout_from_draws() {
    assert_eq!(code_from_draws(0, 9, 0, 25, 12), vec!['0', '9', 'A', 'Z', 'M']);
    assert_eq!(code_from_draws(4, 4, 3, 3, 3), vec!['4', '4', 'D', 'D', 'D']);
}

#[test]
fn decimal_numerals() {
    assert_eq!(decimal_chars(0), vec!['0']);
    assert_eq!(decimal_chars(7), vec!['7']);
    assert_eq!(decimal_chars(10), vec!['1', '0']);
    assert_eq!(decimal_chars(1204).into_iter().collect::<String>(), "1204");
    assert_eq!(decimal_chars(u64::MAX).into_iter().collect::<String>(), u64::MAX.to_string());
}
