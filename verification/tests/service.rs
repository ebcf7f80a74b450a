use clipstash::client::{clip_url, clips_url, password_cookie};
use clipstash::ctx::{Home, PageContext, PasswordRequired};
use clipstash::field::Password;
use clipstash::model::Clip;
use clipstash::query::{
    increase_hit_count, key_is_valid, revocation_status, DataError, RevocationStatus,
};
use clipstash::service::{check_password, ServiceError};
use clipstash::shortcode::ShortCode;

fn password(text: &str) -> Password {
    Password::new(Some(text.to_string())).unwrap()
}

fn clip(shortcode: &str, hits: i64) -> Clip {
    Clip {
        clip_id: String::new(),
        shortcode: shortcode.to_string(),
        content: "text".to_string(),
        title: None,
        posted: 0,
        expires: None,
        password: None,
        hits,
    }
}

fn code(text: &str) -> ShortCode {
    ShortCode::from_string(text.to_string())
}

#[test]
fn open_clip_needs_no_password() {
    assert_eq!(check_password(&Password::default(), &Password::default()), Ok(()));
    assert_eq!(check_password(&Password::default(), &password("guess")), Ok(()));
}

#[test]
fn protected_clip_needs_its_password() {
    assert_eq!(check_password(&password("secret"), &password("secret")), Ok(()));
    let refused = Err(ServiceError::PermissionError("Invalid password".to_string()));
    assert_eq!(check_password(&password("secret"), &password("Secret")), refused);
    assert_eq!(check_password(&password("secret"), &password("secret ")), refused);
    assert_eq!(check_password(&password("secret"), &Password::default()), refused);
}

#[test]
fn passwords_read_the_same_by_their_text() {
    assert!(password("a").same_text(&password("a")));
    assert!(!password("a").same_text(&password("b")));
    assert!(!password("a").same_text(&Password::default()));
    assert!(!Password::default().same_text(&password("a")));
    assert!(Password::default().same_text(&password("  ")));
}

#[test]
fn revocation_reports_whether_a_key_was_removed() {
    assert_eq!(revocation_status(0), RevocationStatus::NotFound);
    assert_eq!(revocation_status(1), RevocationStatus::Revoked);
    assert_eq!(revocation_status(u64::MAX), RevocationStatus::Revoked);
    assert!(!key_is_valid(0));
    assert!(key_is_valid(1));
    assert!(key_is_valid(u32::MAX));
}

#[test]
fn hits_are_added_to_the_named_clip_only() {
    let mut clips = vec![clip("abc123", 2), clip("zzz", 9)];
    assert_eq!(increase_hit_count(&code("abc123"), 5, &mut clips), Ok(()));
    assert_eq!(clips, vec![clip("abc123", 7), clip("zzz", 9)]);
    assert_eq!(increase_hit_count(&code("abc123"), 0, &mut clips), Ok(()));
    assert_eq!(clips, vec![clip("abc123", 7), clip("zzz", 9)]);
}

#[test]
fn hits_of_an_unknown_clip_change_nothing() {
    let mut clips = vec![clip("abc123", 2)];
    assert_eq!(increase_hit_count(&code("gone"), 5, &mut clips), Ok(()));
    assert_eq!(clips, vec![clip("abc123", 2)]);
    let mut none: Vec<Clip> = Vec::new();
    assert_eq!(increase_hit_count(&code("gone"), 5, &mut none), Ok(()));
    assert!(none.is_empty());
}

#[test]
fn hits_beyond_the_counter_are_refused() {
    let mut clips = vec![clip("a", 1), clip("full", i64::MAX - 1), clip("a", 3)];
    assert_eq!(increase_hit_count(&code("full"), 1, &mut clips), Ok(()));
    assert_eq!(clips[1].hits, i64::MAX);
    let before = clips.clone();
    assert!(matches!(
        increase_hit_count(&code("full"), 1, &mut clips),
        Err(DataError::Database(_))
    ));
    assert_eq!(clips, before);
    assert_eq!(increase_hit_count(&code("a"), u32::MAX, &mut clips), Ok(()));
    assert_eq!(clips[0].hits, 1 + 4_294_967_295);
    assert_eq!(clips[2].hits, 3 + 4_294_967_295);
}

#[test]
fn pages_name_their_templates() {
    let home = Home::default();
    assert_eq!((home.title(), home.template_path(), home.parent()), ("Clipboard Stash", "home", "base"));
    let page = PasswordRequired::new(code("abc123"));
    assert_eq!(
        (page.title(), page.template_path(), page.parent()),
        ("Password required", "clip_need_password", "base")
    );
    assert_eq!(page.shortcode(), &code("abc123"));
}

#[test]
fn client_builds_its_addresses() {
    assert_eq!(clips_url("http://127.0.0.1:8000"), "http://127.0.0.1:8000/api/clip");
    assert_eq!(
        clip_url("http://127.0.0.1:8000", &code("abc123")),
        "http://127.0.0.1:8000/api/clip/abc123"
    );
    assert_eq!(clip_url("", &code("")), "/api/clip/");
    assert_eq!(password_cookie("hunter2"), "password=hunter2");
    assert_eq!(password_cookie(""), "password=");
}
