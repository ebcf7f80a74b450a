use clipstash::field::{unless_blank, Hits, Password, Title};

#[test]
fn password_is_kept_as_given() {
    let password = Password::new(Some(" hunter2 ".to_string())).unwrap();
    assert!(password.has_password());
    assert_eq!(password.to_str(), " hunter2 ");
    assert_eq!(password.into_inner(), Some(" hunter2 ".to_string()));
}

#[test]
fn blank_password_is_no_password() {
    for blank in ["", " ", "   ", "\t\n", "\u{a0}\u{3000}"] {
        let password = Password::new(Some(blank.to_string())).unwrap();
        assert!(!password.has_password());
        assert_eq!(password.to_str(), "");
        assert_eq!(password.into_inner(), None);
    }
    let none = Password::new(None).unwrap();
    assert!(!none.has_password());
    assert_eq!(none, Password::default());
    assert_eq!(Password::default().to_str(), "");
}

#[test]
fn title_is_kept_unless_blank() {
    assert_eq!(Title::new(Some("My clip".to_string())).into_inner(), Some("My clip".to_string()));
    assert_eq!(Title::new(Some(" x".to_string())).into_inner(), Some(" x".to_string()));
    assert_eq!(Title::new(Some("  \r\n ".to_string())).into_inner(), None);
    assert_eq!(Title::new(Some(String::new())).into_inner(), None);
    assert_eq!(Title::new(None).into_inner(), None);
    assert_eq!(Title::default(), Title::new(None));
}

#[test]
fn blank_text_is_dropped() {
    assert_eq!(unless_blank(None), None);
    assert_eq!(unless_blank(Some("  ".to_string())), None);
    assert_eq!(unless_blank(Some(" a ".to_string())), Some(" a ".to_string()));
}

#[test]
fn hits_holds_its_number() {
    assert_eq!(Hits::new(0).into_inner(), 0);
    assert_eq!(Hits::new(u64::MAX).into_inner(), u64::MAX);
}
