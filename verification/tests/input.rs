use net_manthan::ui::input::{ValidatedInput, ValidatedInputMessage, ValidationRule};

#[test]
fn test_validation() {
    let mut input = ValidatedInput::new("Test", "test").non_empty().as_usize();

    // Test empty value
    assert!(!input.validate());
    assert!(input.has_error());

    // Test non-numeric value
    input.value = "abc".to_string();
    assert!(!input.validate());

    // Test valid numeric value
    input.value = "123".to_string();
    assert!(input.validate());
    assert_eq!(input.get_usize_value(), Some(123));
}

#[test]
fn validation_reports_first_failing_rule() {
    let mut input = ValidatedInput::new("Test", "test").non_empty().as_usize();
    input.value = "   ".to_string();
    assert!(!input.validate());
    assert_eq!(input.error.as_deref(), Some("This field cannot be empty"));
    input.value = "12a".to_string();
    assert!(!input.validate());
    assert_eq!(input.error.as_deref(), Some("Must be a valid positive number"));
    assert_eq!(input.get_usize_value(), None);
}

#[test]
fn number_rule_accepts_blank_and_plus_sign() {
    let mut input = ValidatedInput::new("Split", "parts").as_usize();
    assert!(input.validate());
    assert_eq!(input.get_usize_value(), None);
    input.value = "+42".to_string();
    assert!(input.validate());
    assert_eq!(input.get_usize_value(), Some(42));
    input.value = "-1".to_string();
    assert!(!input.validate());
    input.value = "99999999999999999999999".to_string();
    assert!(!input.validate());
}

#[test]
fn url_input_checks_scheme() {
    let mut input = ValidatedInput::url_input();
    assert!(!input.validate());
    assert_eq!(input.error.as_deref(), Some("This field cannot be empty"));
    input.value = "ftp://example.com".to_string();
    assert!(!input.validate());
    assert_eq!(
        input.error.as_deref(),
        Some("Must be a valid URL starting with http:// or https://")
    );
    input.value = "https://example.com/file.zip".to_string();
    assert!(input.validate());
    assert!(input.is_valid());
    input.value = "http://x".to_string();
    assert!(input.validate());
}

#[test]
fn update_messages() {
    let mut input = ValidatedInput::directory_input();
    assert!(!input.update(ValidatedInputMessage::Validate));
    assert!(input.has_error());
    assert!(input.update(ValidatedInputMessage::ValueChanged("/tmp".to_string())));
    assert_eq!(input.value, "/tmp");
    assert!(input.error.is_none());
    assert!(!input.update(ValidatedInputMessage::Validate));
    assert!(input.is_valid());
    assert!(input.update(ValidatedInputMessage::Clear));
    assert_eq!(input.value, "");
    assert_eq!(input.label(), "Directory");
    assert_eq!(input.placeholder(), "Directory for downloading the file");
}

#[test]
fn with_rules_replaces_rules() {
    let mut input = ValidatedInput::optional_text_input("Cookie", "Enter cookie here")
        .non_empty()
        .with_rules(vec![ValidationRule::IsUsize])
        .with_value("7");
    assert!(input.validate());
    assert_eq!(input.get_usize_value(), Some(7));
}
