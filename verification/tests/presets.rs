use facesguru::api::presets::{default_kind, name_taken, preset_name, updated_preset_name};
use facesguru::error::ServiceError;

#[test]
fn default_preset_kind() {
    assert_eq!(default_kind(), "image");
}

#[test]
fn preset_names_are_trimmed() {
    assert_eq!(preset_name("  Portrait  ").unwrap(), "Portrait");
    assert!(matches!(preset_name(" \t "), Err(ServiceError::PresetNameRequired)));
    assert!(matches!(preset_name(""), Err(ServiceError::PresetNameRequired)));
}

#[test]
fn update_keeps_existing_name_when_none_sent() {
    assert_eq!(updated_preset_name(None, " Old ".to_string()).unwrap(), "Old");
    assert_eq!(updated_preset_name(Some("New".to_string()), "Old".to_string()).unwrap(), "New");
    assert!(updated_preset_name(Some("  ".to_string()), "Old".to_string()).is_err());
}

#[test]
fn name_clash_rules() {
    assert!(!name_taken(None, None));
    assert!(!name_taken(None, Some("a")));
    assert!(name_taken(Some("a"), None));
    assert!(!name_taken(Some("a"), Some("a")));
    assert!(name_taken(Some("a"), Some("b")));
}
