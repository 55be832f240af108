use vk_instance::diagnostics::{SEVERITY_ERROR, SEVERITY_INFO, SEVERITY_VERBOSE, SEVERITY_WARNING};
use vk_instance::{join_names, label_names, object_names, severity_level, LogLevel};

#[test]
fn severity_mapping_is_total() {
    assert_eq!(severity_level(SEVERITY_ERROR), LogLevel::Error);
    assert_eq!(severity_level(SEVERITY_WARNING), LogLevel::Warn);
    assert_eq!(severity_level(SEVERITY_INFO), LogLevel::Info);
    assert_eq!(severity_level(SEVERITY_VERBOSE), LogLevel::Trace);
    assert_eq!(severity_level(0x1100), LogLevel::Warn);
    assert_eq!(severity_level(0), LogLevel::Warn);
}

#[test]
fn label_names_use_placeholder() {
    let labels = vec![Some("gfx".to_string()), None, Some("copy".to_string())];
    assert_eq!(label_names(&labels), vec!["gfx".to_string(), "?".to_string(), "copy".to_string()]);
    assert_eq!(label_names(&vec![None]), vec!["?".to_string()]);
    assert!(label_names(&Vec::new()).is_empty());
}

#[test]
fn object_names_use_placeholder() {
    let labels = vec![None, Some("buf".to_string())];
    assert_eq!(object_names(&labels), vec!["?".to_string(), "buf".to_string()]);
}

#[test]
fn names_join_with_comma() {
    assert_eq!(join_names(&Vec::new()), "");
    assert_eq!(join_names(&vec!["a".to_string()]), "a");
    assert_eq!(join_names(&vec!["a".to_string(), "bc".to_string(), "d".to_string()]), "a, bc, d");
}
