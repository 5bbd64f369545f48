use prebuild::mode::{resolve, Mode};

#[test]
fn prod_value_selects_production() {
    assert_eq!(resolve(&Some("prod".to_string())), Mode::Production);
}

#[test]
fn absent_value_selects_development() {
    assert_eq!(resolve(&None), Mode::Development);
}

#[test]
fn dev_value_selects_development() {
    assert_eq!(resolve(&Some("dev".to_string())), Mode::Development);
}

#[test]
fn empty_value_selects_development() {
    assert_eq!(resolve(&Some(String::new())), Mode::Development);
}

#[test]
fn comparison_ignores_ascii_case() {
    assert_eq!(resolve(&Some("PROD".to_string())), Mode::Production);
    assert_eq!(resolve(&Some("Prod".to_string())), Mode::Production);
    assert_eq!(resolve(&Some("pRoD".to_string())), Mode::Production);
}

#[test]
fn near_misses_select_development() {
    assert_eq!(resolve(&Some("prod ".to_string())), Mode::Development);
    assert_eq!(resolve(&Some("produce".to_string())), Mode::Development);
    assert_eq!(resolve(&Some("pro".to_string())), Mode::Development);
}
