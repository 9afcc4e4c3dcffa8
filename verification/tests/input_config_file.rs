use std::time::Duration;
use termide::input::config::{register_user_bindings, ConfigError, LoadReport, UserBinding};
use termide::input::registry::KeyBindingRegistry;

/// Reads the configuration text as the editor does: TOML with a
/// `keybindings` array of tables holding `sequence`, `command` and an
/// optional `mode`; then registers the entries.
fn load_from_toml(registry: &mut KeyBindingRegistry, content: &str) -> Result<LoadReport, ConfigError> {
    let parse_error = |source: String| ConfigError::TomlParseError { path: "config.toml".to_string(), source };
    let value: toml::Value = toml::from_str(content).map_err(|e| parse_error(e.to_string()))?;
    let mut entries = Vec::new();
    if let Some(list) = value.get("keybindings") {
        let list = list.as_array().ok_or_else(|| parse_error("keybindings must be an array".to_string()))?;
        for item in list {
            let field = |name: &str| item.get(name).and_then(|v| v.as_str()).map(|s| s.to_string());
            let sequence = field("sequence").ok_or_else(|| parse_error("missing field `sequence`".to_string()))?;
            let command = field("command").ok_or_else(|| parse_error("missing field `command`".to_string()))?;
            entries.push(UserBinding { sequence, command, mode: field("mode") });
        }
    }
    Ok(register_user_bindings(registry, &entries))
}

#[test]
fn test_load_empty_config() {
    let config_content = r#"
        # Empty configuration
        keybindings = []
    "#;
    let mut registry = KeyBindingRegistry::new(Duration::from_secs(1));

    let result = load_from_toml(&mut registry, config_content);
    assert!(result.is_ok());
    assert_eq!(result.unwrap().loaded, 0);
}

#[test]
fn test_load_valid_single_binding() {
    let config_content = r#"
        [[keybindings]]
        sequence = "Ctrl+S"
        command = "file.save"
    "#;
    let mut registry = KeyBindingRegistry::new(Duration::from_secs(1));

    let result = load_from_toml(&mut registry, config_content);
    assert!(result.is_ok());
    assert_eq!(result.unwrap().loaded, 1);
    assert_eq!(registry.len(), 1);
}

#[test]
fn test_load_mode_specific_binding() {
    let config_content = r#"
        [[keybindings]]
        sequence = "i"
        command = "mode.insert"
        mode = "normal"
    "#;
    let mut registry = KeyBindingRegistry::new(Duration::from_secs(1));

    let result = load_from_toml(&mut registry, config_content);
    assert!(result.is_ok());
    assert_eq!(result.unwrap().loaded, 1);
}

#[test]
fn test_load_multiple_bindings() {
    let config_content = r#"
        [[keybindings]]
        sequence = "Ctrl+S"
        command = "file.save"

        [[keybindings]]
        sequence = "Ctrl+Q"
        command = "quit"

        [[keybindings]]
        sequence = "i"
        command = "mode.insert"
        mode = "normal"
    "#;
    let mut registry = KeyBindingRegistry::new(Duration::from_secs(1));

    let result = load_from_toml(&mut registry, config_content);
    assert!(result.is_ok());
    assert_eq!(result.unwrap().loaded, 3);
    assert_eq!(registry.len(), 3);
}

#[test]
fn test_load_multikey_sequence() {
    let config_content = r#"
        [[keybindings]]
        sequence = "d d"
        command = "delete_char"
        mode = "normal"
    "#;
    let mut registry = KeyBindingRegistry::new(Duration::from_secs(1));

    let result = load_from_toml(&mut registry, config_content);
    assert!(result.is_ok());
    assert_eq!(result.unwrap().loaded, 1);
}

#[test]
fn test_load_invalid_toml() {
    let config_content = r#"
        this is not valid TOML
        [[keybindings
    "#;
    let mut registry = KeyBindingRegistry::new(Duration::from_secs(1));

    let result = load_from_toml(&mut registry, config_content);
    assert!(result.is_err());
    assert!(matches!(
        result.unwrap_err(),
        ConfigError::TomlParseError { .. }
    ));
}

#[test]
fn test_load_invalid_sequence_continues() {
    // Invalid sequence should log warning but continue with other bindings
    let config_content = r#"
        [[keybindings]]
        sequence = "Ctrl+"
        command = "file.save"

        [[keybindings]]
        sequence = "Ctrl+Q"
        command = "quit"
    "#;
    let mut registry = KeyBindingRegistry::new(Duration::from_secs(1));

    let result = load_from_toml(&mut registry, config_content);
    assert!(result.is_ok());
    // Only the valid binding should be loaded
    assert_eq!(result.unwrap().loaded, 1);
    assert_eq!(registry.len(), 1);
}

#[test]
fn test_load_invalid_command_continues() {
    // Invalid command should log warning but continue
    let config_content = r#"
        [[keybindings]]
        sequence = "Ctrl+X"
        command = "unknown_command"

        [[keybindings]]
        sequence = "Ctrl+S"
        command = "file.save"
    "#;
    let mut registry = KeyBindingRegistry::new(Duration::from_secs(1));

    let result = load_from_toml(&mut registry, config_content);
    assert!(result.is_ok());
    assert_eq!(result.unwrap().loaded, 1);
}

#[test]
fn test_load_invalid_mode_continues() {
    let config_content = r#"
        [[keybindings]]
        sequence = "i"
        command = "mode.insert"
        mode = "invalid_mode"

        [[keybindings]]
        sequence = "Ctrl+S"
        command = "file.save"
    "#;
    let mut registry = KeyBindingRegistry::new(Duration::from_secs(1));

    let result = load_from_toml(&mut registry, config_content);
    assert!(result.is_ok());
    assert_eq!(result.unwrap().loaded, 1);
}

#[test]
fn test_priority_is_user() {
    let config_content = r#"
        [[keybindings]]
        sequence = "Ctrl+S"
        command = "file.save"
    "#;
    let mut registry = KeyBindingRegistry::new(Duration::from_secs(1));

    load_from_toml(&mut registry, config_content).unwrap();

    // Verify the binding was registered (we can't directly check priority,
    // but we can verify it was added)
    assert_eq!(registry.len(), 1);
}

#[test]
fn test_mixed_valid_invalid_bindings() {
    let config_content = r#"
        [[keybindings]]
        sequence = "Ctrl+S"
        command = "file.save"

        [[keybindings]]
        sequence = "InvalidSeq+"
        command = "quit"

        [[keybindings]]
        sequence = "Ctrl+Q"
        command = "quit"

        [[keybindings]]
        sequence = "i"
        command = "unknown_cmd"
        mode = "normal"

        [[keybindings]]
        sequence = "Esc"
        command = "mode.normal"
        mode = "insert"
    "#;
    let mut registry = KeyBindingRegistry::new(Duration::from_secs(1));

    let result = load_from_toml(&mut registry, config_content);
    assert!(result.is_ok());
    // Should load 3 valid bindings (Ctrl+S, Ctrl+Q, Esc)
    assert_eq!(result.unwrap().loaded, 3);
    assert_eq!(registry.len(), 3);
}

#[test]
fn test_global_binding_no_mode() {
    let config_content = r#"
        [[keybindings]]
        sequence = "Ctrl+S"
        command = "file.save"
    "#;
    let mut registry = KeyBindingRegistry::new(Duration::from_secs(1));

    let result = load_from_toml(&mut registry, config_content);
    assert!(result.is_ok());
    assert_eq!(result.unwrap().loaded, 1);
}

#[test]
fn test_case_insensitive_mode() {
    let config_content = r#"
        [[keybindings]]
        sequence = "i"
        command = "mode.insert"
        mode = "NORMAL"
    "#;
    let mut registry = KeyBindingRegistry::new(Duration::from_secs(1));

    let result = load_from_toml(&mut registry, config_content);
    assert!(result.is_ok());
    assert_eq!(result.unwrap().loaded, 1);
}

#[test]
fn test_whitespace_in_mode() {
    let config_content = r#"
        [[keybindings]]
        sequence = "i"
        command = "mode.insert"
        mode = "  normal  "
    "#;
    let mut registry = KeyBindingRegistry::new(Duration::from_secs(1));

    let result = load_from_toml(&mut registry, config_content);
    assert!(result.is_ok());
    assert_eq!(result.unwrap().loaded, 1);
}

#[test]
fn test_plugin_command() {
    let config_content = r#"
        [[keybindings]]
        sequence = "Ctrl+F"
        command = "rust_analyzer.format"
        mode = "normal"
    "#;
    let mut registry = KeyBindingRegistry::new(Duration::from_secs(1));

    let result = load_from_toml(&mut registry, config_content);
    assert!(result.is_ok());
    assert_eq!(result.unwrap().loaded, 1);
}

#[test]
fn test_empty_sequence_error() {
    let config_content = r#"
        [[keybindings]]
        sequence = ""
        command = "file.save"
    "#;
    let mut registry = KeyBindingRegistry::new(Duration::from_secs(1));

    let result = load_from_toml(&mut registry, config_content);
    assert!(result.is_ok());
    assert_eq!(result.unwrap().loaded, 0); // Invalid entry skipped
}

#[test]
fn test_empty_command_error() {
    let config_content = r#"
        [[keybindings]]
        sequence = "Ctrl+S"
        command = ""
    "#;
    let mut registry = KeyBindingRegistry::new(Duration::from_secs(1));

    let result = load_from_toml(&mut registry, config_content);
    assert!(result.is_ok());
    assert_eq!(result.unwrap().loaded, 0); // Invalid entry skipped
}

#[test]
fn test_all_modes() {
    let config_content = r#"
        [[keybindings]]
        sequence = "a"
        command = "mode.insert"
        mode = "insert"

        [[keybindings]]
        sequence = "b"
        command = "mode.normal"
        mode = "normal"

        [[keybindings]]
        sequence = "c"
        command = "mode.prompt"
        mode = "prompt"
    "#;
    let mut registry = KeyBindingRegistry::new(Duration::from_secs(1));

    let result = load_from_toml(&mut registry, config_content);
    assert!(result.is_ok());
    assert_eq!(result.unwrap().loaded, 3);
}
