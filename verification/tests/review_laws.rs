use std::str::FromStr;
use std::time::Duration;
use termide::buffer::Position;
use termide::editor::{EditorMode, EditorState};
use termide::input::bindings::{register_default_bindings, register_default_bindings_with};
use termide::input::keybinding::{primary_modifier_for, KeyPattern};
use termide::input::keys::{KeyCode, KeyModifiers};
use termide::input::registry::KeyBindingRegistry;
use termide::input::EditorCommand;
use termide::plugin_api::input::{
    BindingContext as PluginContext, EditorMode as PluginMode, PluginBindingBuilder,
};
use termide::ui::view::frame_hash;

#[test]
fn plugin_mode_text_ignores_case_and_padding() {
    for mode in [PluginMode::Insert, PluginMode::Normal, PluginMode::Prompt] {
        let name = mode.as_str();
        assert_eq!(PluginMode::from_str(name).unwrap(), mode);
        assert_eq!(PluginMode::from_str(&name.to_uppercase()).unwrap(), mode);
        assert_eq!(PluginMode::from_str(&format!("  {}\t", name)).unwrap(), mode);
    }
}

#[test]
fn editor_mode_text_ignores_case_and_padding() {
    for (text, mode) in [(" InSeRt ", EditorMode::Insert), ("\nNORMAL", EditorMode::Normal), ("prompt\r\n", EditorMode::Prompt)] {
        assert_eq!(EditorMode::from_str(text).unwrap(), mode);
    }
}

#[test]
fn last_bind_wins_and_bind_keeps_context() {
    let b = PluginBindingBuilder::new("p").in_mode("normal");
    let twice = b.clone().bind("a", "x").bind("g d", "y").build().unwrap();
    let once = b.clone().bind("g d", "y").build().unwrap();
    assert_eq!(twice, once);
    assert_eq!(once.context, PluginContext::Mode(PluginMode::Normal));
    assert_eq!(once.command, "p.y");
}

#[test]
fn global_changes_only_the_context() {
    let b = PluginBindingBuilder::new("p").in_modes(&["insert", "prompt"]).bind("Ctrl+k", "run");
    let g = b.clone().global().build().unwrap();
    let plain = b.build().unwrap();
    assert_eq!(g.context, PluginContext::Global);
    assert_eq!((g.sequence, g.command), (plain.sequence, plain.command));
}

#[test]
fn frame_fingerprint_tells_one_change_apart() {
    let state = EditorState::new();
    let base = frame_hash(&state, Position::new(0, 0), 0);
    assert_eq!(base, frame_hash(&EditorState::new(), Position::new(0, 0), 0));
    assert_ne!(base, frame_hash(&state, Position::new(1, 0), 0));
    assert_ne!(base, frame_hash(&state, Position::new(0, 1), 0));
    let mut normal = EditorState::new();
    normal.set_mode(EditorMode::Normal);
    assert_ne!(base, frame_hash(&normal, Position::new(0, 0), 0));
    let mut with_message = EditorState::new();
    with_message.set_status_message("hi".to_string());
    assert_ne!(base, frame_hash(&with_message, Position::new(0, 0), 0));
}

#[test]
fn primary_modifier_is_command_on_macos() {
    assert_eq!(primary_modifier_for(true), KeyModifiers::super_key());
    assert_eq!(primary_modifier_for(false), KeyModifiers::control());
    let mut mac = KeyBindingRegistry::new(Duration::from_secs(1));
    register_default_bindings_with(&mut mac, primary_modifier_for(true)).unwrap();
    mac.add_to_sequence(KeyPattern::new(KeyCode::Char('s'), KeyModifiers::super_key()));
    assert_eq!(mac.find_match(EditorMode::Insert), Some(&EditorCommand::Save));
    mac.clear_sequence();
    mac.add_to_sequence(KeyPattern::new(KeyCode::Char('s'), KeyModifiers::control()));
    assert_eq!(mac.find_match(EditorMode::Insert), None);
    let mut other = KeyBindingRegistry::new(Duration::from_secs(1));
    register_default_bindings(&mut other).unwrap();
    other.add_to_sequence(KeyPattern::new(KeyCode::Char('s'), KeyModifiers::control()));
    assert_eq!(other.find_match(EditorMode::Insert), Some(&EditorCommand::Save));
}

#[test]
fn white_space_is_the_listed_characters() {
    let listed = |c: char| {
        matches!(c, '\t' | '\n' | '\u{0B}' | '\u{0C}' | '\r' | ' ')
            || matches!(c, '\u{85}' | '\u{A0}' | '\u{1680}' | '\u{2028}' | '\u{2029}' | '\u{202F}' | '\u{205F}' | '\u{3000}')
            || ('\u{2000}'..='\u{200A}').contains(&c)
    };
    for u in 0u32..=0x10FFFF {
        if let Some(c) = char::from_u32(u) {
            assert_eq!(c.is_whitespace(), listed(c), "U+{:04X}", u);
        }
    }
    assert_eq!(EditorMode::from_str("\u{3000}insert\u{2009}").unwrap(), EditorMode::Insert);
}
