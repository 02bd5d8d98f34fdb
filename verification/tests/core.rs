use spotlight_core::config::{AppState, Config, Hotkey, KeyboardKey, Modifier, Variant};
use spotlight_core::hotkeys::{
    default_toggle_chord, handle_hotkey_event, resolve_launch, Chord, DispatchOutcome,
    HotkeyAction, HotkeyDispatcher, ModifierSet,
};
use spotlight_core::installed_apps::{
    display_name_from_path, list_installed_apps, CatalogError,
};
use spotlight_core::panel::{
    PanelAction, PanelController, PanelState, Point, Rect, ScreenLayout,
};

fn mods(shift: bool, control: bool, alt: bool, meta: bool) -> ModifierSet {
    ModifierSet { shift, control, alt, meta }
}

fn chord(ms: ModifierSet, key: KeyboardKey) -> Chord {
    Chord { modifiers: ms, key }
}

fn two_display_layout() -> ScreenLayout {
    ScreenLayout {
        displays: vec![
            Rect { x: 0, y: 0, width: 1920, height: 1080 },
            Rect { x: 1920, y: 0, width: 1000, height: 600 },
        ],
        primary: Rect { x: 0, y: 0, width: 1920, height: 1080 },
        pointer: Point { x: 2000, y: 100 },
        panel_width: 400,
        panel_height: 300,
    }
}

fn notes_config() -> Config {
    Config {
        id: "1".to_string(),
        name: "Notes".to_string(),
        variant: Variant::App,
        aliases: vec!["n".to_string()],
        hotkeys: vec![Hotkey {
            modifiers: vec![Modifier::Control, Modifier::Alt, Modifier::Meta],
            keyboard_key: KeyboardKey::KeyN,
        }],
        path: Some("/System/Applications/Notes.app".to_string()),
    }
}

#[test]
fn sync_returns_stored_copy() {
    let mut state = AppState::new();
    assert_eq!(state.configs.len(), 0);
    let echoed = state.sync_configs(vec![notes_config()]);
    assert_eq!(echoed.len(), 1);
    assert_eq!(echoed[0].id, "1");
    assert_eq!(echoed[0].name, "Notes");
    assert_eq!(echoed[0].aliases, vec!["n".to_string()]);
    assert_eq!(echoed[0].path.as_deref(), Some("/System/Applications/Notes.app"));
}

#[test]
fn sync_twice_same_input_same_result() {
    let mut state = AppState::new();
    let first = state.sync_configs(vec![notes_config(), notes_config()]);
    let snapshot = state.read_configs();
    let second = state.sync_configs(vec![notes_config(), notes_config()]);
    assert_eq!(first.len(), second.len());
    assert_eq!(snapshot.len(), first.len());
    for (a, b) in first.iter().zip(second.iter()) {
        assert_eq!(a.id, b.id);
        assert_eq!(a.name, b.name);
        assert_eq!(a.aliases, b.aliases);
        assert_eq!(a.path, b.path);
    }
}

#[test]
fn register_is_last_write_wins() {
    let mut d = HotkeyDispatcher::new();
    let c = chord(mods(false, true, false, false), KeyboardKey::KeyA);
    d.register(c, HotkeyAction::LaunchTarget("a".to_string()));
    d.register(c, HotkeyAction::LaunchTarget("b".to_string()));
    assert_eq!(d.bindings.len(), 1);
    match d.dispatch(c, true) {
        Some(HotkeyAction::LaunchTarget(id)) => assert_eq!(id, "b"),
        _ => panic!("expected the second registration to fire"),
    }
}

#[test]
fn dispatch_ignores_releases_and_unknown_chords() {
    let mut d = HotkeyDispatcher::new();
    let c = chord(mods(false, false, true, true), KeyboardKey::KeyK);
    d.register(c, HotkeyAction::TogglePanel);
    assert!(d.dispatch(c, false).is_none());
    let other = chord(mods(false, false, true, true), KeyboardKey::KeyJ);
    assert!(d.dispatch(other, true).is_none());
}

#[test]
fn chord_matching_ignores_modifier_order() {
    let cfg = Config {
        hotkeys: vec![Hotkey {
            modifiers: vec![Modifier::Meta, Modifier::Alt, Modifier::Control],
            keyboard_key: KeyboardKey::KeyN,
        }],
        ..notes_config()
    };
    let (d, collisions) = HotkeyDispatcher::rebuild_bindings(default_toggle_chord(), &vec![cfg]);
    assert!(collisions.is_empty());
    let event = chord(mods(false, true, true, true), KeyboardKey::KeyN);
    match d.dispatch(event, true) {
        Some(HotkeyAction::LaunchTarget(id)) => assert_eq!(id, "1"),
        _ => panic!("expected a launch action"),
    }
}

#[test]
fn rebuild_reports_collisions_first_claim_wins() {
    let mut second = notes_config();
    second.id = "2".to_string();
    let (d, collisions) = HotkeyDispatcher::rebuild_bindings(
        default_toggle_chord(),
        &vec![notes_config(), second],
    );
    assert_eq!(collisions.len(), 1);
    let event = chord(mods(false, true, true, true), KeyboardKey::KeyN);
    match d.dispatch(event, true) {
        Some(HotkeyAction::LaunchTarget(id)) => assert_eq!(id, "1"),
        _ => panic!("expected the first-registered target"),
    }
}

#[test]
fn rebuild_keeps_toggle_chord_over_colliding_target() {
    let mut cfg = notes_config();
    cfg.hotkeys = vec![Hotkey {
        modifiers: vec![Modifier::Alt, Modifier::Meta],
        keyboard_key: KeyboardKey::KeyK,
    }];
    let (d, collisions) =
        HotkeyDispatcher::rebuild_bindings(default_toggle_chord(), &vec![cfg]);
    assert_eq!(collisions.len(), 1);
    match d.dispatch(default_toggle_chord(), true) {
        Some(HotkeyAction::TogglePanel) => {}
        _ => panic!("the built-in toggle binding must keep its chord"),
    }
}

#[test]
fn resolve_launch_cases() {
    let mut unresolved = notes_config();
    unresolved.id = "2".to_string();
    unresolved.path = None;
    let configs = vec![notes_config(), unresolved];
    assert_eq!(
        resolve_launch(&configs, &"1".to_string()).as_deref(),
        Some("/System/Applications/Notes.app")
    );
    assert!(resolve_launch(&configs, &"2".to_string()).is_none());
    assert!(resolve_launch(&configs, &"missing".to_string()).is_none());
}

#[test]
fn focus_resigned_always_ends_hidden() {
    let layout = two_display_layout();
    let mut pc = PanelController::new();
    // Hidden -> Hidden, no window operation.
    let acts = pc.on_focus_resigned();
    assert_eq!(pc.state, PanelState::Hidden);
    assert!(acts.is_empty());
    // Visible -> Hidden, one order-out.
    pc.show(&layout);
    assert_eq!(pc.state, PanelState::Visible);
    let acts = pc.on_focus_resigned();
    assert_eq!(pc.state, PanelState::Hidden);
    assert_eq!(acts, vec![PanelAction::OrderOut]);
}

#[test]
fn show_and_hide_are_idempotent() {
    let layout = two_display_layout();
    let mut pc = PanelController::new();
    let first = pc.show(&layout);
    assert_eq!(first.len(), 2);
    let again = pc.show(&layout);
    assert!(again.is_empty());
    assert_eq!(pc.state, PanelState::Visible);
    let first_hide = pc.hide_panel();
    assert_eq!(first_hide, vec![PanelAction::OrderOut]);
    let again_hide = pc.hide_panel();
    assert!(again_hide.is_empty());
    assert_eq!(pc.state, PanelState::Hidden);
}

#[derive(Clone, Copy)]
enum Op {
    Show,
    Hide,
    Toggle,
    FocusResigned,
}

#[test]
fn visibility_follows_boolean_model() {
    // Simulate a mixed call sequence against the plain boolean model:
    // toggle flips, show/hide set absolutely, focus loss clears.
    let ops = [
        Op::Toggle,
        Op::Show,
        Op::Toggle,
        Op::FocusResigned,
        Op::Toggle,
        Op::Toggle,
        Op::Hide,
        Op::Show,
        Op::FocusResigned,
    ];
    let layout = two_display_layout();
    let mut pc = PanelController::new();
    let mut model = false;
    for op in ops {
        match op {
            Op::Show => {
                pc.show(&layout);
                model = true;
            }
            Op::Hide => {
                pc.hide_panel();
                model = false;
            }
            Op::Toggle => {
                let os_visible = pc.state == PanelState::Visible;
                pc.toggle(os_visible, &layout);
                model = !model;
            }
            Op::FocusResigned => {
                pc.on_focus_resigned();
                model = false;
            }
        }
        assert_eq!(pc.state == PanelState::Visible, model);
    }
}

#[test]
fn toggle_trusts_os_visibility_flag() {
    let layout = two_display_layout();
    let mut pc = PanelController::new();
    pc.show(&layout);
    // The OS hid the window behind our back: toggle must show, not hide.
    let acts = pc.toggle(false, &layout);
    assert_eq!(pc.state, PanelState::Visible);
    assert_eq!(acts.len(), 2);
    assert!(matches!(acts[1], PanelAction::ShowAndMakeKey));
}

#[test]
fn launch_scenario_does_not_touch_panel() {
    // An empty registry, then one synced target with a dedicated chord: the
    // matching event launches its path and leaves the panel hidden.
    let mut state = AppState::new();
    let echoed = state.sync_configs(vec![notes_config()]);
    assert_eq!(echoed.len(), 1);
    let (d, collisions) =
        HotkeyDispatcher::rebuild_bindings(default_toggle_chord(), &state.read_configs());
    assert!(collisions.is_empty());
    let layout = two_display_layout();
    let mut pc = PanelController::new();
    let event = chord(mods(false, true, true, true), KeyboardKey::KeyN);
    let out = handle_hotkey_event(&d, &state, &mut pc, event, true, false, &layout);
    match out {
        DispatchOutcome::Launch(path) => {
            assert_eq!(path, "/System/Applications/Notes.app");
        }
        _ => panic!("expected a launch"),
    }
    assert_eq!(pc.state, PanelState::Hidden);
}

#[test]
fn toggle_scenario_centers_then_hides_on_focus_loss() {
    // Hidden panel; Option+Meta+K arrives: the panel becomes visible,
    // positioned centered on the display under the pointer; an immediate
    // focus-resign notification hides it again.
    let state = AppState::new();
    let (d, _) = HotkeyDispatcher::rebuild_bindings(default_toggle_chord(), &state.configs);
    let layout = two_display_layout();
    let mut pc = PanelController::new();
    let event = chord(mods(false, false, true, true), KeyboardKey::KeyK);
    let out = handle_hotkey_event(&d, &state, &mut pc, event, true, false, &layout);
    match out {
        DispatchOutcome::Toggled(acts) => {
            // The pointer is on the second display: 1920 + (1000-400)/2 and
            // (600-300)/2.
            assert_eq!(
                acts,
                vec![
                    PanelAction::SetPosition(Point { x: 2220, y: 150 }),
                    PanelAction::ShowAndMakeKey,
                ]
            );
        }
        _ => panic!("expected a toggle"),
    }
    assert_eq!(pc.state, PanelState::Visible);
    let acts = pc.on_focus_resigned();
    assert_eq!(acts, vec![PanelAction::OrderOut]);
    assert_eq!(pc.state, PanelState::Hidden);
}

#[test]
fn pointer_off_every_display_falls_back_to_primary() {
    let mut layout = two_display_layout();
    layout.pointer = Point { x: -5000, y: -5000 };
    let mut pc = PanelController::new();
    let acts = pc.show(&layout);
    assert_eq!(
        acts[0],
        PanelAction::SetPosition(Point { x: (1920 - 400) / 2, y: (1080 - 300) / 2 })
    );
}

#[test]
fn catalog_invocation_failure_is_an_error_not_an_empty_list() {
    let out = list_installed_apps(Err("No such file or directory".to_string()));
    match out {
        Err(CatalogError::Invocation(msg)) => {
            assert_eq!(msg, "No such file or directory");
        }
        Err(_) => panic!("wrong stage"),
        Ok(_) => panic!("an unavailable tool must not yield a silently empty list"),
    }
}

#[test]
fn catalog_error_messages_name_the_stage() {
    let e = CatalogError::Invocation("boom".to_string());
    assert_eq!(e.message(), "Failed to run system_profiler: boom");
    let e = CatalogError::Encoding("bad byte".to_string());
    assert_eq!(e.message(), "Invalid UTF-8 data: bad byte");
    let e = CatalogError::Parse("truncated".to_string());
    assert_eq!(e.message(), "Failed to parse plist: truncated");
}

const SAMPLE_REPORT: &str = r#"<?xml version="1.0" encoding="UTF-8"?>
<plist version="1.0">
<array>
  <dict>
    <key>_items</key>
    <array>
      <dict>
        <key>name</key>
        <string>Safari</string>
        <key>bundle_identifier</key>
        <string>com.apple.Safari</string>
        <key>version</key>
        <string>17.0</string>
        <key>path</key>
        <string>/Applications/Safari.app</string>
      </dict>
      <dict>
        <key>path</key>
        <string>/Applications/Notes.app</string>
      </dict>
      <string>not an application record</string>
    </array>
  </dict>
</array>
</plist>
"#;

#[test]
fn catalog_lists_applications_with_name_fallback() {
    let out = list_installed_apps(Ok(SAMPLE_REPORT.as_bytes().to_vec()));
    let apps = out.unwrap_or_else(|_| panic!("expected a successful listing"));
    assert_eq!(apps.len(), 2);
    assert_eq!(apps[0].name, "Safari");
    assert_eq!(apps[0].bundle_id.as_deref(), Some("com.apple.Safari"));
    assert_eq!(apps[0].version.as_deref(), Some("17.0"));
    assert_eq!(apps[0].path.as_deref(), Some("/Applications/Safari.app"));
    // No name field: derived from the path's final segment, extension
    // stripped.
    assert_eq!(apps[1].name, "Notes");
    assert_eq!(apps[1].bundle_id, None);
    assert_eq!(apps[1].version, None);
    assert_eq!(apps[1].path.as_deref(), Some("/Applications/Notes.app"));
}

#[test]
fn catalog_rejects_invalid_utf8_at_the_encoding_stage() {
    let out = list_installed_apps(Ok(vec![0xC3, 0x28, 0xFF]));
    assert!(matches!(out, Err(CatalogError::Encoding(_))));
}

#[test]
fn catalog_rejects_malformed_xml_at_the_parse_stage() {
    let out = list_installed_apps(Ok(b"<plist version=\"1.0\"><array>".to_vec()));
    assert!(matches!(out, Err(CatalogError::Parse(_))));
}

#[test]
fn catalog_rejects_unexpected_root_shape() {
    let doc = r#"<?xml version="1.0" encoding="UTF-8"?>
<plist version="1.0">
<dict>
  <key>name</key>
  <string>Safari</string>
</dict>
</plist>
"#;
    let out = list_installed_apps(Ok(doc.as_bytes().to_vec()));
    match out {
        Err(CatalogError::Parse(msg)) => assert_eq!(msg, "Unexpected plist format"),
        _ => panic!("expected the shape error"),
    }
}

#[test]
fn rebuild_on_empty_registry_keeps_only_the_toggle_chord() {
    let state = AppState::new();
    let (d, collisions) =
        HotkeyDispatcher::rebuild_bindings(default_toggle_chord(), &state.configs);
    assert!(collisions.is_empty());
    assert_eq!(d.bindings.len(), 1);
    match d.dispatch(default_toggle_chord(), true) {
        Some(HotkeyAction::TogglePanel) => {}
        _ => panic!("expected the toggle binding"),
    }
}

#[test]
fn sync_replaces_wholesale() {
    let mut state = AppState::new();
    state.sync_configs(vec![notes_config()]);
    let echoed = state.sync_configs(Vec::new());
    assert!(echoed.is_empty());
    assert!(state.read_configs().is_empty());
}

#[test]
fn duplicate_modifiers_denote_the_same_chord() {
    let cfg = Config {
        hotkeys: vec![Hotkey {
            modifiers: vec![Modifier::Control, Modifier::Control, Modifier::Meta],
            keyboard_key: KeyboardKey::KeyD,
        }],
        ..notes_config()
    };
    let (d, _) = HotkeyDispatcher::rebuild_bindings(default_toggle_chord(), &vec![cfg]);
    let event = chord(mods(false, true, false, true), KeyboardKey::KeyD);
    assert!(d.dispatch(event, true).is_some());
}

#[test]
fn display_name_strips_segment_and_extension() {
    assert_eq!(display_name_from_path("/Applications/Safari.app"), "Safari");
    assert_eq!(display_name_from_path("Notes"), "Notes");
    assert_eq!(display_name_from_path("a.tar.gz"), "a.tar");
    assert_eq!(display_name_from_path(".hidden"), ".hidden");
    assert_eq!(display_name_from_path("/usr/local/"), "Unknown");
    assert_eq!(display_name_from_path(""), "Unknown");
    assert_eq!(display_name_from_path("/a/."), "Unknown");
    assert_eq!(display_name_from_path("/a/.."), "Unknown");
    assert_eq!(display_name_from_path("dir/name."), "name");
}
