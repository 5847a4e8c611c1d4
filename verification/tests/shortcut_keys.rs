use manim_studio::shortcuts::{shortcut_commands, Command, KeyInput, ViewPreset};
use manim_studio::studio::{AxisConstraint, InteractionMode};

fn no_keys() -> KeyInput {
    KeyInput {
        escape: false,
        enter: false,
        key_x: false,
        key_y: false,
        key_z: false,
        key_g: false,
        key_s: false,
        key_r: false,
        key_c: false,
        key_v: false,
        key_d: false,
        num1: false,
        num3: false,
        num7: false,
        num0: false,
        delete: false,
        backspace: false,
        space: false,
        home: false,
        arrow_left: false,
        arrow_right: false,
        ctrl: false,
        shift: false,
    }
}

#[test]
fn no_keys_no_commands() {
    assert!(shortcut_commands(&no_keys(), false, true, true).is_empty());
    assert!(shortcut_commands(&no_keys(), true, true, true).is_empty());
}

#[test]
fn ctrl_z_undoes_and_ctrl_shift_z_redoes() {
    let k = KeyInput { key_z: true, ctrl: true, ..no_keys() };
    assert_eq!(shortcut_commands(&k, false, false, false), vec![Command::Undo]);
    let k = KeyInput { key_z: true, ctrl: true, shift: true, ..no_keys() };
    assert_eq!(shortcut_commands(&k, false, false, false), vec![Command::Redo]);
    let k = KeyInput { key_y: true, ctrl: true, ..no_keys() };
    assert_eq!(shortcut_commands(&k, false, false, false), vec![Command::Redo]);
}

#[test]
fn clipboard_shortcuts() {
    let k = KeyInput { key_c: true, ctrl: true, ..no_keys() };
    assert_eq!(shortcut_commands(&k, false, true, false), vec![Command::Copy]);
    let k = KeyInput { key_x: true, ctrl: true, ..no_keys() };
    assert_eq!(shortcut_commands(&k, false, true, false), vec![Command::Cut]);
    let k = KeyInput { key_v: true, ctrl: true, ..no_keys() };
    assert_eq!(shortcut_commands(&k, false, true, false), vec![Command::Paste]);
    let k = KeyInput { key_d: true, ctrl: true, ..no_keys() };
    assert_eq!(shortcut_commands(&k, false, true, false), vec![Command::Duplicate]);
}

#[test]
fn mode_keys_need_a_selection_and_no_ctrl() {
    let g = KeyInput { key_g: true, ..no_keys() };
    assert_eq!(shortcut_commands(&g, false, true, false), vec![Command::EnterMode(InteractionMode::Grab)]);
    assert!(shortcut_commands(&g, false, false, false).is_empty());
    let ctrl_s = KeyInput { key_s: true, ctrl: true, ..no_keys() };
    assert!(shortcut_commands(&ctrl_s, false, true, false).is_empty());
    let r = KeyInput { key_r: true, ..no_keys() };
    assert_eq!(shortcut_commands(&r, false, true, false), vec![Command::EnterMode(InteractionMode::Rotate)]);
    // already in a mode: G does nothing
    assert!(shortcut_commands(&g, true, true, false).is_empty());
}

#[test]
fn keys_during_a_mode() {
    let esc = KeyInput { escape: true, ..no_keys() };
    assert_eq!(shortcut_commands(&esc, true, true, false), vec![Command::CancelMode]);
    assert!(shortcut_commands(&esc, false, true, false).is_empty());
    let enter = KeyInput { enter: true, ..no_keys() };
    assert_eq!(shortcut_commands(&enter, true, true, false), vec![Command::ConfirmMode]);
    let x = KeyInput { key_x: true, ..no_keys() };
    assert_eq!(shortcut_commands(&x, true, true, false), vec![Command::ToggleAxis(AxisConstraint::X)]);
    assert!(shortcut_commands(&x, false, true, false).is_empty());
    // Ctrl+X in a mode both toggles the axis and cuts, in that order
    let cx = KeyInput { key_x: true, ctrl: true, ..no_keys() };
    assert_eq!(
        shortcut_commands(&cx, true, true, false),
        vec![Command::ToggleAxis(AxisConstraint::X), Command::Cut]
    );
    // delete, space and arrows are ignored during a mode
    let d = KeyInput { delete: true, space: true, arrow_left: true, ..no_keys() };
    assert!(shortcut_commands(&d, true, true, false).is_empty());
}

#[test]
fn view_presets_only_in_3d() {
    let k = KeyInput { num1: true, num3: true, num7: true, num0: true, ..no_keys() };
    assert_eq!(
        shortcut_commands(&k, false, false, true),
        vec![
            Command::SetView(ViewPreset::Front),
            Command::SetView(ViewPreset::Right),
            Command::SetView(ViewPreset::Top),
            Command::SetView(ViewPreset::Perspective),
        ]
    );
    assert!(shortcut_commands(&k, false, false, false).is_empty());
}

#[test]
fn playback_keys() {
    let k = KeyInput { space: true, home: true, ..no_keys() };
    assert_eq!(shortcut_commands(&k, false, false, false), vec![Command::TogglePlay, Command::Rewind]);
    let k = KeyInput { arrow_right: true, ctrl: true, ..no_keys() };
    assert_eq!(shortcut_commands(&k, false, false, false), vec![Command::StepForward(true)]);
    let k = KeyInput { arrow_left: true, ..no_keys() };
    assert_eq!(shortcut_commands(&k, false, false, false), vec![Command::StepBack(false)]);
    let k = KeyInput { backspace: true, ..no_keys() };
    assert_eq!(shortcut_commands(&k, false, false, false), vec![Command::Delete]);
    // Home rewinds even during a mode
    let k = KeyInput { home: true, ..no_keys() };
    assert_eq!(shortcut_commands(&k, true, false, false), vec![Command::Rewind]);
}
