//! Which editor commands the keys pressed in one frame trigger.
//!
//! The host reads the keyboard, asks `shortcut_commands` what to do, and runs
//! the commands in the order given.

use vstd::prelude::*;
use crate::studio::{AxisConstraint, InteractionMode};

verus! {

/// The keys pressed in this frame and the modifiers held.
#[derive(Clone, Copy, Debug)]
pub struct KeyInput {
    pub escape: bool,
    pub enter: bool,
    pub key_x: bool,
    pub key_y: bool,
    pub key_z: bool,
    pub key_g: bool,
    pub key_s: bool,
    pub key_r: bool,
    pub key_c: bool,
    pub key_v: bool,
    pub key_d: bool,
    pub num1: bool,
    pub num3: bool,
    pub num7: bool,
    pub num0: bool,
    pub delete: bool,
    pub backspace: bool,
    pub space: bool,
    pub home: bool,
    pub arrow_left: bool,
    pub arrow_right: bool,
    /// Ctrl or Command is held.
    pub ctrl: bool,
    pub shift: bool,
}

/// Camera presets of the 3D view.
#[derive(Clone, Copy, Debug, PartialEq, Eq, Structural)]
pub enum ViewPreset {
    /// Looking from -Y toward +Y.
    Front,
    /// Looking from +X toward -X.
    Right,
    /// Looking down from +Z.
    Top,
    /// The default perspective.
    Perspective,
}

/// An editor command.
#[derive(Clone, Debug, PartialEq, Eq, Structural)]
pub enum Command {
    CancelMode,
    ConfirmMode,
    ToggleAxis(AxisConstraint),
    EnterMode(InteractionMode),
    SetView(ViewPreset),
    Undo,
    Redo,
    Copy,
    Cut,
    Paste,
    Duplicate,
    Delete,
    TogglePlay,
    Rewind,
    /// Moves the playhead forward by a large or a small step.
    StepForward(bool),
    /// Moves the playhead back by a large or a small step.
    StepBack(bool),
}

/// `cmd` when `cond` holds, else nothing.
pub open spec fn when(cond: bool, cmd: Command) -> Seq<Command> {
    if cond { seq![cmd] } else { Seq::empty() }
}

/// The commands, in order, that the keys `k` trigger when the editor is or is
/// not in a grab / scale / rotate mode, has or has not an object selected, and
/// shows or does not show a 3D scene.
pub open spec fn shortcut_plan(k: KeyInput, in_mode: bool, has_selection: bool, is_3d: bool) -> Seq<Command> {
    let plain = !in_mode && !k.ctrl;
    when(in_mode && k.escape, Command::CancelMode)
        + when(in_mode && k.enter, Command::ConfirmMode)
        + when(in_mode && k.key_x, Command::ToggleAxis(AxisConstraint::X))
        + when(in_mode && k.key_y, Command::ToggleAxis(AxisConstraint::Y))
        + when(in_mode && k.key_z, Command::ToggleAxis(AxisConstraint::Z))
        + when(plain && k.key_g && has_selection, Command::EnterMode(InteractionMode::Grab))
        + when(plain && k.key_s && has_selection, Command::EnterMode(InteractionMode::Scale))
        + when(plain && k.key_r && has_selection, Command::EnterMode(InteractionMode::Rotate))
        + when(plain && is_3d && k.num1, Command::SetView(ViewPreset::Front))
        + when(plain && is_3d && k.num3, Command::SetView(ViewPreset::Right))
        + when(plain && is_3d && k.num7, Command::SetView(ViewPreset::Top))
        + when(plain && is_3d && k.num0, Command::SetView(ViewPreset::Perspective))
        + when(k.key_z && k.ctrl, if k.shift { Command::Redo } else { Command::Undo })
        + when(k.key_y && k.ctrl, Command::Redo)
        + when(k.key_c && k.ctrl, Command::Copy)
        + when(k.key_x && k.ctrl, Command::Cut)
        + when(k.key_v && k.ctrl, Command::Paste)
        + when(k.key_d && k.ctrl, Command::Duplicate)
        + when(!in_mode && (k.delete || k.backspace), Command::Delete)
        + when(!in_mode && k.space, Command::TogglePlay)
        + when(k.home, Command::Rewind)
        + when(!in_mode && k.arrow_right, Command::StepForward(k.ctrl))
        + when(!in_mode && k.arrow_left, Command::StepBack(k.ctrl))
}

fn push_when(v: &mut Vec<Command>, cond: bool, cmd: Command)
    ensures
        final(v)@ == old(v)@ + when(cond, cmd),
{
    if cond {
        v.push(cmd);
    }
    assert(final(v)@ =~= old(v)@ + when(cond, cmd)) by {
        if cond {
            assert(v@ =~= old(v)@ + when(cond, cmd));
        } else {
            assert(v@ =~= old(v)@ + when(cond, cmd));
        }
    }
}

/// The commands that the keys `keys` trigger, in the order to run them.
pub fn shortcut_commands(keys: &KeyInput, in_mode: bool, has_selection: bool, is_3d: bool) -> (r: Vec<Command>)
    ensures
        r@ == shortcut_plan(*keys, in_mode, has_selection, is_3d),
{
    let k = *keys;
    let plain = !in_mode && !k.ctrl;
    let mut v: Vec<Command> = Vec::new();
    push_when(&mut v, in_mode && k.escape, Command::CancelMode);
    assert(v@ =~= when(in_mode && k.escape, Command::CancelMode));
    push_when(&mut v, in_mode && k.enter, Command::ConfirmMode);
    push_when(&mut v, in_mode && k.key_x, Command::ToggleAxis(AxisConstraint::X));
    push_when(&mut v, in_mode && k.key_y, Command::ToggleAxis(AxisConstraint::Y));
    push_when(&mut v, in_mode && k.key_z, Command::ToggleAxis(AxisConstraint::Z));
    push_when(&mut v, plain && k.key_g && has_selection, Command::EnterMode(InteractionMode::Grab));
    push_when(&mut v, plain && k.key_s && has_selection, Command::EnterMode(InteractionMode::Scale));
    push_when(&mut v, plain && k.key_r && has_selection, Command::EnterMode(InteractionMode::Rotate));
    push_when(&mut v, plain && is_3d && k.num1, Command::SetView(ViewPreset::Front));
    push_when(&mut v, plain && is_3d && k.num3, Command::SetView(ViewPreset::Right));
    push_when(&mut v, plain && is_3d && k.num7, Command::SetView(ViewPreset::Top));
    push_when(&mut v, plain && is_3d && k.num0, Command::SetView(ViewPreset::Perspective));
    push_when(&mut v, k.key_z && k.ctrl, if k.shift { Command::Redo } else { Command::Undo });
    push_when(&mut v, k.key_y && k.ctrl, Command::Redo);
    push_when(&mut v, k.key_c && k.ctrl, Command::Copy);
    push_when(&mut v, k.key_x && k.ctrl, Command::Cut);
    push_when(&mut v, k.key_v && k.ctrl, Command::Paste);
    push_when(&mut v, k.key_d && k.ctrl, Command::Duplicate);
    push_when(&mut v, !in_mode && (k.delete || k.backspace), Command::Delete);
    push_when(&mut v, !in_mode && k.space, Command::TogglePlay);
    push_when(&mut v, k.home, Command::Rewind);
    push_when(&mut v, !in_mode && k.arrow_right, Command::StepForward(k.ctrl));
    push_when(&mut v, !in_mode && k.arrow_left, Command::StepBack(k.ctrl));
    v
}

// ─── Laws ───────────────────────────────────────────────────────────────────

/// `k` with the keys that edit outside a mode released: G, S, R, Delete,
/// Backspace, Space and the arrows.
pub open spec fn without_editing_keys(k: KeyInput) -> KeyInput {
    KeyInput {
        key_g: false,
        key_s: false,
        key_r: false,
        delete: false,
        backspace: false,
        space: false,
        arrow_left: false,
        arrow_right: false,
        ..k
    }
}

/// During a grab, scale or rotate, G, S, R, Delete, Backspace, Space and the
/// arrow keys trigger nothing.
pub proof fn law_mode_ignores_editing_keys(k: KeyInput, has_selection: bool, is_3d: bool)
    ensures
        shortcut_plan(k, true, has_selection, is_3d) == shortcut_plan(without_editing_keys(k), true, has_selection, is_3d),
{
}

/// With no object selected, G, S and R start no mode.
pub proof fn law_no_mode_without_selection(k: KeyInput, in_mode: bool, is_3d: bool)
    ensures
        shortcut_plan(k, in_mode, false, is_3d) == shortcut_plan(
            KeyInput { key_g: false, key_s: false, key_r: false, ..k },
            in_mode,
            false,
            is_3d,
        ),
{
}

/// Outside a mode, Escape, Enter and plain X, Y, Z trigger nothing; X, Y, Z act
/// only together with Ctrl.
pub proof fn law_normal_mode_ignores_mode_keys(k: KeyInput, has_selection: bool, is_3d: bool)
    requires
        !k.ctrl,
    ensures
        shortcut_plan(k, false, has_selection, is_3d) == shortcut_plan(
            KeyInput { escape: false, enter: false, key_x: false, key_y: false, key_z: false, ..k },
            false,
            has_selection,
            is_3d,
        ),
{
}

/// Outside a 3D scene the number keys set no view.
pub proof fn law_views_only_in_3d(k: KeyInput, in_mode: bool, has_selection: bool)
    ensures
        shortcut_plan(k, in_mode, has_selection, false) == shortcut_plan(
            KeyInput { num1: false, num3: false, num7: false, num0: false, ..k },
            in_mode,
            has_selection,
            false,
        ),
{
}

/// A command is in the concatenation of two lists when it is in one of them.
proof fn lemma_contains_concat(a: Seq<Command>, b: Seq<Command>, x: Command)
    ensures
        (a + b).contains(x) <==> (a.contains(x) || b.contains(x)),
{
    if a.contains(x) {
        let i = choose|i: int| 0 <= i < a.len() && a[i] == x;
        assert((a + b)[i] == x);
    }
    if b.contains(x) {
        let i = choose|i: int| 0 <= i < b.len() && b[i] == x;
        assert((a + b)[a.len() + i] == x);
    }
    if (a + b).contains(x) {
        let i = choose|i: int| 0 <= i < (a + b).len() && (a + b)[i] == x;
        if i < a.len() {
            assert(a[i] == x);
        } else {
            assert(b[i - a.len()] == x);
        }
    }
}

/// `when(cond, cmd)` holds `x` exactly when `cond` holds and `x` is `cmd`.
proof fn lemma_contains_when(cond: bool, cmd: Command, x: Command)
    ensures
        (when(cond, cmd).contains(x) <==> (cond && cmd == x)),
{
    if cond {
        assert(when(cond, cmd)[0] == cmd);
    }
}

/// `x` is among the commands of a frame exactly when one of the plan's
/// conditions that gives `x` holds.
#[verifier::spinoff_prover]
#[verifier::rlimit(100)]
proof fn lemma_plan_member(k: KeyInput, in_mode: bool, has_selection: bool, is_3d: bool, x: Command)
    ensures
        shortcut_plan(k, in_mode, has_selection, is_3d).contains(x) <==> (
            ((in_mode && k.escape) && (Command::CancelMode) == x)
            || ((in_mode && k.enter) && (Command::ConfirmMode) == x)
            || ((in_mode && k.key_x) && (Command::ToggleAxis(AxisConstraint::X)) == x)
            || ((in_mode && k.key_y) && (Command::ToggleAxis(AxisConstraint::Y)) == x)
            || ((in_mode && k.key_z) && (Command::ToggleAxis(AxisConstraint::Z)) == x)
            || (((!in_mode && !k.ctrl) && k.key_g && has_selection) && (Command::EnterMode(InteractionMode::Grab)) == x)
            || (((!in_mode && !k.ctrl) && k.key_s && has_selection) && (Command::EnterMode(InteractionMode::Scale)) == x)
            || (((!in_mode && !k.ctrl) && k.key_r && has_selection) && (Command::EnterMode(InteractionMode::Rotate)) == x)
            || (((!in_mode && !k.ctrl) && is_3d && k.num1) && (Command::SetView(ViewPreset::Front)) == x)
            || (((!in_mode && !k.ctrl) && is_3d && k.num3) && (Command::SetView(ViewPreset::Right)) == x)
            || (((!in_mode && !k.ctrl) && is_3d && k.num7) && (Command::SetView(ViewPreset::Top)) == x)
            || (((!in_mode && !k.ctrl) && is_3d && k.num0) && (Command::SetView(ViewPreset::Perspective)) == x)
            || ((k.key_z && k.ctrl) && (if k.shift { Command::Redo } else { Command::Undo }) == x)
            || ((k.key_y && k.ctrl) && (Command::Redo) == x)
            || ((k.key_c && k.ctrl) && (Command::Copy) == x)
            || ((k.key_x && k.ctrl) && (Command::Cut) == x)
            || ((k.key_v && k.ctrl) && (Command::Paste) == x)
            || ((k.key_d && k.ctrl) && (Command::Duplicate) == x)
            || ((!in_mode && (k.delete || k.backspace)) && (Command::Delete) == x)
            || ((!in_mode && k.space) && (Command::TogglePlay) == x)
            || ((k.home) && (Command::Rewind) == x)
            || ((!in_mode && k.arrow_right) && (Command::StepForward(k.ctrl)) == x)
            || ((!in_mode && k.arrow_left) && (Command::StepBack(k.ctrl)) == x)
        ),
{
    let p0 = when(in_mode && k.escape, Command::CancelMode);
    lemma_contains_when(in_mode && k.escape, Command::CancelMode, x);
    let p1 = p0 + when(in_mode && k.enter, Command::ConfirmMode);
    lemma_contains_when(in_mode && k.enter, Command::ConfirmMode, x);
    lemma_contains_concat(p0, when(in_mode && k.enter, Command::ConfirmMode), x);
    let p2 = p1 + when(in_mode && k.key_x, Command::ToggleAxis(AxisConstraint::X));
    lemma_contains_when(in_mode && k.key_x, Command::ToggleAxis(AxisConstraint::X), x);
    lemma_contains_concat(p1, when(in_mode && k.key_x, Command::ToggleAxis(AxisConstraint::X)), x);
    let p3 = p2 + when(in_mode && k.key_y, Command::ToggleAxis(AxisConstraint::Y));
    lemma_contains_when(in_mode && k.key_y, Command::ToggleAxis(AxisConstraint::Y), x);
    lemma_contains_concat(p2, when(in_mode && k.key_y, Command::ToggleAxis(AxisConstraint::Y)), x);
    let p4 = p3 + when(in_mode && k.key_z, Command::ToggleAxis(AxisConstraint::Z));
    lemma_contains_when(in_mode && k.key_z, Command::ToggleAxis(AxisConstraint::Z), x);
    lemma_contains_concat(p3, when(in_mode && k.key_z, Command::ToggleAxis(AxisConstraint::Z)), x);
    let p5 = p4 + when((!in_mode && !k.ctrl) && k.key_g && has_selection, Command::EnterMode(InteractionMode::Grab));
    lemma_contains_when((!in_mode && !k.ctrl) && k.key_g && has_selection, Command::EnterMode(InteractionMode::Grab), x);
    lemma_contains_concat(p4, when((!in_mode && !k.ctrl) && k.key_g && has_selection, Command::EnterMode(InteractionMode::Grab)), x);
    let p6 = p5 + when((!in_mode && !k.ctrl) && k.key_s && has_selection, Command::EnterMode(InteractionMode::Scale));
    lemma_contains_when((!in_mode && !k.ctrl) && k.key_s && has_selection, Command::EnterMode(InteractionMode::Scale), x);
    lemma_contains_concat(p5, when((!in_mode && !k.ctrl) && k.key_s && has_selection, Command::EnterMode(InteractionMode::Scale)), x);
    let p7 = p6 + when((!in_mode && !k.ctrl) && k.key_r && has_selection, Command::EnterMode(InteractionMode::Rotate));
    lemma_contains_when((!in_mode && !k.ctrl) && k.key_r && has_selection, Command::EnterMode(InteractionMode::Rotate), x);
    lemma_contains_concat(p6, when((!in_mode && !k.ctrl) && k.key_r && has_selection, Command::EnterMode(InteractionMode::Rotate)), x);
    let p8 = p7 + when((!in_mode && !k.ctrl) && is_3d && k.num1, Command::SetView(ViewPreset::Front));
    lemma_contains_when((!in_mode && !k.ctrl) && is_3d && k.num1, Command::SetView(ViewPreset::Front), x);
    lemma_contains_concat(p7, when((!in_mode && !k.ctrl) && is_3d && k.num1, Command::SetView(ViewPreset::Front)), x);
    let p9 = p8 + when((!in_mode && !k.ctrl) && is_3d && k.num3, Command::SetView(ViewPreset::Right));
    lemma_contains_when((!in_mode && !k.ctrl) && is_3d && k.num3, Command::SetView(ViewPreset::Right), x);
    lemma_contains_concat(p8, when((!in_mode && !k.ctrl) && is_3d && k.num3, Command::SetView(ViewPreset::Right)), x);
    let p10 = p9 + when((!in_mode && !k.ctrl) && is_3d && k.num7, Command::SetView(ViewPreset::Top));
    lemma_contains_when((!in_mode && !k.ctrl) && is_3d && k.num7, Command::SetView(ViewPreset::Top), x);
    lemma_contains_concat(p9, when((!in_mode && !k.ctrl) && is_3d && k.num7, Command::SetView(ViewPreset::Top)), x);
    let p11 = p10 + when((!in_mode && !k.ctrl) && is_3d && k.num0, Command::SetView(ViewPreset::Perspective));
    lemma_contains_when((!in_mode && !k.ctrl) && is_3d && k.num0, Command::SetView(ViewPreset::Perspective), x);
    lemma_contains_concat(p10, when((!in_mode && !k.ctrl) && is_3d && k.num0, Command::SetView(ViewPreset::Perspective)), x);
    let p12 = p11 + when(k.key_z && k.ctrl, if k.shift { Command::Redo } else { Command::Undo });
    lemma_contains_when(k.key_z && k.ctrl, if k.shift { Command::Redo } else { Command::Undo }, x);
    lemma_contains_concat(p11, when(k.key_z && k.ctrl, if k.shift { Command::Redo } else { Command::Undo }), x);
    let p13 = p12 + when(k.key_y && k.ctrl, Command::Redo);
    lemma_contains_when(k.key_y && k.ctrl, Command::Redo, x);
    lemma_contains_concat(p12, when(k.key_y && k.ctrl, Command::Redo), x);
    let p14 = p13 + when(k.key_c && k.ctrl, Command::Copy);
    lemma_contains_when(k.key_c && k.ctrl, Command::Copy, x);
    lemma_contains_concat(p13, when(k.key_c && k.ctrl, Command::Copy), x);
    let p15 = p14 + when(k.key_x && k.ctrl, Command::Cut);
    lemma_contains_when(k.key_x && k.ctrl, Command::Cut, x);
    lemma_contains_concat(p14, when(k.key_x && k.ctrl, Command::Cut), x);
    let p16 = p15 + when(k.key_v && k.ctrl, Command::Paste);
    lemma_contains_when(k.key_v && k.ctrl, Command::Paste, x);
    lemma_contains_concat(p15, when(k.key_v && k.ctrl, Command::Paste), x);
    let p17 = p16 + when(k.key_d && k.ctrl, Command::Duplicate);
    lemma_contains_when(k.key_d && k.ctrl, Command::Duplicate, x);
    lemma_contains_concat(p16, when(k.key_d && k.ctrl, Command::Duplicate), x);
    let p18 = p17 + when(!in_mode && (k.delete || k.backspace), Command::Delete);
    lemma_contains_when(!in_mode && (k.delete || k.backspace), Command::Delete, x);
    lemma_contains_concat(p17, when(!in_mode && (k.delete || k.backspace), Command::Delete), x);
    let p19 = p18 + when(!in_mode && k.space, Command::TogglePlay);
    lemma_contains_when(!in_mode && k.space, Command::TogglePlay, x);
    lemma_contains_concat(p18, when(!in_mode && k.space, Command::TogglePlay), x);
    let p20 = p19 + when(k.home, Command::Rewind);
    lemma_contains_when(k.home, Command::Rewind, x);
    lemma_contains_concat(p19, when(k.home, Command::Rewind), x);
    let p21 = p20 + when(!in_mode && k.arrow_right, Command::StepForward(k.ctrl));
    lemma_contains_when(!in_mode && k.arrow_right, Command::StepForward(k.ctrl), x);
    lemma_contains_concat(p20, when(!in_mode && k.arrow_right, Command::StepForward(k.ctrl)), x);
    let p22 = p21 + when(!in_mode && k.arrow_left, Command::StepBack(k.ctrl));
    lemma_contains_when(!in_mode && k.arrow_left, Command::StepBack(k.ctrl), x);
    lemma_contains_concat(p21, when(!in_mode && k.arrow_left, Command::StepBack(k.ctrl)), x);
    assert(shortcut_plan(k, in_mode, has_selection, is_3d) == p22);
}

/// Which keys trigger which command, whatever else is pressed in the same
/// frame: Delete or Backspace deletes outside a mode; Ctrl with C, X, V, D
/// copies, cuts, pastes, duplicates; Ctrl+Z undoes and Ctrl+Shift+Z or Ctrl+Y
/// redoes; Space plays or pauses outside a mode; Home rewinds; Escape and
/// Enter cancel and confirm a mode; X, Y, Z during a mode hold to that axis;
/// plain G, S, R with a selection start a grab, scale, rotate; 1, 3, 7, 0 in a
/// 3D scene set the front, right, top and perspective views; the arrows step
/// the playhead, a large step with Ctrl.
pub proof fn law_keys_trigger_their_commands(k: KeyInput, in_mode: bool, has_selection: bool, is_3d: bool)
    ensures
        shortcut_plan(k, in_mode, has_selection, is_3d).contains(Command::Delete) <==> (!in_mode && (k.delete
            || k.backspace)),
        shortcut_plan(k, in_mode, has_selection, is_3d).contains(Command::Copy) <==> (k.ctrl && k.key_c),
        shortcut_plan(k, in_mode, has_selection, is_3d).contains(Command::Cut) <==> (k.ctrl && k.key_x),
        shortcut_plan(k, in_mode, has_selection, is_3d).contains(Command::Paste) <==> (k.ctrl && k.key_v),
        shortcut_plan(k, in_mode, has_selection, is_3d).contains(Command::Duplicate) <==> (k.ctrl && k.key_d),
        shortcut_plan(k, in_mode, has_selection, is_3d).contains(Command::Undo) <==> (k.ctrl && k.key_z && !k.shift),
        shortcut_plan(k, in_mode, has_selection, is_3d).contains(Command::Redo) <==> (k.ctrl && (k.key_y || (k.key_z
            && k.shift))),
        shortcut_plan(k, in_mode, has_selection, is_3d).contains(Command::TogglePlay) <==> (!in_mode && k.space),
        shortcut_plan(k, in_mode, has_selection, is_3d).contains(Command::Rewind) <==> k.home,
        shortcut_plan(k, in_mode, has_selection, is_3d).contains(Command::CancelMode) <==> (in_mode && k.escape),
        shortcut_plan(k, in_mode, has_selection, is_3d).contains(Command::ConfirmMode) <==> (in_mode && k.enter),
        shortcut_plan(k, in_mode, has_selection, is_3d).contains(Command::ToggleAxis(AxisConstraint::X)) <==> (in_mode
            && k.key_x),
        shortcut_plan(k, in_mode, has_selection, is_3d).contains(Command::ToggleAxis(AxisConstraint::Y)) <==> (in_mode
            && k.key_y),
        shortcut_plan(k, in_mode, has_selection, is_3d).contains(Command::ToggleAxis(AxisConstraint::Z)) <==> (in_mode
            && k.key_z),
        shortcut_plan(k, in_mode, has_selection, is_3d).contains(Command::EnterMode(InteractionMode::Grab)) <==> (
        !in_mode && !k.ctrl && k.key_g && has_selection),
        shortcut_plan(k, in_mode, has_selection, is_3d).contains(Command::EnterMode(InteractionMode::Scale)) <==> (
        !in_mode && !k.ctrl && k.key_s && has_selection),
        shortcut_plan(k, in_mode, has_selection, is_3d).contains(Command::EnterMode(InteractionMode::Rotate)) <==> (
        !in_mode && !k.ctrl && k.key_r && has_selection),
        shortcut_plan(k, in_mode, has_selection, is_3d).contains(Command::SetView(ViewPreset::Front)) <==> (!in_mode
            && !k.ctrl && is_3d && k.num1),
        shortcut_plan(k, in_mode, has_selection, is_3d).contains(Command::SetView(ViewPreset::Right)) <==> (!in_mode
            && !k.ctrl && is_3d && k.num3),
        shortcut_plan(k, in_mode, has_selection, is_3d).contains(Command::SetView(ViewPreset::Top)) <==> (!in_mode
            && !k.ctrl && is_3d && k.num7),
        shortcut_plan(k, in_mode, has_selection, is_3d).contains(Command::SetView(ViewPreset::Perspective)) <==> (
        !in_mode && !k.ctrl && is_3d && k.num0),
        shortcut_plan(k, in_mode, has_selection, is_3d).contains(Command::StepForward(true)) <==> (!in_mode
            && k.arrow_right && k.ctrl),
        shortcut_plan(k, in_mode, has_selection, is_3d).contains(Command::StepForward(false)) <==> (!in_mode
            && k.arrow_right && !k.ctrl),
        shortcut_plan(k, in_mode, has_selection, is_3d).contains(Command::StepBack(true)) <==> (!in_mode
            && k.arrow_left && k.ctrl),
        shortcut_plan(k, in_mode, has_selection, is_3d).contains(Command::StepBack(false)) <==> (!in_mode
            && k.arrow_left && !k.ctrl),
{
    lemma_plan_member(k, in_mode, has_selection, is_3d, Command::Delete);
    lemma_plan_member(k, in_mode, has_selection, is_3d, Command::Copy);
    lemma_plan_member(k, in_mode, has_selection, is_3d, Command::Cut);
    lemma_plan_member(k, in_mode, has_selection, is_3d, Command::Paste);
    lemma_plan_member(k, in_mode, has_selection, is_3d, Command::Duplicate);
    lemma_plan_member(k, in_mode, has_selection, is_3d, Command::Undo);
    lemma_plan_member(k, in_mode, has_selection, is_3d, Command::Redo);
    lemma_plan_member(k, in_mode, has_selection, is_3d, Command::TogglePlay);
    lemma_plan_member(k, in_mode, has_selection, is_3d, Command::Rewind);
    lemma_plan_member(k, in_mode, has_selection, is_3d, Command::CancelMode);
    lemma_plan_member(k, in_mode, has_selection, is_3d, Command::ConfirmMode);
    lemma_plan_member(k, in_mode, has_selection, is_3d, Command::ToggleAxis(AxisConstraint::X));
    lemma_plan_member(k, in_mode, has_selection, is_3d, Command::ToggleAxis(AxisConstraint::Y));
    lemma_plan_member(k, in_mode, has_selection, is_3d, Command::ToggleAxis(AxisConstraint::Z));
    lemma_plan_member(k, in_mode, has_selection, is_3d, Command::EnterMode(InteractionMode::Grab));
    lemma_plan_member(k, in_mode, has_selection, is_3d, Command::EnterMode(InteractionMode::Scale));
    lemma_plan_member(k, in_mode, has_selection, is_3d, Command::EnterMode(InteractionMode::Rotate));
    lemma_plan_member(k, in_mode, has_selection, is_3d, Command::SetView(ViewPreset::Front));
    lemma_plan_member(k, in_mode, has_selection, is_3d, Command::SetView(ViewPreset::Right));
    lemma_plan_member(k, in_mode, has_selection, is_3d, Command::SetView(ViewPreset::Top));
    lemma_plan_member(k, in_mode, has_selection, is_3d, Command::SetView(ViewPreset::Perspective));
    lemma_plan_member(k, in_mode, has_selection, is_3d, Command::StepForward(true));
    lemma_plan_member(k, in_mode, has_selection, is_3d, Command::StepForward(false));
    lemma_plan_member(k, in_mode, has_selection, is_3d, Command::StepBack(true));
    lemma_plan_member(k, in_mode, has_selection, is_3d, Command::StepBack(false));
}

} // verus!
