use manim_studio::render::RenderQuality;
use manim_studio::scene::{AnimEntry, AnimType, Appearance, ManimObject, ObjType, RateFunc, Scene, SceneType, Timeline};
use manim_studio::studio::{AxisConstraint, InteractionMode, ManimStudio, RenderQualityOpt, RenderStatus};

fn look() -> Appearance<f32> {
    Appearance {
        position: [0.0; 3],
        scale: 1.0,
        rotation: 0.0,
        color: [1.0, 1.0, 1.0],
        opacity: 1.0,
        fill_opacity: 0.5,
        stroke_width: 2.0,
    }
}

fn scene() -> Scene<f32> {
    Scene {
        name: "MyScene".to_string(),
        objects: vec![],
        animations: vec![],
        timeline: Timeline { duration: 10.0, current_time: 2.5, fps: 60.0 },
        bg_color: [0.05, 0.05, 0.05],
        is_3d: false,
        camera_phi: 70.0,
        camera_theta: -45.0,
        require_latex: false,
        scene_type: SceneType::Scene,
    }
}

fn studio() -> ManimStudio<f32> {
    ManimStudio::new(scene(), [0.0; 3], 1.0, 0.0)
}

fn circle() -> ObjType<f32> {
    ObjType::Circle { radius: 1.0 }
}

#[test]
fn new_editor_starts_idle() {
    let s = studio();
    assert!(s.selected_obj.is_none());
    assert!(s.selected_anim.is_none());
    assert_eq!(s.interaction_mode, InteractionMode::Normal);
    assert_eq!(s.axis_constraint, AxisConstraint::Free);
    assert_eq!(s.history.len(), 0);
    assert!(s.clipboard.is_none());
    assert_eq!(s.render_quality, RenderQualityOpt::Medium);
    assert!(matches!(s.render_status, RenderStatus::Idle));
    assert!(!s.is_playing);
}

#[test]
fn add_object_names_by_kind_and_adds_create() {
    let mut s = studio();
    s.add_object(circle(), look(), 1.0);
    s.add_object(ObjType::Dot, look(), 1.0);
    s.add_object(circle(), look(), 1.5);
    let names: Vec<&str> = s.scene.objects.iter().map(|o| o.name.as_str()).collect();
    assert_eq!(names, vec!["Circle_1", "Dot_1", "Circle_2"]);
    assert_eq!(s.scene.animations.len(), 3);
    let last = &s.scene.animations[2];
    assert_eq!(last.anim_type, AnimType::Create);
    assert_eq!(last.object_id, s.scene.objects[2].id);
    assert_eq!(last.start_time, 2.5);
    assert_eq!(last.duration, 1.5);
    assert_eq!(last.rate_func, RateFunc::Smooth);
    assert_eq!(s.selected_obj.as_deref(), Some(s.scene.objects[2].id.as_str()));
    assert_eq!(s.scene.objects[2].fill_opacity, 0.5);
    assert_eq!(s.history.len(), 3);
}

#[test]
fn undo_restores_the_recorded_scene_and_redo_returns() {
    let mut s = studio();
    s.add_object(circle(), look(), 1.0);
    assert_eq!(s.scene.objects.len(), 1);
    s.undo();
    assert!(s.scene.objects.is_empty());
    assert!(s.scene.animations.is_empty());
    assert!(s.selected_obj.is_none());
    assert_eq!(s.history.cursor(), 0);
    // nothing before the start: undo changes nothing
    s.undo();
    assert_eq!(s.history.cursor(), 0);
    s.redo();
    assert_eq!(s.scene.objects.len(), 1);
    assert_eq!(s.scene.objects[0].name, "Circle_1");
    assert!(s.selected_obj.is_none());
    // nothing after: redo changes nothing
    s.redo();
    assert_eq!(s.scene.objects.len(), 1);
}

#[test]
fn copy_then_paste_adds_a_shifted_copy() {
    let mut s = studio();
    s.add_object(circle(), look(), 1.0);
    s.copy_selected();
    assert_eq!(s.clipboard.as_ref().unwrap().name, "Circle_1");
    s.paste(|p: [f32; 3]| [p[0] + 0.3, p[1] - 0.3, p[2]]);
    assert_eq!(s.scene.objects.len(), 2);
    let pasted = &s.scene.objects[1];
    assert_eq!(pasted.name, "Circle_1_paste");
    assert_eq!(pasted.position, [0.3, -0.3, 0.0]);
    assert_eq!(pasted.object_type, circle());
    assert_eq!(s.selected_obj.as_deref(), Some(pasted.id.as_str()));
    assert_eq!(s.history.len(), 2);
}

#[test]
fn paste_with_empty_clipboard_does_nothing() {
    let mut s = studio();
    s.paste(|p: [f32; 3]| p);
    assert!(s.scene.objects.is_empty());
    assert_eq!(s.history.len(), 0);
}

#[test]
fn duplicate_adds_a_copy_named_copy() {
    let mut s = studio();
    s.add_object(ObjType::Square { side_length: 2.0 }, look(), 1.0);
    s.duplicate_selected(|p: [f32; 3]| [p[0] + 0.5, p[1] + 0.5, p[2]]);
    assert_eq!(s.scene.objects.len(), 2);
    assert_eq!(s.scene.objects[1].name, "Square_1_copy");
    assert_eq!(s.scene.objects[1].position, [0.5, 0.5, 0.0]);
    // the Create animation is not duplicated
    assert_eq!(s.scene.animations.len(), 1);
}

#[test]
fn delete_and_cut_remove_object_and_its_animations() {
    let mut s = studio();
    s.add_object(circle(), look(), 1.0);
    s.add_object(ObjType::Dot, look(), 1.0);
    s.delete_selected();
    assert_eq!(s.scene.objects.len(), 1);
    assert_eq!(s.scene.animations.len(), 1);
    assert!(s.selected_obj.is_none());
    assert_eq!(s.history.len(), 3);
    // nothing selected: nothing recorded, nothing removed
    s.delete_selected();
    assert_eq!(s.history.len(), 3);
    let id = s.scene.objects[0].id.clone();
    s.select_object_toggle(&id);
    s.cut_selected();
    assert!(s.scene.objects.is_empty());
    assert!(s.scene.animations.is_empty());
    assert_eq!(s.clipboard.as_ref().unwrap().name, "Circle_1");
    assert_eq!(s.history.len(), 5);
}

#[test]
fn delete_selected_animation_only() {
    let mut s = studio();
    s.add_object(circle(), look(), 1.0);
    let obj_id = s.scene.objects[0].id.clone();
    let mut extra = AnimEntry::new(&obj_id, AnimType::FadeOut, 3.0, 1.0);
    extra.id = "fade".to_string();
    s.scene.animations.push(extra);
    s.selected_obj = None;
    s.selected_anim = Some("fade".to_string());
    s.delete_selected();
    assert_eq!(s.scene.objects.len(), 1);
    assert_eq!(s.scene.animations.len(), 1);
    assert_eq!(s.scene.animations[0].anim_type, AnimType::Create);
    assert!(s.selected_anim.is_none());
}

#[test]
fn grab_then_cancel_puts_the_object_back() {
    let mut s = studio();
    s.add_object(circle(), Appearance { position: [1.0, 2.0, 0.0], scale: 2.0, rotation: 15.0, ..look() }, 1.0);
    assert_eq!(s.history.len(), 1);
    s.enter_mode(InteractionMode::Grab);
    assert_eq!(s.interaction_mode, InteractionMode::Grab);
    assert_eq!(s.mode_origin_pos, [1.0, 2.0, 0.0]);
    assert_eq!(s.mode_origin_scale, 2.0);
    assert_eq!(s.mode_origin_rotation, 15.0);
    assert_eq!(s.history.len(), 2);
    s.toggle_axis(AxisConstraint::X);
    assert_eq!(s.axis_constraint, AxisConstraint::X);
    s.scene.objects[0].position = [5.0, 5.0, 5.0];
    s.scene.objects[0].scale = 9.0;
    s.cancel_mode();
    assert_eq!(s.scene.objects[0].position, [1.0, 2.0, 0.0]);
    assert_eq!(s.scene.objects[0].scale, 2.0);
    assert_eq!(s.scene.objects[0].rotation, 15.0);
    assert_eq!(s.interaction_mode, InteractionMode::Normal);
    assert_eq!(s.axis_constraint, AxisConstraint::Free);
    assert_eq!(s.history.len(), 1);
    assert_eq!(s.history.cursor(), 1);
    assert!(s.selected_obj.is_some());
}

#[test]
fn enter_mode_without_selection_does_nothing() {
    let mut s = studio();
    s.enter_mode(InteractionMode::Scale);
    assert_eq!(s.interaction_mode, InteractionMode::Normal);
    assert_eq!(s.history.len(), 0);
}

#[test]
fn confirm_keeps_the_change() {
    let mut s = studio();
    s.add_object(circle(), look(), 1.0);
    s.enter_mode(InteractionMode::Rotate);
    s.scene.objects[0].rotation = 90.0;
    s.confirm_mode();
    assert_eq!(s.scene.objects[0].rotation, 90.0);
    assert_eq!(s.interaction_mode, InteractionMode::Normal);
    assert_eq!(s.history.len(), 2);
}

#[test]
fn toggling_the_held_axis_frees_it() {
    let mut s = studio();
    s.toggle_axis(AxisConstraint::Y);
    assert_eq!(s.axis_constraint, AxisConstraint::Y);
    s.toggle_axis(AxisConstraint::Z);
    assert_eq!(s.axis_constraint, AxisConstraint::Z);
    s.toggle_axis(AxisConstraint::Z);
    assert_eq!(s.axis_constraint, AxisConstraint::Free);
}

#[test]
fn selection_visibility_and_single_deletes() {
    let mut s = studio();
    s.add_object(circle(), look(), 1.0);
    let id = s.scene.objects[0].id.clone();
    s.select_object_toggle(&id);
    assert!(s.selected_obj.is_none());
    s.select_object_toggle(&id);
    assert_eq!(s.selected_obj.as_deref(), Some(id.as_str()));
    assert_eq!(s.sel_obj().unwrap().name, "Circle_1");
    s.toggle_visibility(&id);
    assert!(!s.scene.objects[0].visible);
    s.toggle_visibility(&id);
    assert!(s.scene.objects[0].visible);
    let anim_id = s.scene.animations[0].id.clone();
    s.selected_anim = Some(anim_id.clone());
    s.delete_animation(&anim_id);
    assert!(s.scene.animations.is_empty());
    assert!(s.selected_anim.is_none());
    s.delete_object(&id);
    assert!(s.scene.objects.is_empty());
    assert!(s.selected_obj.is_none());
    assert_eq!(s.history.len(), 1);
}

#[test]
fn view_presets_set_camera_angles() {
    let mut s = studio();
    s.set_view_preset(90.0, -90.0);
    assert_eq!(s.scene.camera_phi, 90.0);
    assert_eq!(s.scene.camera_theta, -90.0);
}

#[test]
fn render_outcomes() {
    let mut s = studio();
    s.finish_render(Ok("/out/videos/S/720p30/S.mp4".to_string()));
    assert!(matches!(&s.render_status, RenderStatus::Done(p) if p == "/out/videos/S/720p30/S.mp4"));
    assert!(!s.show_error_log);
    s.finish_render(Err("boom".to_string()));
    assert!(matches!(&s.render_status, RenderStatus::Error(m) if m == "boom"));
    assert!(s.show_error_log);
}

#[test]
fn quality_options_map_to_renderer() {
    assert_eq!(RenderQualityOpt::Low.to_renderer(), RenderQuality::Low);
    assert_eq!(RenderQualityOpt::Ultra.to_renderer(), RenderQuality::Ultra);
    assert_eq!(RenderQualityOpt::Medium.label(), "720p  (Medium)");
}

#[test]
fn new_object_copy_keeps_other_fields() {
    let o = ManimObject::new("X", ObjType::<f32>::Dot, look());
    assert_eq!(o.stroke_width, 2.0);
    assert_eq!(o.fill_opacity, 0.5);
}

#[test]
fn undo_after_delete_brings_the_object_back() {
    let mut s = studio();
    s.add_object(circle(), look(), 1.0);
    let before = s.scene.clone();
    s.delete_selected();
    assert!(s.scene.objects.is_empty());
    s.undo();
    assert_eq!(s.scene.objects, before.objects);
    assert_eq!(s.scene.animations.len(), before.animations.len());
    assert_eq!(s.scene.animations[0].id, before.animations[0].id);
}
