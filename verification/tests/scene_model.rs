use manim_studio::scene::{
    has_creation_anim, max_lane_for_object, AnimEntry, AnimType, Appearance, ManimObject, ObjType,
    PreviewEffect, RateFunc, Scene, SceneType, Timeline,
};

fn look() -> Appearance<f32> {
    Appearance {
        position: [0.0; 3],
        scale: 1.0,
        rotation: 0.0,
        color: [1.0, 1.0, 1.0],
        opacity: 1.0,
        fill_opacity: 1.0,
        stroke_width: 2.0,
    }
}

fn empty_scene() -> Scene<f32> {
    Scene {
        name: "MyScene".to_string(),
        objects: vec![],
        animations: vec![],
        timeline: Timeline { duration: 10.0, current_time: 0.0, fps: 60.0 },
        bg_color: [0.05, 0.05, 0.05],
        is_3d: false,
        camera_phi: 70.0,
        camera_theta: -45.0,
        require_latex: false,
        scene_type: SceneType::Scene,
    }
}

fn object(id: &str, name: &str, t: ObjType<f32>) -> ManimObject<f32> {
    let mut o = ManimObject::new(name, t, look());
    o.id = id.to_string();
    o
}

fn anim(id: &str, obj: &str, t: AnimType<f32>, lane: u32) -> AnimEntry<f32> {
    let mut a = AnimEntry::new_on_lane(obj, t, 0.0, 1.0, lane);
    a.id = id.to_string();
    a
}

#[test]
fn scene_type_labels_and_order() {
    let all = SceneType::all();
    let labels: Vec<&str> = all.iter().map(|t| t.label()).collect();
    assert_eq!(labels, vec!["Scene", "ThreeDScene", "MovingCameraScene", "ZoomedScene"]);
    assert_eq!(SceneType::default(), SceneType::Scene);
}

#[test]
fn rate_func_names_and_labels() {
    let all = RateFunc::all();
    assert_eq!(all.len(), 23);
    assert_eq!(all[0], RateFunc::Linear);
    assert_eq!(RateFunc::Smooth.name(), "smooth");
    assert_eq!(RateFunc::ThereAndBack.label(), "There & Back");
    assert_eq!(RateFunc::EaseInOutBounce.name(), "rate_functions.ease_in_out_bounce");
}

#[test]
fn object_type_names_icons_colors() {
    let c: ObjType<f32> = ObjType::Circle { radius: 1.0 };
    assert_eq!(c.name(), "Circle");
    assert_eq!(c.icon(), "⬤");
    assert_eq!(c.default_color_hundredths(), [22, 60, 95]);
    let p: ObjType<f32> = ObjType::PointCloudDot;
    assert_eq!(p.name(), "PointCloudDot");
    assert_eq!(p.icon(), "⁘");
    assert_eq!(p.default_color_hundredths(), [100, 100, 100]);
    let t: ObjType<f32> = ObjType::Text { content: "x".into(), font_size: 48.0 };
    assert_eq!(t.default_color_hundredths(), [100, 100, 100]);
}

#[test]
fn anim_type_tables() {
    let w: AnimType<f32> = AnimType::Write;
    assert_eq!(w.name(), "Write");
    assert_eq!(w.track_color(), [80, 150, 230]);
    assert_eq!(w.default_duration_tenths(), 20);
    let f: AnimType<f32> = AnimType::FadeIn;
    assert_eq!(f.default_duration_tenths(), 5);
    let t: AnimType<f32> = AnimType::Transform { target_id: "x".into() };
    assert_eq!(t.default_duration_tenths(), 15);
    assert_eq!(t.track_color(), [230, 160, 50]);
    let wait: AnimType<f32> = AnimType::Wait;
    assert_eq!(wait.track_color(), [80, 80, 80]);
}

#[test]
fn creation_kinds_and_preview_effects() {
    assert!(AnimType::<f32>::Create.is_creation());
    assert!(AnimType::<f32>::GrowFromPoint { point: [0.0; 3] }.is_creation());
    assert!(!AnimType::<f32>::FadeOut.is_creation());
    assert_eq!(AnimType::<f32>::VFadeIn.preview_effect(), PreviewEffect::Reveal);
    assert_eq!(AnimType::<f32>::GrowArrow.preview_effect(), PreviewEffect::Grow);
    assert_eq!(
        AnimType::Shift { dx: 1.0f32, dy: 2.0 }.preview_effect(),
        PreviewEffect::Shift { dx: 1.0, dy: 2.0 }
    );
    assert_eq!(
        AnimType::ScaleInPlace { factor: 3.0f32 }.preview_effect(),
        PreviewEffect::Scale { factor: 3.0 }
    );
    assert_eq!(AnimType::<f32>::Broadcast.preview_effect(), PreviewEffect::Pulse);
    assert_eq!(AnimType::<f32>::MoveCamera { phi: None, theta: None, zoom: None, frame_center: None }.preview_effect(), PreviewEffect::Unchanged);
}

#[test]
fn var_name_sanitises() {
    let o = object("1", "My Circle-2", ObjType::Dot);
    assert_eq!(o.var_name(), "my_circle_2");
    let u = object("2", "Größe", ObjType::Dot);
    assert_eq!(u.var_name(), "größe");
    assert_eq!(o.type_label(), "Dot");
    assert_eq!(o.icon(), "•");
}

#[test]
fn new_object_takes_look_and_fresh_id() {
    let o = ManimObject::new("A", ObjType::<f32>::Axes, look());
    assert_eq!(o.name, "A");
    assert!(o.visible);
    assert!(!o.id.is_empty());
    assert!(o.id.chars().all(|c| c.is_ascii_hexdigit() && !c.is_ascii_uppercase()));
    let a = AnimEntry::new("A", AnimType::<f32>::Create, 1.5, 1.0);
    assert_eq!(a.lane, 0);
    assert_eq!(a.rate_func, RateFunc::Smooth);
    assert_eq!(a.start_time, 1.5);
}

#[test]
fn lookup_and_names() {
    let mut s = empty_scene();
    s.add_object(object("a", "First", ObjType::Dot));
    s.add_object(object("b", "Second", ObjType::Dot));
    s.add_object(object("a", "Shadow", ObjType::Dot));
    assert_eq!(s.find_object("b"), Some(1));
    assert_eq!(s.get_object("a").unwrap().name, "First");
    assert_eq!(s.object_name("b"), "Second");
    assert_eq!(s.object_name("zz"), "Unknown");
    assert!(s.get_object("zz").is_none());
    s.get_object_mut("b").unwrap().name = "Renamed".into();
    assert_eq!(s.object_name("b"), "Renamed");
}

#[test]
fn remove_object_drops_its_animations() {
    let mut s = empty_scene();
    s.add_object(object("a", "A", ObjType::Dot));
    s.add_object(object("b", "B", ObjType::Dot));
    s.animations.push(anim("x1", "a", AnimType::Create, 0));
    s.animations.push(anim("x2", "b", AnimType::Create, 0));
    s.animations.push(anim("x3", "a", AnimType::FadeOut, 1));
    s.remove_object("a");
    assert_eq!(s.objects.len(), 1);
    assert_eq!(s.objects[0].id, "b");
    let ids: Vec<&str> = s.animations.iter().map(|a| a.id.as_str()).collect();
    assert_eq!(ids, vec!["x2"]);
    s.remove_animation("x2");
    assert!(s.animations.is_empty());
}

#[test]
fn max_lane_and_creation() {
    let anims = vec![
        anim("1", "a", AnimType::Create, 0),
        anim("2", "a", AnimType::Indicate, 3),
        anim("3", "b", AnimType::Wiggle, 7),
    ];
    assert_eq!(max_lane_for_object(&anims, "a"), 3);
    assert_eq!(max_lane_for_object(&anims, "b"), 7);
    assert_eq!(max_lane_for_object(&anims, "c"), 0);
    assert!(has_creation_anim(&anims, "a"));
    assert!(!has_creation_anim(&anims, "b"));
}

#[test]
fn deep_copies_keep_every_field() {
    let mut s = empty_scene();
    s.add_object(object("p", "Poly", ObjType::Polygon { points: vec![[0.0, 1.0], [2.0, 3.0]] }));
    s.add_object(object("l", "List", ObjType::BulletedList { items: vec!["a".into(), "b".into()] }));
    s.animations.push(anim("m", "p", AnimType::MoveAlongPath { path_points: vec![[1.0, 1.0]] }, 2));
    s.animations.push(anim("g", "l", AnimType::Succession { animations: vec!["x".into()] }, 0));
    let c = s.deep_copy();
    assert_eq!(c.name, s.name);
    assert_eq!(c.objects, s.objects);
    assert_eq!(c.animations.len(), 2);
    for (x, y) in c.animations.iter().zip(s.animations.iter()) {
        assert_eq!(x.id, y.id);
        assert_eq!(x.anim_type, y.anim_type);
        assert_eq!(x.lane, y.lane);
    }
    assert_eq!(s.objects[0].deep_copy(), s.objects[0]);
    assert_eq!(s.animations[0].anim_type.deep_copy(), s.animations[0].anim_type);
}
