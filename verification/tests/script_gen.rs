use manim_studio::codegen::{
    background_line, build_anim_arg, build_object_code, camera_line, generate, play_groups, play_line, wait_line,
    NumFormat, ObjectTweaks, ScriptParts, ANIMATIONS_HEADER, OBJECTS_HEADER,
};
use manim_studio::scene::{AnimEntry, AnimType, ManimObject, ObjType, Scene, SceneType, Timeline};

fn print_slots(slots: &[(f32, NumFormat)]) -> Vec<String> {
    slots
        .iter()
        .map(|(v, f)| match f {
            NumFormat::Plain => format!("{}", v),
            NumFormat::Fixed(k) => format!("{:.*}", *k as usize, v),
            NumFormat::FixedHalf(k) => format!("{:.*}", *k as usize, v / 2.0),
        })
        .collect()
}

fn object(id: &str, name: &str, t: ObjType<f32>) -> ManimObject<f32> {
    ManimObject {
        id: id.to_string(),
        name: name.to_string(),
        object_type: t,
        position: [0.0; 3],
        rotation: 0.0,
        scale: 1.0,
        color: [1.0, 0.5, 0.0],
        opacity: 1.0,
        fill_opacity: 0.5,
        stroke_width: 2.0,
        visible: true,
    }
}

fn no_tweaks() -> ObjectTweaks {
    ObjectTweaks { moved: false, scaled: false, rotated: false, faded: false }
}

fn code(o: &ManimObject<f32>, latex: bool, tweaks: &ObjectTweaks) -> String {
    let nums = print_slots(&o.object_number_slots());
    build_object_code(o, latex, &nums, tweaks)
}

fn scene(objects: Vec<ManimObject<f32>>, animations: Vec<AnimEntry<f32>>) -> Scene<f32> {
    Scene {
        name: "Demo".to_string(),
        objects,
        animations,
        timeline: Timeline { duration: 5.0, current_time: 0.0, fps: 60.0 },
        bg_color: [0.05, 0.05, 0.05],
        is_3d: false,
        camera_phi: 70.0,
        camera_theta: -45.0,
        require_latex: false,
        scene_type: SceneType::Scene,
    }
}

fn anim(obj: &str, t: AnimType<f32>) -> AnimEntry<f32> {
    let mut a = AnimEntry::new(obj, t, 0.0, 1.0);
    a.id = "a".to_string();
    a
}

fn arg(a: &AnimEntry<f32>, s: &Scene<f32>) -> String {
    let nums = print_slots(&a.anim_type.anim_number_slots());
    build_anim_arg(a, s, &nums)
}

#[test]
fn circle_code() {
    let o = object("c", "Circle 1", ObjType::Circle { radius: 1.5 });
    assert_eq!(
        code(&o, false, &no_tweaks()),
        "        circle_1 = Circle(radius=1.5, color=rgb_to_color((1.000, 0.500, 0.000)), fill_opacity=0.50)"
    );
}

#[test]
fn triangle_scales_by_half_its_side() {
    let o = object("t", "Tri", ObjType::Triangle { side_length: 3.0 });
    assert_eq!(
        code(&o, false, &no_tweaks()),
        "        tri = Triangle(color=rgb_to_color((1.000, 0.500, 0.000)), fill_opacity=0.50).scale(1.500)"
    );
}

#[test]
fn text_is_escaped() {
    let o = object("t", "Label", ObjType::Text { content: "say \"hi\"\nnow".to_string(), font_size: 48.0 });
    assert_eq!(
        code(&o, false, &no_tweaks()),
        "        label = Text(\"say \\\"hi\\\"\\nnow\", font_size=48, color=rgb_to_color((1.000, 0.500, 0.000)))"
    );
}

#[test]
fn math_tex_with_and_without_latex() {
    let o = object("m", "Eq", ObjType::MathTex { content: "a\"b".to_string() });
    assert_eq!(
        code(&o, true, &no_tweaks()),
        "        eq = MathTex(r\"a\"b\", color=rgb_to_color((1.000, 0.500, 0.000)))"
    );
    assert_eq!(
        code(&o, false, &no_tweaks()),
        "        eq = Text(r\"a\\\"b\", color=rgb_to_color((1.000, 0.500, 0.000)))  # MathTex fallback (LaTeX not required)"
    );
}

#[test]
fn polygon_and_bar_chart_lists() {
    let o = object("p", "P", ObjType::Polygon { points: vec![[0.0, 0.0], [1.0, 0.0], [0.0, 1.0]] });
    assert_eq!(
        code(&o, false, &no_tweaks()),
        "        p = Polygon([0.00, 0.00, 0], [1.00, 0.00, 0], [0.00, 1.00, 0], color=rgb_to_color((1.000, 0.500, 0.000)), fill_opacity=0.50)"
    );
    let b = object("b", "B", ObjType::BarChart { values: vec![1.0, 2.5], bar_width: 0.5 });
    assert_eq!(
        code(&b, false, &no_tweaks()),
        "        b = BarChart(values=[1.00, 2.50], bar_width=0.5, bar_colors=[rgb_to_color((1.000, 0.500, 0.000))])"
    );
}

#[test]
fn number_plane_and_integer() {
    let o = object("n", "Grid", ObjType::NumberPlane);
    assert_eq!(code(&o, false, &no_tweaks()), "        grid = NumberPlane()");
    let i = object("i", "I", ObjType::Integer { number: -42 });
    assert_eq!(
        code(&i, false, &no_tweaks()),
        "        i = Integer(-42, color=rgb_to_color((1.000, 0.500, 0.000)))"
    );
}

#[test]
fn kinds_without_their_own_code_get_a_colour_call() {
    let o = object("d", "D", ObjType::Dodecahedron { radius: 1.0 });
    assert_eq!(
        code(&o, false, &no_tweaks()),
        "        d = Dodecahedron(color=rgb_to_color((1.000, 0.500, 0.000)))"
    );
}

#[test]
fn adjustments_follow_the_constructor() {
    let mut o = object("c", "C", ObjType::Dot);
    o.position = [1.0, 2.0, 0.0];
    o.scale = 2.0;
    o.rotation = 45.0;
    o.opacity = 0.5;
    let all = ObjectTweaks { moved: true, scaled: true, rotated: true, faded: true };
    assert_eq!(
        code(&o, false, &all),
        "        c = Dot(color=rgb_to_color((1.000, 0.500, 0.000)))\n        c.move_to(np.array([1.000, 2.000, 0.000]))\n        c.scale(2.000)\n        c.rotate(45*DEGREES)\n        c.set_opacity(0.500)"
    );
    let some = ObjectTweaks { moved: false, scaled: false, rotated: true, faded: false };
    assert_eq!(
        code(&o, false, &some),
        "        c = Dot(color=rgb_to_color((1.000, 0.500, 0.000)))\n        c.rotate(45*DEGREES)"
    );
}

#[test]
fn animation_arguments() {
    let s = scene(
        vec![object("c", "Circle_1", ObjType::Dot), object("q", "Square_1", ObjType::Dot)],
        vec![],
    );
    assert_eq!(arg(&anim("c", AnimType::Create), &s), "Create(circle_1)");
    assert_eq!(
        arg(&anim("c", AnimType::Shift { dx: 1.0, dy: -0.5 }), &s),
        "circle_1.animate.shift(np.array([1.00, -0.50, 0]))"
    );
    assert_eq!(arg(&anim("c", AnimType::Rotate { angle: 90.0 }), &s), "circle_1.animate.rotate(90*DEGREES)");
    assert_eq!(
        arg(&anim("c", AnimType::Transform { target_id: "q".to_string() }), &s),
        "Transform(circle_1, square_1)"
    );
    assert_eq!(
        arg(&anim("c", AnimType::Transform { target_id: "zz".to_string() }), &s),
        "Transform(circle_1, target)"
    );
    assert_eq!(arg(&anim("gone", AnimType::FadeOut), &s), "FadeOut(obj)");
    assert_eq!(arg(&anim("c", AnimType::Wait), &s), "Wait()  # should use self.wait() instead");
    assert_eq!(
        arg(&anim("c", AnimType::Succession { animations: vec!["A".to_string(), "B".to_string()] }), &s),
        "Succession(A, B)"
    );
    assert_eq!(
        arg(&anim("c", AnimType::MoveAlongPath { path_points: vec![[0.0, 1.0], [2.0, 3.0]] }), &s),
        "MoveAlongPath(circle_1, VMobject().set_points_as_corners([[0.00, 1.00, 0], [2.00, 3.00, 0]]))"
    );
    assert_eq!(arg(&anim("c", AnimType::UpdateFromAlphaFunc), &s), "UpdateFromAlphaFunc(circle_1)");
}

#[test]
fn script_lines_helpers() {
    assert_eq!(
        background_line("0.10", "0.20", "0.30"),
        "        self.camera.background_color = rgb_to_color((0.10, 0.20, 0.30))"
    );
    assert_eq!(camera_line("70", "-45"), "        self.set_camera_orientation(phi=70*DEGREES, theta=-45*DEGREES)");
    assert_eq!(wait_line("1.50"), "        self.wait(1.50)");
    assert_eq!(
        play_line(&vec!["Create(a)".to_string(), "FadeIn(b)".to_string()], "2.00", "smooth"),
        "        self.play(Create(a), FadeIn(b), run_time=2.00, rate_func=smooth)"
    );
}

#[test]
fn empty_scene_script() {
    let s = scene(vec![], vec![]);
    let parts = ScriptParts {
        background: None,
        camera_phi: "70".to_string(),
        camera_theta: "-45".to_string(),
        object_numbers: vec![],
        object_tweaks: vec![],
        animation_lines: vec![],
    };
    assert_eq!(generate(&s, &parts), "from manim import *\n\nclass Demo(Scene):\n    def construct(self):\n");
}

#[test]
fn full_script() {
    let o = object("c", "Circle_1", ObjType::Circle { radius: 1.0 });
    let nums = print_slots(&o.object_number_slots());
    let a = anim("c", AnimType::Create);
    let mut s = scene(vec![o], vec![a]);
    s.is_3d = true;
    s.scene_type = SceneType::ThreeDScene;
    let play = play_line(&vec![arg(&s.animations[0], &s)], "1.00", "smooth");
    let parts = ScriptParts {
        background: Some(background_line("0.10", "0.20", "0.30")),
        camera_phi: "70".to_string(),
        camera_theta: "-45".to_string(),
        object_numbers: vec![nums],
        object_tweaks: vec![no_tweaks()],
        animation_lines: vec![play, wait_line("4.00")],
    };
    let expected = [
        "from manim import *",
        "",
        "class Demo(ThreeDScene):",
        "    def construct(self):",
        "        self.camera.background_color = rgb_to_color((0.10, 0.20, 0.30))",
        "        self.set_camera_orientation(phi=70*DEGREES, theta=-45*DEGREES)",
        "",
        OBJECTS_HEADER,
        "        circle_1 = Circle(radius=1, color=rgb_to_color((1.000, 0.500, 0.000)), fill_opacity=0.50)",
        "",
        ANIMATIONS_HEADER,
        "        self.play(Create(circle_1), run_time=1.00, rate_func=smooth)",
        "        self.wait(4.00)",
        "",
    ]
    .join("\n");
    assert_eq!(generate(&s, &parts), expected);
}

#[test]
fn simultaneous_animations_are_grouped() {
    let starts = [0.0f32, 0.005, 1.0, 1.0, 2.0];
    let same = |j: usize, i: usize| (starts[j] - starts[i]).abs() < 0.01;
    assert_eq!(play_groups(5, same), vec![(0, 2), (2, 4), (4, 5)]);
    assert!(play_groups(0, same).is_empty());
    let never = |_: usize, _: usize| false;
    assert_eq!(play_groups(3, never), vec![(0, 1), (1, 2), (2, 3)]);
}

#[test]
fn class_follows_the_scene_type() {
    let mut s = scene(vec![], vec![]);
    s.scene_type = SceneType::MovingCameraScene;
    let parts = ScriptParts {
        background: None,
        camera_phi: "70".to_string(),
        camera_theta: "-45".to_string(),
        object_numbers: vec![],
        object_tweaks: vec![],
        animation_lines: vec![],
    };
    let script = generate(&s, &parts);
    assert_eq!(script.lines().nth(2), Some("class Demo(MovingCameraScene):"));
    s.scene_type = SceneType::ZoomedScene;
    assert_eq!(generate(&s, &parts).lines().nth(2), Some("class Demo(ZoomedScene):"));
}

#[test]
fn variables_are_safe_python_names() {
    let s = scene(
        vec![object("a", "1st", ObjType::Dot), object("b", "", ObjType::Dot), object("c", "Class", ObjType::Dot)],
        vec![],
    );
    assert_eq!(s.objects[0].var_name(), "_1st");
    assert_eq!(s.objects[1].var_name(), "_");
    assert_eq!(s.objects[2].var_name(), "_class");
    assert_eq!(arg(&anim("a", AnimType::Create), &s), "Create(_1st)");
    assert_eq!(
        code(&s.objects[2], false, &no_tweaks()),
        "        _class = Dot(color=rgb_to_color((1.000, 0.500, 0.000)))"
    );
}
