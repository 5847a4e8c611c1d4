//! The scene model: what a scene holds (objects, animations, timeline) and
//! what can be read off it without arithmetic on coordinates or times.
//!
//! Every coordinate, size, time and colour channel has the type parameter `N`;
//! the model stores and moves such values but never computes with them.

use vstd::prelude::*;
use vstd::string::StringExecFns;
use crate::text::{to_variable_name, variable_name};
use crate::ids::{is_clock_id, new_id};

verus! {

// ─── Scene type ─────────────────────────────────────────────────────────────

/// Scene type determines the base class in generated code.
#[derive(Debug, Clone, Copy, PartialEq, Eq, Structural)]
pub enum SceneType {
    /// Standard Scene
    Scene,
    /// ThreeDScene: 3-D camera support
    ThreeDScene,
    /// MovingCameraScene: allows camera movement
    MovingCameraScene,
    /// ZoomedScene: supports inset zoomed views
    ZoomedScene,
}

impl Default for SceneType {
    fn default() -> (r: Self)
        ensures
            r == SceneType::Scene,
    {
        SceneType::Scene
    }
}

/// The Python base class that the scene type names.
pub open spec fn scene_type_label(t: SceneType) -> Seq<char> {
    match t {
        SceneType::Scene => "Scene"@,
        SceneType::ThreeDScene => "ThreeDScene"@,
        SceneType::MovingCameraScene => "MovingCameraScene"@,
        SceneType::ZoomedScene => "ZoomedScene"@,
    }
}

impl SceneType {
    pub fn label(&self) -> (r: &'static str)
        ensures
            r@ == scene_type_label(*self),
    {
        match self {
            SceneType::Scene => "Scene",
            SceneType::ThreeDScene => "ThreeDScene",
            SceneType::MovingCameraScene => "MovingCameraScene",
            SceneType::ZoomedScene => "ZoomedScene",
        }
    }

    /// Every scene type, in menu order.
    pub fn all() -> (r: Vec<SceneType>)
        ensures
            r@ == seq![SceneType::Scene, SceneType::ThreeDScene, SceneType::MovingCameraScene, SceneType::ZoomedScene],
    {
        let mut v: Vec<SceneType> = Vec::new();
        v.push(SceneType::Scene);
        v.push(SceneType::ThreeDScene);
        v.push(SceneType::MovingCameraScene);
        v.push(SceneType::ZoomedScene);
        v
    }
}

// ─── Object types ───────────────────────────────────────────────────────────

/// The kind of a scene object, with its shape parameters.
#[derive(Debug, Clone, PartialEq)]
pub enum ObjType<N> {
    Circle { radius: N },
    Square { side_length: N },
    Rectangle { width: N, height: N },
    Triangle { side_length: N },
    Text { content: String, font_size: N },
    MathTex { content: String },
    Line { start: [N; 3], end: [N; 3] },
    Arrow { start: [N; 3], end: [N; 3] },
    Dot,
    Sphere { radius: N },
    Cube { side_length: N },
    Cylinder { radius: N, height: N },
    Axes,
    NumberPlane,
    Polygon { points: Vec<[N; 2]> },
    Arc { radius: N, start_angle: N, angle: N },
    ArcBetweenPoints { start: [N; 3], end: [N; 3], angle: N },
    Ellipse { width: N, height: N },
    Annulus { inner_radius: N, outer_radius: N },
    Sector { radius: N, start_angle: N, angle: N },
    RegularPolygon { n: u32, radius: N },
    Star { n: u32, outer_radius: N, inner_radius: N },
    RoundedRectangle { width: N, height: N, corner_radius: N },
    DashedLine { start: [N; 3], end: [N; 3], dash_length: N },
    DoubleArrow { start: [N; 3], end: [N; 3] },
    Vector { direction: [N; 3] },
    CurvedArrow { start: [N; 3], end: [N; 3] },
    CurvedDoubleArrow { start: [N; 3], end: [N; 3] },
    Elbow,
    TangentLine { length: N, angle: N },
    Brace { direction: [N; 3], length: N },
    BraceBetweenPoints { start: [N; 3], end: [N; 3] },
    BraceLabel { direction: [N; 3], length: N, label: String },
    Angle { radius: N, start_angle: N, angle: N },
    RightAngle { size: N },
    LabeledDot { label: String, radius: N },
    LabeledLine { label: String, start: [N; 3], end: [N; 3] },
    SurroundingRectangle { buff: N },
    BackgroundRectangle,
    Underline,
    Cross { scale: N },
    NumberLine { x_min: N, x_max: N, step: N },
    BarChart { values: Vec<N>, bar_width: N },
    FunctionGraph { expression: String, x_min: N, x_max: N },
    ParametricFunction { expression: String, t_min: N, t_max: N },
    ImplicitFunction { expression: String },
    ComplexPlane,
    PolarPlane,
    CoordinateSystem,
    Title { content: String },
    MarkupText { content: String },
    BulletedList { items: Vec<String> },
    Paragraph { content: String },
    Code { code: String, language: String },
    Table { rows: u32, cols: u32 },
    Matrix { rows: u32, cols: u32 },
    DecimalNumber { number: N, num_decimal_places: u32 },
    Integer { number: i32 },
    VGroup { children: Vec<String> },
    Dot3D,
    Cone { radius: N, height: N },
    Torus { major_radius: N, minor_radius: N },
    Prism { width: N, height: N, depth: N },
    Arrow3D { start: [N; 3], end: [N; 3] },
    Line3D { start: [N; 3], end: [N; 3] },
    Surface,
    Icosahedron { radius: N },
    Dodecahedron { radius: N },
    TracedPath,
    PointCloudDot,
}

/// The class name of the variant, as the Python library spells it.
pub open spec fn obj_type_name<N>(t: ObjType<N>) -> Seq<char> {
    match t {
        ObjType::Circle { .. } => "Circle"@,
        ObjType::Square { .. } => "Square"@,
        ObjType::Rectangle { .. } => "Rectangle"@,
        ObjType::Triangle { .. } => "Triangle"@,
        ObjType::Text { .. } => "Text"@,
        ObjType::MathTex { .. } => "MathTex"@,
        ObjType::Line { .. } => "Line"@,
        ObjType::Arrow { .. } => "Arrow"@,
        ObjType::Dot => "Dot"@,
        ObjType::Sphere { .. } => "Sphere"@,
        ObjType::Cube { .. } => "Cube"@,
        ObjType::Cylinder { .. } => "Cylinder"@,
        ObjType::Axes => "Axes"@,
        ObjType::NumberPlane => "NumberPlane"@,
        ObjType::Polygon { .. } => "Polygon"@,
        ObjType::Arc { .. } => "Arc"@,
        ObjType::ArcBetweenPoints { .. } => "ArcBetweenPoints"@,
        ObjType::Ellipse { .. } => "Ellipse"@,
        ObjType::Annulus { .. } => "Annulus"@,
        ObjType::Sector { .. } => "Sector"@,
        ObjType::RegularPolygon { .. } => "RegularPolygon"@,
        ObjType::Star { .. } => "Star"@,
        ObjType::RoundedRectangle { .. } => "RoundedRectangle"@,
        ObjType::DashedLine { .. } => "DashedLine"@,
        ObjType::DoubleArrow { .. } => "DoubleArrow"@,
        ObjType::Vector { .. } => "Vector"@,
        ObjType::CurvedArrow { .. } => "CurvedArrow"@,
        ObjType::CurvedDoubleArrow { .. } => "CurvedDoubleArrow"@,
        ObjType::Elbow => "Elbow"@,
        ObjType::TangentLine { .. } => "TangentLine"@,
        ObjType::Brace { .. } => "Brace"@,
        ObjType::BraceBetweenPoints { .. } => "BraceBetweenPoints"@,
        ObjType::BraceLabel { .. } => "BraceLabel"@,
        ObjType::Angle { .. } => "Angle"@,
        ObjType::RightAngle { .. } => "RightAngle"@,
        ObjType::LabeledDot { .. } => "LabeledDot"@,
        ObjType::LabeledLine { .. } => "LabeledLine"@,
        ObjType::SurroundingRectangle { .. } => "SurroundingRectangle"@,
        ObjType::BackgroundRectangle => "BackgroundRectangle"@,
        ObjType::Underline => "Underline"@,
        ObjType::Cross { .. } => "Cross"@,
        ObjType::NumberLine { .. } => "NumberLine"@,
        ObjType::BarChart { .. } => "BarChart"@,
        ObjType::FunctionGraph { .. } => "FunctionGraph"@,
        ObjType::ParametricFunction { .. } => "ParametricFunction"@,
        ObjType::ImplicitFunction { .. } => "ImplicitFunction"@,
        ObjType::ComplexPlane => "ComplexPlane"@,
        ObjType::PolarPlane => "PolarPlane"@,
        ObjType::CoordinateSystem => "CoordinateSystem"@,
        ObjType::Title { .. } => "Title"@,
        ObjType::MarkupText { .. } => "MarkupText"@,
        ObjType::BulletedList { .. } => "BulletedList"@,
        ObjType::Paragraph { .. } => "Paragraph"@,
        ObjType::Code { .. } => "Code"@,
        ObjType::Table { .. } => "Table"@,
        ObjType::Matrix { .. } => "Matrix"@,
        ObjType::DecimalNumber { .. } => "DecimalNumber"@,
        ObjType::Integer { .. } => "Integer"@,
        ObjType::VGroup { .. } => "VGroup"@,
        ObjType::Dot3D => "Dot3D"@,
        ObjType::Cone { .. } => "Cone"@,
        ObjType::Torus { .. } => "Torus"@,
        ObjType::Prism { .. } => "Prism"@,
        ObjType::Arrow3D { .. } => "Arrow3D"@,
        ObjType::Line3D { .. } => "Line3D"@,
        ObjType::Surface => "Surface"@,
        ObjType::Icosahedron { .. } => "Icosahedron"@,
        ObjType::Dodecahedron { .. } => "Dodecahedron"@,
        ObjType::TracedPath => "TracedPath"@,
        ObjType::PointCloudDot => "PointCloudDot"@,
    }
}

/// The glyph that stands for the variant in lists and menus.
pub open spec fn obj_type_icon<N>(t: ObjType<N>) -> Seq<char> {
    match t {
        ObjType::Circle { .. } => "⬤"@,
        ObjType::Square { .. } => "■"@,
        ObjType::Rectangle { .. } => "▬"@,
        ObjType::Triangle { .. } => "▲"@,
        ObjType::Text { .. } => "T"@,
        ObjType::MathTex { .. } => "∑"@,
        ObjType::Line { .. } => "╱"@,
        ObjType::Arrow { .. } => "→"@,
        ObjType::Dot => "•"@,
        ObjType::Sphere { .. } => "◉"@,
        ObjType::Cube { .. } => "▣"@,
        ObjType::Cylinder { .. } => "⊡"@,
        ObjType::Axes => "⊞"@,
        ObjType::NumberPlane => "⊟"@,
        ObjType::Polygon { .. } => "⬡"@,
        ObjType::Arc { .. } => "⌒"@,
        ObjType::ArcBetweenPoints { .. } => "⌒"@,
        ObjType::Ellipse { .. } => "⬮"@,
        ObjType::Annulus { .. } => "◎"@,
        ObjType::Sector { .. } => "◔"@,
        ObjType::RegularPolygon { .. } => "⬡"@,
        ObjType::Star { .. } => "★"@,
        ObjType::RoundedRectangle { .. } => "▢"@,
        ObjType::DashedLine { .. } => "┄"@,
        ObjType::DoubleArrow { .. } => "↔"@,
        ObjType::Vector { .. } => "⇀"@,
        ObjType::CurvedArrow { .. } => "↷"@,
        ObjType::CurvedDoubleArrow { .. } => "⇌"@,
        ObjType::Elbow => "∟"@,
        ObjType::TangentLine { .. } => "⟋"@,
        ObjType::Brace { .. } => "⏞"@,
        ObjType::BraceBetweenPoints { .. } => "⏞"@,
        ObjType::BraceLabel { .. } => "⏞"@,
        ObjType::Angle { .. } => "∠"@,
        ObjType::RightAngle { .. } => "∟"@,
        ObjType::LabeledDot { .. } => "◉"@,
        ObjType::LabeledLine { .. } => "╱"@,
        ObjType::SurroundingRectangle { .. } => "▭"@,
        ObjType::BackgroundRectangle => "▬"@,
        ObjType::Underline => "▁"@,
        ObjType::Cross { .. } => "✕"@,
        ObjType::NumberLine { .. } => "├"@,
        ObjType::BarChart { .. } => "📊"@,
        ObjType::FunctionGraph { .. } => "ƒ"@,
        ObjType::ParametricFunction { .. } => "γ"@,
        ObjType::ImplicitFunction { .. } => "≡"@,
        ObjType::ComplexPlane => "ℂ"@,
        ObjType::PolarPlane => "◎"@,
        ObjType::CoordinateSystem => "⊞"@,
        ObjType::Title { .. } => "H"@,
        ObjType::MarkupText { .. } => "M"@,
        ObjType::BulletedList { .. } => "•"@,
        ObjType::Paragraph { .. } => "¶"@,
        ObjType::Code { .. } => "<>"@,
        ObjType::Table { .. } => "⊞"@,
        ObjType::Matrix { .. } => "[]"@,
        ObjType::DecimalNumber { .. } => "🔢"@,
        ObjType::Integer { .. } => "🔢"@,
        ObjType::VGroup { .. } => "⊕"@,
        ObjType::Dot3D => "•"@,
        ObjType::Cone { .. } => "▲"@,
        ObjType::Torus { .. } => "◍"@,
        ObjType::Prism { .. } => "▱"@,
        ObjType::Arrow3D { .. } => "➜"@,
        ObjType::Line3D { .. } => "╱"@,
        ObjType::Surface => "🌊"@,
        ObjType::Icosahedron { .. } => "⬡"@,
        ObjType::Dodecahedron { .. } => "⬡"@,
        ObjType::TracedPath => "~"@,
        ObjType::PointCloudDot => "⁘"@,
    }
}

/// The class name of the variant, as the Python library spells it.
pub open spec fn anim_type_name<N>(t: AnimType<N>) -> Seq<char> {
    match t {
        AnimType::Create => "Create"@,
        AnimType::Uncreate => "Uncreate"@,
        AnimType::Write => "Write"@,
        AnimType::FadeIn => "FadeIn"@,
        AnimType::FadeOut => "FadeOut"@,
        AnimType::GrowFromCenter => "GrowFromCenter"@,
        AnimType::DrawBorderThenFill => "DrawBorderThenFill"@,
        AnimType::SpinInFromNothing => "SpinInFromNothing"@,
        AnimType::GrowFromPoint { .. } => "GrowFromPoint"@,
        AnimType::GrowFromEdge { .. } => "GrowFromEdge"@,
        AnimType::GrowArrow => "GrowArrow"@,
        AnimType::SpiralIn => "SpiralIn"@,
        AnimType::FadeInFromPoint { .. } => "FadeInFromPoint"@,
        AnimType::FadeInFrom { .. } => "FadeInFrom"@,
        AnimType::FadeOutToPoint { .. } => "FadeOutToPoint"@,
        AnimType::FadeOutAndShift { .. } => "FadeOutAndShift"@,
        AnimType::VFadeIn => "VFadeIn"@,
        AnimType::VFadeOut => "VFadeOut"@,
        AnimType::ShowCreationThenFadeOut => "ShowCreationThenFadeOut"@,
        AnimType::AddTextLetterByLetter => "AddTextLetterByLetter"@,
        AnimType::RemoveTextLetterByLetter => "RemoveTextLetterByLetter"@,
        AnimType::Unwrite => "Unwrite"@,
        AnimType::ShrinkToCenter => "ShrinkToCenter"@,
        AnimType::Shift { .. } => "Shift"@,
        AnimType::MoveTo { .. } => "MoveTo"@,
        AnimType::MoveAlongPath { .. } => "MoveAlongPath"@,
        AnimType::Rotate { .. } => "Rotate"@,
        AnimType::Scale { .. } => "Scale"@,
        AnimType::ScaleInPlace { .. } => "ScaleInPlace"@,
        AnimType::Transform { .. } => "Transform"@,
        AnimType::FadeTransform { .. } => "FadeTransform"@,
        AnimType::ReplacementTransform { .. } => "ReplacementTransform"@,
        AnimType::TransformFromCopy { .. } => "TransformFromCopy"@,
        AnimType::CounterclockwiseTransform { .. } => "CounterclockwiseTransform"@,
        AnimType::ClockwiseTransform { .. } => "ClockwiseTransform"@,
        AnimType::CyclicReplace { .. } => "CyclicReplace"@,
        AnimType::Swap { .. } => "Swap"@,
        AnimType::ApplyMethod { .. } => "ApplyMethod"@,
        AnimType::Restore => "Restore"@,
        AnimType::ChangeDecimalToValue { .. } => "ChangeDecimalToValue"@,
        AnimType::Flash => "Flash"@,
        AnimType::Indicate => "Indicate"@,
        AnimType::Wiggle => "Wiggle"@,
        AnimType::ApplyWave => "ApplyWave"@,
        AnimType::Circumscribe => "Circumscribe"@,
        AnimType::ShowPassingFlash => "ShowPassingFlash"@,
        AnimType::FocusOn => "FocusOn"@,
        AnimType::Broadcast => "Broadcast"@,
        AnimType::ShowIncreasingSubsets => "ShowIncreasingSubsets"@,
        AnimType::ShowSubmobjectsOneByOne => "ShowSubmobjectsOneByOne"@,
        AnimType::AnimatedBoundary => "AnimatedBoundary"@,
        AnimType::MoveCamera { .. } => "MoveCamera"@,
        AnimType::CameraRotate { .. } => "CameraRotate"@,
        AnimType::CameraZoom { .. } => "CameraZoom"@,
        AnimType::CameraPan { .. } => "CameraPan"@,
        AnimType::Succession { .. } => "Succession"@,
        AnimType::AnimationGroup { .. } => "AnimationGroup"@,
        AnimType::LaggedStart { .. } => "LaggedStart"@,
        AnimType::LaggedStartMap { .. } => "LaggedStartMap"@,
        AnimType::Wait => "Wait"@,
        AnimType::Homotopy => "Homotopy"@,
        AnimType::PhaseFlow => "PhaseFlow"@,
        AnimType::UpdateFromFunc => "UpdateFromFunc"@,
        AnimType::UpdateFromAlphaFunc => "UpdateFromAlphaFunc"@,
    }
}

/// The colour, as red, green and blue bytes, of a block of this kind on the timeline.
pub open spec fn anim_type_track_color<N>(t: AnimType<N>) -> [u8; 3] {
    match t {
        AnimType::Create | AnimType::GrowFromCenter | AnimType::DrawBorderThenFill | AnimType::SpinInFromNothing | AnimType::GrowFromPoint { .. } | AnimType::GrowFromEdge { .. } | AnimType::GrowArrow | AnimType::SpiralIn | AnimType::ShowCreationThenFadeOut => [60, 180, 100],
        AnimType::Write | AnimType::Unwrite | AnimType::AddTextLetterByLetter | AnimType::RemoveTextLetterByLetter => [80, 150, 230],
        AnimType::FadeOut | AnimType::Uncreate | AnimType::ShrinkToCenter | AnimType::FadeOutToPoint { .. } | AnimType::FadeOutAndShift { .. } | AnimType::VFadeOut => [200, 80, 80],
        AnimType::FadeIn | AnimType::FadeInFromPoint { .. } | AnimType::FadeInFrom { .. } | AnimType::VFadeIn => [80, 180, 220],
        AnimType::Rotate { .. } | AnimType::Scale { .. } | AnimType::ScaleInPlace { .. } | AnimType::Shift { .. } | AnimType::MoveTo { .. } | AnimType::MoveAlongPath { .. } | AnimType::Homotopy | AnimType::PhaseFlow => [180, 100, 230],
        AnimType::Transform { .. } | AnimType::FadeTransform { .. } | AnimType::ReplacementTransform { .. } | AnimType::TransformFromCopy { .. } | AnimType::CounterclockwiseTransform { .. } | AnimType::ClockwiseTransform { .. } | AnimType::CyclicReplace { .. } | AnimType::Swap { .. } | AnimType::ApplyMethod { .. } | AnimType::Restore | AnimType::ChangeDecimalToValue { .. } => [230, 160, 50],
        AnimType::Flash | AnimType::Indicate | AnimType::Wiggle | AnimType::ApplyWave | AnimType::Circumscribe | AnimType::ShowPassingFlash | AnimType::FocusOn | AnimType::Broadcast | AnimType::ShowIncreasingSubsets | AnimType::ShowSubmobjectsOneByOne | AnimType::AnimatedBoundary => [230, 220, 50],
        AnimType::MoveCamera { .. } | AnimType::CameraRotate { .. } | AnimType::CameraZoom { .. } | AnimType::CameraPan { .. } => [100, 200, 200],
        AnimType::Succession { .. } | AnimType::AnimationGroup { .. } | AnimType::LaggedStart { .. } | AnimType::LaggedStartMap { .. } => [140, 140, 180],
        AnimType::Wait => [80, 80, 80],
        AnimType::UpdateFromFunc | AnimType::UpdateFromAlphaFunc => [180, 140, 100],
    }
}


/// The colour a new object of kind `t` gets: red, green and blue in hundredths.
pub open spec fn default_color_hundredths<N>(t: ObjType<N>) -> [u8; 3] {
    match t {
        ObjType::Circle { .. } => [22, 60, 95],
        ObjType::Square { .. } => [95, 30, 30],
        ObjType::Rectangle { .. } => [30, 85, 40],
        ObjType::Triangle { .. } => [95, 80, 15],
        ObjType::Sphere { .. } => [55, 55, 95],
        ObjType::Cube { .. } => [85, 45, 85],
        ObjType::Cylinder { .. } => [45, 85, 85],
        ObjType::NumberPlane => [30, 40, 90],
        ObjType::Ellipse { .. } => [40, 75, 95],
        ObjType::Annulus { .. } => [80, 50, 30],
        ObjType::RegularPolygon { .. } => [70, 90, 30],
        ObjType::Star { .. } => [95, 85, 20],
        ObjType::RoundedRectangle { .. } => [30, 85, 40],
        ObjType::Cone { .. } => [90, 65, 30],
        ObjType::Torus { .. } => [65, 40, 90],
        ObjType::Prism { .. } => [80, 50, 70],
        ObjType::BarChart { .. } => [30, 70, 90],
        ObjType::FunctionGraph { .. } => [20, 80, 60],
        ObjType::ParametricFunction { .. } => [60, 40, 90],
        ObjType::ComplexPlane => [30, 40, 90],
        ObjType::PolarPlane => [30, 40, 90],
        ObjType::CoordinateSystem => [30, 40, 90],
        ObjType::Title { .. } => [100, 100, 100],
        ObjType::Table { .. } => [80, 80, 80],
        ObjType::Matrix { .. } => [80, 80, 80],
        ObjType::Code { .. } => [90, 90, 90],
        ObjType::BulletedList { .. } => [100, 100, 100],
        ObjType::CurvedArrow { .. } | ObjType::CurvedDoubleArrow { .. } => [100, 100, 100],
        ObjType::Icosahedron { .. } => [55, 70, 95],
        ObjType::Dodecahedron { .. } => [70, 55, 95],
        ObjType::LabeledDot { .. } => [22, 60, 95],
        ObjType::SurroundingRectangle { .. } => [95, 80, 15],
        ObjType::Cross { .. } => [95, 30, 30],
        _ => [100, 100, 100],
    }
}

impl<N> ObjType<N> {
    /// The colour a new object of this kind gets: red, green and blue in hundredths.
    pub fn default_color_hundredths(&self) -> (r: [u8; 3])
        ensures
            r == default_color_hundredths(*self),
    {
        match self {
            ObjType::Circle { .. } => [22, 60, 95],
            ObjType::Square { .. } => [95, 30, 30],
            ObjType::Rectangle { .. } => [30, 85, 40],
            ObjType::Triangle { .. } => [95, 80, 15],
            ObjType::Sphere { .. } => [55, 55, 95],
            ObjType::Cube { .. } => [85, 45, 85],
            ObjType::Cylinder { .. } => [45, 85, 85],
            ObjType::NumberPlane => [30, 40, 90],
            ObjType::Ellipse { .. } => [40, 75, 95],
            ObjType::Annulus { .. } => [80, 50, 30],
            ObjType::RegularPolygon { .. } => [70, 90, 30],
            ObjType::Star { .. } => [95, 85, 20],
            ObjType::RoundedRectangle { .. } => [30, 85, 40],
            ObjType::Cone { .. } => [90, 65, 30],
            ObjType::Torus { .. } => [65, 40, 90],
            ObjType::Prism { .. } => [80, 50, 70],
            ObjType::BarChart { .. } => [30, 70, 90],
            ObjType::FunctionGraph { .. } => [20, 80, 60],
            ObjType::ParametricFunction { .. } => [60, 40, 90],
            ObjType::ComplexPlane => [30, 40, 90],
            ObjType::PolarPlane => [30, 40, 90],
            ObjType::CoordinateSystem => [30, 40, 90],
            ObjType::Title { .. } => [100, 100, 100],
            ObjType::Table { .. } => [80, 80, 80],
            ObjType::Matrix { .. } => [80, 80, 80],
            ObjType::Code { .. } => [90, 90, 90],
            ObjType::BulletedList { .. } => [100, 100, 100],
            ObjType::CurvedArrow { .. } | ObjType::CurvedDoubleArrow { .. } => [100, 100, 100],
            ObjType::Icosahedron { .. } => [55, 70, 95],
            ObjType::Dodecahedron { .. } => [70, 55, 95],
            ObjType::LabeledDot { .. } => [22, 60, 95],
            ObjType::SurroundingRectangle { .. } => [95, 80, 15],
            ObjType::Cross { .. } => [95, 30, 30],
            _ => [100, 100, 100],
        }
    }

    pub fn name(&self) -> (r: &'static str)
        ensures
            r@ == obj_type_name(*self),
    {
        match self {
            ObjType::Circle { .. } => "Circle",
            ObjType::Square { .. } => "Square",
            ObjType::Rectangle { .. } => "Rectangle",
            ObjType::Triangle { .. } => "Triangle",
            ObjType::Text { .. } => "Text",
            ObjType::MathTex { .. } => "MathTex",
            ObjType::Line { .. } => "Line",
            ObjType::Arrow { .. } => "Arrow",
            ObjType::Dot => "Dot",
            ObjType::Sphere { .. } => "Sphere",
            ObjType::Cube { .. } => "Cube",
            ObjType::Cylinder { .. } => "Cylinder",
            ObjType::Axes => "Axes",
            ObjType::NumberPlane => "NumberPlane",
            ObjType::Polygon { .. } => "Polygon",
            ObjType::Arc { .. } => "Arc",
            ObjType::ArcBetweenPoints { .. } => "ArcBetweenPoints",
            ObjType::Ellipse { .. } => "Ellipse",
            ObjType::Annulus { .. } => "Annulus",
            ObjType::Sector { .. } => "Sector",
            ObjType::RegularPolygon { .. } => "RegularPolygon",
            ObjType::Star { .. } => "Star",
            ObjType::RoundedRectangle { .. } => "RoundedRectangle",
            ObjType::DashedLine { .. } => "DashedLine",
            ObjType::DoubleArrow { .. } => "DoubleArrow",
            ObjType::Vector { .. } => "Vector",
            ObjType::CurvedArrow { .. } => "CurvedArrow",
            ObjType::CurvedDoubleArrow { .. } => "CurvedDoubleArrow",
            ObjType::Elbow => "Elbow",
            ObjType::TangentLine { .. } => "TangentLine",
            ObjType::Brace { .. } => "Brace",
            ObjType::BraceBetweenPoints { .. } => "BraceBetweenPoints",
            ObjType::BraceLabel { .. } => "BraceLabel",
            ObjType::Angle { .. } => "Angle",
            ObjType::RightAngle { .. } => "RightAngle",
            ObjType::LabeledDot { .. } => "LabeledDot",
            ObjType::LabeledLine { .. } => "LabeledLine",
            ObjType::SurroundingRectangle { .. } => "SurroundingRectangle",
            ObjType::BackgroundRectangle => "BackgroundRectangle",
            ObjType::Underline => "Underline",
            ObjType::Cross { .. } => "Cross",
            ObjType::NumberLine { .. } => "NumberLine",
            ObjType::BarChart { .. } => "BarChart",
            ObjType::FunctionGraph { .. } => "FunctionGraph",
            ObjType::ParametricFunction { .. } => "ParametricFunction",
            ObjType::ImplicitFunction { .. } => "ImplicitFunction",
            ObjType::ComplexPlane => "ComplexPlane",
            ObjType::PolarPlane => "PolarPlane",
            ObjType::CoordinateSystem => "CoordinateSystem",
            ObjType::Title { .. } => "Title",
            ObjType::MarkupText { .. } => "MarkupText",
            ObjType::BulletedList { .. } => "BulletedList",
            ObjType::Paragraph { .. } => "Paragraph",
            ObjType::Code { .. } => "Code",
            ObjType::Table { .. } => "Table",
            ObjType::Matrix { .. } => "Matrix",
            ObjType::DecimalNumber { .. } => "DecimalNumber",
            ObjType::Integer { .. } => "Integer",
            ObjType::VGroup { .. } => "VGroup",
            ObjType::Dot3D => "Dot3D",
            ObjType::Cone { .. } => "Cone",
            ObjType::Torus { .. } => "Torus",
            ObjType::Prism { .. } => "Prism",
            ObjType::Arrow3D { .. } => "Arrow3D",
            ObjType::Line3D { .. } => "Line3D",
            ObjType::Surface => "Surface",
            ObjType::Icosahedron { .. } => "Icosahedron",
            ObjType::Dodecahedron { .. } => "Dodecahedron",
            ObjType::TracedPath => "TracedPath",
            ObjType::PointCloudDot => "PointCloudDot",
        }
    }

    pub fn icon(&self) -> (r: &'static str)
        ensures
            r@ == obj_type_icon(*self),
    {
        match self {
            ObjType::Circle { .. } => "⬤",
            ObjType::Square { .. } => "■",
            ObjType::Rectangle { .. } => "▬",
            ObjType::Triangle { .. } => "▲",
            ObjType::Text { .. } => "T",
            ObjType::MathTex { .. } => "∑",
            ObjType::Line { .. } => "╱",
            ObjType::Arrow { .. } => "→",
            ObjType::Dot => "•",
            ObjType::Sphere { .. } => "◉",
            ObjType::Cube { .. } => "▣",
            ObjType::Cylinder { .. } => "⊡",
            ObjType::Axes => "⊞",
            ObjType::NumberPlane => "⊟",
            ObjType::Polygon { .. } => "⬡",
            ObjType::Arc { .. } => "⌒",
            ObjType::ArcBetweenPoints { .. } => "⌒",
            ObjType::Ellipse { .. } => "⬮",
            ObjType::Annulus { .. } => "◎",
            ObjType::Sector { .. } => "◔",
            ObjType::RegularPolygon { .. } => "⬡",
            ObjType::Star { .. } => "★",
            ObjType::RoundedRectangle { .. } => "▢",
            ObjType::DashedLine { .. } => "┄",
            ObjType::DoubleArrow { .. } => "↔",
            ObjType::Vector { .. } => "⇀",
            ObjType::CurvedArrow { .. } => "↷",
            ObjType::CurvedDoubleArrow { .. } => "⇌",
            ObjType::Elbow => "∟",
            ObjType::TangentLine { .. } => "⟋",
            ObjType::Brace { .. } => "⏞",
            ObjType::BraceBetweenPoints { .. } => "⏞",
            ObjType::BraceLabel { .. } => "⏞",
            ObjType::Angle { .. } => "∠",
            ObjType::RightAngle { .. } => "∟",
            ObjType::LabeledDot { .. } => "◉",
            ObjType::LabeledLine { .. } => "╱",
            ObjType::SurroundingRectangle { .. } => "▭",
            ObjType::BackgroundRectangle => "▬",
            ObjType::Underline => "▁",
            ObjType::Cross { .. } => "✕",
            ObjType::NumberLine { .. } => "├",
            ObjType::BarChart { .. } => "📊",
            ObjType::FunctionGraph { .. } => "ƒ",
            ObjType::ParametricFunction { .. } => "γ",
            ObjType::ImplicitFunction { .. } => "≡",
            ObjType::ComplexPlane => "ℂ",
            ObjType::PolarPlane => "◎",
            ObjType::CoordinateSystem => "⊞",
            ObjType::Title { .. } => "H",
            ObjType::MarkupText { .. } => "M",
            ObjType::BulletedList { .. } => "•",
            ObjType::Paragraph { .. } => "¶",
            ObjType::Code { .. } => "<>",
            ObjType::Table { .. } => "⊞",
            ObjType::Matrix { .. } => "[]",
            ObjType::DecimalNumber { .. } => "🔢",
            ObjType::Integer { .. } => "🔢",
            ObjType::VGroup { .. } => "⊕",
            ObjType::Dot3D => "•",
            ObjType::Cone { .. } => "▲",
            ObjType::Torus { .. } => "◍",
            ObjType::Prism { .. } => "▱",
            ObjType::Arrow3D { .. } => "➜",
            ObjType::Line3D { .. } => "╱",
            ObjType::Surface => "🌊",
            ObjType::Icosahedron { .. } => "⬡",
            ObjType::Dodecahedron { .. } => "⬡",
            ObjType::TracedPath => "~",
            ObjType::PointCloudDot => "⁘",
        }
    }
}

// ─── Animation types ────────────────────────────────────────────────────────

/// The kind of an animation, with its parameters.
#[derive(Debug, Clone, PartialEq)]
pub enum AnimType<N> {
    Create,
    Uncreate,
    Write,
    FadeIn,
    FadeOut,
    GrowFromCenter,
    DrawBorderThenFill,
    SpinInFromNothing,
    GrowFromPoint { point: [N; 3] },
    GrowFromEdge { edge: [N; 3] },
    GrowArrow,
    SpiralIn,
    FadeInFromPoint { point: [N; 3] },
    FadeInFrom { direction: [N; 3] },
    FadeOutToPoint { point: [N; 3] },
    FadeOutAndShift { direction: [N; 3] },
    VFadeIn,
    VFadeOut,
    ShowCreationThenFadeOut,
    AddTextLetterByLetter,
    RemoveTextLetterByLetter,
    Unwrite,
    ShrinkToCenter,
    Shift { dx: N, dy: N },
    MoveTo { x: N, y: N },
    MoveAlongPath { path_points: Vec<[N; 2]> },
    Rotate { angle: N },
    Scale { factor: N },
    ScaleInPlace { factor: N },
    Transform { target_id: String },
    FadeTransform { target_id: String },
    ReplacementTransform { target_id: String },
    TransformFromCopy { target_id: String },
    CounterclockwiseTransform { target_id: String },
    ClockwiseTransform { target_id: String },
    CyclicReplace { object_ids: Vec<String> },
    Swap { object_ids: Vec<String> },
    ApplyMethod { method: String },
    Restore,
    ChangeDecimalToValue { value: N },
    Flash,
    Indicate,
    Wiggle,
    ApplyWave,
    Circumscribe,
    ShowPassingFlash,
    FocusOn,
    Broadcast,
    ShowIncreasingSubsets,
    ShowSubmobjectsOneByOne,
    AnimatedBoundary,
    MoveCamera { phi: Option<N>, theta: Option<N>, zoom: Option<N>, frame_center: Option<[N; 3]> },
    CameraRotate { angle: N },
    CameraZoom { factor: N },
    CameraPan { dx: N, dy: N },
    Succession { animations: Vec<String> },
    AnimationGroup { animations: Vec<String> },
    LaggedStart { lag_ratio: N },
    LaggedStartMap { lag_ratio: N },
    Wait,
    Homotopy,
    PhaseFlow,
    UpdateFromFunc,
    UpdateFromAlphaFunc,
}

/// The kinds that bring an object onto the stage. An object with such an
/// animation is hidden in the preview until that animation starts.
pub open spec fn is_creation<N>(t: AnimType<N>) -> bool {
    match t {
        AnimType::Create | AnimType::FadeIn | AnimType::Write | AnimType::GrowFromCenter | AnimType::DrawBorderThenFill | AnimType::SpinInFromNothing | AnimType::GrowFromPoint { .. } | AnimType::GrowFromEdge { .. } | AnimType::GrowArrow | AnimType::SpiralIn | AnimType::FadeInFromPoint { .. } | AnimType::FadeInFrom { .. } | AnimType::VFadeIn | AnimType::ShowCreationThenFadeOut | AnimType::AddTextLetterByLetter => true,
        _ => false,
    }
}

/// How the preview shows an animation of each kind.
#[derive(Debug, Clone, PartialEq)]
pub enum PreviewEffect<N> {
    /// Fades in from nothing to the object's opacities.
    Reveal,
    /// Grows from nothing to the object's scale, at full opacity.
    Grow,
    /// Fades in over the first half, out over the second, and is gone at the end.
    CreateThenFade,
    /// Fades out and is gone at the end.
    Vanish,
    /// Moves by `(dx, dy)`.
    Shift { dx: N, dy: N },
    /// Moves to `(x, y)`.
    MoveTo { x: N, y: N },
    /// Scales by `factor`.
    Scale { factor: N },
    /// Turns by `angle` degrees.
    Rotate { angle: N },
    /// Pulses in size while it runs and leaves no lasting change.
    Pulse,
    /// Shrinks and fades to nothing, and is gone at the end.
    Shrink,
    /// Grows and fades in together.
    SpiralIn,
    /// Leaves the preview unchanged.
    Unchanged,
}

pub open spec fn preview_effect<N>(t: AnimType<N>) -> PreviewEffect<N> {
    match t {
        AnimType::Create | AnimType::Write | AnimType::DrawBorderThenFill
        | AnimType::SpinInFromNothing | AnimType::AddTextLetterByLetter
        | AnimType::FadeIn | AnimType::FadeInFromPoint { .. }
        | AnimType::FadeInFrom { .. } | AnimType::VFadeIn => PreviewEffect::Reveal,
        AnimType::GrowFromCenter | AnimType::GrowFromPoint { .. }
        | AnimType::GrowFromEdge { .. } | AnimType::GrowArrow => PreviewEffect::Grow,
        AnimType::ShowCreationThenFadeOut => PreviewEffect::CreateThenFade,
        AnimType::FadeOut | AnimType::Uncreate | AnimType::Unwrite
        | AnimType::FadeOutToPoint { .. } | AnimType::FadeOutAndShift { .. }
        | AnimType::VFadeOut | AnimType::RemoveTextLetterByLetter => PreviewEffect::Vanish,
        AnimType::Shift { dx, dy } => PreviewEffect::Shift { dx, dy },
        AnimType::MoveTo { x, y } => PreviewEffect::MoveTo { x, y },
        AnimType::Scale { factor } | AnimType::ScaleInPlace { factor } => PreviewEffect::Scale { factor },
        AnimType::Rotate { angle } => PreviewEffect::Rotate { angle },
        AnimType::Flash | AnimType::Indicate | AnimType::Wiggle
        | AnimType::ApplyWave | AnimType::Circumscribe
        | AnimType::ShowPassingFlash | AnimType::FocusOn
        | AnimType::Broadcast | AnimType::AnimatedBoundary => PreviewEffect::Pulse,
        AnimType::ShrinkToCenter => PreviewEffect::Shrink,
        AnimType::SpiralIn => PreviewEffect::SpiralIn,
        _ => PreviewEffect::Unchanged,
    }
}

/// The preview keeps an animation's own parameters: a shift moves by its own
/// `(dx, dy)`, a move goes to its own `(x, y)`, a scale scales by its own
/// factor, a rotation turns by its own angle. Every kind that brings an object
/// onto the stage shows it (fading or growing in), every kind that takes it
/// off fades or shrinks it away, and highlights only pulse.
pub proof fn law_preview_follows_the_animation<N>(t: AnimType<N>)
    ensures
        (t matches AnimType::Shift { dx, dy } ==> preview_effect(t) == (PreviewEffect::Shift { dx: dx, dy: dy })),
        (t matches AnimType::MoveTo { x, y } ==> preview_effect(t) == (PreviewEffect::MoveTo { x: x, y: y })),
        (t matches AnimType::Scale { factor } ==> preview_effect(t) == (PreviewEffect::<N>::Scale { factor: factor })),
        (t matches AnimType::ScaleInPlace { factor } ==> preview_effect(t) == (PreviewEffect::<N>::Scale { factor: factor })),
        (t matches AnimType::Rotate { angle } ==> preview_effect(t) == (PreviewEffect::<N>::Rotate { angle: angle })),
        (is_creation(t) ==> ((preview_effect(t) is Reveal) || (preview_effect(t) is Grow)
            || (preview_effect(t) is CreateThenFade) || (preview_effect(t) is SpiralIn))),
        (((t is FadeOut) || (t is Uncreate) || (t is Unwrite) || (t is FadeOutToPoint) || (t is FadeOutAndShift)
            || (t is VFadeOut) || (t is RemoveTextLetterByLetter)) ==> (preview_effect(t) is Vanish)),
        ((t is ShrinkToCenter) ==> (preview_effect(t) is Shrink)),
        (((t is Flash) || (t is Indicate) || (t is Wiggle) || (t is ApplyWave) || (t is Circumscribe)
            || (t is ShowPassingFlash) || (t is FocusOn) || (t is Broadcast) || (t is AnimatedBoundary))
            ==> (preview_effect(t) is Pulse)),
{
}

impl<N> AnimType<N> {
    pub fn name(&self) -> (r: &'static str)
        ensures
            r@ == anim_type_name(*self),
    {
        match self {
            AnimType::Create => "Create",
            AnimType::Uncreate => "Uncreate",
            AnimType::Write => "Write",
            AnimType::FadeIn => "FadeIn",
            AnimType::FadeOut => "FadeOut",
            AnimType::GrowFromCenter => "GrowFromCenter",
            AnimType::DrawBorderThenFill => "DrawBorderThenFill",
            AnimType::SpinInFromNothing => "SpinInFromNothing",
            AnimType::GrowFromPoint { .. } => "GrowFromPoint",
            AnimType::GrowFromEdge { .. } => "GrowFromEdge",
            AnimType::GrowArrow => "GrowArrow",
            AnimType::SpiralIn => "SpiralIn",
            AnimType::FadeInFromPoint { .. } => "FadeInFromPoint",
            AnimType::FadeInFrom { .. } => "FadeInFrom",
            AnimType::FadeOutToPoint { .. } => "FadeOutToPoint",
            AnimType::FadeOutAndShift { .. } => "FadeOutAndShift",
            AnimType::VFadeIn => "VFadeIn",
            AnimType::VFadeOut => "VFadeOut",
            AnimType::ShowCreationThenFadeOut => "ShowCreationThenFadeOut",
            AnimType::AddTextLetterByLetter => "AddTextLetterByLetter",
            AnimType::RemoveTextLetterByLetter => "RemoveTextLetterByLetter",
            AnimType::Unwrite => "Unwrite",
            AnimType::ShrinkToCenter => "ShrinkToCenter",
            AnimType::Shift { .. } => "Shift",
            AnimType::MoveTo { .. } => "MoveTo",
            AnimType::MoveAlongPath { .. } => "MoveAlongPath",
            AnimType::Rotate { .. } => "Rotate",
            AnimType::Scale { .. } => "Scale",
            AnimType::ScaleInPlace { .. } => "ScaleInPlace",
            AnimType::Transform { .. } => "Transform",
            AnimType::FadeTransform { .. } => "FadeTransform",
            AnimType::ReplacementTransform { .. } => "ReplacementTransform",
            AnimType::TransformFromCopy { .. } => "TransformFromCopy",
            AnimType::CounterclockwiseTransform { .. } => "CounterclockwiseTransform",
            AnimType::ClockwiseTransform { .. } => "ClockwiseTransform",
            AnimType::CyclicReplace { .. } => "CyclicReplace",
            AnimType::Swap { .. } => "Swap",
            AnimType::ApplyMethod { .. } => "ApplyMethod",
            AnimType::Restore => "Restore",
            AnimType::ChangeDecimalToValue { .. } => "ChangeDecimalToValue",
            AnimType::Flash => "Flash",
            AnimType::Indicate => "Indicate",
            AnimType::Wiggle => "Wiggle",
            AnimType::ApplyWave => "ApplyWave",
            AnimType::Circumscribe => "Circumscribe",
            AnimType::ShowPassingFlash => "ShowPassingFlash",
            AnimType::FocusOn => "FocusOn",
            AnimType::Broadcast => "Broadcast",
            AnimType::ShowIncreasingSubsets => "ShowIncreasingSubsets",
            AnimType::ShowSubmobjectsOneByOne => "ShowSubmobjectsOneByOne",
            AnimType::AnimatedBoundary => "AnimatedBoundary",
            AnimType::MoveCamera { .. } => "MoveCamera",
            AnimType::CameraRotate { .. } => "CameraRotate",
            AnimType::CameraZoom { .. } => "CameraZoom",
            AnimType::CameraPan { .. } => "CameraPan",
            AnimType::Succession { .. } => "Succession",
            AnimType::AnimationGroup { .. } => "AnimationGroup",
            AnimType::LaggedStart { .. } => "LaggedStart",
            AnimType::LaggedStartMap { .. } => "LaggedStartMap",
            AnimType::Wait => "Wait",
            AnimType::Homotopy => "Homotopy",
            AnimType::PhaseFlow => "PhaseFlow",
            AnimType::UpdateFromFunc => "UpdateFromFunc",
            AnimType::UpdateFromAlphaFunc => "UpdateFromAlphaFunc",
        }
    }

    pub fn track_color(&self) -> (r: [u8; 3])
        ensures
            r == anim_type_track_color(*self),
    {
        match self {
            AnimType::Create | AnimType::GrowFromCenter | AnimType::DrawBorderThenFill | AnimType::SpinInFromNothing | AnimType::GrowFromPoint { .. } | AnimType::GrowFromEdge { .. } | AnimType::GrowArrow | AnimType::SpiralIn | AnimType::ShowCreationThenFadeOut => [60, 180, 100],
            AnimType::Write | AnimType::Unwrite | AnimType::AddTextLetterByLetter | AnimType::RemoveTextLetterByLetter => [80, 150, 230],
            AnimType::FadeOut | AnimType::Uncreate | AnimType::ShrinkToCenter | AnimType::FadeOutToPoint { .. } | AnimType::FadeOutAndShift { .. } | AnimType::VFadeOut => [200, 80, 80],
            AnimType::FadeIn | AnimType::FadeInFromPoint { .. } | AnimType::FadeInFrom { .. } | AnimType::VFadeIn => [80, 180, 220],
            AnimType::Rotate { .. } | AnimType::Scale { .. } | AnimType::ScaleInPlace { .. } | AnimType::Shift { .. } | AnimType::MoveTo { .. } | AnimType::MoveAlongPath { .. } | AnimType::Homotopy | AnimType::PhaseFlow => [180, 100, 230],
            AnimType::Transform { .. } | AnimType::FadeTransform { .. } | AnimType::ReplacementTransform { .. } | AnimType::TransformFromCopy { .. } | AnimType::CounterclockwiseTransform { .. } | AnimType::ClockwiseTransform { .. } | AnimType::CyclicReplace { .. } | AnimType::Swap { .. } | AnimType::ApplyMethod { .. } | AnimType::Restore | AnimType::ChangeDecimalToValue { .. } => [230, 160, 50],
            AnimType::Flash | AnimType::Indicate | AnimType::Wiggle | AnimType::ApplyWave | AnimType::Circumscribe | AnimType::ShowPassingFlash | AnimType::FocusOn | AnimType::Broadcast | AnimType::ShowIncreasingSubsets | AnimType::ShowSubmobjectsOneByOne | AnimType::AnimatedBoundary => [230, 220, 50],
            AnimType::MoveCamera { .. } | AnimType::CameraRotate { .. } | AnimType::CameraZoom { .. } | AnimType::CameraPan { .. } => [100, 200, 200],
            AnimType::Succession { .. } | AnimType::AnimationGroup { .. } | AnimType::LaggedStart { .. } | AnimType::LaggedStartMap { .. } => [140, 140, 180],
            AnimType::Wait => [80, 80, 80],
            AnimType::UpdateFromFunc | AnimType::UpdateFromAlphaFunc => [180, 140, 100],
        }
    }

    /// Whether this kind brings an object onto the stage.
    pub fn is_creation(&self) -> (r: bool)
        ensures
            r == is_creation(*self),
    {
        match self {
            AnimType::Create | AnimType::FadeIn | AnimType::Write | AnimType::GrowFromCenter | AnimType::DrawBorderThenFill | AnimType::SpinInFromNothing | AnimType::GrowFromPoint { .. } | AnimType::GrowFromEdge { .. } | AnimType::GrowArrow | AnimType::SpiralIn | AnimType::FadeInFromPoint { .. } | AnimType::FadeInFrom { .. } | AnimType::VFadeIn | AnimType::ShowCreationThenFadeOut | AnimType::AddTextLetterByLetter => true,
            _ => false,
        }
    }
}

/// The default length of an animation of kind `t`, in tenths of a second.
pub open spec fn default_duration_tenths<N>(t: AnimType<N>) -> u32 {
    match t {
        AnimType::Write | AnimType::Unwrite | AnimType::AddTextLetterByLetter | AnimType::RemoveTextLetterByLetter | AnimType::MoveAlongPath { .. } | AnimType::Succession { .. } => 20,
        AnimType::FadeIn | AnimType::FadeOut | AnimType::VFadeIn | AnimType::VFadeOut => 5,
        AnimType::FadeInFromPoint { .. } | AnimType::FadeInFrom { .. } | AnimType::FadeOutToPoint { .. } | AnimType::FadeOutAndShift { .. } => 5,
        AnimType::Transform { .. } | AnimType::CounterclockwiseTransform { .. } | AnimType::ClockwiseTransform { .. } | AnimType::Homotopy | AnimType::PhaseFlow | AnimType::AnimationGroup { .. } => 15,
        AnimType::Wait => 10,
        AnimType::FadeTransform { .. } | AnimType::ReplacementTransform { .. } | AnimType::TransformFromCopy { .. } | AnimType::ShrinkToCenter | AnimType::GrowFromPoint { .. } | AnimType::GrowFromEdge { .. } | AnimType::GrowArrow | AnimType::ApplyWave | AnimType::Circumscribe | AnimType::ShowPassingFlash | AnimType::SpiralIn | AnimType::FocusOn | AnimType::Broadcast | AnimType::ShowIncreasingSubsets | AnimType::ShowSubmobjectsOneByOne | AnimType::AnimatedBoundary | AnimType::ShowCreationThenFadeOut | AnimType::LaggedStart { .. } | AnimType::LaggedStartMap { .. } | AnimType::CyclicReplace { .. } | AnimType::Swap { .. } | AnimType::Restore | AnimType::ChangeDecimalToValue { .. } | AnimType::ApplyMethod { .. } | AnimType::ScaleInPlace { .. } | AnimType::UpdateFromFunc | AnimType::UpdateFromAlphaFunc => 10,
        AnimType::MoveCamera { .. } | AnimType::CameraRotate { .. } | AnimType::CameraZoom { .. } | AnimType::CameraPan { .. } => 20,
        _ => 10,
    }
}

impl<N> AnimType<N> {
    /// The default length of an animation of this kind, in tenths of a second.
    pub fn default_duration_tenths(&self) -> (r: u32)
        ensures
            r == default_duration_tenths(*self),
    {
        match self {
            AnimType::Write | AnimType::Unwrite | AnimType::AddTextLetterByLetter | AnimType::RemoveTextLetterByLetter | AnimType::MoveAlongPath { .. } | AnimType::Succession { .. } => 20,
            AnimType::FadeIn | AnimType::FadeOut | AnimType::VFadeIn | AnimType::VFadeOut => 5,
            AnimType::FadeInFromPoint { .. } | AnimType::FadeInFrom { .. } | AnimType::FadeOutToPoint { .. } | AnimType::FadeOutAndShift { .. } => 5,
            AnimType::Transform { .. } | AnimType::CounterclockwiseTransform { .. } | AnimType::ClockwiseTransform { .. } | AnimType::Homotopy | AnimType::PhaseFlow | AnimType::AnimationGroup { .. } => 15,
            AnimType::Wait => 10,
            AnimType::FadeTransform { .. } | AnimType::ReplacementTransform { .. } | AnimType::TransformFromCopy { .. } | AnimType::ShrinkToCenter | AnimType::GrowFromPoint { .. } | AnimType::GrowFromEdge { .. } | AnimType::GrowArrow | AnimType::ApplyWave | AnimType::Circumscribe | AnimType::ShowPassingFlash | AnimType::SpiralIn | AnimType::FocusOn | AnimType::Broadcast | AnimType::ShowIncreasingSubsets | AnimType::ShowSubmobjectsOneByOne | AnimType::AnimatedBoundary | AnimType::ShowCreationThenFadeOut | AnimType::LaggedStart { .. } | AnimType::LaggedStartMap { .. } | AnimType::CyclicReplace { .. } | AnimType::Swap { .. } | AnimType::Restore | AnimType::ChangeDecimalToValue { .. } | AnimType::ApplyMethod { .. } | AnimType::ScaleInPlace { .. } | AnimType::UpdateFromFunc | AnimType::UpdateFromAlphaFunc => 10,
            AnimType::MoveCamera { .. } | AnimType::CameraRotate { .. } | AnimType::CameraZoom { .. } | AnimType::CameraPan { .. } => 20,
            _ => 10,
        }
    }
}

impl<N: Copy> AnimType<N> {
    /// How the preview shows an animation of this kind.
    pub fn preview_effect(&self) -> (r: PreviewEffect<N>)
        ensures
            r == preview_effect(*self),
    {
        match self {
            AnimType::Create | AnimType::Write | AnimType::DrawBorderThenFill
            | AnimType::SpinInFromNothing | AnimType::AddTextLetterByLetter
            | AnimType::FadeIn | AnimType::FadeInFromPoint { .. }
            | AnimType::FadeInFrom { .. } | AnimType::VFadeIn => PreviewEffect::Reveal,
            AnimType::GrowFromCenter | AnimType::GrowFromPoint { .. }
            | AnimType::GrowFromEdge { .. } | AnimType::GrowArrow => PreviewEffect::Grow,
            AnimType::ShowCreationThenFadeOut => PreviewEffect::CreateThenFade,
            AnimType::FadeOut | AnimType::Uncreate | AnimType::Unwrite
            | AnimType::FadeOutToPoint { .. } | AnimType::FadeOutAndShift { .. }
            | AnimType::VFadeOut | AnimType::RemoveTextLetterByLetter => PreviewEffect::Vanish,
            AnimType::Shift { dx, dy } => PreviewEffect::Shift { dx: *dx, dy: *dy },
            AnimType::MoveTo { x, y } => PreviewEffect::MoveTo { x: *x, y: *y },
            AnimType::Scale { factor } | AnimType::ScaleInPlace { factor } => PreviewEffect::Scale { factor: *factor },
            AnimType::Rotate { angle } => PreviewEffect::Rotate { angle: *angle },
            AnimType::Flash | AnimType::Indicate | AnimType::Wiggle
            | AnimType::ApplyWave | AnimType::Circumscribe
            | AnimType::ShowPassingFlash | AnimType::FocusOn
            | AnimType::Broadcast | AnimType::AnimatedBoundary => PreviewEffect::Pulse,
            AnimType::ShrinkToCenter => PreviewEffect::Shrink,
            AnimType::SpiralIn => PreviewEffect::SpiralIn,
            _ => PreviewEffect::Unchanged,
        }
    }
}

// ─── Rate functions ─────────────────────────────────────────────────────────

/// The easing of an animation.
#[derive(Debug, Clone, Copy, PartialEq, Eq, Structural)]
pub enum RateFunc {
    Linear,
    Smooth,
    RushInto,
    RushFrom,
    ThereAndBack,
    Wiggle,
    DoubleSmooth,
    ExponentialDecay,
    EaseInSine,
    EaseOutSine,
    EaseInOutSine,
    EaseInQuad,
    EaseOutQuad,
    EaseInOutQuad,
    EaseInCubic,
    EaseOutCubic,
    EaseInOutCubic,
    EaseInExpo,
    EaseOutExpo,
    EaseInOutExpo,
    EaseInBounce,
    EaseOutBounce,
    EaseInOutBounce,
}

/// The Python expression that names the rate function.
pub open spec fn rate_func_name(r: RateFunc) -> Seq<char> {
    match r {
        RateFunc::Linear => "linear"@,
        RateFunc::Smooth => "smooth"@,
        RateFunc::RushInto => "rush_into"@,
        RateFunc::RushFrom => "rush_from"@,
        RateFunc::ThereAndBack => "there_and_back"@,
        RateFunc::Wiggle => "wiggle"@,
        RateFunc::DoubleSmooth => "double_smooth"@,
        RateFunc::ExponentialDecay => "exponential_decay"@,
        RateFunc::EaseInSine => "rate_functions.ease_in_sine"@,
        RateFunc::EaseOutSine => "rate_functions.ease_out_sine"@,
        RateFunc::EaseInOutSine => "rate_functions.ease_in_out_sine"@,
        RateFunc::EaseInQuad => "rate_functions.ease_in_quad"@,
        RateFunc::EaseOutQuad => "rate_functions.ease_out_quad"@,
        RateFunc::EaseInOutQuad => "rate_functions.ease_in_out_quad"@,
        RateFunc::EaseInCubic => "rate_functions.ease_in_cubic"@,
        RateFunc::EaseOutCubic => "rate_functions.ease_out_cubic"@,
        RateFunc::EaseInOutCubic => "rate_functions.ease_in_out_cubic"@,
        RateFunc::EaseInExpo => "rate_functions.ease_in_expo"@,
        RateFunc::EaseOutExpo => "rate_functions.ease_out_expo"@,
        RateFunc::EaseInOutExpo => "rate_functions.ease_in_out_expo"@,
        RateFunc::EaseInBounce => "rate_functions.ease_in_bounce"@,
        RateFunc::EaseOutBounce => "rate_functions.ease_out_bounce"@,
        RateFunc::EaseInOutBounce => "rate_functions.ease_in_out_bounce"@,
    }
}

/// The text shown for the rate function in menus.
pub open spec fn rate_func_label(r: RateFunc) -> Seq<char> {
    match r {
        RateFunc::Linear => "Linear"@,
        RateFunc::Smooth => "Smooth"@,
        RateFunc::RushInto => "Rush Into"@,
        RateFunc::RushFrom => "Rush From"@,
        RateFunc::ThereAndBack => "There & Back"@,
        RateFunc::Wiggle => "Wiggle"@,
        RateFunc::DoubleSmooth => "Double Smooth"@,
        RateFunc::ExponentialDecay => "Exponential Decay"@,
        RateFunc::EaseInSine => "Ease In Sine"@,
        RateFunc::EaseOutSine => "Ease Out Sine"@,
        RateFunc::EaseInOutSine => "Ease In Out Sine"@,
        RateFunc::EaseInQuad => "Ease In Quad"@,
        RateFunc::EaseOutQuad => "Ease Out Quad"@,
        RateFunc::EaseInOutQuad => "Ease In Out Quad"@,
        RateFunc::EaseInCubic => "Ease In Cubic"@,
        RateFunc::EaseOutCubic => "Ease Out Cubic"@,
        RateFunc::EaseInOutCubic => "Ease In Out Cubic"@,
        RateFunc::EaseInExpo => "Ease In Expo"@,
        RateFunc::EaseOutExpo => "Ease Out Expo"@,
        RateFunc::EaseInOutExpo => "Ease In Out Expo"@,
        RateFunc::EaseInBounce => "Ease In Bounce"@,
        RateFunc::EaseOutBounce => "Ease Out Bounce"@,
        RateFunc::EaseInOutBounce => "Ease In Out Bounce"@,
    }
}


impl RateFunc {
    pub fn name(&self) -> (r: &'static str)
        ensures
            r@ == rate_func_name(*self),
    {
        match self {
            RateFunc::Linear => "linear",
            RateFunc::Smooth => "smooth",
            RateFunc::RushInto => "rush_into",
            RateFunc::RushFrom => "rush_from",
            RateFunc::ThereAndBack => "there_and_back",
            RateFunc::Wiggle => "wiggle",
            RateFunc::DoubleSmooth => "double_smooth",
            RateFunc::ExponentialDecay => "exponential_decay",
            RateFunc::EaseInSine => "rate_functions.ease_in_sine",
            RateFunc::EaseOutSine => "rate_functions.ease_out_sine",
            RateFunc::EaseInOutSine => "rate_functions.ease_in_out_sine",
            RateFunc::EaseInQuad => "rate_functions.ease_in_quad",
            RateFunc::EaseOutQuad => "rate_functions.ease_out_quad",
            RateFunc::EaseInOutQuad => "rate_functions.ease_in_out_quad",
            RateFunc::EaseInCubic => "rate_functions.ease_in_cubic",
            RateFunc::EaseOutCubic => "rate_functions.ease_out_cubic",
            RateFunc::EaseInOutCubic => "rate_functions.ease_in_out_cubic",
            RateFunc::EaseInExpo => "rate_functions.ease_in_expo",
            RateFunc::EaseOutExpo => "rate_functions.ease_out_expo",
            RateFunc::EaseInOutExpo => "rate_functions.ease_in_out_expo",
            RateFunc::EaseInBounce => "rate_functions.ease_in_bounce",
            RateFunc::EaseOutBounce => "rate_functions.ease_out_bounce",
            RateFunc::EaseInOutBounce => "rate_functions.ease_in_out_bounce",
        }
    }

    pub fn label(&self) -> (r: &'static str)
        ensures
            r@ == rate_func_label(*self),
    {
        match self {
            RateFunc::Linear => "Linear",
            RateFunc::Smooth => "Smooth",
            RateFunc::RushInto => "Rush Into",
            RateFunc::RushFrom => "Rush From",
            RateFunc::ThereAndBack => "There & Back",
            RateFunc::Wiggle => "Wiggle",
            RateFunc::DoubleSmooth => "Double Smooth",
            RateFunc::ExponentialDecay => "Exponential Decay",
            RateFunc::EaseInSine => "Ease In Sine",
            RateFunc::EaseOutSine => "Ease Out Sine",
            RateFunc::EaseInOutSine => "Ease In Out Sine",
            RateFunc::EaseInQuad => "Ease In Quad",
            RateFunc::EaseOutQuad => "Ease Out Quad",
            RateFunc::EaseInOutQuad => "Ease In Out Quad",
            RateFunc::EaseInCubic => "Ease In Cubic",
            RateFunc::EaseOutCubic => "Ease Out Cubic",
            RateFunc::EaseInOutCubic => "Ease In Out Cubic",
            RateFunc::EaseInExpo => "Ease In Expo",
            RateFunc::EaseOutExpo => "Ease Out Expo",
            RateFunc::EaseInOutExpo => "Ease In Out Expo",
            RateFunc::EaseInBounce => "Ease In Bounce",
            RateFunc::EaseOutBounce => "Ease Out Bounce",
            RateFunc::EaseInOutBounce => "Ease In Out Bounce",
        }
    }

    /// Every rate function, in menu order.
    pub fn all() -> (r: Vec<RateFunc>)
        ensures
            r@ == seq![RateFunc::Linear, RateFunc::Smooth, RateFunc::RushInto, RateFunc::RushFrom, RateFunc::ThereAndBack, RateFunc::Wiggle, RateFunc::DoubleSmooth, RateFunc::ExponentialDecay, RateFunc::EaseInSine, RateFunc::EaseOutSine, RateFunc::EaseInOutSine, RateFunc::EaseInQuad, RateFunc::EaseOutQuad, RateFunc::EaseInOutQuad, RateFunc::EaseInCubic, RateFunc::EaseOutCubic, RateFunc::EaseInOutCubic, RateFunc::EaseInExpo, RateFunc::EaseOutExpo, RateFunc::EaseInOutExpo, RateFunc::EaseInBounce, RateFunc::EaseOutBounce, RateFunc::EaseInOutBounce],
    {
        let mut v: Vec<RateFunc> = Vec::new();
        v.push(RateFunc::Linear);
        v.push(RateFunc::Smooth);
        v.push(RateFunc::RushInto);
        v.push(RateFunc::RushFrom);
        v.push(RateFunc::ThereAndBack);
        v.push(RateFunc::Wiggle);
        v.push(RateFunc::DoubleSmooth);
        v.push(RateFunc::ExponentialDecay);
        v.push(RateFunc::EaseInSine);
        v.push(RateFunc::EaseOutSine);
        v.push(RateFunc::EaseInOutSine);
        v.push(RateFunc::EaseInQuad);
        v.push(RateFunc::EaseOutQuad);
        v.push(RateFunc::EaseInOutQuad);
        v.push(RateFunc::EaseInCubic);
        v.push(RateFunc::EaseOutCubic);
        v.push(RateFunc::EaseInOutCubic);
        v.push(RateFunc::EaseInExpo);
        v.push(RateFunc::EaseOutExpo);
        v.push(RateFunc::EaseInOutExpo);
        v.push(RateFunc::EaseInBounce);
        v.push(RateFunc::EaseOutBounce);
        v.push(RateFunc::EaseInOutBounce);
        v
    }
}

// ─── Objects, animations, timeline ──────────────────────────────────────────

/// One object of the scene.
#[derive(Debug, Clone, PartialEq)]
pub struct ManimObject<N> {
    pub id: String,
    pub name: String,
    pub object_type: ObjType<N>,
    pub position: [N; 3],
    /// degrees
    pub rotation: N,
    pub scale: N,
    pub color: [N; 3],
    pub opacity: N,
    pub fill_opacity: N,
    pub stroke_width: N,
    pub visible: bool,
}

/// The look a new object starts with.
#[derive(Debug, Clone, Copy)]
pub struct Appearance<N> {
    pub position: [N; 3],
    pub scale: N,
    pub rotation: N,
    pub color: [N; 3],
    pub opacity: N,
    pub fill_opacity: N,
    pub stroke_width: N,
}

impl<N> ManimObject<N> {
    /// A new visible object with a fresh identifier.
    pub fn new(name: &str, obj_type: ObjType<N>, look: Appearance<N>) -> (r: Self)
        ensures
            is_clock_id(r.id@),
            r.name@ == name@,
            r.object_type == obj_type,
            r.position == look.position,
            r.scale == look.scale,
            r.rotation == look.rotation,
            r.color == look.color,
            r.opacity == look.opacity,
            r.fill_opacity == look.fill_opacity,
            r.stroke_width == look.stroke_width,
            r.visible,
    {
        ManimObject {
            id: new_id(),
            name: String::from_str(name),
            object_type: obj_type,
            position: look.position,
            scale: look.scale,
            rotation: look.rotation,
            color: look.color,
            opacity: look.opacity,
            fill_opacity: look.fill_opacity,
            stroke_width: look.stroke_width,
            visible: true,
        }
    }
}

impl<N> ManimObject<N> {
    /// Safe Python variable name: the name with every character that is not a
    /// letter, a digit or `_` replaced by `_`, ASCII capitals lowered, and `_`
    /// in front when that would be empty, start with a number or be a keyword.
    pub fn var_name(&self) -> (r: String)
        ensures
            r@ == variable_name(self.name@),
    {
        to_variable_name(self.name.as_str())
    }

    pub fn type_label(&self) -> (r: &'static str)
        ensures
            r@ == obj_type_name(self.object_type),
    {
        self.object_type.name()
    }

    pub fn icon(&self) -> (r: &'static str)
        ensures
            r@ == obj_type_icon(self.object_type),
    {
        self.object_type.icon()
    }
}

/// One animation of one object.
#[derive(Debug, Clone)]
pub struct AnimEntry<N> {
    pub id: String,
    pub object_id: String,
    pub anim_type: AnimType<N>,
    pub start_time: N,
    pub duration: N,
    pub rate_func: RateFunc,
    /// Lane index within the object's track group (0-based).
    /// Multiple lanes allow simultaneous animations on the same object.
    pub lane: u32,
}

impl<N> AnimEntry<N> {
    /// A new animation on lane 0 with a fresh identifier and the smooth rate function.
    pub fn new(object_id: &str, anim_type: AnimType<N>, start_time: N, duration: N) -> (r: Self)
        ensures
            is_clock_id(r.id@),
            r.object_id@ == object_id@,
            r.anim_type == anim_type,
            r.start_time == start_time,
            r.duration == duration,
            r.rate_func == RateFunc::Smooth,
            r.lane == 0,
    {
        Self::new_on_lane(object_id, anim_type, start_time, duration, 0)
    }

    /// A new animation on lane `lane` with a fresh identifier and the smooth rate function.
    pub fn new_on_lane(object_id: &str, anim_type: AnimType<N>, start_time: N, duration: N, lane: u32) -> (r: Self)
        ensures
            is_clock_id(r.id@),
            r.object_id@ == object_id@,
            r.anim_type == anim_type,
            r.start_time == start_time,
            r.duration == duration,
            r.rate_func == RateFunc::Smooth,
            r.lane == lane,
    {
        AnimEntry {
            id: new_id(),
            object_id: String::from_str(object_id),
            anim_type,
            start_time,
            duration,
            rate_func: RateFunc::Smooth,
            lane,
        }
    }
}

/// Playback settings of a scene.
#[derive(Debug, Clone)]
pub struct Timeline<N> {
    pub duration: N,
    pub current_time: N,
    pub fps: N,
}

/// A whole scene.
#[derive(Debug, Clone)]
pub struct Scene<N> {
    pub name: String,
    pub objects: Vec<ManimObject<N>>,
    pub animations: Vec<AnimEntry<N>>,
    pub timeline: Timeline<N>,
    pub bg_color: [N; 3],
    pub is_3d: bool,
    pub camera_phi: N,
    pub camera_theta: N,
    /// If false, MathTex is emitted as Text() in codegen (no LaTeX required)
    pub require_latex: bool,
    /// Scene type determines the Python base class
    pub scene_type: SceneType,
}

/// The two scenes agree on everything but their objects and animations.
pub open spec fn same_scene_settings<N>(a: Scene<N>, b: Scene<N>) -> bool {
    &&& a.name == b.name
    &&& a.timeline == b.timeline
    &&& a.bg_color == b.bg_color
    &&& a.is_3d == b.is_3d
    &&& a.camera_phi == b.camera_phi
    &&& a.camera_theta == b.camera_theta
    &&& a.require_latex == b.require_latex
    &&& a.scene_type == b.scene_type
}

/// `i` is the first position in `objs` of an object with identifier `id`.
pub open spec fn is_first_with_id<N>(objs: Seq<ManimObject<N>>, id: Seq<char>, i: int) -> bool {
    &&& 0 <= i < objs.len()
    &&& objs[i].id@ == id
    &&& forall|j: int| 0 <= j < i ==> objs[j].id@ != id
}

/// Some object in `objs` has identifier `id`.
pub open spec fn has_object<N>(objs: Seq<ManimObject<N>>, id: Seq<char>) -> bool {
    exists|i: int| 0 <= i < objs.len() && objs[i].id@ == id
}

/// The position of the first object with identifier `id` (meaningful when there is one).
pub open spec fn first_with_id<N>(objs: Seq<ManimObject<N>>, id: Seq<char>) -> int {
    choose|i: int| is_first_with_id(objs, id, i)
}

pub proof fn lemma_first_with_id<N>(objs: Seq<ManimObject<N>>, id: Seq<char>, i: int)
    requires
        is_first_with_id(objs, id, i),
    ensures
        first_with_id(objs, id) == i,
        has_object(objs, id),
{
    let k = first_with_id(objs, id);
    assert(is_first_with_id(objs, id, k));
    if k < i {
        assert(objs[k].id@ != id);
    } else if i < k {
        assert(objs[i].id@ != id);
    }
}

proof fn lemma_first_at_most<N>(objs: Seq<ManimObject<N>>, id: Seq<char>, k: int)
    requires
        0 <= k < objs.len(),
        objs[k].id@ == id,
    ensures
        exists|i: int| is_first_with_id(objs, id, i),
    decreases k,
{
    if forall|j: int| 0 <= j < k ==> objs[j].id@ != id {
        assert(is_first_with_id(objs, id, k));
    } else {
        let j = choose|j: int| 0 <= j < k && objs[j].id@ == id;
        lemma_first_at_most(objs, id, j);
    }
}

/// When some object has identifier `id`, `first_with_id` is the first such position.
pub proof fn lemma_has_object_first<N>(objs: Seq<ManimObject<N>>, id: Seq<char>)
    requires
        has_object(objs, id),
    ensures
        is_first_with_id(objs, id, first_with_id(objs, id)),
{
    let k = choose|k: int| 0 <= k < objs.len() && objs[k].id@ == id;
    lemma_first_at_most(objs, id, k);
    let i = choose|i: int| is_first_with_id(objs, id, i);
    lemma_first_with_id(objs, id, i);
}

/// The object `id` names, if any.
pub open spec fn lookup<N>(objs: Seq<ManimObject<N>>, id: Seq<char>) -> Option<ManimObject<N>> {
    if has_object(objs, id) {
        Some(objs[first_with_id(objs, id)])
    } else {
        None
    }
}

/// The objects of `objs` whose identifier is not `id`, in order.
pub open spec fn objects_without<N>(objs: Seq<ManimObject<N>>, id: Seq<char>) -> Seq<ManimObject<N>> {
    objs.filter(|o: ManimObject<N>| o.id@ != id)
}

/// The animations of `anims` that do not belong to object `id`, in order.
pub open spec fn animations_without_object<N>(anims: Seq<AnimEntry<N>>, id: Seq<char>) -> Seq<AnimEntry<N>> {
    anims.filter(|a: AnimEntry<N>| a.object_id@ != id)
}

/// The animations of `anims` whose own identifier is not `id`, in order.
pub open spec fn animations_without<N>(anims: Seq<AnimEntry<N>>, id: Seq<char>) -> Seq<AnimEntry<N>> {
    anims.filter(|a: AnimEntry<N>| a.id@ != id)
}

/// Taking one more element of `s` adds it to the filtered prefix exactly when it passes.
pub proof fn lemma_filter_take_step<A>(s: Seq<A>, pred: spec_fn(A) -> bool, j: int)
    requires
        0 <= j < s.len(),
    ensures
        s.take(j + 1).filter(pred) == if pred(s[j]) {
            s.take(j).filter(pred).push(s[j])
        } else {
            s.take(j).filter(pred)
        },
{
    reveal(Seq::filter);
    assert(s.take(j + 1).drop_last() =~= s.take(j));
}

impl<N> Scene<N> {
    pub fn add_object(&mut self, obj: ManimObject<N>)
        ensures
            final(self).objects@ == old(self).objects@.push(obj),
            final(self).animations@ == old(self).animations@,
            same_scene_settings(*old(self), *final(self)),
    {
        self.objects.push(obj);
    }

    /// The position of the first object with identifier `id`, if there is one.
    pub fn find_object(&self, id: &str) -> (r: Option<usize>)
        ensures
            match r {
                Some(i) => is_first_with_id(self.objects@, id@, i as int),
                None => !has_object(self.objects@, id@),
            },
    {
        let mut i: usize = 0;
        while i < self.objects.len()
            invariant
                i <= self.objects@.len(),
                forall|j: int| 0 <= j < i ==> self.objects@[j].id@ != id@,
            decreases self.objects.len() - i,
        {
            if self.objects[i].id.as_str().eq(id) {
                return Some(i);
            }
            i += 1;
        }
        None
    }

    /// Removes the object `id` and every animation of it.
    pub fn remove_object(&mut self, id: &str)
        ensures
            final(self).objects@ == objects_without(old(self).objects@, id@),
            final(self).animations@ == animations_without_object(old(self).animations@, id@),
            same_scene_settings(*old(self), *final(self)),
    {
        let ghost orig = self.objects@;
        let ghost keep = |o: ManimObject<N>| o.id@ != id@;
        let mut i: usize = 0;
        let ghost mut j: int = 0;
        while i < self.objects.len()
            invariant
                0 <= j <= orig.len(),
                self.objects@ == orig.take(j).filter(keep) + orig.skip(j),
                i == orig.take(j).filter(keep).len(),
                same_scene_settings(*old(self), *self),
                self.animations@ == old(self).animations@,
                orig == old(self).objects@,
                keep == (|o: ManimObject<N>| o.id@ != id@),
            decreases self.objects.len() - i,
        {
            proof { lemma_filter_take_step(orig, keep, j); }
            assert(orig.skip(j)[0] == orig[j]);
            assert(self.objects@[i as int] == orig[j]);
            if self.objects[i].id.as_str().eq(id) {
                assert(!keep(orig[j]));
                self.objects.remove(i);
                assert(self.objects@ =~= orig.take(j + 1).filter(keep) + orig.skip(j + 1));
            } else {
                assert(keep(orig[j]));
                assert(orig.take(j + 1).filter(keep) + orig.skip(j + 1) =~= orig.take(j).filter(keep) + orig.skip(j));
                i += 1;
            }
            proof { j = j + 1; }
        }
        assert(orig.take(j) =~= orig) by {
            assert(orig.skip(j).len() == 0);
        }
        assert(self.objects@ =~= orig.filter(keep));
        self.remove_animations_of(id);
    }

    /// Removes every animation of object `id`.
    fn remove_animations_of(&mut self, id: &str)
        ensures
            final(self).animations@ == animations_without_object(old(self).animations@, id@),
            final(self).objects@ == old(self).objects@,
            same_scene_settings(*old(self), *final(self)),
    {
        let ghost orig = self.animations@;
        let ghost keep = |a: AnimEntry<N>| a.object_id@ != id@;
        let mut i: usize = 0;
        let ghost mut j: int = 0;
        while i < self.animations.len()
            invariant
                0 <= j <= orig.len(),
                self.animations@ == orig.take(j).filter(keep) + orig.skip(j),
                i == orig.take(j).filter(keep).len(),
                same_scene_settings(*old(self), *self),
                self.objects@ == old(self).objects@,
                orig == old(self).animations@,
                keep == (|a: AnimEntry<N>| a.object_id@ != id@),
            decreases self.animations.len() - i,
        {
            proof { lemma_filter_take_step(orig, keep, j); }
            assert(orig.skip(j)[0] == orig[j]);
            assert(self.animations@[i as int] == orig[j]);
            if self.animations[i].object_id.as_str().eq(id) {
                assert(!keep(orig[j]));
                self.animations.remove(i);
                assert(self.animations@ =~= orig.take(j + 1).filter(keep) + orig.skip(j + 1));
            } else {
                assert(keep(orig[j]));
                assert(orig.take(j + 1).filter(keep) + orig.skip(j + 1) =~= orig.take(j).filter(keep) + orig.skip(j));
                i += 1;
            }
            proof { j = j + 1; }
        }
        assert(orig.take(j) =~= orig) by {
            assert(orig.skip(j).len() == 0);
        }
        assert(self.animations@ =~= orig.filter(keep));
    }

    /// Removes the animation whose own identifier is `id`.
    pub fn remove_animation(&mut self, id: &str)
        ensures
            final(self).animations@ == animations_without(old(self).animations@, id@),
            final(self).objects@ == old(self).objects@,
            same_scene_settings(*old(self), *final(self)),
    {
        let ghost orig = self.animations@;
        let ghost keep = |a: AnimEntry<N>| a.id@ != id@;
        let mut i: usize = 0;
        let ghost mut j: int = 0;
        while i < self.animations.len()
            invariant
                0 <= j <= orig.len(),
                self.animations@ == orig.take(j).filter(keep) + orig.skip(j),
                i == orig.take(j).filter(keep).len(),
                same_scene_settings(*old(self), *self),
                self.objects@ == old(self).objects@,
                orig == old(self).animations@,
                keep == (|a: AnimEntry<N>| a.id@ != id@),
            decreases self.animations.len() - i,
        {
            proof { lemma_filter_take_step(orig, keep, j); }
            assert(orig.skip(j)[0] == orig[j]);
            assert(self.animations@[i as int] == orig[j]);
            if self.animations[i].id.as_str().eq(id) {
                assert(!keep(orig[j]));
                self.animations.remove(i);
                assert(self.animations@ =~= orig.take(j + 1).filter(keep) + orig.skip(j + 1));
            } else {
                assert(keep(orig[j]));
                assert(orig.take(j + 1).filter(keep) + orig.skip(j + 1) =~= orig.take(j).filter(keep) + orig.skip(j));
                i += 1;
            }
            proof { j = j + 1; }
        }
        assert(orig.take(j) =~= orig) by {
            assert(orig.skip(j).len() == 0);
        }
        assert(self.animations@ =~= orig.filter(keep));
    }

    /// The first object with identifier `id`, if any.
    pub fn get_object(&self, id: &str) -> (r: Option<&ManimObject<N>>)
        ensures
            match r {
                Some(o) => lookup(self.objects@, id@) == Some(*o),
                None => lookup(self.objects@, id@) is None,
            },
    {
        match self.find_object(id) {
            Some(i) => {
                proof { lemma_first_with_id(self.objects@, id@, i as int); }
                Some(&self.objects[i])
            },
            None => None,
        }
    }

    /// The first object with identifier `id`, if any, for editing in place.
    pub fn get_object_mut(&mut self, id: &str) -> (r: Option<&mut ManimObject<N>>)
        ensures
            match r {
                Some(o) => {
                    &&& has_object(old(self).objects@, id@)
                    &&& *o == old(self).objects@[first_with_id(old(self).objects@, id@)]
                    &&& final(self).objects@ == old(self).objects@.update(
                        first_with_id(old(self).objects@, id@), *final(o))
                    &&& final(self).animations@ == old(self).animations@
                    &&& same_scene_settings(*old(self), *final(self))
                },
                None => {
                    &&& !has_object(old(self).objects@, id@)
                    &&& *final(self) == *old(self)
                },
            },
    {
        match self.find_object(id) {
            Some(i) => {
                proof { lemma_first_with_id(self.objects@, id@, i as int); }
                Some(&mut self.objects[i])
            },
            None => None,
        }
    }

    /// The name of object `id`, or `Unknown` when there is none.
    pub fn object_name(&self, id: &str) -> (r: &str)
        ensures
            r@ == match lookup(self.objects@, id@) {
                Some(o) => o.name@,
                None => "Unknown"@,
            },
    {
        match self.get_object(id) {
            Some(o) => o.name.as_str(),
            None => "Unknown",
        }
    }
}

/// The largest lane among the animations of object `obj_id`, 0 when it has none.
pub fn max_lane_for_object<N>(animations: &[AnimEntry<N>], obj_id: &str) -> (r: u32)
    ensures
        forall|i: int| 0 <= i < animations@.len() && animations@[i].object_id@ == obj_id@
            ==> animations@[i].lane <= r,
        r == 0 || exists|i: int| 0 <= i < animations@.len() && animations@[i].object_id@ == obj_id@
            && animations@[i].lane == r,
{
    let mut best: u32 = 0;
    let mut i: usize = 0;
    while i < animations.len()
        invariant
            i <= animations@.len(),
            forall|k: int| 0 <= k < i && animations@[k].object_id@ == obj_id@ ==> animations@[k].lane <= best,
            best == 0 || exists|k: int| 0 <= k < i && animations@[k].object_id@ == obj_id@
                && animations@[k].lane == best,
        decreases animations.len() - i,
    {
        if animations[i].object_id.as_str().eq(obj_id) && animations[i].lane > best {
            best = animations[i].lane;
        }
        i += 1;
    }
    best
}

/// Some animation of object `obj_id` brings it onto the stage.
pub open spec fn has_creation_spec<N>(animations: Seq<AnimEntry<N>>, obj_id: Seq<char>) -> bool {
    exists|i: int| 0 <= i < animations.len() && animations[i].object_id@ == obj_id
        && is_creation(animations[i].anim_type)
}

/// Whether some animation of object `obj_id` brings it onto the stage; if none does,
/// the preview shows the object from the start.
pub fn has_creation_anim<N>(animations: &[AnimEntry<N>], obj_id: &str) -> (r: bool)
    ensures
        r == has_creation_spec(animations@, obj_id@),
{
    let mut i: usize = 0;
    while i < animations.len()
        invariant
            i <= animations@.len(),
            forall|k: int| 0 <= k < i && animations@[k].object_id@ == obj_id@
                ==> !is_creation(animations@[k].anim_type),
        decreases animations.len() - i,
    {
        if animations[i].object_id.as_str().eq(obj_id) && animations[i].anim_type.is_creation() {
            return true;
        }
        i += 1;
    }
    false
}


// ─── Copies ─────────────────────────────────────────────────────────────────
//
// The derived `Clone` of these types is left unspecified by the verifier, so
// snapshots and the clipboard use `deep_copy`, which states what it returns:
// a value equal to its source, lists compared by their contents.

/// The two kinds are the same, their lists holding the same items.
pub open spec fn kind_eq<N>(a: ObjType<N>, b: ObjType<N>) -> bool {
    match a {
        ObjType::Polygon { points } => b matches ObjType::Polygon { points: q } && points@ == q@,
        ObjType::BarChart { values, bar_width } => b matches ObjType::BarChart { values: v, bar_width: w }
            && values@ == v@ && bar_width == w,
        ObjType::BulletedList { items } => b matches ObjType::BulletedList { items: v } && items@ == v@,
        ObjType::VGroup { children } => b matches ObjType::VGroup { children: v } && children@ == v@,
        _ => a == b,
    }
}

/// The two animation kinds are the same, their lists holding the same items.
pub open spec fn anim_kind_eq<N>(a: AnimType<N>, b: AnimType<N>) -> bool {
    match a {
        AnimType::MoveAlongPath { path_points } => b matches AnimType::MoveAlongPath { path_points: q }
            && path_points@ == q@,
        AnimType::CyclicReplace { object_ids } => b matches AnimType::CyclicReplace { object_ids: v } && object_ids@ == v@,
        AnimType::Swap { object_ids } => b matches AnimType::Swap { object_ids: v } && object_ids@ == v@,
        AnimType::Succession { animations } => b matches AnimType::Succession { animations: v } && animations@ == v@,
        AnimType::AnimationGroup { animations } => b matches AnimType::AnimationGroup { animations: v }
            && animations@ == v@,
        _ => a == b,
    }
}

/// The two objects agree on every field.
pub open spec fn object_eq<N>(a: ManimObject<N>, b: ManimObject<N>) -> bool {
    &&& a.id == b.id
    &&& a.name == b.name
    &&& kind_eq(a.object_type, b.object_type)
    &&& a.position == b.position
    &&& a.rotation == b.rotation
    &&& a.scale == b.scale
    &&& a.color == b.color
    &&& a.opacity == b.opacity
    &&& a.fill_opacity == b.fill_opacity
    &&& a.stroke_width == b.stroke_width
    &&& a.visible == b.visible
}

/// The two animations agree on every field.
pub open spec fn anim_eq<N>(a: AnimEntry<N>, b: AnimEntry<N>) -> bool {
    &&& a.id == b.id
    &&& a.object_id == b.object_id
    &&& anim_kind_eq(a.anim_type, b.anim_type)
    &&& a.start_time == b.start_time
    &&& a.duration == b.duration
    &&& a.rate_func == b.rate_func
    &&& a.lane == b.lane
}

/// The two lists hold, position by position, objects that agree on every field.
pub open spec fn objects_eq<N>(a: Seq<ManimObject<N>>, b: Seq<ManimObject<N>>) -> bool {
    a.len() == b.len() && forall|i: int| 0 <= i < a.len() ==> object_eq(#[trigger] a[i], b[i])
}

/// The two lists hold, position by position, animations that agree on every field.
pub open spec fn anims_eq<N>(a: Seq<AnimEntry<N>>, b: Seq<AnimEntry<N>>) -> bool {
    a.len() == b.len() && forall|i: int| 0 <= i < a.len() ==> anim_eq(#[trigger] a[i], b[i])
}

/// The two scenes agree on every field, object by object and animation by animation.
pub open spec fn scene_eq<N>(a: Scene<N>, b: Scene<N>) -> bool {
    &&& objects_eq(a.objects@, b.objects@)
    &&& anims_eq(a.animations@, b.animations@)
    &&& same_scene_settings(a, b)
}

/// `scene_eq` is symmetric and transitive (and so, with a copy, reflexive).
pub proof fn lemma_scene_eq_sym_trans<N>(a: Scene<N>, b: Scene<N>, c: Scene<N>)
    ensures
        scene_eq(a, b) ==> scene_eq(b, a),
        scene_eq(a, b) && scene_eq(b, c) ==> scene_eq(a, c),
{
}

/// `kind_eq` is transitive.
pub proof fn lemma_kind_eq_trans<N>(a: ObjType<N>, b: ObjType<N>, c: ObjType<N>)
    requires
        kind_eq(a, b),
        kind_eq(b, c),
    ensures
        kind_eq(a, c),
{
}

/// A copy of `v`, item by item.
fn copy_vec<T: Copy>(v: &Vec<T>) -> (r: Vec<T>)
    ensures
        r@ == v@,
{
    let mut r: Vec<T> = Vec::new();
    let mut i: usize = 0;
    while i < v.len()
        invariant
            i <= v@.len(),
            r@ == v@.take(i as int),
        decreases v.len() - i,
    {
        r.push(v[i]);
        assert(r@ =~= v@.take(i + 1));
        i += 1;
    }
    assert(v@.take(v@.len() as int) =~= v@);
    r
}

/// A copy of `v`, string by string.
fn copy_strings(v: &Vec<String>) -> (r: Vec<String>)
    ensures
        r@ == v@,
{
    let mut r: Vec<String> = Vec::new();
    let mut i: usize = 0;
    while i < v.len()
        invariant
            i <= v@.len(),
            r@ == v@.take(i as int),
        decreases v.len() - i,
    {
        r.push(v[i].clone());
        assert(r@ =~= v@.take(i + 1));
        i += 1;
    }
    assert(v@.take(v@.len() as int) =~= v@);
    r
}

impl<N: Copy> ObjType<N> {
    /// A copy of this kind with its parameters.
    #[verifier::rlimit(50)]
    pub fn deep_copy(&self) -> (r: Self)
        ensures
            kind_eq(*self, r),
    {
        match self {
            ObjType::Circle { radius } => ObjType::Circle { radius: *radius },
            ObjType::Square { side_length } => ObjType::Square { side_length: *side_length },
            ObjType::Rectangle { width, height } => ObjType::Rectangle { width: *width, height: *height },
            ObjType::Triangle { side_length } => ObjType::Triangle { side_length: *side_length },
            ObjType::Text { content, font_size } => ObjType::Text { content: content.clone(), font_size: *font_size },
            ObjType::MathTex { content } => ObjType::MathTex { content: content.clone() },
            ObjType::Line { start, end } => ObjType::Line { start: *start, end: *end },
            ObjType::Arrow { start, end } => ObjType::Arrow { start: *start, end: *end },
            ObjType::Dot => ObjType::Dot,
            ObjType::Sphere { radius } => ObjType::Sphere { radius: *radius },
            ObjType::Cube { side_length } => ObjType::Cube { side_length: *side_length },
            ObjType::Cylinder { radius, height } => ObjType::Cylinder { radius: *radius, height: *height },
            ObjType::Axes => ObjType::Axes,
            ObjType::NumberPlane => ObjType::NumberPlane,
            ObjType::Polygon { points } => ObjType::Polygon { points: copy_vec(points) },
            ObjType::Arc { radius, start_angle, angle } => ObjType::Arc { radius: *radius, start_angle: *start_angle, angle: *angle },
            ObjType::ArcBetweenPoints { start, end, angle } => ObjType::ArcBetweenPoints { start: *start, end: *end, angle: *angle },
            ObjType::Ellipse { width, height } => ObjType::Ellipse { width: *width, height: *height },
            ObjType::Annulus { inner_radius, outer_radius } => ObjType::Annulus { inner_radius: *inner_radius, outer_radius: *outer_radius },
            ObjType::Sector { radius, start_angle, angle } => ObjType::Sector { radius: *radius, start_angle: *start_angle, angle: *angle },
            ObjType::RegularPolygon { n, radius } => ObjType::RegularPolygon { n: *n, radius: *radius },
            ObjType::Star { n, outer_radius, inner_radius } => ObjType::Star { n: *n, outer_radius: *outer_radius, inner_radius: *inner_radius },
            ObjType::RoundedRectangle { width, height, corner_radius } => ObjType::RoundedRectangle { width: *width, height: *height, corner_radius: *corner_radius },
            ObjType::DashedLine { start, end, dash_length } => ObjType::DashedLine { start: *start, end: *end, dash_length: *dash_length },
            ObjType::DoubleArrow { start, end } => ObjType::DoubleArrow { start: *start, end: *end },
            ObjType::Vector { direction } => ObjType::Vector { direction: *direction },
            ObjType::CurvedArrow { start, end } => ObjType::CurvedArrow { start: *start, end: *end },
            ObjType::CurvedDoubleArrow { start, end } => ObjType::CurvedDoubleArrow { start: *start, end: *end },
            ObjType::Elbow => ObjType::Elbow,
            ObjType::TangentLine { length, angle } => ObjType::TangentLine { length: *length, angle: *angle },
            ObjType::Brace { direction, length } => ObjType::Brace { direction: *direction, length: *length },
            ObjType::BraceBetweenPoints { start, end } => ObjType::BraceBetweenPoints { start: *start, end: *end },
            ObjType::BraceLabel { direction, length, label } => ObjType::BraceLabel { direction: *direction, length: *length, label: label.clone() },
            ObjType::Angle { radius, start_angle, angle } => ObjType::Angle { radius: *radius, start_angle: *start_angle, angle: *angle },
            ObjType::RightAngle { size } => ObjType::RightAngle { size: *size },
            ObjType::LabeledDot { label, radius } => ObjType::LabeledDot { label: label.clone(), radius: *radius },
            ObjType::LabeledLine { label, start, end } => ObjType::LabeledLine { label: label.clone(), start: *start, end: *end },
            ObjType::SurroundingRectangle { buff } => ObjType::SurroundingRectangle { buff: *buff },
            ObjType::BackgroundRectangle => ObjType::BackgroundRectangle,
            ObjType::Underline => ObjType::Underline,
            ObjType::Cross { scale } => ObjType::Cross { scale: *scale },
            ObjType::NumberLine { x_min, x_max, step } => ObjType::NumberLine { x_min: *x_min, x_max: *x_max, step: *step },
            ObjType::BarChart { values, bar_width } => ObjType::BarChart { values: copy_vec(values), bar_width: *bar_width },
            ObjType::FunctionGraph { expression, x_min, x_max } => ObjType::FunctionGraph { expression: expression.clone(), x_min: *x_min, x_max: *x_max },
            ObjType::ParametricFunction { expression, t_min, t_max } => ObjType::ParametricFunction { expression: expression.clone(), t_min: *t_min, t_max: *t_max },
            ObjType::ImplicitFunction { expression } => ObjType::ImplicitFunction { expression: expression.clone() },
            ObjType::ComplexPlane => ObjType::ComplexPlane,
            ObjType::PolarPlane => ObjType::PolarPlane,
            ObjType::CoordinateSystem => ObjType::CoordinateSystem,
            ObjType::Title { content } => ObjType::Title { content: content.clone() },
            ObjType::MarkupText { content } => ObjType::MarkupText { content: content.clone() },
            ObjType::BulletedList { items } => ObjType::BulletedList { items: copy_strings(items) },
            ObjType::Paragraph { content } => ObjType::Paragraph { content: content.clone() },
            ObjType::Code { code, language } => ObjType::Code { code: code.clone(), language: language.clone() },
            ObjType::Table { rows, cols } => ObjType::Table { rows: *rows, cols: *cols },
            ObjType::Matrix { rows, cols } => ObjType::Matrix { rows: *rows, cols: *cols },
            ObjType::DecimalNumber { number, num_decimal_places } => ObjType::DecimalNumber { number: *number, num_decimal_places: *num_decimal_places },
            ObjType::Integer { number } => ObjType::Integer { number: *number },
            ObjType::VGroup { children } => ObjType::VGroup { children: copy_strings(children) },
            ObjType::Dot3D => ObjType::Dot3D,
            ObjType::Cone { radius, height } => ObjType::Cone { radius: *radius, height: *height },
            ObjType::Torus { major_radius, minor_radius } => ObjType::Torus { major_radius: *major_radius, minor_radius: *minor_radius },
            ObjType::Prism { width, height, depth } => ObjType::Prism { width: *width, height: *height, depth: *depth },
            ObjType::Arrow3D { start, end } => ObjType::Arrow3D { start: *start, end: *end },
            ObjType::Line3D { start, end } => ObjType::Line3D { start: *start, end: *end },
            ObjType::Surface => ObjType::Surface,
            ObjType::Icosahedron { radius } => ObjType::Icosahedron { radius: *radius },
            ObjType::Dodecahedron { radius } => ObjType::Dodecahedron { radius: *radius },
            ObjType::TracedPath => ObjType::TracedPath,
            ObjType::PointCloudDot => ObjType::PointCloudDot,
        }
    }
}

impl<N: Copy> AnimType<N> {
    /// A copy of this animation kind with its parameters.
    #[verifier::rlimit(50)]
    pub fn deep_copy(&self) -> (r: Self)
        ensures
            anim_kind_eq(*self, r),
    {
        match self {
            AnimType::Create => AnimType::Create,
            AnimType::Uncreate => AnimType::Uncreate,
            AnimType::Write => AnimType::Write,
            AnimType::FadeIn => AnimType::FadeIn,
            AnimType::FadeOut => AnimType::FadeOut,
            AnimType::GrowFromCenter => AnimType::GrowFromCenter,
            AnimType::DrawBorderThenFill => AnimType::DrawBorderThenFill,
            AnimType::SpinInFromNothing => AnimType::SpinInFromNothing,
            AnimType::GrowFromPoint { point } => AnimType::GrowFromPoint { point: *point },
            AnimType::GrowFromEdge { edge } => AnimType::GrowFromEdge { edge: *edge },
            AnimType::GrowArrow => AnimType::GrowArrow,
            AnimType::SpiralIn => AnimType::SpiralIn,
            AnimType::FadeInFromPoint { point } => AnimType::FadeInFromPoint { point: *point },
            AnimType::FadeInFrom { direction } => AnimType::FadeInFrom { direction: *direction },
            AnimType::FadeOutToPoint { point } => AnimType::FadeOutToPoint { point: *point },
            AnimType::FadeOutAndShift { direction } => AnimType::FadeOutAndShift { direction: *direction },
            AnimType::VFadeIn => AnimType::VFadeIn,
            AnimType::VFadeOut => AnimType::VFadeOut,
            AnimType::ShowCreationThenFadeOut => AnimType::ShowCreationThenFadeOut,
            AnimType::AddTextLetterByLetter => AnimType::AddTextLetterByLetter,
            AnimType::RemoveTextLetterByLetter => AnimType::RemoveTextLetterByLetter,
            AnimType::Unwrite => AnimType::Unwrite,
            AnimType::ShrinkToCenter => AnimType::ShrinkToCenter,
            AnimType::Shift { dx, dy } => AnimType::Shift { dx: *dx, dy: *dy },
            AnimType::MoveTo { x, y } => AnimType::MoveTo { x: *x, y: *y },
            AnimType::MoveAlongPath { path_points } => AnimType::MoveAlongPath { path_points: copy_vec(path_points) },
            AnimType::Rotate { angle } => AnimType::Rotate { angle: *angle },
            AnimType::Scale { factor } => AnimType::Scale { factor: *factor },
            AnimType::ScaleInPlace { factor } => AnimType::ScaleInPlace { factor: *factor },
            AnimType::Transform { target_id } => AnimType::Transform { target_id: target_id.clone() },
            AnimType::FadeTransform { target_id } => AnimType::FadeTransform { target_id: target_id.clone() },
            AnimType::ReplacementTransform { target_id } => AnimType::ReplacementTransform { target_id: target_id.clone() },
            AnimType::TransformFromCopy { target_id } => AnimType::TransformFromCopy { target_id: target_id.clone() },
            AnimType::CounterclockwiseTransform { target_id } => AnimType::CounterclockwiseTransform { target_id: target_id.clone() },
            AnimType::ClockwiseTransform { target_id } => AnimType::ClockwiseTransform { target_id: target_id.clone() },
            AnimType::CyclicReplace { object_ids } => AnimType::CyclicReplace { object_ids: copy_strings(object_ids) },
            AnimType::Swap { object_ids } => AnimType::Swap { object_ids: copy_strings(object_ids) },
            AnimType::ApplyMethod { method } => AnimType::ApplyMethod { method: method.clone() },
            AnimType::Restore => AnimType::Restore,
            AnimType::ChangeDecimalToValue { value } => AnimType::ChangeDecimalToValue { value: *value },
            AnimType::Flash => AnimType::Flash,
            AnimType::Indicate => AnimType::Indicate,
            AnimType::Wiggle => AnimType::Wiggle,
            AnimType::ApplyWave => AnimType::ApplyWave,
            AnimType::Circumscribe => AnimType::Circumscribe,
            AnimType::ShowPassingFlash => AnimType::ShowPassingFlash,
            AnimType::FocusOn => AnimType::FocusOn,
            AnimType::Broadcast => AnimType::Broadcast,
            AnimType::ShowIncreasingSubsets => AnimType::ShowIncreasingSubsets,
            AnimType::ShowSubmobjectsOneByOne => AnimType::ShowSubmobjectsOneByOne,
            AnimType::AnimatedBoundary => AnimType::AnimatedBoundary,
            AnimType::MoveCamera { phi, theta, zoom, frame_center } => AnimType::MoveCamera { phi: *phi, theta: *theta, zoom: *zoom, frame_center: *frame_center },
            AnimType::CameraRotate { angle } => AnimType::CameraRotate { angle: *angle },
            AnimType::CameraZoom { factor } => AnimType::CameraZoom { factor: *factor },
            AnimType::CameraPan { dx, dy } => AnimType::CameraPan { dx: *dx, dy: *dy },
            AnimType::Succession { animations } => AnimType::Succession { animations: copy_strings(animations) },
            AnimType::AnimationGroup { animations } => AnimType::AnimationGroup { animations: copy_strings(animations) },
            AnimType::LaggedStart { lag_ratio } => AnimType::LaggedStart { lag_ratio: *lag_ratio },
            AnimType::LaggedStartMap { lag_ratio } => AnimType::LaggedStartMap { lag_ratio: *lag_ratio },
            AnimType::Wait => AnimType::Wait,
            AnimType::Homotopy => AnimType::Homotopy,
            AnimType::PhaseFlow => AnimType::PhaseFlow,
            AnimType::UpdateFromFunc => AnimType::UpdateFromFunc,
            AnimType::UpdateFromAlphaFunc => AnimType::UpdateFromAlphaFunc,
        }
    }
}

impl<N: Copy> ManimObject<N> {
    /// A copy of this object.
    pub fn deep_copy(&self) -> (r: Self)
        ensures
            object_eq(*self, r),
    {
        ManimObject {
            id: self.id.clone(),
            name: self.name.clone(),
            object_type: self.object_type.deep_copy(),
            position: self.position,
            rotation: self.rotation,
            scale: self.scale,
            color: self.color,
            opacity: self.opacity,
            fill_opacity: self.fill_opacity,
            stroke_width: self.stroke_width,
            visible: self.visible,
        }
    }
}

impl<N: Copy> AnimEntry<N> {
    /// A copy of this animation.
    pub fn deep_copy(&self) -> (r: Self)
        ensures
            anim_eq(*self, r),
    {
        AnimEntry {
            id: self.id.clone(),
            object_id: self.object_id.clone(),
            anim_type: self.anim_type.deep_copy(),
            start_time: self.start_time,
            duration: self.duration,
            rate_func: self.rate_func,
            lane: self.lane,
        }
    }
}

impl<N: Copy> Scene<N> {
    /// A copy of this scene: every object and animation copied in order.
    pub fn deep_copy(&self) -> (r: Self)
        ensures
            scene_eq(*self, r),
    {
        let mut objects: Vec<ManimObject<N>> = Vec::new();
        let mut i: usize = 0;
        while i < self.objects.len()
            invariant
                i <= self.objects@.len(),
                objects@.len() == i,
                forall|k: int| 0 <= k < i ==> object_eq(#[trigger] self.objects@[k], objects@[k]),
            decreases self.objects.len() - i,
        {
            objects.push(self.objects[i].deep_copy());
            i += 1;
        }
        let mut animations: Vec<AnimEntry<N>> = Vec::new();
        let mut j: usize = 0;
        while j < self.animations.len()
            invariant
                j <= self.animations@.len(),
                animations@.len() == j,
                forall|k: int| 0 <= k < j ==> anim_eq(#[trigger] self.animations@[k], animations@[k]),
            decreases self.animations.len() - j,
        {
            animations.push(self.animations[j].deep_copy());
            j += 1;
        }
        Scene {
            name: self.name.clone(),
            objects,
            animations,
            timeline: Timeline {
                duration: self.timeline.duration,
                current_time: self.timeline.current_time,
                fps: self.timeline.fps,
            },
            bg_color: self.bg_color,
            is_3d: self.is_3d,
            camera_phi: self.camera_phi,
            camera_theta: self.camera_theta,
            require_latex: self.require_latex,
            scene_type: self.scene_type,
        }
    }
}

} // verus!
