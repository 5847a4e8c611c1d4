//! Generation of the Manim Python script for a scene.
//!
//! Numbers are printed by the caller: for each object or animation,
//! `object_number_slots` and `anim_number_slots` list the numbers its code
//! shows and how each is printed, in the order they appear; the caller prints
//! them (`NumFormat`) and hands the texts back. Everything else in the script,
//! which constructor, which arguments, names, escaping and layout, is decided here.

use vstd::prelude::*;
use vstd::string::StringExecFns;
use crate::scene::{lookup, scene_type_label, AnimEntry, AnimType, ManimObject, ObjType, Scene};
use crate::text::{decimal, escape_str, escaped, join, joined, push_char, push_decimal, variable_name, views};

verus! {

/// How a number is printed: as `{}` prints it, with a fixed number of
/// decimals as `{:.k}` does, or halved and then with a fixed number of decimals.
#[derive(Clone, Copy, Debug, PartialEq, Eq, Structural)]
pub enum NumFormat {
    Plain,
    Fixed(u32),
    FixedHalf(u32),
}

// ─── Pieces ─────────────────────────────────────────────────────────────────

/// `rgb_to_color((r, g, b))` with the three texts from position `k` on.
pub open spec fn color_text(nums: Seq<Seq<char>>, k: int) -> Seq<char> {
    "rgb_to_color(("@ + nums[k] + ", "@ + nums[k + 1] + ", "@ + nums[k + 2] + "))"@
}

/// `[x, y, 0]` with the two texts from position `k` on.
pub open spec fn point_text(nums: Seq<Seq<char>>, k: int) -> Seq<char> {
    "["@ + nums[k] + ", "@ + nums[k + 1] + ", 0]"@
}

/// `n` points from position `base` on, separated by `, `.
pub open spec fn points_text(nums: Seq<Seq<char>>, base: int, n: nat) -> Seq<char> {
    joined(Seq::new(n, |i: int| point_text(nums, base + 2 * i)), ", "@)
}

/// `n` texts from position `base` on, separated by `, `.
pub open spec fn values_text(nums: Seq<Seq<char>>, base: int, n: nat) -> Seq<char> {
    joined(nums.subrange(base, base + n), ", "@)
}

/// An `i32` as `{}` prints it.
pub open spec fn int_text(i: i32) -> Seq<char> {
    if i < 0 {
        "-"@ + decimal((-i) as nat)
    } else {
        decimal(i as nat)
    }
}

/// The slots of a list of points: both coordinates of each, two decimals.
pub open spec fn point_slots<N>(pts: Seq<[N; 2]>) -> Seq<(N, NumFormat)> {
    Seq::new(2 * pts.len(), |i: int| (pts[i / 2][i % 2], NumFormat::Fixed(2)))
}

/// The slots of a list of values: each with two decimals.
pub open spec fn value_slots<N>(vals: Seq<N>) -> Seq<(N, NumFormat)> {
    vals.map_values(|x: N| (x, NumFormat::Fixed(2)))
}

fn color_string(nums: &Vec<String>, k: usize) -> (r: String)
    requires
        k + 3 <= nums.len(),
    ensures
        r@ == color_text(views(nums@), k as int),
{
    let mut s = String::from_str("rgb_to_color((");
    s.append(nums[k].as_str());
    s.append(", ");
    s.append(nums[k + 1].as_str());
    s.append(", ");
    s.append(nums[k + 2].as_str());
    s.append("))");
    s
}

fn point_string(nums: &Vec<String>, k: usize) -> (r: String)
    requires
        k + 2 <= nums.len(),
    ensures
        r@ == point_text(views(nums@), k as int),
{
    let mut s = String::from_str("[");
    s.append(nums[k].as_str());
    s.append(", ");
    s.append(nums[k + 1].as_str());
    s.append(", 0]");
    s
}

fn points_string(nums: &Vec<String>, base: usize, n: usize) -> (r: String)
    requires
        base + 2 * n <= nums.len(),
    ensures
        r@ == points_text(views(nums@), base as int, n as nat),
{
    let ghost f = |i: int| point_text(views(nums@), base + 2 * i);
    let mut s = String::new();
    let mut i: usize = 0;
    while i < n
        invariant
            i <= n,
            base + 2 * n <= nums.len(),
            f == (|i: int| point_text(views(nums@), base + 2 * i)),
            s@ == joined(Seq::new(i as nat, f), ", "@),
        decreases n - i,
    {
        assert(Seq::new((i + 1) as nat, f).drop_last() =~= Seq::new(i as nat, f));
        if i != 0 {
            s.append(", ");
        }
        let p = point_string(nums, base + 2 * i);
        s.append(p.as_str());
        assert(s@ =~= joined(Seq::new((i + 1) as nat, f), ", "@)) by {
            if i == 0 {
                assert(Seq::new(1 as nat, f)[0] == f(0));
            }
        }
        i += 1;
    }
    s
}

fn values_string(nums: &Vec<String>, base: usize, n: usize) -> (r: String)
    requires
        base + n <= nums.len(),
    ensures
        r@ == values_text(views(nums@), base as int, n as nat),
{
    let ghost all = views(nums@);
    let mut s = String::new();
    let mut i: usize = 0;
    while i < n
        invariant
            i <= n,
            base + n <= nums.len(),
            all == views(nums@),
            s@ == joined(all.subrange(base as int, base + i), ", "@),
        decreases n - i,
    {
        assert(all.subrange(base as int, base + i + 1).drop_last() =~= all.subrange(base as int, base + i));
        if i != 0 {
            s.append(", ");
        }
        s.append(nums[base + i].as_str());
        assert(s@ =~= joined(all.subrange(base as int, base + i + 1), ", "@)) by {
            if i == 0 {
                assert(all.subrange(base as int, base + 1)[0] == all[base as int]);
            }
        }
        i += 1;
    }
    s
}

fn decimal_string(n: u128) -> (r: String)
    ensures
        r@ == decimal(n as nat),
{
    let mut s = String::new();
    push_decimal(&mut s, n);
    assert(s@ =~= decimal(n as nat));
    s
}

fn int_string(i: i32) -> (r: String)
    ensures
        r@ == int_text(i),
{
    let mut s = String::new();
    if i < 0 {
        push_char(&mut s, '-');
        proof { reveal_strlit("-"); }
        let magnitude: u128 = (0i64 - i as i64) as u128;
        assert(magnitude == -i);
        push_decimal(&mut s, magnitude);
        assert(s@ =~= int_text(i));
    } else {
        push_decimal(&mut s, i as u128);
        assert(s@ =~= int_text(i));
    }
    s
}

fn push_point_slots<N: Copy>(v: &mut Vec<(N, NumFormat)>, pts: &Vec<[N; 2]>)
    ensures
        final(v)@ == old(v)@ + point_slots(pts@),
{
    let mut i: usize = 0;
    while i < pts.len()
        invariant
            i <= pts@.len(),
            v@ == old(v)@ + point_slots(pts@.take(i as int)),
        decreases pts.len() - i,
    {
        let p = pts[i];
        v.push((p[0], NumFormat::Fixed(2)));
        v.push((p[1], NumFormat::Fixed(2)));
        assert(point_slots(pts@.take(i + 1)) =~= point_slots(pts@.take(i as int)).push((p[0], NumFormat::Fixed(2))).push(
            (p[1], NumFormat::Fixed(2)),
        ));
        i += 1;
    }
    assert(pts@.take(pts.len() as int) =~= pts@);
}

fn push_value_slots<N: Copy>(v: &mut Vec<(N, NumFormat)>, vals: &Vec<N>)
    ensures
        final(v)@ == old(v)@ + value_slots(vals@),
{
    let mut i: usize = 0;
    while i < vals.len()
        invariant
            i <= vals@.len(),
            v@ == old(v)@ + value_slots(vals@.take(i as int)),
        decreases vals.len() - i,
    {
        v.push((vals[i], NumFormat::Fixed(2)));
        assert(value_slots(vals@.take(i + 1)) =~= value_slots(vals@.take(i as int)).push((vals@[i as int], NumFormat::Fixed(2))));
        i += 1;
    }
    assert(vals@.take(vals.len() as int) =~= vals@);
}

// ─── Objects ────────────────────────────────────────────────────────────────

/// The numbers the constructor of `o` shows, with how each is printed, in order.
pub open spec fn constructor_slots<N>(o: ManimObject<N>) -> Seq<(N, NumFormat)> {
    match o.object_type {
        ObjType::Circle { radius } => seq![(radius, NumFormat::Plain)] + seq![(o.color[0], NumFormat::Fixed(3))] + seq![(o.color[1], NumFormat::Fixed(3))] + seq![(o.color[2], NumFormat::Fixed(3))] + seq![(o.fill_opacity, NumFormat::Fixed(2))],
        ObjType::Square { side_length } => seq![(side_length, NumFormat::Plain)] + seq![(o.color[0], NumFormat::Fixed(3))] + seq![(o.color[1], NumFormat::Fixed(3))] + seq![(o.color[2], NumFormat::Fixed(3))] + seq![(o.fill_opacity, NumFormat::Fixed(2))],
        ObjType::Rectangle { width, height } => seq![(width, NumFormat::Plain)] + seq![(height, NumFormat::Plain)] + seq![(o.color[0], NumFormat::Fixed(3))] + seq![(o.color[1], NumFormat::Fixed(3))] + seq![(o.color[2], NumFormat::Fixed(3))] + seq![(o.fill_opacity, NumFormat::Fixed(2))],
        ObjType::Triangle { side_length } => seq![(o.color[0], NumFormat::Fixed(3))] + seq![(o.color[1], NumFormat::Fixed(3))] + seq![(o.color[2], NumFormat::Fixed(3))] + seq![(o.fill_opacity, NumFormat::Fixed(2))] + seq![(side_length, NumFormat::FixedHalf(3))],
        ObjType::Text { content, font_size } => seq![(font_size, NumFormat::Fixed(0))] + seq![(o.color[0], NumFormat::Fixed(3))] + seq![(o.color[1], NumFormat::Fixed(3))] + seq![(o.color[2], NumFormat::Fixed(3))],
        ObjType::MathTex { content } => seq![(o.color[0], NumFormat::Fixed(3))] + seq![(o.color[1], NumFormat::Fixed(3))] + seq![(o.color[2], NumFormat::Fixed(3))],
        ObjType::Line { start, end } => seq![(start[0], NumFormat::Fixed(2))] + seq![(start[1], NumFormat::Fixed(2))] + seq![(start[2], NumFormat::Fixed(2))] + seq![(end[0], NumFormat::Fixed(2))] + seq![(end[1], NumFormat::Fixed(2))] + seq![(end[2], NumFormat::Fixed(2))] + seq![(o.color[0], NumFormat::Fixed(3))] + seq![(o.color[1], NumFormat::Fixed(3))] + seq![(o.color[2], NumFormat::Fixed(3))],
        ObjType::Arrow { start, end } => seq![(start[0], NumFormat::Fixed(2))] + seq![(start[1], NumFormat::Fixed(2))] + seq![(start[2], NumFormat::Fixed(2))] + seq![(end[0], NumFormat::Fixed(2))] + seq![(end[1], NumFormat::Fixed(2))] + seq![(end[2], NumFormat::Fixed(2))] + seq![(o.color[0], NumFormat::Fixed(3))] + seq![(o.color[1], NumFormat::Fixed(3))] + seq![(o.color[2], NumFormat::Fixed(3))],
        ObjType::Dot => seq![(o.color[0], NumFormat::Fixed(3))] + seq![(o.color[1], NumFormat::Fixed(3))] + seq![(o.color[2], NumFormat::Fixed(3))],
        ObjType::Sphere { radius } => seq![(radius, NumFormat::Plain)] + seq![(o.color[0], NumFormat::Fixed(3))] + seq![(o.color[1], NumFormat::Fixed(3))] + seq![(o.color[2], NumFormat::Fixed(3))] + seq![(o.fill_opacity, NumFormat::Fixed(2))],
        ObjType::Cube { side_length } => seq![(side_length, NumFormat::Plain)] + seq![(o.color[0], NumFormat::Fixed(3))] + seq![(o.color[1], NumFormat::Fixed(3))] + seq![(o.color[2], NumFormat::Fixed(3))] + seq![(o.fill_opacity, NumFormat::Fixed(2))],
        ObjType::Cylinder { radius, height } => seq![(radius, NumFormat::Plain)] + seq![(height, NumFormat::Plain)] + seq![(o.color[0], NumFormat::Fixed(3))] + seq![(o.color[1], NumFormat::Fixed(3))] + seq![(o.color[2], NumFormat::Fixed(3))] + seq![(o.fill_opacity, NumFormat::Fixed(2))],
        ObjType::Axes => seq![(o.color[0], NumFormat::Fixed(3))] + seq![(o.color[1], NumFormat::Fixed(3))] + seq![(o.color[2], NumFormat::Fixed(3))],
        ObjType::NumberPlane => Seq::empty(),
        ObjType::Polygon { points } => point_slots(points@) + seq![(o.color[0], NumFormat::Fixed(3))] + seq![(o.color[1], NumFormat::Fixed(3))] + seq![(o.color[2], NumFormat::Fixed(3))] + seq![(o.fill_opacity, NumFormat::Fixed(2))],
        ObjType::Arc { radius, start_angle, angle } => seq![(radius, NumFormat::Plain)] + seq![(start_angle, NumFormat::Plain)] + seq![(angle, NumFormat::Plain)] + seq![(o.color[0], NumFormat::Fixed(3))] + seq![(o.color[1], NumFormat::Fixed(3))] + seq![(o.color[2], NumFormat::Fixed(3))],
        ObjType::ArcBetweenPoints { start, end, angle } => seq![(start[0], NumFormat::Fixed(2))] + seq![(start[1], NumFormat::Fixed(2))] + seq![(start[2], NumFormat::Fixed(2))] + seq![(end[0], NumFormat::Fixed(2))] + seq![(end[1], NumFormat::Fixed(2))] + seq![(end[2], NumFormat::Fixed(2))] + seq![(angle, NumFormat::Plain)] + seq![(o.color[0], NumFormat::Fixed(3))] + seq![(o.color[1], NumFormat::Fixed(3))] + seq![(o.color[2], NumFormat::Fixed(3))],
        ObjType::Ellipse { width, height } => seq![(width, NumFormat::Plain)] + seq![(height, NumFormat::Plain)] + seq![(o.color[0], NumFormat::Fixed(3))] + seq![(o.color[1], NumFormat::Fixed(3))] + seq![(o.color[2], NumFormat::Fixed(3))] + seq![(o.fill_opacity, NumFormat::Fixed(2))],
        ObjType::Annulus { inner_radius, outer_radius } => seq![(inner_radius, NumFormat::Plain)] + seq![(outer_radius, NumFormat::Plain)] + seq![(o.color[0], NumFormat::Fixed(3))] + seq![(o.color[1], NumFormat::Fixed(3))] + seq![(o.color[2], NumFormat::Fixed(3))] + seq![(o.fill_opacity, NumFormat::Fixed(2))],
        ObjType::Sector { radius, start_angle, angle } => seq![(radius, NumFormat::Plain)] + seq![(start_angle, NumFormat::Plain)] + seq![(angle, NumFormat::Plain)] + seq![(o.color[0], NumFormat::Fixed(3))] + seq![(o.color[1], NumFormat::Fixed(3))] + seq![(o.color[2], NumFormat::Fixed(3))] + seq![(o.fill_opacity, NumFormat::Fixed(2))],
        ObjType::RegularPolygon { n, radius } => seq![(o.color[0], NumFormat::Fixed(3))] + seq![(o.color[1], NumFormat::Fixed(3))] + seq![(o.color[2], NumFormat::Fixed(3))] + seq![(o.fill_opacity, NumFormat::Fixed(2))] + seq![(radius, NumFormat::Fixed(3))],
        ObjType::Star { n, outer_radius, inner_radius } => seq![(outer_radius, NumFormat::Plain)] + seq![(inner_radius, NumFormat::Plain)] + seq![(o.color[0], NumFormat::Fixed(3))] + seq![(o.color[1], NumFormat::Fixed(3))] + seq![(o.color[2], NumFormat::Fixed(3))] + seq![(o.fill_opacity, NumFormat::Fixed(2))],
        ObjType::RoundedRectangle { width, height, corner_radius } => seq![(width, NumFormat::Plain)] + seq![(height, NumFormat::Plain)] + seq![(corner_radius, NumFormat::Plain)] + seq![(o.color[0], NumFormat::Fixed(3))] + seq![(o.color[1], NumFormat::Fixed(3))] + seq![(o.color[2], NumFormat::Fixed(3))] + seq![(o.fill_opacity, NumFormat::Fixed(2))],
        ObjType::DashedLine { start, end, dash_length } => seq![(start[0], NumFormat::Fixed(2))] + seq![(start[1], NumFormat::Fixed(2))] + seq![(start[2], NumFormat::Fixed(2))] + seq![(end[0], NumFormat::Fixed(2))] + seq![(end[1], NumFormat::Fixed(2))] + seq![(end[2], NumFormat::Fixed(2))] + seq![(dash_length, NumFormat::Plain)] + seq![(o.color[0], NumFormat::Fixed(3))] + seq![(o.color[1], NumFormat::Fixed(3))] + seq![(o.color[2], NumFormat::Fixed(3))],
        ObjType::DoubleArrow { start, end } => seq![(start[0], NumFormat::Fixed(2))] + seq![(start[1], NumFormat::Fixed(2))] + seq![(start[2], NumFormat::Fixed(2))] + seq![(end[0], NumFormat::Fixed(2))] + seq![(end[1], NumFormat::Fixed(2))] + seq![(end[2], NumFormat::Fixed(2))] + seq![(o.color[0], NumFormat::Fixed(3))] + seq![(o.color[1], NumFormat::Fixed(3))] + seq![(o.color[2], NumFormat::Fixed(3))],
        ObjType::Vector { direction } => seq![(direction[0], NumFormat::Fixed(2))] + seq![(direction[1], NumFormat::Fixed(2))] + seq![(direction[2], NumFormat::Fixed(2))] + seq![(o.color[0], NumFormat::Fixed(3))] + seq![(o.color[1], NumFormat::Fixed(3))] + seq![(o.color[2], NumFormat::Fixed(3))],
        ObjType::CurvedArrow { .. } => seq![(o.color[0], NumFormat::Fixed(3))] + seq![(o.color[1], NumFormat::Fixed(3))] + seq![(o.color[2], NumFormat::Fixed(3))],
        ObjType::CurvedDoubleArrow { .. } => seq![(o.color[0], NumFormat::Fixed(3))] + seq![(o.color[1], NumFormat::Fixed(3))] + seq![(o.color[2], NumFormat::Fixed(3))],
        ObjType::Elbow => seq![(o.color[0], NumFormat::Fixed(3))] + seq![(o.color[1], NumFormat::Fixed(3))] + seq![(o.color[2], NumFormat::Fixed(3))],
        ObjType::TangentLine { .. } => seq![(o.color[0], NumFormat::Fixed(3))] + seq![(o.color[1], NumFormat::Fixed(3))] + seq![(o.color[2], NumFormat::Fixed(3))],
        ObjType::Brace { direction, length } => seq![(direction[0], NumFormat::Fixed(2))] + seq![(direction[1], NumFormat::Fixed(2))] + seq![(direction[2], NumFormat::Fixed(2))] + seq![(o.color[0], NumFormat::Fixed(3))] + seq![(o.color[1], NumFormat::Fixed(3))] + seq![(o.color[2], NumFormat::Fixed(3))] + seq![(length, NumFormat::Fixed(3))],
        ObjType::BraceBetweenPoints { start, end } => seq![(start[0], NumFormat::Fixed(2))] + seq![(start[1], NumFormat::Fixed(2))] + seq![(start[2], NumFormat::Fixed(2))] + seq![(end[0], NumFormat::Fixed(2))] + seq![(end[1], NumFormat::Fixed(2))] + seq![(end[2], NumFormat::Fixed(2))] + seq![(o.color[0], NumFormat::Fixed(3))] + seq![(o.color[1], NumFormat::Fixed(3))] + seq![(o.color[2], NumFormat::Fixed(3))],
        ObjType::BraceLabel { .. } => seq![(o.color[0], NumFormat::Fixed(3))] + seq![(o.color[1], NumFormat::Fixed(3))] + seq![(o.color[2], NumFormat::Fixed(3))],
        ObjType::Angle { radius, start_angle, angle } => seq![(radius, NumFormat::Plain)] + seq![(start_angle, NumFormat::Plain)] + seq![(angle, NumFormat::Plain)] + seq![(o.color[0], NumFormat::Fixed(3))] + seq![(o.color[1], NumFormat::Fixed(3))] + seq![(o.color[2], NumFormat::Fixed(3))],
        ObjType::RightAngle { size } => seq![(size, NumFormat::Plain)] + seq![(o.color[0], NumFormat::Fixed(3))] + seq![(o.color[1], NumFormat::Fixed(3))] + seq![(o.color[2], NumFormat::Fixed(3))],
        ObjType::LabeledDot { .. } => seq![(o.color[0], NumFormat::Fixed(3))] + seq![(o.color[1], NumFormat::Fixed(3))] + seq![(o.color[2], NumFormat::Fixed(3))],
        ObjType::LabeledLine { .. } => seq![(o.color[0], NumFormat::Fixed(3))] + seq![(o.color[1], NumFormat::Fixed(3))] + seq![(o.color[2], NumFormat::Fixed(3))],
        ObjType::SurroundingRectangle { .. } => seq![(o.color[0], NumFormat::Fixed(3))] + seq![(o.color[1], NumFormat::Fixed(3))] + seq![(o.color[2], NumFormat::Fixed(3))],
        ObjType::BackgroundRectangle => seq![(o.color[0], NumFormat::Fixed(3))] + seq![(o.color[1], NumFormat::Fixed(3))] + seq![(o.color[2], NumFormat::Fixed(3))],
        ObjType::Underline => seq![(o.color[0], NumFormat::Fixed(3))] + seq![(o.color[1], NumFormat::Fixed(3))] + seq![(o.color[2], NumFormat::Fixed(3))],
        ObjType::Cross { .. } => seq![(o.color[0], NumFormat::Fixed(3))] + seq![(o.color[1], NumFormat::Fixed(3))] + seq![(o.color[2], NumFormat::Fixed(3))],
        ObjType::NumberLine { x_min, x_max, step } => seq![(x_min, NumFormat::Plain)] + seq![(x_max, NumFormat::Plain)] + seq![(step, NumFormat::Plain)] + seq![(o.color[0], NumFormat::Fixed(3))] + seq![(o.color[1], NumFormat::Fixed(3))] + seq![(o.color[2], NumFormat::Fixed(3))],
        ObjType::BarChart { values, bar_width } => value_slots(values@) + seq![(bar_width, NumFormat::Plain)] + seq![(o.color[0], NumFormat::Fixed(3))] + seq![(o.color[1], NumFormat::Fixed(3))] + seq![(o.color[2], NumFormat::Fixed(3))],
        ObjType::FunctionGraph { .. } => seq![(o.color[0], NumFormat::Fixed(3))] + seq![(o.color[1], NumFormat::Fixed(3))] + seq![(o.color[2], NumFormat::Fixed(3))],
        ObjType::ParametricFunction { .. } => seq![(o.color[0], NumFormat::Fixed(3))] + seq![(o.color[1], NumFormat::Fixed(3))] + seq![(o.color[2], NumFormat::Fixed(3))],
        ObjType::ImplicitFunction { .. } => seq![(o.color[0], NumFormat::Fixed(3))] + seq![(o.color[1], NumFormat::Fixed(3))] + seq![(o.color[2], NumFormat::Fixed(3))],
        ObjType::ComplexPlane => seq![(o.color[0], NumFormat::Fixed(3))] + seq![(o.color[1], NumFormat::Fixed(3))] + seq![(o.color[2], NumFormat::Fixed(3))],
        ObjType::PolarPlane => seq![(o.color[0], NumFormat::Fixed(3))] + seq![(o.color[1], NumFormat::Fixed(3))] + seq![(o.color[2], NumFormat::Fixed(3))],
        ObjType::CoordinateSystem => seq![(o.color[0], NumFormat::Fixed(3))] + seq![(o.color[1], NumFormat::Fixed(3))] + seq![(o.color[2], NumFormat::Fixed(3))],
        ObjType::Title { .. } => seq![(o.color[0], NumFormat::Fixed(3))] + seq![(o.color[1], NumFormat::Fixed(3))] + seq![(o.color[2], NumFormat::Fixed(3))],
        ObjType::MarkupText { .. } => seq![(o.color[0], NumFormat::Fixed(3))] + seq![(o.color[1], NumFormat::Fixed(3))] + seq![(o.color[2], NumFormat::Fixed(3))],
        ObjType::BulletedList { .. } => seq![(o.color[0], NumFormat::Fixed(3))] + seq![(o.color[1], NumFormat::Fixed(3))] + seq![(o.color[2], NumFormat::Fixed(3))],
        ObjType::Paragraph { .. } => seq![(o.color[0], NumFormat::Fixed(3))] + seq![(o.color[1], NumFormat::Fixed(3))] + seq![(o.color[2], NumFormat::Fixed(3))],
        ObjType::Code { .. } => seq![(o.color[0], NumFormat::Fixed(3))] + seq![(o.color[1], NumFormat::Fixed(3))] + seq![(o.color[2], NumFormat::Fixed(3))],
        ObjType::Table { .. } => seq![(o.color[0], NumFormat::Fixed(3))] + seq![(o.color[1], NumFormat::Fixed(3))] + seq![(o.color[2], NumFormat::Fixed(3))],
        ObjType::Matrix { .. } => seq![(o.color[0], NumFormat::Fixed(3))] + seq![(o.color[1], NumFormat::Fixed(3))] + seq![(o.color[2], NumFormat::Fixed(3))],
        ObjType::DecimalNumber { number, num_decimal_places } => seq![(number, NumFormat::Plain)] + seq![(o.color[0], NumFormat::Fixed(3))] + seq![(o.color[1], NumFormat::Fixed(3))] + seq![(o.color[2], NumFormat::Fixed(3))],
        ObjType::Integer { number } => seq![(o.color[0], NumFormat::Fixed(3))] + seq![(o.color[1], NumFormat::Fixed(3))] + seq![(o.color[2], NumFormat::Fixed(3))],
        ObjType::VGroup { .. } => seq![(o.color[0], NumFormat::Fixed(3))] + seq![(o.color[1], NumFormat::Fixed(3))] + seq![(o.color[2], NumFormat::Fixed(3))],
        ObjType::Dot3D => seq![(o.color[0], NumFormat::Fixed(3))] + seq![(o.color[1], NumFormat::Fixed(3))] + seq![(o.color[2], NumFormat::Fixed(3))],
        ObjType::Cone { radius, height } => seq![(radius, NumFormat::Plain)] + seq![(height, NumFormat::Plain)] + seq![(o.color[0], NumFormat::Fixed(3))] + seq![(o.color[1], NumFormat::Fixed(3))] + seq![(o.color[2], NumFormat::Fixed(3))] + seq![(o.fill_opacity, NumFormat::Fixed(2))],
        ObjType::Torus { major_radius, minor_radius } => seq![(major_radius, NumFormat::Plain)] + seq![(minor_radius, NumFormat::Plain)] + seq![(o.color[0], NumFormat::Fixed(3))] + seq![(o.color[1], NumFormat::Fixed(3))] + seq![(o.color[2], NumFormat::Fixed(3))] + seq![(o.fill_opacity, NumFormat::Fixed(2))],
        ObjType::Prism { width, height, depth } => seq![(width, NumFormat::Plain)] + seq![(height, NumFormat::Plain)] + seq![(depth, NumFormat::Plain)] + seq![(o.color[0], NumFormat::Fixed(3))] + seq![(o.color[1], NumFormat::Fixed(3))] + seq![(o.color[2], NumFormat::Fixed(3))] + seq![(o.fill_opacity, NumFormat::Fixed(2))],
        ObjType::Arrow3D { start, end } => seq![(start[0], NumFormat::Fixed(2))] + seq![(start[1], NumFormat::Fixed(2))] + seq![(start[2], NumFormat::Fixed(2))] + seq![(end[0], NumFormat::Fixed(2))] + seq![(end[1], NumFormat::Fixed(2))] + seq![(end[2], NumFormat::Fixed(2))] + seq![(o.color[0], NumFormat::Fixed(3))] + seq![(o.color[1], NumFormat::Fixed(3))] + seq![(o.color[2], NumFormat::Fixed(3))],
        ObjType::Line3D { start, end } => seq![(start[0], NumFormat::Fixed(2))] + seq![(start[1], NumFormat::Fixed(2))] + seq![(start[2], NumFormat::Fixed(2))] + seq![(end[0], NumFormat::Fixed(2))] + seq![(end[1], NumFormat::Fixed(2))] + seq![(end[2], NumFormat::Fixed(2))] + seq![(o.color[0], NumFormat::Fixed(3))] + seq![(o.color[1], NumFormat::Fixed(3))] + seq![(o.color[2], NumFormat::Fixed(3))],
        ObjType::Surface => seq![(o.color[0], NumFormat::Fixed(3))] + seq![(o.color[1], NumFormat::Fixed(3))] + seq![(o.color[2], NumFormat::Fixed(3))] + seq![(o.fill_opacity, NumFormat::Fixed(2))],
        ObjType::Icosahedron { .. } => seq![(o.color[0], NumFormat::Fixed(3))] + seq![(o.color[1], NumFormat::Fixed(3))] + seq![(o.color[2], NumFormat::Fixed(3))],
        ObjType::Dodecahedron { .. } => seq![(o.color[0], NumFormat::Fixed(3))] + seq![(o.color[1], NumFormat::Fixed(3))] + seq![(o.color[2], NumFormat::Fixed(3))],
        ObjType::TracedPath => seq![(o.color[0], NumFormat::Fixed(3))] + seq![(o.color[1], NumFormat::Fixed(3))] + seq![(o.color[2], NumFormat::Fixed(3))],
        ObjType::PointCloudDot => seq![(o.color[0], NumFormat::Fixed(3))] + seq![(o.color[1], NumFormat::Fixed(3))] + seq![(o.color[2], NumFormat::Fixed(3))],
    }
}

/// The Python expression that constructs `o`, given the texts of its
/// constructor's numbers. Without LaTeX, MathTex falls back to Text.
pub open spec fn constructor_text<N>(o: ManimObject<N>, nums: Seq<Seq<char>>, require_latex: bool) -> Seq<char> {
    match o.object_type {
        ObjType::Circle { radius } => "Circle(radius="@ + nums[0] + ", color="@ + color_text(nums, 1) + ", fill_opacity="@ + nums[4] + ")"@,
        ObjType::Square { side_length } => "Square(side_length="@ + nums[0] + ", color="@ + color_text(nums, 1) + ", fill_opacity="@ + nums[4] + ")"@,
        ObjType::Rectangle { width, height } => "Rectangle(width="@ + nums[0] + ", height="@ + nums[1] + ", color="@ + color_text(nums, 2) + ", fill_opacity="@ + nums[5] + ")"@,
        ObjType::Triangle { side_length } => "Triangle(color="@ + color_text(nums, 0) + ", fill_opacity="@ + nums[3] + ").scale("@ + nums[4] + ")"@,
        ObjType::Text { content, font_size } => "Text(\""@ + escaped(content@) + "\", font_size="@ + nums[0] + ", color="@ + color_text(nums, 1) + ")"@,
        ObjType::MathTex { content } => if require_latex {
            "MathTex(r\""@ + content@ + "\", color="@ + color_text(nums, 0) + ")"@
        } else {
            "Text(r\""@ + escaped(content@) + "\", color="@ + color_text(nums, 0) + ")  # MathTex fallback (LaTeX not required)"@
        },
        ObjType::Line { start, end } => "Line(start=np.array(["@ + nums[0] + ", "@ + nums[1] + ", "@ + nums[2] + "]), end=np.array(["@ + nums[3] + ", "@ + nums[4] + ", "@ + nums[5] + "]), color="@ + color_text(nums, 6) + ")"@,
        ObjType::Arrow { start, end } => "Arrow(start=np.array(["@ + nums[0] + ", "@ + nums[1] + ", "@ + nums[2] + "]), end=np.array(["@ + nums[3] + ", "@ + nums[4] + ", "@ + nums[5] + "]), color="@ + color_text(nums, 6) + ")"@,
        ObjType::Dot => "Dot(color="@ + color_text(nums, 0) + ")"@,
        ObjType::Sphere { radius } => "Sphere(radius="@ + nums[0] + ", color="@ + color_text(nums, 1) + ", fill_opacity="@ + nums[4] + ")"@,
        ObjType::Cube { side_length } => "Cube(side_length="@ + nums[0] + ", fill_color="@ + color_text(nums, 1) + ", fill_opacity="@ + nums[4] + ")"@,
        ObjType::Cylinder { radius, height } => "Cylinder(radius="@ + nums[0] + ", height="@ + nums[1] + ", fill_color="@ + color_text(nums, 2) + ", fill_opacity="@ + nums[5] + ")"@,
        ObjType::Axes => "Axes(x_range=[-5, 5, 1], y_range=[-3, 3, 1], color="@ + color_text(nums, 0) + ")  # type: ignore"@,
        ObjType::NumberPlane => "NumberPlane()"@,
        ObjType::Polygon { points } => "Polygon("@ + points_text(nums, 0, points@.len()) + ", color="@ + color_text(nums, 0 + 2 * (points@.len() as int)) + ", fill_opacity="@ + nums[0 + 2 * (points@.len() as int) + 3] + ")"@,
        ObjType::Arc { radius, start_angle, angle } => "Arc(radius="@ + nums[0] + ", start_angle="@ + nums[1] + "*DEGREES, angle="@ + nums[2] + "*DEGREES, color="@ + color_text(nums, 3) + ")"@,
        ObjType::ArcBetweenPoints { start, end, angle } => "ArcBetweenPoints(start=np.array(["@ + nums[0] + ", "@ + nums[1] + ", "@ + nums[2] + "]), end=np.array(["@ + nums[3] + ", "@ + nums[4] + ", "@ + nums[5] + "]), angle="@ + nums[6] + "*DEGREES, color="@ + color_text(nums, 7) + ")"@,
        ObjType::Ellipse { width, height } => "Ellipse(width="@ + nums[0] + ", height="@ + nums[1] + ", color="@ + color_text(nums, 2) + ", fill_opacity="@ + nums[5] + ")"@,
        ObjType::Annulus { inner_radius, outer_radius } => "Annulus(inner_radius="@ + nums[0] + ", outer_radius="@ + nums[1] + ", color="@ + color_text(nums, 2) + ", fill_opacity="@ + nums[5] + ")"@,
        ObjType::Sector { radius, start_angle, angle } => "Sector(outer_radius="@ + nums[0] + ", start_angle="@ + nums[1] + "*DEGREES, angle="@ + nums[2] + "*DEGREES, color="@ + color_text(nums, 3) + ", fill_opacity="@ + nums[6] + ")"@,
        ObjType::RegularPolygon { n, radius } => "RegularPolygon(n="@ + decimal(n as nat) + ", color="@ + color_text(nums, 0) + ", fill_opacity="@ + nums[3] + ").scale("@ + nums[4] + ")"@,
        ObjType::Star { n, outer_radius, inner_radius } => "Star(n="@ + decimal(n as nat) + ", outer_radius="@ + nums[0] + ", inner_radius="@ + nums[1] + ", color="@ + color_text(nums, 2) + ", fill_opacity="@ + nums[5] + ")"@,
        ObjType::RoundedRectangle { width, height, corner_radius } => "RoundedRectangle(width="@ + nums[0] + ", height="@ + nums[1] + ", corner_radius="@ + nums[2] + ", color="@ + color_text(nums, 3) + ", fill_opacity="@ + nums[6] + ")"@,
        ObjType::DashedLine { start, end, dash_length } => "DashedLine(start=np.array(["@ + nums[0] + ", "@ + nums[1] + ", "@ + nums[2] + "]), end=np.array(["@ + nums[3] + ", "@ + nums[4] + ", "@ + nums[5] + "]), dash_length="@ + nums[6] + ", color="@ + color_text(nums, 7) + ")"@,
        ObjType::DoubleArrow { start, end } => "DoubleArrow(start=np.array(["@ + nums[0] + ", "@ + nums[1] + ", "@ + nums[2] + "]), end=np.array(["@ + nums[3] + ", "@ + nums[4] + ", "@ + nums[5] + "]), color="@ + color_text(nums, 6) + ")"@,
        ObjType::Vector { direction } => "Vector(direction=np.array(["@ + nums[0] + ", "@ + nums[1] + ", "@ + nums[2] + "]), color="@ + color_text(nums, 3) + ")"@,
        ObjType::CurvedArrow { .. } => "CurvedArrow(color="@ + color_text(nums, 0) + ")"@,
        ObjType::CurvedDoubleArrow { .. } => "CurvedDoubleArrow(color="@ + color_text(nums, 0) + ")"@,
        ObjType::Elbow => "Elbow(color="@ + color_text(nums, 0) + ")"@,
        ObjType::TangentLine { .. } => "TangentLine(color="@ + color_text(nums, 0) + ")"@,
        ObjType::Brace { direction, length } => "BraceLabel(Dot(), text=\"\", brace_direction=np.array(["@ + nums[0] + ", "@ + nums[1] + ", "@ + nums[2] + "]), color="@ + color_text(nums, 3) + ").scale("@ + nums[6] + ")"@,
        ObjType::BraceBetweenPoints { start, end } => "BraceBetweenPoints(np.array(["@ + nums[0] + ", "@ + nums[1] + ", "@ + nums[2] + "]), np.array(["@ + nums[3] + ", "@ + nums[4] + ", "@ + nums[5] + "]), color="@ + color_text(nums, 6) + ")"@,
        ObjType::BraceLabel { .. } => "BraceLabel(color="@ + color_text(nums, 0) + ")"@,
        ObjType::Angle { radius, start_angle, angle } => "Angle(radius="@ + nums[0] + ", start_angle="@ + nums[1] + "*DEGREES, angle="@ + nums[2] + "*DEGREES, color="@ + color_text(nums, 3) + ")"@,
        ObjType::RightAngle { size } => "RightAngle(length="@ + nums[0] + ", color="@ + color_text(nums, 1) + ")"@,
        ObjType::LabeledDot { .. } => "LabeledDot(color="@ + color_text(nums, 0) + ")"@,
        ObjType::LabeledLine { .. } => "LabeledLine(color="@ + color_text(nums, 0) + ")"@,
        ObjType::SurroundingRectangle { .. } => "SurroundingRectangle(color="@ + color_text(nums, 0) + ")"@,
        ObjType::BackgroundRectangle => "BackgroundRectangle(color="@ + color_text(nums, 0) + ")"@,
        ObjType::Underline => "Underline(color="@ + color_text(nums, 0) + ")"@,
        ObjType::Cross { .. } => "Cross(color="@ + color_text(nums, 0) + ")"@,
        ObjType::NumberLine { x_min, x_max, step } => "NumberLine(x_range=["@ + nums[0] + ", "@ + nums[1] + ", "@ + nums[2] + "], color="@ + color_text(nums, 3) + ")"@,
        ObjType::BarChart { values, bar_width } => "BarChart(values=["@ + values_text(nums, 0, values@.len()) + "], bar_width="@ + nums[0 + (values@.len() as int)] + ", bar_colors=["@ + color_text(nums, 0 + (values@.len() as int) + 1) + "])"@,
        ObjType::FunctionGraph { .. } => "FunctionGraph(color="@ + color_text(nums, 0) + ")"@,
        ObjType::ParametricFunction { .. } => "ParametricFunction(color="@ + color_text(nums, 0) + ")"@,
        ObjType::ImplicitFunction { .. } => "ImplicitFunction(color="@ + color_text(nums, 0) + ")"@,
        ObjType::ComplexPlane => "ComplexPlane(color="@ + color_text(nums, 0) + ")"@,
        ObjType::PolarPlane => "PolarPlane(color="@ + color_text(nums, 0) + ")"@,
        ObjType::CoordinateSystem => "CoordinateSystem(color="@ + color_text(nums, 0) + ")"@,
        ObjType::Title { .. } => "Title(color="@ + color_text(nums, 0) + ")"@,
        ObjType::MarkupText { .. } => "MarkupText(color="@ + color_text(nums, 0) + ")"@,
        ObjType::BulletedList { .. } => "BulletedList(color="@ + color_text(nums, 0) + ")"@,
        ObjType::Paragraph { .. } => "Paragraph(color="@ + color_text(nums, 0) + ")"@,
        ObjType::Code { .. } => "Code(color="@ + color_text(nums, 0) + ")"@,
        ObjType::Table { .. } => "Table(color="@ + color_text(nums, 0) + ")"@,
        ObjType::Matrix { .. } => "Matrix(color="@ + color_text(nums, 0) + ")"@,
        ObjType::DecimalNumber { number, num_decimal_places } => "DecimalNumber("@ + nums[0] + ", num_decimal_places="@ + decimal(num_decimal_places as nat) + ", color="@ + color_text(nums, 1) + ")"@,
        ObjType::Integer { number } => "Integer("@ + int_text(number) + ", color="@ + color_text(nums, 0) + ")"@,
        ObjType::VGroup { .. } => "VGroup(color="@ + color_text(nums, 0) + ")"@,
        ObjType::Dot3D => "Dot3D(color="@ + color_text(nums, 0) + ")"@,
        ObjType::Cone { radius, height } => "Cone(base_radius="@ + nums[0] + ", height="@ + nums[1] + ", fill_color="@ + color_text(nums, 2) + ", fill_opacity="@ + nums[5] + ")"@,
        ObjType::Torus { major_radius, minor_radius } => "Torus(major_radius="@ + nums[0] + ", minor_radius="@ + nums[1] + ", fill_color="@ + color_text(nums, 2) + ", fill_opacity="@ + nums[5] + ")"@,
        ObjType::Prism { width, height, depth } => "Prism(dimensions=["@ + nums[0] + ", "@ + nums[1] + ", "@ + nums[2] + "], fill_color="@ + color_text(nums, 3) + ", fill_opacity="@ + nums[6] + ")"@,
        ObjType::Arrow3D { start, end } => "Arrow3D(start=np.array(["@ + nums[0] + ", "@ + nums[1] + ", "@ + nums[2] + "]), end=np.array(["@ + nums[3] + ", "@ + nums[4] + ", "@ + nums[5] + "]), color="@ + color_text(nums, 6) + ")"@,
        ObjType::Line3D { start, end } => "Line3D(start=np.array(["@ + nums[0] + ", "@ + nums[1] + ", "@ + nums[2] + "]), end=np.array(["@ + nums[3] + ", "@ + nums[4] + ", "@ + nums[5] + "]), color="@ + color_text(nums, 6) + ")"@,
        ObjType::Surface => "Surface(lambda u, v: np.array([u, v, 0]), u_range=[-2, 2], v_range=[-2, 2], fill_color="@ + color_text(nums, 0) + ", fill_opacity="@ + nums[3] + ")"@,
        ObjType::Icosahedron { .. } => "Icosahedron(color="@ + color_text(nums, 0) + ")"@,
        ObjType::Dodecahedron { .. } => "Dodecahedron(color="@ + color_text(nums, 0) + ")"@,
        ObjType::TracedPath => "TracedPath(color="@ + color_text(nums, 0) + ")"@,
        ObjType::PointCloudDot => "PointCloudDot(color="@ + color_text(nums, 0) + ")"@,
    }
}

/// The numbers the code of `o` shows, with how each is printed, in order:
/// the constructor's, then position, scale, rotation and opacity.
pub open spec fn object_slots<N>(o: ManimObject<N>) -> Seq<(N, NumFormat)> {
    constructor_slots(o) + seq![
        (o.position[0], NumFormat::Fixed(3)),
        (o.position[1], NumFormat::Fixed(3)),
        (o.position[2], NumFormat::Fixed(3)),
        (o.scale, NumFormat::Fixed(3)),
        (o.rotation, NumFormat::Plain),
        (o.opacity, NumFormat::Fixed(3)),
    ]
}

/// Which adjustments the object's code applies after constructing it: moving
/// it away from the origin, scaling, rotating, and setting its opacity.
#[derive(Clone, Copy, Debug)]
pub struct ObjectTweaks {
    pub moved: bool,
    pub scaled: bool,
    pub rotated: bool,
    pub faded: bool,
}

/// The lines that define `o` in the script.
pub open spec fn object_code<N>(o: ManimObject<N>, nums: Seq<Seq<char>>, require_latex: bool, tweaks: ObjectTweaks) -> Seq<char> {
    let var = variable_name(o.name@);
    let m = constructor_slots(o).len() as int;
    "        "@ + var + " = "@ + constructor_text(o, nums, require_latex) + (if tweaks.moved {
        "\n        "@ + var + ".move_to(np.array(["@ + nums[m] + ", "@ + nums[m + 1] + ", "@ + nums[m + 2] + "]))"@
    } else {
        Seq::empty()
    }) + (if tweaks.scaled {
        "\n        "@ + var + ".scale("@ + nums[m + 3] + ")"@
    } else {
        Seq::empty()
    }) + (if tweaks.rotated {
        "\n        "@ + var + ".rotate("@ + nums[m + 4] + "*DEGREES)"@
    } else {
        Seq::empty()
    }) + (if tweaks.faded {
        "\n        "@ + var + ".set_opacity("@ + nums[m + 5] + ")"@
    } else {
        Seq::empty()
    })
}

impl<N: Copy> ManimObject<N> {
    /// The numbers the code of this object shows, with how each is printed, in order.
    #[verifier::rlimit(100)]
    #[verifier::spinoff_prover]
    pub fn object_number_slots(&self) -> (r: Vec<(N, NumFormat)>)
        ensures
            r@ == object_slots(*self),
    {
        let o = self;
        let mut v: Vec<(N, NumFormat)> = Vec::new();
        match &o.object_type {
            ObjType::Circle { radius } => {
                v.push((*radius, NumFormat::Plain));
                v.push((o.color[0], NumFormat::Fixed(3)));
                v.push((o.color[1], NumFormat::Fixed(3)));
                v.push((o.color[2], NumFormat::Fixed(3)));
                v.push((o.fill_opacity, NumFormat::Fixed(2)));
            },
            ObjType::Square { side_length } => {
                v.push((*side_length, NumFormat::Plain));
                v.push((o.color[0], NumFormat::Fixed(3)));
                v.push((o.color[1], NumFormat::Fixed(3)));
                v.push((o.color[2], NumFormat::Fixed(3)));
                v.push((o.fill_opacity, NumFormat::Fixed(2)));
            },
            ObjType::Rectangle { width, height } => {
                v.push((*width, NumFormat::Plain));
                v.push((*height, NumFormat::Plain));
                v.push((o.color[0], NumFormat::Fixed(3)));
                v.push((o.color[1], NumFormat::Fixed(3)));
                v.push((o.color[2], NumFormat::Fixed(3)));
                v.push((o.fill_opacity, NumFormat::Fixed(2)));
            },
            ObjType::Triangle { side_length } => {
                v.push((o.color[0], NumFormat::Fixed(3)));
                v.push((o.color[1], NumFormat::Fixed(3)));
                v.push((o.color[2], NumFormat::Fixed(3)));
                v.push((o.fill_opacity, NumFormat::Fixed(2)));
                v.push((*side_length, NumFormat::FixedHalf(3)));
            },
            ObjType::Text { content, font_size } => {
                v.push((*font_size, NumFormat::Fixed(0)));
                v.push((o.color[0], NumFormat::Fixed(3)));
                v.push((o.color[1], NumFormat::Fixed(3)));
                v.push((o.color[2], NumFormat::Fixed(3)));
            },
            ObjType::MathTex { content } => {
                v.push((o.color[0], NumFormat::Fixed(3)));
                v.push((o.color[1], NumFormat::Fixed(3)));
                v.push((o.color[2], NumFormat::Fixed(3)));
            },
            ObjType::Line { start, end } => {
                v.push((start[0], NumFormat::Fixed(2)));
                v.push((start[1], NumFormat::Fixed(2)));
                v.push((start[2], NumFormat::Fixed(2)));
                v.push((end[0], NumFormat::Fixed(2)));
                v.push((end[1], NumFormat::Fixed(2)));
                v.push((end[2], NumFormat::Fixed(2)));
                v.push((o.color[0], NumFormat::Fixed(3)));
                v.push((o.color[1], NumFormat::Fixed(3)));
                v.push((o.color[2], NumFormat::Fixed(3)));
            },
            ObjType::Arrow { start, end } => {
                v.push((start[0], NumFormat::Fixed(2)));
                v.push((start[1], NumFormat::Fixed(2)));
                v.push((start[2], NumFormat::Fixed(2)));
                v.push((end[0], NumFormat::Fixed(2)));
                v.push((end[1], NumFormat::Fixed(2)));
                v.push((end[2], NumFormat::Fixed(2)));
                v.push((o.color[0], NumFormat::Fixed(3)));
                v.push((o.color[1], NumFormat::Fixed(3)));
                v.push((o.color[2], NumFormat::Fixed(3)));
            },
            ObjType::Dot => {
                v.push((o.color[0], NumFormat::Fixed(3)));
                v.push((o.color[1], NumFormat::Fixed(3)));
                v.push((o.color[2], NumFormat::Fixed(3)));
            },
            ObjType::Sphere { radius } => {
                v.push((*radius, NumFormat::Plain));
                v.push((o.color[0], NumFormat::Fixed(3)));
                v.push((o.color[1], NumFormat::Fixed(3)));
                v.push((o.color[2], NumFormat::Fixed(3)));
                v.push((o.fill_opacity, NumFormat::Fixed(2)));
            },
            ObjType::Cube { side_length } => {
                v.push((*side_length, NumFormat::Plain));
                v.push((o.color[0], NumFormat::Fixed(3)));
                v.push((o.color[1], NumFormat::Fixed(3)));
                v.push((o.color[2], NumFormat::Fixed(3)));
                v.push((o.fill_opacity, NumFormat::Fixed(2)));
            },
            ObjType::Cylinder { radius, height } => {
                v.push((*radius, NumFormat::Plain));
                v.push((*height, NumFormat::Plain));
                v.push((o.color[0], NumFormat::Fixed(3)));
                v.push((o.color[1], NumFormat::Fixed(3)));
                v.push((o.color[2], NumFormat::Fixed(3)));
                v.push((o.fill_opacity, NumFormat::Fixed(2)));
            },
            ObjType::Axes => {
                v.push((o.color[0], NumFormat::Fixed(3)));
                v.push((o.color[1], NumFormat::Fixed(3)));
                v.push((o.color[2], NumFormat::Fixed(3)));
            },
            ObjType::NumberPlane => {

            },
            ObjType::Polygon { points } => {
                push_point_slots(&mut v, points);
                v.push((o.color[0], NumFormat::Fixed(3)));
                v.push((o.color[1], NumFormat::Fixed(3)));
                v.push((o.color[2], NumFormat::Fixed(3)));
                v.push((o.fill_opacity, NumFormat::Fixed(2)));
            },
            ObjType::Arc { radius, start_angle, angle } => {
                v.push((*radius, NumFormat::Plain));
                v.push((*start_angle, NumFormat::Plain));
                v.push((*angle, NumFormat::Plain));
                v.push((o.color[0], NumFormat::Fixed(3)));
                v.push((o.color[1], NumFormat::Fixed(3)));
                v.push((o.color[2], NumFormat::Fixed(3)));
            },
            ObjType::ArcBetweenPoints { start, end, angle } => {
                v.push((start[0], NumFormat::Fixed(2)));
                v.push((start[1], NumFormat::Fixed(2)));
                v.push((start[2], NumFormat::Fixed(2)));
                v.push((end[0], NumFormat::Fixed(2)));
                v.push((end[1], NumFormat::Fixed(2)));
                v.push((end[2], NumFormat::Fixed(2)));
                v.push((*angle, NumFormat::Plain));
                v.push((o.color[0], NumFormat::Fixed(3)));
                v.push((o.color[1], NumFormat::Fixed(3)));
                v.push((o.color[2], NumFormat::Fixed(3)));
            },
            ObjType::Ellipse { width, height } => {
                v.push((*width, NumFormat::Plain));
                v.push((*height, NumFormat::Plain));
                v.push((o.color[0], NumFormat::Fixed(3)));
                v.push((o.color[1], NumFormat::Fixed(3)));
                v.push((o.color[2], NumFormat::Fixed(3)));
                v.push((o.fill_opacity, NumFormat::Fixed(2)));
            },
            ObjType::Annulus { inner_radius, outer_radius } => {
                v.push((*inner_radius, NumFormat::Plain));
                v.push((*outer_radius, NumFormat::Plain));
                v.push((o.color[0], NumFormat::Fixed(3)));
                v.push((o.color[1], NumFormat::Fixed(3)));
                v.push((o.color[2], NumFormat::Fixed(3)));
                v.push((o.fill_opacity, NumFormat::Fixed(2)));
            },
            ObjType::Sector { radius, start_angle, angle } => {
                v.push((*radius, NumFormat::Plain));
                v.push((*start_angle, NumFormat::Plain));
                v.push((*angle, NumFormat::Plain));
                v.push((o.color[0], NumFormat::Fixed(3)));
                v.push((o.color[1], NumFormat::Fixed(3)));
                v.push((o.color[2], NumFormat::Fixed(3)));
                v.push((o.fill_opacity, NumFormat::Fixed(2)));
            },
            ObjType::RegularPolygon { n, radius } => {
                v.push((o.color[0], NumFormat::Fixed(3)));
                v.push((o.color[1], NumFormat::Fixed(3)));
                v.push((o.color[2], NumFormat::Fixed(3)));
                v.push((o.fill_opacity, NumFormat::Fixed(2)));
                v.push((*radius, NumFormat::Fixed(3)));
            },
            ObjType::Star { n, outer_radius, inner_radius } => {
                v.push((*outer_radius, NumFormat::Plain));
                v.push((*inner_radius, NumFormat::Plain));
                v.push((o.color[0], NumFormat::Fixed(3)));
                v.push((o.color[1], NumFormat::Fixed(3)));
                v.push((o.color[2], NumFormat::Fixed(3)));
                v.push((o.fill_opacity, NumFormat::Fixed(2)));
            },
            ObjType::RoundedRectangle { width, height, corner_radius } => {
                v.push((*width, NumFormat::Plain));
                v.push((*height, NumFormat::Plain));
                v.push((*corner_radius, NumFormat::Plain));
                v.push((o.color[0], NumFormat::Fixed(3)));
                v.push((o.color[1], NumFormat::Fixed(3)));
                v.push((o.color[2], NumFormat::Fixed(3)));
                v.push((o.fill_opacity, NumFormat::Fixed(2)));
            },
            ObjType::DashedLine { start, end, dash_length } => {
                v.push((start[0], NumFormat::Fixed(2)));
                v.push((start[1], NumFormat::Fixed(2)));
                v.push((start[2], NumFormat::Fixed(2)));
                v.push((end[0], NumFormat::Fixed(2)));
                v.push((end[1], NumFormat::Fixed(2)));
                v.push((end[2], NumFormat::Fixed(2)));
                v.push((*dash_length, NumFormat::Plain));
                v.push((o.color[0], NumFormat::Fixed(3)));
                v.push((o.color[1], NumFormat::Fixed(3)));
                v.push((o.color[2], NumFormat::Fixed(3)));
            },
            ObjType::DoubleArrow { start, end } => {
                v.push((start[0], NumFormat::Fixed(2)));
                v.push((start[1], NumFormat::Fixed(2)));
                v.push((start[2], NumFormat::Fixed(2)));
                v.push((end[0], NumFormat::Fixed(2)));
                v.push((end[1], NumFormat::Fixed(2)));
                v.push((end[2], NumFormat::Fixed(2)));
                v.push((o.color[0], NumFormat::Fixed(3)));
                v.push((o.color[1], NumFormat::Fixed(3)));
                v.push((o.color[2], NumFormat::Fixed(3)));
            },
            ObjType::Vector { direction } => {
                v.push((direction[0], NumFormat::Fixed(2)));
                v.push((direction[1], NumFormat::Fixed(2)));
                v.push((direction[2], NumFormat::Fixed(2)));
                v.push((o.color[0], NumFormat::Fixed(3)));
                v.push((o.color[1], NumFormat::Fixed(3)));
                v.push((o.color[2], NumFormat::Fixed(3)));
            },
            ObjType::CurvedArrow { .. } => {
                v.push((o.color[0], NumFormat::Fixed(3)));
                v.push((o.color[1], NumFormat::Fixed(3)));
                v.push((o.color[2], NumFormat::Fixed(3)));
            },
            ObjType::CurvedDoubleArrow { .. } => {
                v.push((o.color[0], NumFormat::Fixed(3)));
                v.push((o.color[1], NumFormat::Fixed(3)));
                v.push((o.color[2], NumFormat::Fixed(3)));
            },
            ObjType::Elbow => {
                v.push((o.color[0], NumFormat::Fixed(3)));
                v.push((o.color[1], NumFormat::Fixed(3)));
                v.push((o.color[2], NumFormat::Fixed(3)));
            },
            ObjType::TangentLine { .. } => {
                v.push((o.color[0], NumFormat::Fixed(3)));
                v.push((o.color[1], NumFormat::Fixed(3)));
                v.push((o.color[2], NumFormat::Fixed(3)));
            },
            ObjType::Brace { direction, length } => {
                v.push((direction[0], NumFormat::Fixed(2)));
                v.push((direction[1], NumFormat::Fixed(2)));
                v.push((direction[2], NumFormat::Fixed(2)));
                v.push((o.color[0], NumFormat::Fixed(3)));
                v.push((o.color[1], NumFormat::Fixed(3)));
                v.push((o.color[2], NumFormat::Fixed(3)));
                v.push((*length, NumFormat::Fixed(3)));
            },
            ObjType::BraceBetweenPoints { start, end } => {
                v.push((start[0], NumFormat::Fixed(2)));
                v.push((start[1], NumFormat::Fixed(2)));
                v.push((start[2], NumFormat::Fixed(2)));
                v.push((end[0], NumFormat::Fixed(2)));
                v.push((end[1], NumFormat::Fixed(2)));
                v.push((end[2], NumFormat::Fixed(2)));
                v.push((o.color[0], NumFormat::Fixed(3)));
                v.push((o.color[1], NumFormat::Fixed(3)));
                v.push((o.color[2], NumFormat::Fixed(3)));
            },
            ObjType::BraceLabel { .. } => {
                v.push((o.color[0], NumFormat::Fixed(3)));
                v.push((o.color[1], NumFormat::Fixed(3)));
                v.push((o.color[2], NumFormat::Fixed(3)));
            },
            ObjType::Angle { radius, start_angle, angle } => {
                v.push((*radius, NumFormat::Plain));
                v.push((*start_angle, NumFormat::Plain));
                v.push((*angle, NumFormat::Plain));
                v.push((o.color[0], NumFormat::Fixed(3)));
                v.push((o.color[1], NumFormat::Fixed(3)));
                v.push((o.color[2], NumFormat::Fixed(3)));
            },
            ObjType::RightAngle { size } => {
                v.push((*size, NumFormat::Plain));
                v.push((o.color[0], NumFormat::Fixed(3)));
                v.push((o.color[1], NumFormat::Fixed(3)));
                v.push((o.color[2], NumFormat::Fixed(3)));
            },
            ObjType::LabeledDot { .. } => {
                v.push((o.color[0], NumFormat::Fixed(3)));
                v.push((o.color[1], NumFormat::Fixed(3)));
                v.push((o.color[2], NumFormat::Fixed(3)));
            },
            ObjType::LabeledLine { .. } => {
                v.push((o.color[0], NumFormat::Fixed(3)));
                v.push((o.color[1], NumFormat::Fixed(3)));
                v.push((o.color[2], NumFormat::Fixed(3)));
            },
            ObjType::SurroundingRectangle { .. } => {
                v.push((o.color[0], NumFormat::Fixed(3)));
                v.push((o.color[1], NumFormat::Fixed(3)));
                v.push((o.color[2], NumFormat::Fixed(3)));
            },
            ObjType::BackgroundRectangle => {
                v.push((o.color[0], NumFormat::Fixed(3)));
                v.push((o.color[1], NumFormat::Fixed(3)));
                v.push((o.color[2], NumFormat::Fixed(3)));
            },
            ObjType::Underline => {
                v.push((o.color[0], NumFormat::Fixed(3)));
                v.push((o.color[1], NumFormat::Fixed(3)));
                v.push((o.color[2], NumFormat::Fixed(3)));
            },
            ObjType::Cross { .. } => {
                v.push((o.color[0], NumFormat::Fixed(3)));
                v.push((o.color[1], NumFormat::Fixed(3)));
                v.push((o.color[2], NumFormat::Fixed(3)));
            },
            ObjType::NumberLine { x_min, x_max, step } => {
                v.push((*x_min, NumFormat::Plain));
                v.push((*x_max, NumFormat::Plain));
                v.push((*step, NumFormat::Plain));
                v.push((o.color[0], NumFormat::Fixed(3)));
                v.push((o.color[1], NumFormat::Fixed(3)));
                v.push((o.color[2], NumFormat::Fixed(3)));
            },
            ObjType::BarChart { values, bar_width } => {
                push_value_slots(&mut v, values);
                v.push((*bar_width, NumFormat::Plain));
                v.push((o.color[0], NumFormat::Fixed(3)));
                v.push((o.color[1], NumFormat::Fixed(3)));
                v.push((o.color[2], NumFormat::Fixed(3)));
            },
            ObjType::FunctionGraph { .. } => {
                v.push((o.color[0], NumFormat::Fixed(3)));
                v.push((o.color[1], NumFormat::Fixed(3)));
                v.push((o.color[2], NumFormat::Fixed(3)));
            },
            ObjType::ParametricFunction { .. } => {
                v.push((o.color[0], NumFormat::Fixed(3)));
                v.push((o.color[1], NumFormat::Fixed(3)));
                v.push((o.color[2], NumFormat::Fixed(3)));
            },
            ObjType::ImplicitFunction { .. } => {
                v.push((o.color[0], NumFormat::Fixed(3)));
                v.push((o.color[1], NumFormat::Fixed(3)));
                v.push((o.color[2], NumFormat::Fixed(3)));
            },
            ObjType::ComplexPlane => {
                v.push((o.color[0], NumFormat::Fixed(3)));
                v.push((o.color[1], NumFormat::Fixed(3)));
                v.push((o.color[2], NumFormat::Fixed(3)));
            },
            ObjType::PolarPlane => {
                v.push((o.color[0], NumFormat::Fixed(3)));
                v.push((o.color[1], NumFormat::Fixed(3)));
                v.push((o.color[2], NumFormat::Fixed(3)));
            },
            ObjType::CoordinateSystem => {
                v.push((o.color[0], NumFormat::Fixed(3)));
                v.push((o.color[1], NumFormat::Fixed(3)));
                v.push((o.color[2], NumFormat::Fixed(3)));
            },
            ObjType::Title { .. } => {
                v.push((o.color[0], NumFormat::Fixed(3)));
                v.push((o.color[1], NumFormat::Fixed(3)));
                v.push((o.color[2], NumFormat::Fixed(3)));
            },
            ObjType::MarkupText { .. } => {
                v.push((o.color[0], NumFormat::Fixed(3)));
                v.push((o.color[1], NumFormat::Fixed(3)));
                v.push((o.color[2], NumFormat::Fixed(3)));
            },
            ObjType::BulletedList { .. } => {
                v.push((o.color[0], NumFormat::Fixed(3)));
                v.push((o.color[1], NumFormat::Fixed(3)));
                v.push((o.color[2], NumFormat::Fixed(3)));
            },
            ObjType::Paragraph { .. } => {
                v.push((o.color[0], NumFormat::Fixed(3)));
                v.push((o.color[1], NumFormat::Fixed(3)));
                v.push((o.color[2], NumFormat::Fixed(3)));
            },
            ObjType::Code { .. } => {
                v.push((o.color[0], NumFormat::Fixed(3)));
                v.push((o.color[1], NumFormat::Fixed(3)));
                v.push((o.color[2], NumFormat::Fixed(3)));
            },
            ObjType::Table { .. } => {
                v.push((o.color[0], NumFormat::Fixed(3)));
                v.push((o.color[1], NumFormat::Fixed(3)));
                v.push((o.color[2], NumFormat::Fixed(3)));
            },
            ObjType::Matrix { .. } => {
                v.push((o.color[0], NumFormat::Fixed(3)));
                v.push((o.color[1], NumFormat::Fixed(3)));
                v.push((o.color[2], NumFormat::Fixed(3)));
            },
            ObjType::DecimalNumber { number, num_decimal_places } => {
                v.push((*number, NumFormat::Plain));
                v.push((o.color[0], NumFormat::Fixed(3)));
                v.push((o.color[1], NumFormat::Fixed(3)));
                v.push((o.color[2], NumFormat::Fixed(3)));
            },
            ObjType::Integer { number } => {
                v.push((o.color[0], NumFormat::Fixed(3)));
                v.push((o.color[1], NumFormat::Fixed(3)));
                v.push((o.color[2], NumFormat::Fixed(3)));
            },
            ObjType::VGroup { .. } => {
                v.push((o.color[0], NumFormat::Fixed(3)));
                v.push((o.color[1], NumFormat::Fixed(3)));
                v.push((o.color[2], NumFormat::Fixed(3)));
            },
            ObjType::Dot3D => {
                v.push((o.color[0], NumFormat::Fixed(3)));
                v.push((o.color[1], NumFormat::Fixed(3)));
                v.push((o.color[2], NumFormat::Fixed(3)));
            },
            ObjType::Cone { radius, height } => {
                v.push((*radius, NumFormat::Plain));
                v.push((*height, NumFormat::Plain));
                v.push((o.color[0], NumFormat::Fixed(3)));
                v.push((o.color[1], NumFormat::Fixed(3)));
                v.push((o.color[2], NumFormat::Fixed(3)));
                v.push((o.fill_opacity, NumFormat::Fixed(2)));
            },
            ObjType::Torus { major_radius, minor_radius } => {
                v.push((*major_radius, NumFormat::Plain));
                v.push((*minor_radius, NumFormat::Plain));
                v.push((o.color[0], NumFormat::Fixed(3)));
                v.push((o.color[1], NumFormat::Fixed(3)));
                v.push((o.color[2], NumFormat::Fixed(3)));
                v.push((o.fill_opacity, NumFormat::Fixed(2)));
            },
            ObjType::Prism { width, height, depth } => {
                v.push((*width, NumFormat::Plain));
                v.push((*height, NumFormat::Plain));
                v.push((*depth, NumFormat::Plain));
                v.push((o.color[0], NumFormat::Fixed(3)));
                v.push((o.color[1], NumFormat::Fixed(3)));
                v.push((o.color[2], NumFormat::Fixed(3)));
                v.push((o.fill_opacity, NumFormat::Fixed(2)));
            },
            ObjType::Arrow3D { start, end } => {
                v.push((start[0], NumFormat::Fixed(2)));
                v.push((start[1], NumFormat::Fixed(2)));
                v.push((start[2], NumFormat::Fixed(2)));
                v.push((end[0], NumFormat::Fixed(2)));
                v.push((end[1], NumFormat::Fixed(2)));
                v.push((end[2], NumFormat::Fixed(2)));
                v.push((o.color[0], NumFormat::Fixed(3)));
                v.push((o.color[1], NumFormat::Fixed(3)));
                v.push((o.color[2], NumFormat::Fixed(3)));
            },
            ObjType::Line3D { start, end } => {
                v.push((start[0], NumFormat::Fixed(2)));
                v.push((start[1], NumFormat::Fixed(2)));
                v.push((start[2], NumFormat::Fixed(2)));
                v.push((end[0], NumFormat::Fixed(2)));
                v.push((end[1], NumFormat::Fixed(2)));
                v.push((end[2], NumFormat::Fixed(2)));
                v.push((o.color[0], NumFormat::Fixed(3)));
                v.push((o.color[1], NumFormat::Fixed(3)));
                v.push((o.color[2], NumFormat::Fixed(3)));
            },
            ObjType::Surface => {
                v.push((o.color[0], NumFormat::Fixed(3)));
                v.push((o.color[1], NumFormat::Fixed(3)));
                v.push((o.color[2], NumFormat::Fixed(3)));
                v.push((o.fill_opacity, NumFormat::Fixed(2)));
            },
            ObjType::Icosahedron { .. } => {
                v.push((o.color[0], NumFormat::Fixed(3)));
                v.push((o.color[1], NumFormat::Fixed(3)));
                v.push((o.color[2], NumFormat::Fixed(3)));
            },
            ObjType::Dodecahedron { .. } => {
                v.push((o.color[0], NumFormat::Fixed(3)));
                v.push((o.color[1], NumFormat::Fixed(3)));
                v.push((o.color[2], NumFormat::Fixed(3)));
            },
            ObjType::TracedPath => {
                v.push((o.color[0], NumFormat::Fixed(3)));
                v.push((o.color[1], NumFormat::Fixed(3)));
                v.push((o.color[2], NumFormat::Fixed(3)));
            },
            ObjType::PointCloudDot => {
                v.push((o.color[0], NumFormat::Fixed(3)));
                v.push((o.color[1], NumFormat::Fixed(3)));
                v.push((o.color[2], NumFormat::Fixed(3)));
            },
        }
        assert(v@ =~= constructor_slots(*o));
        v.push((o.position[0], NumFormat::Fixed(3)));
        v.push((o.position[1], NumFormat::Fixed(3)));
        v.push((o.position[2], NumFormat::Fixed(3)));
        v.push((o.scale, NumFormat::Fixed(3)));
        v.push((o.rotation, NumFormat::Plain));
        v.push((o.opacity, NumFormat::Fixed(3)));
        assert(v@ =~= object_slots(*o));
        v
    }
}

#[verifier::rlimit(100)]
#[verifier::spinoff_prover]
fn constructor_string<N: Copy>(o: &ManimObject<N>, nums: &Vec<String>, require_latex: bool) -> (r: String)
    requires
        constructor_slots(*o).len() <= nums.len(),
    ensures
        r@ == constructor_text(*o, views(nums@), require_latex),
{
    let ghost nv = views(nums@);
    match &o.object_type {
            ObjType::Circle { radius } => {
                let mut s = String::from_str("Circle(radius=");
                s.append(nums[0].as_str());
                s.append(", color=");
                s.append(color_string(nums, 1).as_str());
                s.append(", fill_opacity=");
                s.append(nums[4].as_str());
                s.append(")");
                s
            },
            ObjType::Square { side_length } => {
                let mut s = String::from_str("Square(side_length=");
                s.append(nums[0].as_str());
                s.append(", color=");
                s.append(color_string(nums, 1).as_str());
                s.append(", fill_opacity=");
                s.append(nums[4].as_str());
                s.append(")");
                s
            },
            ObjType::Rectangle { width, height } => {
                let mut s = String::from_str("Rectangle(width=");
                s.append(nums[0].as_str());
                s.append(", height=");
                s.append(nums[1].as_str());
                s.append(", color=");
                s.append(color_string(nums, 2).as_str());
                s.append(", fill_opacity=");
                s.append(nums[5].as_str());
                s.append(")");
                s
            },
            ObjType::Triangle { side_length } => {
                let mut s = String::from_str("Triangle(color=");
                s.append(color_string(nums, 0).as_str());
                s.append(", fill_opacity=");
                s.append(nums[3].as_str());
                s.append(").scale(");
                s.append(nums[4].as_str());
                s.append(")");
                s
            },
            ObjType::Text { content, font_size } => {
                let mut s = String::from_str("Text(\"");
                s.append(escape_str(content.as_str()).as_str());
                s.append("\", font_size=");
                s.append(nums[0].as_str());
                s.append(", color=");
                s.append(color_string(nums, 1).as_str());
                s.append(")");
                s
            },
            ObjType::MathTex { content } => if require_latex {
                let mut s = String::from_str("MathTex(r\"");
                s.append(content.as_str());
                s.append("\", color=");
                s.append(color_string(nums, 0).as_str());
                s.append(")");
                s
            } else {
                let mut s = String::from_str("Text(r\"");
                s.append(escape_str(content.as_str()).as_str());
                s.append("\", color=");
                s.append(color_string(nums, 0).as_str());
                s.append(")  # MathTex fallback (LaTeX not required)");
                s
            },
            ObjType::Line { start, end } => {
                let mut s = String::from_str("Line(start=np.array([");
                s.append(nums[0].as_str());
                s.append(", ");
                s.append(nums[1].as_str());
                s.append(", ");
                s.append(nums[2].as_str());
                s.append("]), end=np.array([");
                s.append(nums[3].as_str());
                s.append(", ");
                s.append(nums[4].as_str());
                s.append(", ");
                s.append(nums[5].as_str());
                s.append("]), color=");
                s.append(color_string(nums, 6).as_str());
                s.append(")");
                s
            },
            ObjType::Arrow { start, end } => {
                let mut s = String::from_str("Arrow(start=np.array([");
                s.append(nums[0].as_str());
                s.append(", ");
                s.append(nums[1].as_str());
                s.append(", ");
                s.append(nums[2].as_str());
                s.append("]), end=np.array([");
                s.append(nums[3].as_str());
                s.append(", ");
                s.append(nums[4].as_str());
                s.append(", ");
                s.append(nums[5].as_str());
                s.append("]), color=");
                s.append(color_string(nums, 6).as_str());
                s.append(")");
                s
            },
            ObjType::Dot => {
                let mut s = String::from_str("Dot(color=");
                s.append(color_string(nums, 0).as_str());
                s.append(")");
                s
            },
            ObjType::Sphere { radius } => {
                let mut s = String::from_str("Sphere(radius=");
                s.append(nums[0].as_str());
                s.append(", color=");
                s.append(color_string(nums, 1).as_str());
                s.append(", fill_opacity=");
                s.append(nums[4].as_str());
                s.append(")");
                s
            },
            ObjType::Cube { side_length } => {
                let mut s = String::from_str("Cube(side_length=");
                s.append(nums[0].as_str());
                s.append(", fill_color=");
                s.append(color_string(nums, 1).as_str());
                s.append(", fill_opacity=");
                s.append(nums[4].as_str());
                s.append(")");
                s
            },
            ObjType::Cylinder { radius, height } => {
                let mut s = String::from_str("Cylinder(radius=");
                s.append(nums[0].as_str());
                s.append(", height=");
                s.append(nums[1].as_str());
                s.append(", fill_color=");
                s.append(color_string(nums, 2).as_str());
                s.append(", fill_opacity=");
                s.append(nums[5].as_str());
                s.append(")");
                s
            },
            ObjType::Axes => {
                let mut s = String::from_str("Axes(x_range=[-5, 5, 1], y_range=[-3, 3, 1], color=");
                s.append(color_string(nums, 0).as_str());
                s.append(")  # type: ignore");
                s
            },
            ObjType::NumberPlane => {
                let mut s = String::from_str("NumberPlane()");
                s
            },
            ObjType::Polygon { points } => {
                let mut s = String::from_str("Polygon(");
                s.append(points_string(nums, 0, points.len()).as_str());
                s.append(", color=");
                s.append(color_string(nums, 0 + 2 * points.len()).as_str());
                s.append(", fill_opacity=");
                s.append(nums[0 + 2 * points.len() + 3].as_str());
                s.append(")");
                s
            },
            ObjType::Arc { radius, start_angle, angle } => {
                let mut s = String::from_str("Arc(radius=");
                s.append(nums[0].as_str());
                s.append(", start_angle=");
                s.append(nums[1].as_str());
                s.append("*DEGREES, angle=");
                s.append(nums[2].as_str());
                s.append("*DEGREES, color=");
                s.append(color_string(nums, 3).as_str());
                s.append(")");
                s
            },
            ObjType::ArcBetweenPoints { start, end, angle } => {
                let mut s = String::from_str("ArcBetweenPoints(start=np.array([");
                s.append(nums[0].as_str());
                s.append(", ");
                s.append(nums[1].as_str());
                s.append(", ");
                s.append(nums[2].as_str());
                s.append("]), end=np.array([");
                s.append(nums[3].as_str());
                s.append(", ");
                s.append(nums[4].as_str());
                s.append(", ");
                s.append(nums[5].as_str());
                s.append("]), angle=");
                s.append(nums[6].as_str());
                s.append("*DEGREES, color=");
                s.append(color_string(nums, 7).as_str());
                s.append(")");
                s
            },
            ObjType::Ellipse { width, height } => {
                let mut s = String::from_str("Ellipse(width=");
                s.append(nums[0].as_str());
                s.append(", height=");
                s.append(nums[1].as_str());
                s.append(", color=");
                s.append(color_string(nums, 2).as_str());
                s.append(", fill_opacity=");
                s.append(nums[5].as_str());
                s.append(")");
                s
            },
            ObjType::Annulus { inner_radius, outer_radius } => {
                let mut s = String::from_str("Annulus(inner_radius=");
                s.append(nums[0].as_str());
                s.append(", outer_radius=");
                s.append(nums[1].as_str());
                s.append(", color=");
                s.append(color_string(nums, 2).as_str());
                s.append(", fill_opacity=");
                s.append(nums[5].as_str());
                s.append(")");
                s
            },
            ObjType::Sector { radius, start_angle, angle } => {
                let mut s = String::from_str("Sector(outer_radius=");
                s.append(nums[0].as_str());
                s.append(", start_angle=");
                s.append(nums[1].as_str());
                s.append("*DEGREES, angle=");
                s.append(nums[2].as_str());
                s.append("*DEGREES, color=");
                s.append(color_string(nums, 3).as_str());
                s.append(", fill_opacity=");
                s.append(nums[6].as_str());
                s.append(")");
                s
            },
            ObjType::RegularPolygon { n, radius } => {
                let mut s = String::from_str("RegularPolygon(n=");
                s.append(decimal_string(*n as u128).as_str());
                s.append(", color=");
                s.append(color_string(nums, 0).as_str());
                s.append(", fill_opacity=");
                s.append(nums[3].as_str());
                s.append(").scale(");
                s.append(nums[4].as_str());
                s.append(")");
                s
            },
            ObjType::Star { n, outer_radius, inner_radius } => {
                let mut s = String::from_str("Star(n=");
                s.append(decimal_string(*n as u128).as_str());
                s.append(", outer_radius=");
                s.append(nums[0].as_str());
                s.append(", inner_radius=");
                s.append(nums[1].as_str());
                s.append(", color=");
                s.append(color_string(nums, 2).as_str());
                s.append(", fill_opacity=");
                s.append(nums[5].as_str());
                s.append(")");
                s
            },
            ObjType::RoundedRectangle { width, height, corner_radius } => {
                let mut s = String::from_str("RoundedRectangle(width=");
                s.append(nums[0].as_str());
                s.append(", height=");
                s.append(nums[1].as_str());
                s.append(", corner_radius=");
                s.append(nums[2].as_str());
                s.append(", color=");
                s.append(color_string(nums, 3).as_str());
                s.append(", fill_opacity=");
                s.append(nums[6].as_str());
                s.append(")");
                s
            },
            ObjType::DashedLine { start, end, dash_length } => {
                let mut s = String::from_str("DashedLine(start=np.array([");
                s.append(nums[0].as_str());
                s.append(", ");
                s.append(nums[1].as_str());
                s.append(", ");
                s.append(nums[2].as_str());
                s.append("]), end=np.array([");
                s.append(nums[3].as_str());
                s.append(", ");
                s.append(nums[4].as_str());
                s.append(", ");
                s.append(nums[5].as_str());
                s.append("]), dash_length=");
                s.append(nums[6].as_str());
                s.append(", color=");
                s.append(color_string(nums, 7).as_str());
                s.append(")");
                s
            },
            ObjType::DoubleArrow { start, end } => {
                let mut s = String::from_str("DoubleArrow(start=np.array([");
                s.append(nums[0].as_str());
                s.append(", ");
                s.append(nums[1].as_str());
                s.append(", ");
                s.append(nums[2].as_str());
                s.append("]), end=np.array([");
                s.append(nums[3].as_str());
                s.append(", ");
                s.append(nums[4].as_str());
                s.append(", ");
                s.append(nums[5].as_str());
                s.append("]), color=");
                s.append(color_string(nums, 6).as_str());
                s.append(")");
                s
            },
            ObjType::Vector { direction } => {
                let mut s = String::from_str("Vector(direction=np.array([");
                s.append(nums[0].as_str());
                s.append(", ");
                s.append(nums[1].as_str());
                s.append(", ");
                s.append(nums[2].as_str());
                s.append("]), color=");
                s.append(color_string(nums, 3).as_str());
                s.append(")");
                s
            },
            ObjType::CurvedArrow { .. } => {
                let mut s = String::from_str("CurvedArrow(color=");
                s.append(color_string(nums, 0).as_str());
                s.append(")");
                s
            },
            ObjType::CurvedDoubleArrow { .. } => {
                let mut s = String::from_str("CurvedDoubleArrow(color=");
                s.append(color_string(nums, 0).as_str());
                s.append(")");
                s
            },
            ObjType::Elbow => {
                let mut s = String::from_str("Elbow(color=");
                s.append(color_string(nums, 0).as_str());
                s.append(")");
                s
            },
            ObjType::TangentLine { .. } => {
                let mut s = String::from_str("TangentLine(color=");
                s.append(color_string(nums, 0).as_str());
                s.append(")");
                s
            },
            ObjType::Brace { direction, length } => {
                let mut s = String::from_str("BraceLabel(Dot(), text=\"\", brace_direction=np.array([");
                s.append(nums[0].as_str());
                s.append(", ");
                s.append(nums[1].as_str());
                s.append(", ");
                s.append(nums[2].as_str());
                s.append("]), color=");
                s.append(color_string(nums, 3).as_str());
                s.append(").scale(");
                s.append(nums[6].as_str());
                s.append(")");
                s
            },
            ObjType::BraceBetweenPoints { start, end } => {
                let mut s = String::from_str("BraceBetweenPoints(np.array([");
                s.append(nums[0].as_str());
                s.append(", ");
                s.append(nums[1].as_str());
                s.append(", ");
                s.append(nums[2].as_str());
                s.append("]), np.array([");
                s.append(nums[3].as_str());
                s.append(", ");
                s.append(nums[4].as_str());
                s.append(", ");
                s.append(nums[5].as_str());
                s.append("]), color=");
                s.append(color_string(nums, 6).as_str());
                s.append(")");
                s
            },
            ObjType::BraceLabel { .. } => {
                let mut s = String::from_str("BraceLabel(color=");
                s.append(color_string(nums, 0).as_str());
                s.append(")");
                s
            },
            ObjType::Angle { radius, start_angle, angle } => {
                let mut s = String::from_str("Angle(radius=");
                s.append(nums[0].as_str());
                s.append(", start_angle=");
                s.append(nums[1].as_str());
                s.append("*DEGREES, angle=");
                s.append(nums[2].as_str());
                s.append("*DEGREES, color=");
                s.append(color_string(nums, 3).as_str());
                s.append(")");
                s
            },
            ObjType::RightAngle { size } => {
                let mut s = String::from_str("RightAngle(length=");
                s.append(nums[0].as_str());
                s.append(", color=");
                s.append(color_string(nums, 1).as_str());
                s.append(")");
                s
            },
            ObjType::LabeledDot { .. } => {
                let mut s = String::from_str("LabeledDot(color=");
                s.append(color_string(nums, 0).as_str());
                s.append(")");
                s
            },
            ObjType::LabeledLine { .. } => {
                let mut s = String::from_str("LabeledLine(color=");
                s.append(color_string(nums, 0).as_str());
                s.append(")");
                s
            },
            ObjType::SurroundingRectangle { .. } => {
                let mut s = String::from_str("SurroundingRectangle(color=");
                s.append(color_string(nums, 0).as_str());
                s.append(")");
                s
            },
            ObjType::BackgroundRectangle => {
                let mut s = String::from_str("BackgroundRectangle(color=");
                s.append(color_string(nums, 0).as_str());
                s.append(")");
                s
            },
            ObjType::Underline => {
                let mut s = String::from_str("Underline(color=");
                s.append(color_string(nums, 0).as_str());
                s.append(")");
                s
            },
            ObjType::Cross { .. } => {
                let mut s = String::from_str("Cross(color=");
                s.append(color_string(nums, 0).as_str());
                s.append(")");
                s
            },
            ObjType::NumberLine { x_min, x_max, step } => {
                let mut s = String::from_str("NumberLine(x_range=[");
                s.append(nums[0].as_str());
                s.append(", ");
                s.append(nums[1].as_str());
                s.append(", ");
                s.append(nums[2].as_str());
                s.append("], color=");
                s.append(color_string(nums, 3).as_str());
                s.append(")");
                s
            },
            ObjType::BarChart { values, bar_width } => {
                let mut s = String::from_str("BarChart(values=[");
                s.append(values_string(nums, 0, values.len()).as_str());
                s.append("], bar_width=");
                s.append(nums[0 + values.len()].as_str());
                s.append(", bar_colors=[");
                s.append(color_string(nums, 0 + values.len() + 1).as_str());
                s.append("])");
                s
            },
            ObjType::FunctionGraph { .. } => {
                let mut s = String::from_str("FunctionGraph(color=");
                s.append(color_string(nums, 0).as_str());
                s.append(")");
                s
            },
            ObjType::ParametricFunction { .. } => {
                let mut s = String::from_str("ParametricFunction(color=");
                s.append(color_string(nums, 0).as_str());
                s.append(")");
                s
            },
            ObjType::ImplicitFunction { .. } => {
                let mut s = String::from_str("ImplicitFunction(color=");
                s.append(color_string(nums, 0).as_str());
                s.append(")");
                s
            },
            ObjType::ComplexPlane => {
                let mut s = String::from_str("ComplexPlane(color=");
                s.append(color_string(nums, 0).as_str());
                s.append(")");
                s
            },
            ObjType::PolarPlane => {
                let mut s = String::from_str("PolarPlane(color=");
                s.append(color_string(nums, 0).as_str());
                s.append(")");
                s
            },
            ObjType::CoordinateSystem => {
                let mut s = String::from_str("CoordinateSystem(color=");
                s.append(color_string(nums, 0).as_str());
                s.append(")");
                s
            },
            ObjType::Title { .. } => {
                let mut s = String::from_str("Title(color=");
                s.append(color_string(nums, 0).as_str());
                s.append(")");
                s
            },
            ObjType::MarkupText { .. } => {
                let mut s = String::from_str("MarkupText(color=");
                s.append(color_string(nums, 0).as_str());
                s.append(")");
                s
            },
            ObjType::BulletedList { .. } => {
                let mut s = String::from_str("BulletedList(color=");
                s.append(color_string(nums, 0).as_str());
                s.append(")");
                s
            },
            ObjType::Paragraph { .. } => {
                let mut s = String::from_str("Paragraph(color=");
                s.append(color_string(nums, 0).as_str());
                s.append(")");
                s
            },
            ObjType::Code { .. } => {
                let mut s = String::from_str("Code(color=");
                s.append(color_string(nums, 0).as_str());
                s.append(")");
                s
            },
            ObjType::Table { .. } => {
                let mut s = String::from_str("Table(color=");
                s.append(color_string(nums, 0).as_str());
                s.append(")");
                s
            },
            ObjType::Matrix { .. } => {
                let mut s = String::from_str("Matrix(color=");
                s.append(color_string(nums, 0).as_str());
                s.append(")");
                s
            },
            ObjType::DecimalNumber { number, num_decimal_places } => {
                let mut s = String::from_str("DecimalNumber(");
                s.append(nums[0].as_str());
                s.append(", num_decimal_places=");
                s.append(decimal_string(*num_decimal_places as u128).as_str());
                s.append(", color=");
                s.append(color_string(nums, 1).as_str());
                s.append(")");
                s
            },
            ObjType::Integer { number } => {
                let mut s = String::from_str("Integer(");
                s.append(int_string(*number).as_str());
                s.append(", color=");
                s.append(color_string(nums, 0).as_str());
                s.append(")");
                s
            },
            ObjType::VGroup { .. } => {
                let mut s = String::from_str("VGroup(color=");
                s.append(color_string(nums, 0).as_str());
                s.append(")");
                s
            },
            ObjType::Dot3D => {
                let mut s = String::from_str("Dot3D(color=");
                s.append(color_string(nums, 0).as_str());
                s.append(")");
                s
            },
            ObjType::Cone { radius, height } => {
                let mut s = String::from_str("Cone(base_radius=");
                s.append(nums[0].as_str());
                s.append(", height=");
                s.append(nums[1].as_str());
                s.append(", fill_color=");
                s.append(color_string(nums, 2).as_str());
                s.append(", fill_opacity=");
                s.append(nums[5].as_str());
                s.append(")");
                s
            },
            ObjType::Torus { major_radius, minor_radius } => {
                let mut s = String::from_str("Torus(major_radius=");
                s.append(nums[0].as_str());
                s.append(", minor_radius=");
                s.append(nums[1].as_str());
                s.append(", fill_color=");
                s.append(color_string(nums, 2).as_str());
                s.append(", fill_opacity=");
                s.append(nums[5].as_str());
                s.append(")");
                s
            },
            ObjType::Prism { width, height, depth } => {
                let mut s = String::from_str("Prism(dimensions=[");
                s.append(nums[0].as_str());
                s.append(", ");
                s.append(nums[1].as_str());
                s.append(", ");
                s.append(nums[2].as_str());
                s.append("], fill_color=");
                s.append(color_string(nums, 3).as_str());
                s.append(", fill_opacity=");
                s.append(nums[6].as_str());
                s.append(")");
                s
            },
            ObjType::Arrow3D { start, end } => {
                let mut s = String::from_str("Arrow3D(start=np.array([");
                s.append(nums[0].as_str());
                s.append(", ");
                s.append(nums[1].as_str());
                s.append(", ");
                s.append(nums[2].as_str());
                s.append("]), end=np.array([");
                s.append(nums[3].as_str());
                s.append(", ");
                s.append(nums[4].as_str());
                s.append(", ");
                s.append(nums[5].as_str());
                s.append("]), color=");
                s.append(color_string(nums, 6).as_str());
                s.append(")");
                s
            },
            ObjType::Line3D { start, end } => {
                let mut s = String::from_str("Line3D(start=np.array([");
                s.append(nums[0].as_str());
                s.append(", ");
                s.append(nums[1].as_str());
                s.append(", ");
                s.append(nums[2].as_str());
                s.append("]), end=np.array([");
                s.append(nums[3].as_str());
                s.append(", ");
                s.append(nums[4].as_str());
                s.append(", ");
                s.append(nums[5].as_str());
                s.append("]), color=");
                s.append(color_string(nums, 6).as_str());
                s.append(")");
                s
            },
            ObjType::Surface => {
                let mut s = String::from_str("Surface(lambda u, v: np.array([u, v, 0]), u_range=[-2, 2], v_range=[-2, 2], fill_color=");
                s.append(color_string(nums, 0).as_str());
                s.append(", fill_opacity=");
                s.append(nums[3].as_str());
                s.append(")");
                s
            },
            ObjType::Icosahedron { .. } => {
                let mut s = String::from_str("Icosahedron(color=");
                s.append(color_string(nums, 0).as_str());
                s.append(")");
                s
            },
            ObjType::Dodecahedron { .. } => {
                let mut s = String::from_str("Dodecahedron(color=");
                s.append(color_string(nums, 0).as_str());
                s.append(")");
                s
            },
            ObjType::TracedPath => {
                let mut s = String::from_str("TracedPath(color=");
                s.append(color_string(nums, 0).as_str());
                s.append(")");
                s
            },
            ObjType::PointCloudDot => {
                let mut s = String::from_str("PointCloudDot(color=");
                s.append(color_string(nums, 0).as_str());
                s.append(")");
                s
            },
    }
}

/// The lines that define `obj` in the script, given the texts of the numbers
/// that `object_number_slots` lists and which adjustments to apply.
pub fn build_object_code<N: Copy>(
    obj: &ManimObject<N>,
    require_latex: bool,
    nums: &Vec<String>,
    tweaks: &ObjectTweaks,
) -> (r: String)
    requires
        nums@.len() == object_slots(*obj).len(),
    ensures
        r@ == object_code(*obj, views(nums@), require_latex, *tweaks),
{
    let var = obj.var_name();
    let ctor = constructor_string(obj, nums, require_latex);
    let m = obj.object_number_slots().len() - 6;
    let mut code = String::from_str("        ");
    code.append(var.as_str());
    code.append(" = ");
    code.append(ctor.as_str());
    let mut moved = String::new();
    if tweaks.moved {
        moved = String::from_str("\n        ");
        moved.append(var.as_str());
        moved.append(".move_to(np.array([");
        moved.append(nums[m].as_str());
        moved.append(", ");
        moved.append(nums[m + 1].as_str());
        moved.append(", ");
        moved.append(nums[m + 2].as_str());
        moved.append("]))");
    }
    code.append(moved.as_str());
    let mut scaled = String::new();
    if tweaks.scaled {
        scaled = String::from_str("\n        ");
        scaled.append(var.as_str());
        scaled.append(".scale(");
        scaled.append(nums[m + 3].as_str());
        scaled.append(")");
    }
    code.append(scaled.as_str());
    let mut rotated = String::new();
    if tweaks.rotated {
        rotated = String::from_str("\n        ");
        rotated.append(var.as_str());
        rotated.append(".rotate(");
        rotated.append(nums[m + 4].as_str());
        rotated.append("*DEGREES)");
    }
    code.append(rotated.as_str());
    let mut faded = String::new();
    if tweaks.faded {
        faded = String::from_str("\n        ");
        faded.append(var.as_str());
        faded.append(".set_opacity(");
        faded.append(nums[m + 5].as_str());
        faded.append(")");
    }
    code.append(faded.as_str());
    code
}

// ─── Animations ─────────────────────────────────────────────────────────────

/// The variable that stands for object `id` in the script: its name made an
/// identifier, or `obj` when there is no such object.
pub open spec fn anim_var<N>(objs: Seq<ManimObject<N>>, id: Seq<char>) -> Seq<char> {
    match lookup(objs, id) {
        Some(o) => variable_name(o.name@),
        None => "obj"@,
    }
}

/// The variable of a transform's target: its name made an identifier, or
/// `target` when there is no such object.
pub open spec fn target_var<N>(objs: Seq<ManimObject<N>>, id: Seq<char>) -> Seq<char> {
    match lookup(objs, id) {
        Some(o) => variable_name(o.name@),
        None => "target"@,
    }
}

/// The numbers the call of an animation of kind `t` shows, with how each is printed.
pub open spec fn anim_slots<N>(t: AnimType<N>) -> Seq<(N, NumFormat)> {
    match t {
        AnimType::Create => Seq::empty(),
        AnimType::Uncreate => Seq::empty(),
        AnimType::Write => Seq::empty(),
        AnimType::FadeIn => Seq::empty(),
        AnimType::FadeOut => Seq::empty(),
        AnimType::GrowFromCenter => Seq::empty(),
        AnimType::DrawBorderThenFill => Seq::empty(),
        AnimType::SpinInFromNothing => Seq::empty(),
        AnimType::GrowFromPoint { point } => seq![(point[0], NumFormat::Fixed(2))] + seq![(point[1], NumFormat::Fixed(2))] + seq![(point[2], NumFormat::Fixed(2))],
        AnimType::GrowFromEdge { edge } => seq![(edge[0], NumFormat::Fixed(2))] + seq![(edge[1], NumFormat::Fixed(2))] + seq![(edge[2], NumFormat::Fixed(2))],
        AnimType::GrowArrow => Seq::empty(),
        AnimType::SpiralIn => Seq::empty(),
        AnimType::FadeInFromPoint { .. } => Seq::empty(),
        AnimType::FadeInFrom { .. } => Seq::empty(),
        AnimType::FadeOutToPoint { .. } => Seq::empty(),
        AnimType::FadeOutAndShift { .. } => Seq::empty(),
        AnimType::VFadeIn => Seq::empty(),
        AnimType::VFadeOut => Seq::empty(),
        AnimType::ShowCreationThenFadeOut => Seq::empty(),
        AnimType::AddTextLetterByLetter => Seq::empty(),
        AnimType::RemoveTextLetterByLetter => Seq::empty(),
        AnimType::Unwrite => Seq::empty(),
        AnimType::ShrinkToCenter => Seq::empty(),
        AnimType::Shift { dx, dy } => seq![(dx, NumFormat::Fixed(2))] + seq![(dy, NumFormat::Fixed(2))],
        AnimType::MoveTo { x, y } => seq![(x, NumFormat::Fixed(2))] + seq![(y, NumFormat::Fixed(2))],
        AnimType::MoveAlongPath { path_points } => point_slots(path_points@),
        AnimType::Rotate { angle } => seq![(angle, NumFormat::Plain)],
        AnimType::Scale { factor } => seq![(factor, NumFormat::Plain)],
        AnimType::ScaleInPlace { .. } => Seq::empty(),
        AnimType::Transform { target_id } => Seq::empty(),
        AnimType::FadeTransform { target_id } => Seq::empty(),
        AnimType::ReplacementTransform { target_id } => Seq::empty(),
        AnimType::TransformFromCopy { .. } => Seq::empty(),
        AnimType::CounterclockwiseTransform { target_id } => Seq::empty(),
        AnimType::ClockwiseTransform { target_id } => Seq::empty(),
        AnimType::CyclicReplace { .. } => Seq::empty(),
        AnimType::Swap { .. } => Seq::empty(),
        AnimType::ApplyMethod { .. } => Seq::empty(),
        AnimType::Restore => Seq::empty(),
        AnimType::ChangeDecimalToValue { .. } => Seq::empty(),
        AnimType::Flash => Seq::empty(),
        AnimType::Indicate => Seq::empty(),
        AnimType::Wiggle => Seq::empty(),
        AnimType::ApplyWave => Seq::empty(),
        AnimType::Circumscribe => Seq::empty(),
        AnimType::ShowPassingFlash => Seq::empty(),
        AnimType::FocusOn => Seq::empty(),
        AnimType::Broadcast => Seq::empty(),
        AnimType::ShowIncreasingSubsets => Seq::empty(),
        AnimType::ShowSubmobjectsOneByOne => Seq::empty(),
        AnimType::AnimatedBoundary => Seq::empty(),
        AnimType::MoveCamera { .. } => Seq::empty(),
        AnimType::CameraRotate { .. } => Seq::empty(),
        AnimType::CameraZoom { .. } => Seq::empty(),
        AnimType::CameraPan { .. } => Seq::empty(),
        AnimType::Succession { animations } => Seq::empty(),
        AnimType::AnimationGroup { animations } => Seq::empty(),
        AnimType::LaggedStart { .. } => Seq::empty(),
        AnimType::LaggedStartMap { .. } => Seq::empty(),
        AnimType::Wait => Seq::empty(),
        AnimType::Homotopy => Seq::empty(),
        AnimType::PhaseFlow => Seq::empty(),
        AnimType::UpdateFromFunc => Seq::empty(),
        AnimType::UpdateFromAlphaFunc => Seq::empty(),
    }
}

/// The Python expression that plays an animation of kind `t` on the object
/// whose variable is `var`, given the texts of its numbers. Kinds without a
/// dedicated form are called as `Kind(var)`.
pub open spec fn anim_text<N>(t: AnimType<N>, var: Seq<char>, objs: Seq<ManimObject<N>>, nums: Seq<Seq<char>>) -> Seq<char> {
    match t {
        AnimType::Create => "Create("@ + var + ")"@,
        AnimType::Uncreate => "Uncreate("@ + var + ")"@,
        AnimType::Write => "Write("@ + var + ")"@,
        AnimType::FadeIn => "FadeIn("@ + var + ")"@,
        AnimType::FadeOut => "FadeOut("@ + var + ")"@,
        AnimType::GrowFromCenter => "GrowFromCenter("@ + var + ")"@,
        AnimType::DrawBorderThenFill => "DrawBorderThenFill("@ + var + ")"@,
        AnimType::SpinInFromNothing => "SpinInFromNothing("@ + var + ")"@,
        AnimType::GrowFromPoint { point } => "GrowFromPoint("@ + var + ", point=np.array(["@ + nums[0] + ", "@ + nums[1] + ", "@ + nums[2] + "]))"@,
        AnimType::GrowFromEdge { edge } => "GrowFromEdge("@ + var + ", edge=np.array(["@ + nums[0] + ", "@ + nums[1] + ", "@ + nums[2] + "]))"@,
        AnimType::GrowArrow => "GrowArrow("@ + var + ")"@,
        AnimType::SpiralIn => "SpiralIn("@ + var + ")"@,
        AnimType::FadeInFromPoint { .. } => "FadeInFromPoint("@ + var + ")"@,
        AnimType::FadeInFrom { .. } => "FadeInFrom("@ + var + ")"@,
        AnimType::FadeOutToPoint { .. } => "FadeOutToPoint("@ + var + ")"@,
        AnimType::FadeOutAndShift { .. } => "FadeOutAndShift("@ + var + ")"@,
        AnimType::VFadeIn => "VFadeIn("@ + var + ")"@,
        AnimType::VFadeOut => "VFadeOut("@ + var + ")"@,
        AnimType::ShowCreationThenFadeOut => "ShowCreationThenFadeOut("@ + var + ")"@,
        AnimType::AddTextLetterByLetter => "AddTextLetterByLetter("@ + var + ")"@,
        AnimType::RemoveTextLetterByLetter => "RemoveTextLetterByLetter("@ + var + ")"@,
        AnimType::Unwrite => "Unwrite("@ + var + ")"@,
        AnimType::ShrinkToCenter => "ShrinkToCenter("@ + var + ")"@,
        AnimType::Shift { dx, dy } => var + ".animate.shift(np.array(["@ + nums[0] + ", "@ + nums[1] + ", 0]))"@,
        AnimType::MoveTo { x, y } => var + ".animate.move_to(np.array(["@ + nums[0] + ", "@ + nums[1] + ", 0]))"@,
        AnimType::MoveAlongPath { path_points } => "MoveAlongPath("@ + var + ", VMobject().set_points_as_corners(["@ + points_text(nums, 0, path_points@.len()) + "]))"@,
        AnimType::Rotate { angle } => var + ".animate.rotate("@ + nums[0] + "*DEGREES)"@,
        AnimType::Scale { factor } => var + ".animate.scale("@ + nums[0] + ")"@,
        AnimType::ScaleInPlace { .. } => "ScaleInPlace("@ + var + ")"@,
        AnimType::Transform { target_id } => "Transform("@ + var + ", "@ + target_var(objs, target_id@) + ")"@,
        AnimType::FadeTransform { target_id } => "FadeTransform("@ + var + ", "@ + target_var(objs, target_id@) + ")"@,
        AnimType::ReplacementTransform { target_id } => "ReplacementTransform("@ + var + ", "@ + target_var(objs, target_id@) + ")"@,
        AnimType::TransformFromCopy { .. } => "TransformFromCopy("@ + var + ")"@,
        AnimType::CounterclockwiseTransform { target_id } => "CounterclockwiseTransform("@ + var + ", "@ + target_var(objs, target_id@) + ")"@,
        AnimType::ClockwiseTransform { target_id } => "ClockwiseTransform("@ + var + ", "@ + target_var(objs, target_id@) + ")"@,
        AnimType::CyclicReplace { .. } => "CyclicReplace("@ + var + ")"@,
        AnimType::Swap { .. } => "Swap("@ + var + ")"@,
        AnimType::ApplyMethod { .. } => "ApplyMethod("@ + var + ")"@,
        AnimType::Restore => "Restore("@ + var + ")"@,
        AnimType::ChangeDecimalToValue { .. } => "ChangeDecimalToValue("@ + var + ")"@,
        AnimType::Flash => "Flash("@ + var + ")"@,
        AnimType::Indicate => "Indicate("@ + var + ")"@,
        AnimType::Wiggle => "Wiggle("@ + var + ")"@,
        AnimType::ApplyWave => "ApplyWave("@ + var + ")"@,
        AnimType::Circumscribe => "Circumscribe("@ + var + ")"@,
        AnimType::ShowPassingFlash => "ShowPassingFlash("@ + var + ")"@,
        AnimType::FocusOn => "FocusOn("@ + var + ")"@,
        AnimType::Broadcast => "Broadcast("@ + var + ")"@,
        AnimType::ShowIncreasingSubsets => "ShowIncreasingSubsets("@ + var + ")"@,
        AnimType::ShowSubmobjectsOneByOne => "ShowSubmobjectsOneByOne("@ + var + ")"@,
        AnimType::AnimatedBoundary => "AnimatedBoundary("@ + var + ")"@,
        AnimType::MoveCamera { .. } => "MoveCamera("@ + var + ")"@,
        AnimType::CameraRotate { .. } => "CameraRotate("@ + var + ")"@,
        AnimType::CameraZoom { .. } => "CameraZoom("@ + var + ")"@,
        AnimType::CameraPan { .. } => "CameraPan("@ + var + ")"@,
        AnimType::Succession { animations } => "Succession("@ + joined(views(animations@), ", "@) + ")"@,
        AnimType::AnimationGroup { animations } => "AnimationGroup("@ + joined(views(animations@), ", "@) + ")"@,
        AnimType::LaggedStart { .. } => "LaggedStart("@ + var + ")"@,
        AnimType::LaggedStartMap { .. } => "LaggedStartMap("@ + var + ")"@,
        AnimType::Wait => "Wait()  # should use self.wait() instead"@,
        AnimType::Homotopy => "Homotopy(lambda x, y, z, t: (x, y, z), "@ + var + ")"@,
        AnimType::PhaseFlow => "PhaseFlow(lambda p: p, "@ + var + ")"@,
        AnimType::UpdateFromFunc => "UpdateFromFunc("@ + var + ")"@,
        AnimType::UpdateFromAlphaFunc => "UpdateFromAlphaFunc("@ + var + ")"@,
    }
}

fn var_string<N>(scene: &Scene<N>, id: &str, missing: &str) -> (r: String)
    ensures
        r@ == match lookup(scene.objects@, id@) {
            Some(o) => variable_name(o.name@),
            None => missing@,
        },
{
    match scene.get_object(id) {
        Some(o) => o.var_name(),
        None => String::from_str(missing),
    }
}

fn target_string<N>(scene: &Scene<N>, id: &str) -> (r: String)
    ensures
        r@ == target_var(scene.objects@, id@),
{
    var_string(scene, id, "target")
}

impl<N: Copy> AnimType<N> {
    /// The numbers the call of this animation shows, with how each is printed.
    pub fn anim_number_slots(&self) -> (r: Vec<(N, NumFormat)>)
        ensures
            r@ == anim_slots(*self),
    {
        let mut v: Vec<(N, NumFormat)> = Vec::new();
        match self {
            AnimType::Create => {

            },
            AnimType::Uncreate => {

            },
            AnimType::Write => {

            },
            AnimType::FadeIn => {

            },
            AnimType::FadeOut => {

            },
            AnimType::GrowFromCenter => {

            },
            AnimType::DrawBorderThenFill => {

            },
            AnimType::SpinInFromNothing => {

            },
            AnimType::GrowFromPoint { point } => {
                v.push((point[0], NumFormat::Fixed(2)));
                v.push((point[1], NumFormat::Fixed(2)));
                v.push((point[2], NumFormat::Fixed(2)));
            },
            AnimType::GrowFromEdge { edge } => {
                v.push((edge[0], NumFormat::Fixed(2)));
                v.push((edge[1], NumFormat::Fixed(2)));
                v.push((edge[2], NumFormat::Fixed(2)));
            },
            AnimType::GrowArrow => {

            },
            AnimType::SpiralIn => {

            },
            AnimType::FadeInFromPoint { .. } => {

            },
            AnimType::FadeInFrom { .. } => {

            },
            AnimType::FadeOutToPoint { .. } => {

            },
            AnimType::FadeOutAndShift { .. } => {

            },
            AnimType::VFadeIn => {

            },
            AnimType::VFadeOut => {

            },
            AnimType::ShowCreationThenFadeOut => {

            },
            AnimType::AddTextLetterByLetter => {

            },
            AnimType::RemoveTextLetterByLetter => {

            },
            AnimType::Unwrite => {

            },
            AnimType::ShrinkToCenter => {

            },
            AnimType::Shift { dx, dy } => {
                v.push((*dx, NumFormat::Fixed(2)));
                v.push((*dy, NumFormat::Fixed(2)));
            },
            AnimType::MoveTo { x, y } => {
                v.push((*x, NumFormat::Fixed(2)));
                v.push((*y, NumFormat::Fixed(2)));
            },
            AnimType::MoveAlongPath { path_points } => {
                push_point_slots(&mut v, path_points);
            },
            AnimType::Rotate { angle } => {
                v.push((*angle, NumFormat::Plain));
            },
            AnimType::Scale { factor } => {
                v.push((*factor, NumFormat::Plain));
            },
            AnimType::ScaleInPlace { .. } => {

            },
            AnimType::Transform { target_id } => {

            },
            AnimType::FadeTransform { target_id } => {

            },
            AnimType::ReplacementTransform { target_id } => {

            },
            AnimType::TransformFromCopy { .. } => {

            },
            AnimType::CounterclockwiseTransform { target_id } => {

            },
            AnimType::ClockwiseTransform { target_id } => {

            },
            AnimType::CyclicReplace { .. } => {

            },
            AnimType::Swap { .. } => {

            },
            AnimType::ApplyMethod { .. } => {

            },
            AnimType::Restore => {

            },
            AnimType::ChangeDecimalToValue { .. } => {

            },
            AnimType::Flash => {

            },
            AnimType::Indicate => {

            },
            AnimType::Wiggle => {

            },
            AnimType::ApplyWave => {

            },
            AnimType::Circumscribe => {

            },
            AnimType::ShowPassingFlash => {

            },
            AnimType::FocusOn => {

            },
            AnimType::Broadcast => {

            },
            AnimType::ShowIncreasingSubsets => {

            },
            AnimType::ShowSubmobjectsOneByOne => {

            },
            AnimType::AnimatedBoundary => {

            },
            AnimType::MoveCamera { .. } => {

            },
            AnimType::CameraRotate { .. } => {

            },
            AnimType::CameraZoom { .. } => {

            },
            AnimType::CameraPan { .. } => {

            },
            AnimType::Succession { animations } => {

            },
            AnimType::AnimationGroup { animations } => {

            },
            AnimType::LaggedStart { .. } => {

            },
            AnimType::LaggedStartMap { .. } => {

            },
            AnimType::Wait => {

            },
            AnimType::Homotopy => {

            },
            AnimType::PhaseFlow => {

            },
            AnimType::UpdateFromFunc => {

            },
            AnimType::UpdateFromAlphaFunc => {

            },
        }
        assert(v@ =~= anim_slots(*self));
        v
    }
}

/// The Python expression that plays `anim` in `scene`, given the texts of the
/// numbers that `anim_number_slots` lists.
#[verifier::rlimit(100)]
pub fn build_anim_arg<N: Copy>(anim: &AnimEntry<N>, scene: &Scene<N>, nums: &Vec<String>) -> (r: String)
    requires
        nums@.len() == anim_slots(anim.anim_type).len(),
    ensures
        r@ == anim_text(anim.anim_type, anim_var(scene.objects@, anim.object_id@), scene.objects@, views(nums@)),
{
    let var = var_string(scene, anim.object_id.as_str(), "obj");
    let ghost objs = scene.objects@;
    match &anim.anim_type {
            AnimType::Create => {
                let mut s = String::from_str("Create(");
                s.append(var.as_str());
                s.append(")");
                s
            },
            AnimType::Uncreate => {
                let mut s = String::from_str("Uncreate(");
                s.append(var.as_str());
                s.append(")");
                s
            },
            AnimType::Write => {
                let mut s = String::from_str("Write(");
                s.append(var.as_str());
                s.append(")");
                s
            },
            AnimType::FadeIn => {
                let mut s = String::from_str("FadeIn(");
                s.append(var.as_str());
                s.append(")");
                s
            },
            AnimType::FadeOut => {
                let mut s = String::from_str("FadeOut(");
                s.append(var.as_str());
                s.append(")");
                s
            },
            AnimType::GrowFromCenter => {
                let mut s = String::from_str("GrowFromCenter(");
                s.append(var.as_str());
                s.append(")");
                s
            },
            AnimType::DrawBorderThenFill => {
                let mut s = String::from_str("DrawBorderThenFill(");
                s.append(var.as_str());
                s.append(")");
                s
            },
            AnimType::SpinInFromNothing => {
                let mut s = String::from_str("SpinInFromNothing(");
                s.append(var.as_str());
                s.append(")");
                s
            },
            AnimType::GrowFromPoint { point } => {
                let mut s = String::from_str("GrowFromPoint(");
                s.append(var.as_str());
                s.append(", point=np.array([");
                s.append(nums[0].as_str());
                s.append(", ");
                s.append(nums[1].as_str());
                s.append(", ");
                s.append(nums[2].as_str());
                s.append("]))");
                s
            },
            AnimType::GrowFromEdge { edge } => {
                let mut s = String::from_str("GrowFromEdge(");
                s.append(var.as_str());
                s.append(", edge=np.array([");
                s.append(nums[0].as_str());
                s.append(", ");
                s.append(nums[1].as_str());
                s.append(", ");
                s.append(nums[2].as_str());
                s.append("]))");
                s
            },
            AnimType::GrowArrow => {
                let mut s = String::from_str("GrowArrow(");
                s.append(var.as_str());
                s.append(")");
                s
            },
            AnimType::SpiralIn => {
                let mut s = String::from_str("SpiralIn(");
                s.append(var.as_str());
                s.append(")");
                s
            },
            AnimType::FadeInFromPoint { .. } => {
                let mut s = String::from_str("FadeInFromPoint(");
                s.append(var.as_str());
                s.append(")");
                s
            },
            AnimType::FadeInFrom { .. } => {
                let mut s = String::from_str("FadeInFrom(");
                s.append(var.as_str());
                s.append(")");
                s
            },
            AnimType::FadeOutToPoint { .. } => {
                let mut s = String::from_str("FadeOutToPoint(");
                s.append(var.as_str());
                s.append(")");
                s
            },
            AnimType::FadeOutAndShift { .. } => {
                let mut s = String::from_str("FadeOutAndShift(");
                s.append(var.as_str());
                s.append(")");
                s
            },
            AnimType::VFadeIn => {
                let mut s = String::from_str("VFadeIn(");
                s.append(var.as_str());
                s.append(")");
                s
            },
            AnimType::VFadeOut => {
                let mut s = String::from_str("VFadeOut(");
                s.append(var.as_str());
                s.append(")");
                s
            },
            AnimType::ShowCreationThenFadeOut => {
                let mut s = String::from_str("ShowCreationThenFadeOut(");
                s.append(var.as_str());
                s.append(")");
                s
            },
            AnimType::AddTextLetterByLetter => {
                let mut s = String::from_str("AddTextLetterByLetter(");
                s.append(var.as_str());
                s.append(")");
                s
            },
            AnimType::RemoveTextLetterByLetter => {
                let mut s = String::from_str("RemoveTextLetterByLetter(");
                s.append(var.as_str());
                s.append(")");
                s
            },
            AnimType::Unwrite => {
                let mut s = String::from_str("Unwrite(");
                s.append(var.as_str());
                s.append(")");
                s
            },
            AnimType::ShrinkToCenter => {
                let mut s = String::from_str("ShrinkToCenter(");
                s.append(var.as_str());
                s.append(")");
                s
            },
            AnimType::Shift { dx, dy } => {
                let mut s = var.clone();
                s.append(".animate.shift(np.array([");
                s.append(nums[0].as_str());
                s.append(", ");
                s.append(nums[1].as_str());
                s.append(", 0]))");
                s
            },
            AnimType::MoveTo { x, y } => {
                let mut s = var.clone();
                s.append(".animate.move_to(np.array([");
                s.append(nums[0].as_str());
                s.append(", ");
                s.append(nums[1].as_str());
                s.append(", 0]))");
                s
            },
            AnimType::MoveAlongPath { path_points } => {
                let mut s = String::from_str("MoveAlongPath(");
                s.append(var.as_str());
                s.append(", VMobject().set_points_as_corners([");
                s.append(points_string(nums, 0, path_points.len()).as_str());
                s.append("]))");
                s
            },
            AnimType::Rotate { angle } => {
                let mut s = var.clone();
                s.append(".animate.rotate(");
                s.append(nums[0].as_str());
                s.append("*DEGREES)");
                s
            },
            AnimType::Scale { factor } => {
                let mut s = var.clone();
                s.append(".animate.scale(");
                s.append(nums[0].as_str());
                s.append(")");
                s
            },
            AnimType::ScaleInPlace { .. } => {
                let mut s = String::from_str("ScaleInPlace(");
                s.append(var.as_str());
                s.append(")");
                s
            },
            AnimType::Transform { target_id } => {
                let mut s = String::from_str("Transform(");
                s.append(var.as_str());
                s.append(", ");
                s.append(target_string(scene, target_id.as_str()).as_str());
                s.append(")");
                s
            },
            AnimType::FadeTransform { target_id } => {
                let mut s = String::from_str("FadeTransform(");
                s.append(var.as_str());
                s.append(", ");
                s.append(target_string(scene, target_id.as_str()).as_str());
                s.append(")");
                s
            },
            AnimType::ReplacementTransform { target_id } => {
                let mut s = String::from_str("ReplacementTransform(");
                s.append(var.as_str());
                s.append(", ");
                s.append(target_string(scene, target_id.as_str()).as_str());
                s.append(")");
                s
            },
            AnimType::TransformFromCopy { .. } => {
                let mut s = String::from_str("TransformFromCopy(");
                s.append(var.as_str());
                s.append(")");
                s
            },
            AnimType::CounterclockwiseTransform { target_id } => {
                let mut s = String::from_str("CounterclockwiseTransform(");
                s.append(var.as_str());
                s.append(", ");
                s.append(target_string(scene, target_id.as_str()).as_str());
                s.append(")");
                s
            },
            AnimType::ClockwiseTransform { target_id } => {
                let mut s = String::from_str("ClockwiseTransform(");
                s.append(var.as_str());
                s.append(", ");
                s.append(target_string(scene, target_id.as_str()).as_str());
                s.append(")");
                s
            },
            AnimType::CyclicReplace { .. } => {
                let mut s = String::from_str("CyclicReplace(");
                s.append(var.as_str());
                s.append(")");
                s
            },
            AnimType::Swap { .. } => {
                let mut s = String::from_str("Swap(");
                s.append(var.as_str());
                s.append(")");
                s
            },
            AnimType::ApplyMethod { .. } => {
                let mut s = String::from_str("ApplyMethod(");
                s.append(var.as_str());
                s.append(")");
                s
            },
            AnimType::Restore => {
                let mut s = String::from_str("Restore(");
                s.append(var.as_str());
                s.append(")");
                s
            },
            AnimType::ChangeDecimalToValue { .. } => {
                let mut s = String::from_str("ChangeDecimalToValue(");
                s.append(var.as_str());
                s.append(")");
                s
            },
            AnimType::Flash => {
                let mut s = String::from_str("Flash(");
                s.append(var.as_str());
                s.append(")");
                s
            },
            AnimType::Indicate => {
                let mut s = String::from_str("Indicate(");
                s.append(var.as_str());
                s.append(")");
                s
            },
            AnimType::Wiggle => {
                let mut s = String::from_str("Wiggle(");
                s.append(var.as_str());
                s.append(")");
                s
            },
            AnimType::ApplyWave => {
                let mut s = String::from_str("ApplyWave(");
                s.append(var.as_str());
                s.append(")");
                s
            },
            AnimType::Circumscribe => {
                let mut s = String::from_str("Circumscribe(");
                s.append(var.as_str());
                s.append(")");
                s
            },
            AnimType::ShowPassingFlash => {
                let mut s = String::from_str("ShowPassingFlash(");
                s.append(var.as_str());
                s.append(")");
                s
            },
            AnimType::FocusOn => {
                let mut s = String::from_str("FocusOn(");
                s.append(var.as_str());
                s.append(")");
                s
            },
            AnimType::Broadcast => {
                let mut s = String::from_str("Broadcast(");
                s.append(var.as_str());
                s.append(")");
                s
            },
            AnimType::ShowIncreasingSubsets => {
                let mut s = String::from_str("ShowIncreasingSubsets(");
                s.append(var.as_str());
                s.append(")");
                s
            },
            AnimType::ShowSubmobjectsOneByOne => {
                let mut s = String::from_str("ShowSubmobjectsOneByOne(");
                s.append(var.as_str());
                s.append(")");
                s
            },
            AnimType::AnimatedBoundary => {
                let mut s = String::from_str("AnimatedBoundary(");
                s.append(var.as_str());
                s.append(")");
                s
            },
            AnimType::MoveCamera { .. } => {
                let mut s = String::from_str("MoveCamera(");
                s.append(var.as_str());
                s.append(")");
                s
            },
            AnimType::CameraRotate { .. } => {
                let mut s = String::from_str("CameraRotate(");
                s.append(var.as_str());
                s.append(")");
                s
            },
            AnimType::CameraZoom { .. } => {
                let mut s = String::from_str("CameraZoom(");
                s.append(var.as_str());
                s.append(")");
                s
            },
            AnimType::CameraPan { .. } => {
                let mut s = String::from_str("CameraPan(");
                s.append(var.as_str());
                s.append(")");
                s
            },
            AnimType::Succession { animations } => {
                let mut s = String::from_str("Succession(");
                s.append(join(animations, ", ").as_str());
                s.append(")");
                s
            },
            AnimType::AnimationGroup { animations } => {
                let mut s = String::from_str("AnimationGroup(");
                s.append(join(animations, ", ").as_str());
                s.append(")");
                s
            },
            AnimType::LaggedStart { .. } => {
                let mut s = String::from_str("LaggedStart(");
                s.append(var.as_str());
                s.append(")");
                s
            },
            AnimType::LaggedStartMap { .. } => {
                let mut s = String::from_str("LaggedStartMap(");
                s.append(var.as_str());
                s.append(")");
                s
            },
            AnimType::Wait => {
                let mut s = String::from_str("Wait()  # should use self.wait() instead");
                s
            },
            AnimType::Homotopy => {
                let mut s = String::from_str("Homotopy(lambda x, y, z, t: (x, y, z), ");
                s.append(var.as_str());
                s.append(")");
                s
            },
            AnimType::PhaseFlow => {
                let mut s = String::from_str("PhaseFlow(lambda p: p, ");
                s.append(var.as_str());
                s.append(")");
                s
            },
            AnimType::UpdateFromFunc => {
                let mut s = String::from_str("UpdateFromFunc(");
                s.append(var.as_str());
                s.append(")");
                s
            },
            AnimType::UpdateFromAlphaFunc => {
                let mut s = String::from_str("UpdateFromAlphaFunc(");
                s.append(var.as_str());
                s.append(")");
                s
            },
    }
}


// ─── The script ─────────────────────────────────────────────────────────────

pub open spec fn background_text(r: Seq<char>, g: Seq<char>, b: Seq<char>) -> Seq<char> {
    "        self.camera.background_color = rgb_to_color(("@ + r + ", "@ + g + ", "@ + b + "))"@
}

/// The line that sets the background colour, given the texts of its three channels.
pub fn background_line(r: &str, g: &str, b: &str) -> (res: String)
    ensures
        res@ == background_text(r@, g@, b@),
{
    let mut s = String::from_str("        self.camera.background_color = rgb_to_color((");
    s.append(r);
    s.append(", ");
    s.append(g);
    s.append(", ");
    s.append(b);
    s.append("))");
    s
}

pub open spec fn camera_text(phi: Seq<char>, theta: Seq<char>) -> Seq<char> {
    "        self.set_camera_orientation(phi="@ + phi + "*DEGREES, theta="@ + theta + "*DEGREES)"@
}

/// The line that orients the 3D camera, given the texts of its two angles in degrees.
pub fn camera_line(phi: &str, theta: &str) -> (res: String)
    ensures
        res@ == camera_text(phi@, theta@),
{
    let mut s = String::from_str("        self.set_camera_orientation(phi=");
    s.append(phi);
    s.append("*DEGREES, theta=");
    s.append(theta);
    s.append("*DEGREES)");
    s
}

pub open spec fn wait_text(secs: Seq<char>) -> Seq<char> {
    "        self.wait("@ + secs + ")"@
}

/// The line that waits, given the text of the number of seconds.
pub fn wait_line(secs: &str) -> (res: String)
    ensures
        res@ == wait_text(secs@),
{
    let mut s = String::from_str("        self.wait(");
    s.append(secs);
    s.append(")");
    s
}

pub open spec fn play_text(args: Seq<Seq<char>>, run_time: Seq<char>, rate_func: Seq<char>) -> Seq<char> {
    "        self.play("@ + joined(args, ", "@) + ", run_time="@ + run_time + ", rate_func="@ + rate_func + ")"@
}

/// The line that plays the animations `args` together.
pub fn play_line(args: &Vec<String>, run_time: &str, rate_func: &str) -> (res: String)
    ensures
        res@ == play_text(views(args@), run_time@, rate_func@),
{
    let mut s = String::from_str("        self.play(");
    s.append(join(args, ", ").as_str());
    s.append(", run_time=");
    s.append(run_time);
    s.append(", rate_func=");
    s.append(rate_func);
    s.append(")");
    s
}

/// What the caller works out for the script: the background line (when the
/// background is not the default), the texts of the camera angles, the
/// printed numbers and adjustments of each object, and the animation lines.
pub struct ScriptParts {
    pub background: Option<String>,
    pub camera_phi: String,
    pub camera_theta: String,
    pub object_numbers: Vec<Vec<String>>,
    pub object_tweaks: Vec<ObjectTweaks>,
    pub animation_lines: Vec<String>,
}

/// The parts fit the scene: one list of printed numbers and one set of
/// adjustments per object, each list as long as the object's slots.
pub open spec fn parts_fit<N>(scene: Scene<N>, parts: ScriptParts) -> bool {
    &&& parts.object_numbers@.len() == scene.objects@.len()
    &&& parts.object_tweaks@.len() == scene.objects@.len()
    &&& forall|i: int| 0 <= i < scene.objects@.len()
        ==> #[trigger] parts.object_numbers@[i]@.len() == object_slots(scene.objects@[i]).len()
}

pub open spec fn object_blocks<N>(scene: Scene<N>, parts: ScriptParts, n: int) -> Seq<Seq<char>> {
    Seq::new(n as nat, |i: int| object_code(
        scene.objects@[i],
        views(parts.object_numbers@[i]@),
        scene.require_latex,
        parts.object_tweaks@[i],
    ))
}

/// The lines of the script: the import, the class (derived from the base
/// class that the scene type names) and its `construct` method, which sets the
/// background and, for a 3D scene, the camera, defines every object, and plays
/// the animations.
pub open spec fn script_lines<N>(scene: Scene<N>, parts: ScriptParts) -> Seq<Seq<char>> {
    let base = scene_type_label(scene.scene_type);
    let has_anims = scene.animations@.len() > 0;
    seq!["from manim import *"@, ""@, "class "@ + scene.name@ + "("@ + base + "):"@, "    def construct(self):"@]
        + (match parts.background { Some(l) => seq![l@], None => Seq::empty() })
        + (if scene.is_3d { seq![camera_text(parts.camera_phi@, parts.camera_theta@)] } else { Seq::empty() })
        + (if scene.objects@.len() > 0 || has_anims { seq![""@, OBJECTS_HEADER@] } else { Seq::empty() })
        + object_blocks(scene, parts, scene.objects@.len() as int)
        + (if has_anims { seq![""@, ANIMATIONS_HEADER@] + views(parts.animation_lines@) } else { Seq::empty() })
        + seq![""@]
}

pub const OBJECTS_HEADER: &'static str = "        # ── Object definitions ─────────────────────────────────";
pub const ANIMATIONS_HEADER: &'static str = "        # ── Animations ────────────────────────────────────────────";

fn push_str_line(lines: &mut Vec<String>, s: &str)
    ensures
        views(final(lines)@) == views(old(lines)@).push(s@),
{
    lines.push(String::from_str(s));
    assert(views(lines@) =~= views(old(lines)@).push(s@));
}

fn push_line(lines: &mut Vec<String>, s: String)
    ensures
        views(final(lines)@) == views(old(lines)@).push(s@),
{
    lines.push(s);
    assert(views(lines@) =~= views(old(lines)@).push(s@));
}

/// Generate a complete Manim Python script from the scene and the parts the caller worked out.
pub fn generate<N: Copy>(scene: &Scene<N>, parts: &ScriptParts) -> (r: String)
    requires
        parts_fit(*scene, *parts),
    ensures
        r@ == joined(script_lines(*scene, *parts), "
"@),
{
    let mut lines: Vec<String> = Vec::new();
    push_str_line(&mut lines, "from manim import *");
    push_str_line(&mut lines, "");
    let mut class_line = String::from_str("class ");
    class_line.append(scene.name.as_str());
    class_line.append("(");
    class_line.append(scene.scene_type.label());
    class_line.append("):");
    push_line(&mut lines, class_line);
    push_str_line(&mut lines, "    def construct(self):");
    let ghost head = views(lines@);
    match &parts.background {
        Some(l) => {
            push_str_line(&mut lines, l.as_str());
        },
        None => {},
    }
    if scene.is_3d {
        push_line(&mut lines, camera_line(parts.camera_phi.as_str(), parts.camera_theta.as_str()));
    }
    let has_anims = scene.animations.len() > 0;
    if scene.objects.len() > 0 || has_anims {
        push_str_line(&mut lines, "");
        push_str_line(&mut lines, OBJECTS_HEADER);
    }
    let ghost before_objects = views(lines@);
    let mut i: usize = 0;
    while i < scene.objects.len()
        invariant
            i <= scene.objects@.len(),
            parts_fit(*scene, *parts),
            views(lines@) == before_objects + object_blocks(*scene, *parts, i as int),
        decreases scene.objects.len() - i,
    {
        assert(parts.object_numbers@[i as int]@.len() == object_slots(scene.objects@[i as int]).len());
        let block = build_object_code(
            &scene.objects[i],
            scene.require_latex,
            &parts.object_numbers[i],
            &parts.object_tweaks[i],
        );
        push_line(&mut lines, block);
        assert(object_blocks(*scene, *parts, i + 1) =~= object_blocks(*scene, *parts, i as int).push(
            object_code(scene.objects@[i as int], views(parts.object_numbers@[i as int]@), scene.require_latex, parts.object_tweaks@[i as int]),
        ));
        i += 1;
    }
    let ghost after_objects = views(lines@);
    if has_anims {
        push_str_line(&mut lines, "");
        push_str_line(&mut lines, ANIMATIONS_HEADER);
        let ghost hdr = views(lines@);
        let mut j: usize = 0;
        while j < parts.animation_lines.len()
            invariant
                j <= parts.animation_lines@.len(),
                views(lines@) == hdr + views(parts.animation_lines@.take(j as int)),
            decreases parts.animation_lines.len() - j,
        {
            push_str_line(&mut lines, parts.animation_lines[j].as_str());
            assert(views(parts.animation_lines@.take(j + 1)) =~= views(parts.animation_lines@.take(j as int)).push(
                parts.animation_lines@[j as int]@,
            ));
            j += 1;
        }
        assert(parts.animation_lines@.take(parts.animation_lines.len() as int) =~= parts.animation_lines@);
        assert(views(lines@) =~= after_objects + (seq![""@, ANIMATIONS_HEADER@] + views(parts.animation_lines@)));
    }
    push_str_line(&mut lines, "");
    assert(views(lines@) =~= script_lines(*scene, *parts));
    join(&lines, "
")
}

// ─── Laws of the printed numbers ────────────────────────────────────────────

/// The numbers an object's code shows, slot by slot: for each kind, its own
/// parameters in the order its constructor takes them (a width before a
/// height, a start before an end, x before y before z), the red, green and
/// blue channels of its colour, its fill opacity where the constructor takes
/// one; then its position x, y, z, its scale, its rotation and its opacity.
/// Each comes with the decimals it is printed with.
pub proof fn law_object_slots_hold_the_fields<N>(o: ManimObject<N>)
    ensures
        match o.object_type {
            ObjType::Circle { radius } => object_slots(o) =~= seq![(radius, NumFormat::Plain), (o.color[0], NumFormat::Fixed(3)), (o.color[1], NumFormat::Fixed(3)), (o.color[2], NumFormat::Fixed(3)), (o.fill_opacity, NumFormat::Fixed(2)), (o.position[0], NumFormat::Fixed(3)), (o.position[1], NumFormat::Fixed(3)), (o.position[2], NumFormat::Fixed(3)), (o.scale, NumFormat::Fixed(3)), (o.rotation, NumFormat::Plain), (o.opacity, NumFormat::Fixed(3))],
            ObjType::Square { side_length } => object_slots(o) =~= seq![(side_length, NumFormat::Plain), (o.color[0], NumFormat::Fixed(3)), (o.color[1], NumFormat::Fixed(3)), (o.color[2], NumFormat::Fixed(3)), (o.fill_opacity, NumFormat::Fixed(2)), (o.position[0], NumFormat::Fixed(3)), (o.position[1], NumFormat::Fixed(3)), (o.position[2], NumFormat::Fixed(3)), (o.scale, NumFormat::Fixed(3)), (o.rotation, NumFormat::Plain), (o.opacity, NumFormat::Fixed(3))],
            ObjType::Rectangle { width, height } => object_slots(o) =~= seq![(width, NumFormat::Plain), (height, NumFormat::Plain), (o.color[0], NumFormat::Fixed(3)), (o.color[1], NumFormat::Fixed(3)), (o.color[2], NumFormat::Fixed(3)), (o.fill_opacity, NumFormat::Fixed(2)), (o.position[0], NumFormat::Fixed(3)), (o.position[1], NumFormat::Fixed(3)), (o.position[2], NumFormat::Fixed(3)), (o.scale, NumFormat::Fixed(3)), (o.rotation, NumFormat::Plain), (o.opacity, NumFormat::Fixed(3))],
            ObjType::Triangle { side_length } => object_slots(o) =~= seq![(o.color[0], NumFormat::Fixed(3)), (o.color[1], NumFormat::Fixed(3)), (o.color[2], NumFormat::Fixed(3)), (o.fill_opacity, NumFormat::Fixed(2)), (side_length, NumFormat::FixedHalf(3)), (o.position[0], NumFormat::Fixed(3)), (o.position[1], NumFormat::Fixed(3)), (o.position[2], NumFormat::Fixed(3)), (o.scale, NumFormat::Fixed(3)), (o.rotation, NumFormat::Plain), (o.opacity, NumFormat::Fixed(3))],
            ObjType::Text { content, font_size } => object_slots(o) =~= seq![(font_size, NumFormat::Fixed(0)), (o.color[0], NumFormat::Fixed(3)), (o.color[1], NumFormat::Fixed(3)), (o.color[2], NumFormat::Fixed(3)), (o.position[0], NumFormat::Fixed(3)), (o.position[1], NumFormat::Fixed(3)), (o.position[2], NumFormat::Fixed(3)), (o.scale, NumFormat::Fixed(3)), (o.rotation, NumFormat::Plain), (o.opacity, NumFormat::Fixed(3))],
            ObjType::MathTex { content } => object_slots(o) =~= seq![(o.color[0], NumFormat::Fixed(3)), (o.color[1], NumFormat::Fixed(3)), (o.color[2], NumFormat::Fixed(3)), (o.position[0], NumFormat::Fixed(3)), (o.position[1], NumFormat::Fixed(3)), (o.position[2], NumFormat::Fixed(3)), (o.scale, NumFormat::Fixed(3)), (o.rotation, NumFormat::Plain), (o.opacity, NumFormat::Fixed(3))],
            ObjType::Line { start, end } => object_slots(o) =~= seq![(start[0], NumFormat::Fixed(2)), (start[1], NumFormat::Fixed(2)), (start[2], NumFormat::Fixed(2)), (end[0], NumFormat::Fixed(2)), (end[1], NumFormat::Fixed(2)), (end[2], NumFormat::Fixed(2)), (o.color[0], NumFormat::Fixed(3)), (o.color[1], NumFormat::Fixed(3)), (o.color[2], NumFormat::Fixed(3)), (o.position[0], NumFormat::Fixed(3)), (o.position[1], NumFormat::Fixed(3)), (o.position[2], NumFormat::Fixed(3)), (o.scale, NumFormat::Fixed(3)), (o.rotation, NumFormat::Plain), (o.opacity, NumFormat::Fixed(3))],
            ObjType::Arrow { start, end } => object_slots(o) =~= seq![(start[0], NumFormat::Fixed(2)), (start[1], NumFormat::Fixed(2)), (start[2], NumFormat::Fixed(2)), (end[0], NumFormat::Fixed(2)), (end[1], NumFormat::Fixed(2)), (end[2], NumFormat::Fixed(2)), (o.color[0], NumFormat::Fixed(3)), (o.color[1], NumFormat::Fixed(3)), (o.color[2], NumFormat::Fixed(3)), (o.position[0], NumFormat::Fixed(3)), (o.position[1], NumFormat::Fixed(3)), (o.position[2], NumFormat::Fixed(3)), (o.scale, NumFormat::Fixed(3)), (o.rotation, NumFormat::Plain), (o.opacity, NumFormat::Fixed(3))],
            ObjType::Dot => object_slots(o) =~= seq![(o.color[0], NumFormat::Fixed(3)), (o.color[1], NumFormat::Fixed(3)), (o.color[2], NumFormat::Fixed(3)), (o.position[0], NumFormat::Fixed(3)), (o.position[1], NumFormat::Fixed(3)), (o.position[2], NumFormat::Fixed(3)), (o.scale, NumFormat::Fixed(3)), (o.rotation, NumFormat::Plain), (o.opacity, NumFormat::Fixed(3))],
            ObjType::Sphere { radius } => object_slots(o) =~= seq![(radius, NumFormat::Plain), (o.color[0], NumFormat::Fixed(3)), (o.color[1], NumFormat::Fixed(3)), (o.color[2], NumFormat::Fixed(3)), (o.fill_opacity, NumFormat::Fixed(2)), (o.position[0], NumFormat::Fixed(3)), (o.position[1], NumFormat::Fixed(3)), (o.position[2], NumFormat::Fixed(3)), (o.scale, NumFormat::Fixed(3)), (o.rotation, NumFormat::Plain), (o.opacity, NumFormat::Fixed(3))],
            ObjType::Cube { side_length } => object_slots(o) =~= seq![(side_length, NumFormat::Plain), (o.color[0], NumFormat::Fixed(3)), (o.color[1], NumFormat::Fixed(3)), (o.color[2], NumFormat::Fixed(3)), (o.fill_opacity, NumFormat::Fixed(2)), (o.position[0], NumFormat::Fixed(3)), (o.position[1], NumFormat::Fixed(3)), (o.position[2], NumFormat::Fixed(3)), (o.scale, NumFormat::Fixed(3)), (o.rotation, NumFormat::Plain), (o.opacity, NumFormat::Fixed(3))],
            ObjType::Cylinder { radius, height } => object_slots(o) =~= seq![(radius, NumFormat::Plain), (height, NumFormat::Plain), (o.color[0], NumFormat::Fixed(3)), (o.color[1], NumFormat::Fixed(3)), (o.color[2], NumFormat::Fixed(3)), (o.fill_opacity, NumFormat::Fixed(2)), (o.position[0], NumFormat::Fixed(3)), (o.position[1], NumFormat::Fixed(3)), (o.position[2], NumFormat::Fixed(3)), (o.scale, NumFormat::Fixed(3)), (o.rotation, NumFormat::Plain), (o.opacity, NumFormat::Fixed(3))],
            ObjType::Axes => object_slots(o) =~= seq![(o.color[0], NumFormat::Fixed(3)), (o.color[1], NumFormat::Fixed(3)), (o.color[2], NumFormat::Fixed(3)), (o.position[0], NumFormat::Fixed(3)), (o.position[1], NumFormat::Fixed(3)), (o.position[2], NumFormat::Fixed(3)), (o.scale, NumFormat::Fixed(3)), (o.rotation, NumFormat::Plain), (o.opacity, NumFormat::Fixed(3))],
            ObjType::NumberPlane => object_slots(o) =~= seq![(o.position[0], NumFormat::Fixed(3)), (o.position[1], NumFormat::Fixed(3)), (o.position[2], NumFormat::Fixed(3)), (o.scale, NumFormat::Fixed(3)), (o.rotation, NumFormat::Plain), (o.opacity, NumFormat::Fixed(3))],
            ObjType::Arc { radius, start_angle, angle } => object_slots(o) =~= seq![(radius, NumFormat::Plain), (start_angle, NumFormat::Plain), (angle, NumFormat::Plain), (o.color[0], NumFormat::Fixed(3)), (o.color[1], NumFormat::Fixed(3)), (o.color[2], NumFormat::Fixed(3)), (o.position[0], NumFormat::Fixed(3)), (o.position[1], NumFormat::Fixed(3)), (o.position[2], NumFormat::Fixed(3)), (o.scale, NumFormat::Fixed(3)), (o.rotation, NumFormat::Plain), (o.opacity, NumFormat::Fixed(3))],
            ObjType::ArcBetweenPoints { start, end, angle } => object_slots(o) =~= seq![(start[0], NumFormat::Fixed(2)), (start[1], NumFormat::Fixed(2)), (start[2], NumFormat::Fixed(2)), (end[0], NumFormat::Fixed(2)), (end[1], NumFormat::Fixed(2)), (end[2], NumFormat::Fixed(2)), (angle, NumFormat::Plain), (o.color[0], NumFormat::Fixed(3)), (o.color[1], NumFormat::Fixed(3)), (o.color[2], NumFormat::Fixed(3)), (o.position[0], NumFormat::Fixed(3)), (o.position[1], NumFormat::Fixed(3)), (o.position[2], NumFormat::Fixed(3)), (o.scale, NumFormat::Fixed(3)), (o.rotation, NumFormat::Plain), (o.opacity, NumFormat::Fixed(3))],
            ObjType::Ellipse { width, height } => object_slots(o) =~= seq![(width, NumFormat::Plain), (height, NumFormat::Plain), (o.color[0], NumFormat::Fixed(3)), (o.color[1], NumFormat::Fixed(3)), (o.color[2], NumFormat::Fixed(3)), (o.fill_opacity, NumFormat::Fixed(2)), (o.position[0], NumFormat::Fixed(3)), (o.position[1], NumFormat::Fixed(3)), (o.position[2], NumFormat::Fixed(3)), (o.scale, NumFormat::Fixed(3)), (o.rotation, NumFormat::Plain), (o.opacity, NumFormat::Fixed(3))],
            ObjType::Annulus { inner_radius, outer_radius } => object_slots(o) =~= seq![(inner_radius, NumFormat::Plain), (outer_radius, NumFormat::Plain), (o.color[0], NumFormat::Fixed(3)), (o.color[1], NumFormat::Fixed(3)), (o.color[2], NumFormat::Fixed(3)), (o.fill_opacity, NumFormat::Fixed(2)), (o.position[0], NumFormat::Fixed(3)), (o.position[1], NumFormat::Fixed(3)), (o.position[2], NumFormat::Fixed(3)), (o.scale, NumFormat::Fixed(3)), (o.rotation, NumFormat::Plain), (o.opacity, NumFormat::Fixed(3))],
            ObjType::Sector { radius, start_angle, angle } => object_slots(o) =~= seq![(radius, NumFormat::Plain), (start_angle, NumFormat::Plain), (angle, NumFormat::Plain), (o.color[0], NumFormat::Fixed(3)), (o.color[1], NumFormat::Fixed(3)), (o.color[2], NumFormat::Fixed(3)), (o.fill_opacity, NumFormat::Fixed(2)), (o.position[0], NumFormat::Fixed(3)), (o.position[1], NumFormat::Fixed(3)), (o.position[2], NumFormat::Fixed(3)), (o.scale, NumFormat::Fixed(3)), (o.rotation, NumFormat::Plain), (o.opacity, NumFormat::Fixed(3))],
            ObjType::RegularPolygon { n, radius } => object_slots(o) =~= seq![(o.color[0], NumFormat::Fixed(3)), (o.color[1], NumFormat::Fixed(3)), (o.color[2], NumFormat::Fixed(3)), (o.fill_opacity, NumFormat::Fixed(2)), (radius, NumFormat::Fixed(3)), (o.position[0], NumFormat::Fixed(3)), (o.position[1], NumFormat::Fixed(3)), (o.position[2], NumFormat::Fixed(3)), (o.scale, NumFormat::Fixed(3)), (o.rotation, NumFormat::Plain), (o.opacity, NumFormat::Fixed(3))],
            ObjType::Star { n, outer_radius, inner_radius } => object_slots(o) =~= seq![(outer_radius, NumFormat::Plain), (inner_radius, NumFormat::Plain), (o.color[0], NumFormat::Fixed(3)), (o.color[1], NumFormat::Fixed(3)), (o.color[2], NumFormat::Fixed(3)), (o.fill_opacity, NumFormat::Fixed(2)), (o.position[0], NumFormat::Fixed(3)), (o.position[1], NumFormat::Fixed(3)), (o.position[2], NumFormat::Fixed(3)), (o.scale, NumFormat::Fixed(3)), (o.rotation, NumFormat::Plain), (o.opacity, NumFormat::Fixed(3))],
            ObjType::RoundedRectangle { width, height, corner_radius } => object_slots(o) =~= seq![(width, NumFormat::Plain), (height, NumFormat::Plain), (corner_radius, NumFormat::Plain), (o.color[0], NumFormat::Fixed(3)), (o.color[1], NumFormat::Fixed(3)), (o.color[2], NumFormat::Fixed(3)), (o.fill_opacity, NumFormat::Fixed(2)), (o.position[0], NumFormat::Fixed(3)), (o.position[1], NumFormat::Fixed(3)), (o.position[2], NumFormat::Fixed(3)), (o.scale, NumFormat::Fixed(3)), (o.rotation, NumFormat::Plain), (o.opacity, NumFormat::Fixed(3))],
            ObjType::DashedLine { start, end, dash_length } => object_slots(o) =~= seq![(start[0], NumFormat::Fixed(2)), (start[1], NumFormat::Fixed(2)), (start[2], NumFormat::Fixed(2)), (end[0], NumFormat::Fixed(2)), (end[1], NumFormat::Fixed(2)), (end[2], NumFormat::Fixed(2)), (dash_length, NumFormat::Plain), (o.color[0], NumFormat::Fixed(3)), (o.color[1], NumFormat::Fixed(3)), (o.color[2], NumFormat::Fixed(3)), (o.position[0], NumFormat::Fixed(3)), (o.position[1], NumFormat::Fixed(3)), (o.position[2], NumFormat::Fixed(3)), (o.scale, NumFormat::Fixed(3)), (o.rotation, NumFormat::Plain), (o.opacity, NumFormat::Fixed(3))],
            ObjType::DoubleArrow { start, end } => object_slots(o) =~= seq![(start[0], NumFormat::Fixed(2)), (start[1], NumFormat::Fixed(2)), (start[2], NumFormat::Fixed(2)), (end[0], NumFormat::Fixed(2)), (end[1], NumFormat::Fixed(2)), (end[2], NumFormat::Fixed(2)), (o.color[0], NumFormat::Fixed(3)), (o.color[1], NumFormat::Fixed(3)), (o.color[2], NumFormat::Fixed(3)), (o.position[0], NumFormat::Fixed(3)), (o.position[1], NumFormat::Fixed(3)), (o.position[2], NumFormat::Fixed(3)), (o.scale, NumFormat::Fixed(3)), (o.rotation, NumFormat::Plain), (o.opacity, NumFormat::Fixed(3))],
            ObjType::Vector { direction } => object_slots(o) =~= seq![(direction[0], NumFormat::Fixed(2)), (direction[1], NumFormat::Fixed(2)), (direction[2], NumFormat::Fixed(2)), (o.color[0], NumFormat::Fixed(3)), (o.color[1], NumFormat::Fixed(3)), (o.color[2], NumFormat::Fixed(3)), (o.position[0], NumFormat::Fixed(3)), (o.position[1], NumFormat::Fixed(3)), (o.position[2], NumFormat::Fixed(3)), (o.scale, NumFormat::Fixed(3)), (o.rotation, NumFormat::Plain), (o.opacity, NumFormat::Fixed(3))],
            ObjType::CurvedArrow { .. } => object_slots(o) =~= seq![(o.color[0], NumFormat::Fixed(3)), (o.color[1], NumFormat::Fixed(3)), (o.color[2], NumFormat::Fixed(3)), (o.position[0], NumFormat::Fixed(3)), (o.position[1], NumFormat::Fixed(3)), (o.position[2], NumFormat::Fixed(3)), (o.scale, NumFormat::Fixed(3)), (o.rotation, NumFormat::Plain), (o.opacity, NumFormat::Fixed(3))],
            ObjType::CurvedDoubleArrow { .. } => object_slots(o) =~= seq![(o.color[0], NumFormat::Fixed(3)), (o.color[1], NumFormat::Fixed(3)), (o.color[2], NumFormat::Fixed(3)), (o.position[0], NumFormat::Fixed(3)), (o.position[1], NumFormat::Fixed(3)), (o.position[2], NumFormat::Fixed(3)), (o.scale, NumFormat::Fixed(3)), (o.rotation, NumFormat::Plain), (o.opacity, NumFormat::Fixed(3))],
            ObjType::Elbow => object_slots(o) =~= seq![(o.color[0], NumFormat::Fixed(3)), (o.color[1], NumFormat::Fixed(3)), (o.color[2], NumFormat::Fixed(3)), (o.position[0], NumFormat::Fixed(3)), (o.position[1], NumFormat::Fixed(3)), (o.position[2], NumFormat::Fixed(3)), (o.scale, NumFormat::Fixed(3)), (o.rotation, NumFormat::Plain), (o.opacity, NumFormat::Fixed(3))],
            ObjType::TangentLine { .. } => object_slots(o) =~= seq![(o.color[0], NumFormat::Fixed(3)), (o.color[1], NumFormat::Fixed(3)), (o.color[2], NumFormat::Fixed(3)), (o.position[0], NumFormat::Fixed(3)), (o.position[1], NumFormat::Fixed(3)), (o.position[2], NumFormat::Fixed(3)), (o.scale, NumFormat::Fixed(3)), (o.rotation, NumFormat::Plain), (o.opacity, NumFormat::Fixed(3))],
            ObjType::Brace { direction, length } => object_slots(o) =~= seq![(direction[0], NumFormat::Fixed(2)), (direction[1], NumFormat::Fixed(2)), (direction[2], NumFormat::Fixed(2)), (o.color[0], NumFormat::Fixed(3)), (o.color[1], NumFormat::Fixed(3)), (o.color[2], NumFormat::Fixed(3)), (length, NumFormat::Fixed(3)), (o.position[0], NumFormat::Fixed(3)), (o.position[1], NumFormat::Fixed(3)), (o.position[2], NumFormat::Fixed(3)), (o.scale, NumFormat::Fixed(3)), (o.rotation, NumFormat::Plain), (o.opacity, NumFormat::Fixed(3))],
            ObjType::BraceBetweenPoints { start, end } => object_slots(o) =~= seq![(start[0], NumFormat::Fixed(2)), (start[1], NumFormat::Fixed(2)), (start[2], NumFormat::Fixed(2)), (end[0], NumFormat::Fixed(2)), (end[1], NumFormat::Fixed(2)), (end[2], NumFormat::Fixed(2)), (o.color[0], NumFormat::Fixed(3)), (o.color[1], NumFormat::Fixed(3)), (o.color[2], NumFormat::Fixed(3)), (o.position[0], NumFormat::Fixed(3)), (o.position[1], NumFormat::Fixed(3)), (o.position[2], NumFormat::Fixed(3)), (o.scale, NumFormat::Fixed(3)), (o.rotation, NumFormat::Plain), (o.opacity, NumFormat::Fixed(3))],
            ObjType::BraceLabel { .. } => object_slots(o) =~= seq![(o.color[0], NumFormat::Fixed(3)), (o.color[1], NumFormat::Fixed(3)), (o.color[2], NumFormat::Fixed(3)), (o.position[0], NumFormat::Fixed(3)), (o.position[1], NumFormat::Fixed(3)), (o.position[2], NumFormat::Fixed(3)), (o.scale, NumFormat::Fixed(3)), (o.rotation, NumFormat::Plain), (o.opacity, NumFormat::Fixed(3))],
            ObjType::Angle { radius, start_angle, angle } => object_slots(o) =~= seq![(radius, NumFormat::Plain), (start_angle, NumFormat::Plain), (angle, NumFormat::Plain), (o.color[0], NumFormat::Fixed(3)), (o.color[1], NumFormat::Fixed(3)), (o.color[2], NumFormat::Fixed(3)), (o.position[0], NumFormat::Fixed(3)), (o.position[1], NumFormat::Fixed(3)), (o.position[2], NumFormat::Fixed(3)), (o.scale, NumFormat::Fixed(3)), (o.rotation, NumFormat::Plain), (o.opacity, NumFormat::Fixed(3))],
            ObjType::RightAngle { size } => object_slots(o) =~= seq![(size, NumFormat::Plain), (o.color[0], NumFormat::Fixed(3)), (o.color[1], NumFormat::Fixed(3)), (o.color[2], NumFormat::Fixed(3)), (o.position[0], NumFormat::Fixed(3)), (o.position[1], NumFormat::Fixed(3)), (o.position[2], NumFormat::Fixed(3)), (o.scale, NumFormat::Fixed(3)), (o.rotation, NumFormat::Plain), (o.opacity, NumFormat::Fixed(3))],
            ObjType::LabeledDot { .. } => object_slots(o) =~= seq![(o.color[0], NumFormat::Fixed(3)), (o.color[1], NumFormat::Fixed(3)), (o.color[2], NumFormat::Fixed(3)), (o.position[0], NumFormat::Fixed(3)), (o.position[1], NumFormat::Fixed(3)), (o.position[2], NumFormat::Fixed(3)), (o.scale, NumFormat::Fixed(3)), (o.rotation, NumFormat::Plain), (o.opacity, NumFormat::Fixed(3))],
            ObjType::LabeledLine { .. } => object_slots(o) =~= seq![(o.color[0], NumFormat::Fixed(3)), (o.color[1], NumFormat::Fixed(3)), (o.color[2], NumFormat::Fixed(3)), (o.position[0], NumFormat::Fixed(3)), (o.position[1], NumFormat::Fixed(3)), (o.position[2], NumFormat::Fixed(3)), (o.scale, NumFormat::Fixed(3)), (o.rotation, NumFormat::Plain), (o.opacity, NumFormat::Fixed(3))],
            ObjType::SurroundingRectangle { .. } => object_slots(o) =~= seq![(o.color[0], NumFormat::Fixed(3)), (o.color[1], NumFormat::Fixed(3)), (o.color[2], NumFormat::Fixed(3)), (o.position[0], NumFormat::Fixed(3)), (o.position[1], NumFormat::Fixed(3)), (o.position[2], NumFormat::Fixed(3)), (o.scale, NumFormat::Fixed(3)), (o.rotation, NumFormat::Plain), (o.opacity, NumFormat::Fixed(3))],
            ObjType::BackgroundRectangle => object_slots(o) =~= seq![(o.color[0], NumFormat::Fixed(3)), (o.color[1], NumFormat::Fixed(3)), (o.color[2], NumFormat::Fixed(3)), (o.position[0], NumFormat::Fixed(3)), (o.position[1], NumFormat::Fixed(3)), (o.position[2], NumFormat::Fixed(3)), (o.scale, NumFormat::Fixed(3)), (o.rotation, NumFormat::Plain), (o.opacity, NumFormat::Fixed(3))],
            ObjType::Underline => object_slots(o) =~= seq![(o.color[0], NumFormat::Fixed(3)), (o.color[1], NumFormat::Fixed(3)), (o.color[2], NumFormat::Fixed(3)), (o.position[0], NumFormat::Fixed(3)), (o.position[1], NumFormat::Fixed(3)), (o.position[2], NumFormat::Fixed(3)), (o.scale, NumFormat::Fixed(3)), (o.rotation, NumFormat::Plain), (o.opacity, NumFormat::Fixed(3))],
            ObjType::Cross { .. } => object_slots(o) =~= seq![(o.color[0], NumFormat::Fixed(3)), (o.color[1], NumFormat::Fixed(3)), (o.color[2], NumFormat::Fixed(3)), (o.position[0], NumFormat::Fixed(3)), (o.position[1], NumFormat::Fixed(3)), (o.position[2], NumFormat::Fixed(3)), (o.scale, NumFormat::Fixed(3)), (o.rotation, NumFormat::Plain), (o.opacity, NumFormat::Fixed(3))],
            ObjType::NumberLine { x_min, x_max, step } => object_slots(o) =~= seq![(x_min, NumFormat::Plain), (x_max, NumFormat::Plain), (step, NumFormat::Plain), (o.color[0], NumFormat::Fixed(3)), (o.color[1], NumFormat::Fixed(3)), (o.color[2], NumFormat::Fixed(3)), (o.position[0], NumFormat::Fixed(3)), (o.position[1], NumFormat::Fixed(3)), (o.position[2], NumFormat::Fixed(3)), (o.scale, NumFormat::Fixed(3)), (o.rotation, NumFormat::Plain), (o.opacity, NumFormat::Fixed(3))],
            ObjType::FunctionGraph { .. } => object_slots(o) =~= seq![(o.color[0], NumFormat::Fixed(3)), (o.color[1], NumFormat::Fixed(3)), (o.color[2], NumFormat::Fixed(3)), (o.position[0], NumFormat::Fixed(3)), (o.position[1], NumFormat::Fixed(3)), (o.position[2], NumFormat::Fixed(3)), (o.scale, NumFormat::Fixed(3)), (o.rotation, NumFormat::Plain), (o.opacity, NumFormat::Fixed(3))],
            ObjType::ParametricFunction { .. } => object_slots(o) =~= seq![(o.color[0], NumFormat::Fixed(3)), (o.color[1], NumFormat::Fixed(3)), (o.color[2], NumFormat::Fixed(3)), (o.position[0], NumFormat::Fixed(3)), (o.position[1], NumFormat::Fixed(3)), (o.position[2], NumFormat::Fixed(3)), (o.scale, NumFormat::Fixed(3)), (o.rotation, NumFormat::Plain), (o.opacity, NumFormat::Fixed(3))],
            ObjType::ImplicitFunction { .. } => object_slots(o) =~= seq![(o.color[0], NumFormat::Fixed(3)), (o.color[1], NumFormat::Fixed(3)), (o.color[2], NumFormat::Fixed(3)), (o.position[0], NumFormat::Fixed(3)), (o.position[1], NumFormat::Fixed(3)), (o.position[2], NumFormat::Fixed(3)), (o.scale, NumFormat::Fixed(3)), (o.rotation, NumFormat::Plain), (o.opacity, NumFormat::Fixed(3))],
            ObjType::ComplexPlane => object_slots(o) =~= seq![(o.color[0], NumFormat::Fixed(3)), (o.color[1], NumFormat::Fixed(3)), (o.color[2], NumFormat::Fixed(3)), (o.position[0], NumFormat::Fixed(3)), (o.position[1], NumFormat::Fixed(3)), (o.position[2], NumFormat::Fixed(3)), (o.scale, NumFormat::Fixed(3)), (o.rotation, NumFormat::Plain), (o.opacity, NumFormat::Fixed(3))],
            ObjType::PolarPlane => object_slots(o) =~= seq![(o.color[0], NumFormat::Fixed(3)), (o.color[1], NumFormat::Fixed(3)), (o.color[2], NumFormat::Fixed(3)), (o.position[0], NumFormat::Fixed(3)), (o.position[1], NumFormat::Fixed(3)), (o.position[2], NumFormat::Fixed(3)), (o.scale, NumFormat::Fixed(3)), (o.rotation, NumFormat::Plain), (o.opacity, NumFormat::Fixed(3))],
            ObjType::CoordinateSystem => object_slots(o) =~= seq![(o.color[0], NumFormat::Fixed(3)), (o.color[1], NumFormat::Fixed(3)), (o.color[2], NumFormat::Fixed(3)), (o.position[0], NumFormat::Fixed(3)), (o.position[1], NumFormat::Fixed(3)), (o.position[2], NumFormat::Fixed(3)), (o.scale, NumFormat::Fixed(3)), (o.rotation, NumFormat::Plain), (o.opacity, NumFormat::Fixed(3))],
            ObjType::Title { .. } => object_slots(o) =~= seq![(o.color[0], NumFormat::Fixed(3)), (o.color[1], NumFormat::Fixed(3)), (o.color[2], NumFormat::Fixed(3)), (o.position[0], NumFormat::Fixed(3)), (o.position[1], NumFormat::Fixed(3)), (o.position[2], NumFormat::Fixed(3)), (o.scale, NumFormat::Fixed(3)), (o.rotation, NumFormat::Plain), (o.opacity, NumFormat::Fixed(3))],
            ObjType::MarkupText { .. } => object_slots(o) =~= seq![(o.color[0], NumFormat::Fixed(3)), (o.color[1], NumFormat::Fixed(3)), (o.color[2], NumFormat::Fixed(3)), (o.position[0], NumFormat::Fixed(3)), (o.position[1], NumFormat::Fixed(3)), (o.position[2], NumFormat::Fixed(3)), (o.scale, NumFormat::Fixed(3)), (o.rotation, NumFormat::Plain), (o.opacity, NumFormat::Fixed(3))],
            ObjType::BulletedList { .. } => object_slots(o) =~= seq![(o.color[0], NumFormat::Fixed(3)), (o.color[1], NumFormat::Fixed(3)), (o.color[2], NumFormat::Fixed(3)), (o.position[0], NumFormat::Fixed(3)), (o.position[1], NumFormat::Fixed(3)), (o.position[2], NumFormat::Fixed(3)), (o.scale, NumFormat::Fixed(3)), (o.rotation, NumFormat::Plain), (o.opacity, NumFormat::Fixed(3))],
            ObjType::Paragraph { .. } => object_slots(o) =~= seq![(o.color[0], NumFormat::Fixed(3)), (o.color[1], NumFormat::Fixed(3)), (o.color[2], NumFormat::Fixed(3)), (o.position[0], NumFormat::Fixed(3)), (o.position[1], NumFormat::Fixed(3)), (o.position[2], NumFormat::Fixed(3)), (o.scale, NumFormat::Fixed(3)), (o.rotation, NumFormat::Plain), (o.opacity, NumFormat::Fixed(3))],
            ObjType::Code { .. } => object_slots(o) =~= seq![(o.color[0], NumFormat::Fixed(3)), (o.color[1], NumFormat::Fixed(3)), (o.color[2], NumFormat::Fixed(3)), (o.position[0], NumFormat::Fixed(3)), (o.position[1], NumFormat::Fixed(3)), (o.position[2], NumFormat::Fixed(3)), (o.scale, NumFormat::Fixed(3)), (o.rotation, NumFormat::Plain), (o.opacity, NumFormat::Fixed(3))],
            ObjType::Table { .. } => object_slots(o) =~= seq![(o.color[0], NumFormat::Fixed(3)), (o.color[1], NumFormat::Fixed(3)), (o.color[2], NumFormat::Fixed(3)), (o.position[0], NumFormat::Fixed(3)), (o.position[1], NumFormat::Fixed(3)), (o.position[2], NumFormat::Fixed(3)), (o.scale, NumFormat::Fixed(3)), (o.rotation, NumFormat::Plain), (o.opacity, NumFormat::Fixed(3))],
            ObjType::Matrix { .. } => object_slots(o) =~= seq![(o.color[0], NumFormat::Fixed(3)), (o.color[1], NumFormat::Fixed(3)), (o.color[2], NumFormat::Fixed(3)), (o.position[0], NumFormat::Fixed(3)), (o.position[1], NumFormat::Fixed(3)), (o.position[2], NumFormat::Fixed(3)), (o.scale, NumFormat::Fixed(3)), (o.rotation, NumFormat::Plain), (o.opacity, NumFormat::Fixed(3))],
            ObjType::DecimalNumber { number, num_decimal_places } => object_slots(o) =~= seq![(number, NumFormat::Plain), (o.color[0], NumFormat::Fixed(3)), (o.color[1], NumFormat::Fixed(3)), (o.color[2], NumFormat::Fixed(3)), (o.position[0], NumFormat::Fixed(3)), (o.position[1], NumFormat::Fixed(3)), (o.position[2], NumFormat::Fixed(3)), (o.scale, NumFormat::Fixed(3)), (o.rotation, NumFormat::Plain), (o.opacity, NumFormat::Fixed(3))],
            ObjType::Integer { number } => object_slots(o) =~= seq![(o.color[0], NumFormat::Fixed(3)), (o.color[1], NumFormat::Fixed(3)), (o.color[2], NumFormat::Fixed(3)), (o.position[0], NumFormat::Fixed(3)), (o.position[1], NumFormat::Fixed(3)), (o.position[2], NumFormat::Fixed(3)), (o.scale, NumFormat::Fixed(3)), (o.rotation, NumFormat::Plain), (o.opacity, NumFormat::Fixed(3))],
            ObjType::VGroup { .. } => object_slots(o) =~= seq![(o.color[0], NumFormat::Fixed(3)), (o.color[1], NumFormat::Fixed(3)), (o.color[2], NumFormat::Fixed(3)), (o.position[0], NumFormat::Fixed(3)), (o.position[1], NumFormat::Fixed(3)), (o.position[2], NumFormat::Fixed(3)), (o.scale, NumFormat::Fixed(3)), (o.rotation, NumFormat::Plain), (o.opacity, NumFormat::Fixed(3))],
            ObjType::Dot3D => object_slots(o) =~= seq![(o.color[0], NumFormat::Fixed(3)), (o.color[1], NumFormat::Fixed(3)), (o.color[2], NumFormat::Fixed(3)), (o.position[0], NumFormat::Fixed(3)), (o.position[1], NumFormat::Fixed(3)), (o.position[2], NumFormat::Fixed(3)), (o.scale, NumFormat::Fixed(3)), (o.rotation, NumFormat::Plain), (o.opacity, NumFormat::Fixed(3))],
            ObjType::Cone { radius, height } => object_slots(o) =~= seq![(radius, NumFormat::Plain), (height, NumFormat::Plain), (o.color[0], NumFormat::Fixed(3)), (o.color[1], NumFormat::Fixed(3)), (o.color[2], NumFormat::Fixed(3)), (o.fill_opacity, NumFormat::Fixed(2)), (o.position[0], NumFormat::Fixed(3)), (o.position[1], NumFormat::Fixed(3)), (o.position[2], NumFormat::Fixed(3)), (o.scale, NumFormat::Fixed(3)), (o.rotation, NumFormat::Plain), (o.opacity, NumFormat::Fixed(3))],
            ObjType::Torus { major_radius, minor_radius } => object_slots(o) =~= seq![(major_radius, NumFormat::Plain), (minor_radius, NumFormat::Plain), (o.color[0], NumFormat::Fixed(3)), (o.color[1], NumFormat::Fixed(3)), (o.color[2], NumFormat::Fixed(3)), (o.fill_opacity, NumFormat::Fixed(2)), (o.position[0], NumFormat::Fixed(3)), (o.position[1], NumFormat::Fixed(3)), (o.position[2], NumFormat::Fixed(3)), (o.scale, NumFormat::Fixed(3)), (o.rotation, NumFormat::Plain), (o.opacity, NumFormat::Fixed(3))],
            ObjType::Prism { width, height, depth } => object_slots(o) =~= seq![(width, NumFormat::Plain), (height, NumFormat::Plain), (depth, NumFormat::Plain), (o.color[0], NumFormat::Fixed(3)), (o.color[1], NumFormat::Fixed(3)), (o.color[2], NumFormat::Fixed(3)), (o.fill_opacity, NumFormat::Fixed(2)), (o.position[0], NumFormat::Fixed(3)), (o.position[1], NumFormat::Fixed(3)), (o.position[2], NumFormat::Fixed(3)), (o.scale, NumFormat::Fixed(3)), (o.rotation, NumFormat::Plain), (o.opacity, NumFormat::Fixed(3))],
            ObjType::Arrow3D { start, end } => object_slots(o) =~= seq![(start[0], NumFormat::Fixed(2)), (start[1], NumFormat::Fixed(2)), (start[2], NumFormat::Fixed(2)), (end[0], NumFormat::Fixed(2)), (end[1], NumFormat::Fixed(2)), (end[2], NumFormat::Fixed(2)), (o.color[0], NumFormat::Fixed(3)), (o.color[1], NumFormat::Fixed(3)), (o.color[2], NumFormat::Fixed(3)), (o.position[0], NumFormat::Fixed(3)), (o.position[1], NumFormat::Fixed(3)), (o.position[2], NumFormat::Fixed(3)), (o.scale, NumFormat::Fixed(3)), (o.rotation, NumFormat::Plain), (o.opacity, NumFormat::Fixed(3))],
            ObjType::Line3D { start, end } => object_slots(o) =~= seq![(start[0], NumFormat::Fixed(2)), (start[1], NumFormat::Fixed(2)), (start[2], NumFormat::Fixed(2)), (end[0], NumFormat::Fixed(2)), (end[1], NumFormat::Fixed(2)), (end[2], NumFormat::Fixed(2)), (o.color[0], NumFormat::Fixed(3)), (o.color[1], NumFormat::Fixed(3)), (o.color[2], NumFormat::Fixed(3)), (o.position[0], NumFormat::Fixed(3)), (o.position[1], NumFormat::Fixed(3)), (o.position[2], NumFormat::Fixed(3)), (o.scale, NumFormat::Fixed(3)), (o.rotation, NumFormat::Plain), (o.opacity, NumFormat::Fixed(3))],
            ObjType::Surface => object_slots(o) =~= seq![(o.color[0], NumFormat::Fixed(3)), (o.color[1], NumFormat::Fixed(3)), (o.color[2], NumFormat::Fixed(3)), (o.fill_opacity, NumFormat::Fixed(2)), (o.position[0], NumFormat::Fixed(3)), (o.position[1], NumFormat::Fixed(3)), (o.position[2], NumFormat::Fixed(3)), (o.scale, NumFormat::Fixed(3)), (o.rotation, NumFormat::Plain), (o.opacity, NumFormat::Fixed(3))],
            ObjType::Icosahedron { .. } => object_slots(o) =~= seq![(o.color[0], NumFormat::Fixed(3)), (o.color[1], NumFormat::Fixed(3)), (o.color[2], NumFormat::Fixed(3)), (o.position[0], NumFormat::Fixed(3)), (o.position[1], NumFormat::Fixed(3)), (o.position[2], NumFormat::Fixed(3)), (o.scale, NumFormat::Fixed(3)), (o.rotation, NumFormat::Plain), (o.opacity, NumFormat::Fixed(3))],
            ObjType::Dodecahedron { .. } => object_slots(o) =~= seq![(o.color[0], NumFormat::Fixed(3)), (o.color[1], NumFormat::Fixed(3)), (o.color[2], NumFormat::Fixed(3)), (o.position[0], NumFormat::Fixed(3)), (o.position[1], NumFormat::Fixed(3)), (o.position[2], NumFormat::Fixed(3)), (o.scale, NumFormat::Fixed(3)), (o.rotation, NumFormat::Plain), (o.opacity, NumFormat::Fixed(3))],
            ObjType::TracedPath => object_slots(o) =~= seq![(o.color[0], NumFormat::Fixed(3)), (o.color[1], NumFormat::Fixed(3)), (o.color[2], NumFormat::Fixed(3)), (o.position[0], NumFormat::Fixed(3)), (o.position[1], NumFormat::Fixed(3)), (o.position[2], NumFormat::Fixed(3)), (o.scale, NumFormat::Fixed(3)), (o.rotation, NumFormat::Plain), (o.opacity, NumFormat::Fixed(3))],
            ObjType::PointCloudDot => object_slots(o) =~= seq![(o.color[0], NumFormat::Fixed(3)), (o.color[1], NumFormat::Fixed(3)), (o.color[2], NumFormat::Fixed(3)), (o.position[0], NumFormat::Fixed(3)), (o.position[1], NumFormat::Fixed(3)), (o.position[2], NumFormat::Fixed(3)), (o.scale, NumFormat::Fixed(3)), (o.rotation, NumFormat::Plain), (o.opacity, NumFormat::Fixed(3))],
            ObjType::Polygon { points } => {
                &&& object_slots(o).len() == 2 * points@.len() + 10
                &&& forall|i: int| 0 <= i < points@.len() ==> object_slots(o)[2 * i] == (#[trigger] points@[i][0], NumFormat::Fixed(2))
                    && object_slots(o)[2 * i + 1] == (points@[i][1], NumFormat::Fixed(2))
                &&& object_slots(o).skip(2 * points@.len() as int) =~= seq![(o.color[0], NumFormat::Fixed(3)), (o.color[1], NumFormat::Fixed(3)), (o.color[2], NumFormat::Fixed(3)), (o.fill_opacity, NumFormat::Fixed(2)), (o.position[0], NumFormat::Fixed(3)), (o.position[1], NumFormat::Fixed(3)), (o.position[2], NumFormat::Fixed(3)), (o.scale, NumFormat::Fixed(3)), (o.rotation, NumFormat::Plain), (o.opacity, NumFormat::Fixed(3))]
            },
            ObjType::BarChart { values, bar_width } => {
                &&& object_slots(o).len() == values@.len() + 10
                &&& forall|i: int| 0 <= i < values@.len() ==> object_slots(o)[i] == (#[trigger] values@[i], NumFormat::Fixed(2))
                &&& object_slots(o).skip(values@.len() as int) =~= seq![(bar_width, NumFormat::Plain), (o.color[0], NumFormat::Fixed(3)), (o.color[1], NumFormat::Fixed(3)), (o.color[2], NumFormat::Fixed(3)), (o.position[0], NumFormat::Fixed(3)), (o.position[1], NumFormat::Fixed(3)), (o.position[2], NumFormat::Fixed(3)), (o.scale, NumFormat::Fixed(3)), (o.rotation, NumFormat::Plain), (o.opacity, NumFormat::Fixed(3))]
            },
        },
{
    match o.object_type {
        ObjType::Polygon { points } => {
            let ps = point_slots(points@);
            assert forall|i: int| 0 <= i < points@.len() implies ps[2 * i] == (#[trigger] points@[i][0], NumFormat::Fixed(2))
                && ps[2 * i + 1] == (points@[i][1], NumFormat::Fixed(2)) by {
                assert((2 * i) / 2 == i && (2 * i) % 2 == 0);
                assert((2 * i + 1) / 2 == i && (2 * i + 1) % 2 == 1);
            }
            assert(object_slots(o).skip(2 * points@.len() as int) =~= seq![(o.color[0], NumFormat::Fixed(3)), (o.color[1], NumFormat::Fixed(3)), (o.color[2], NumFormat::Fixed(3)), (o.fill_opacity, NumFormat::Fixed(2)), (o.position[0], NumFormat::Fixed(3)), (o.position[1], NumFormat::Fixed(3)), (o.position[2], NumFormat::Fixed(3)), (o.scale, NumFormat::Fixed(3)), (o.rotation, NumFormat::Plain), (o.opacity, NumFormat::Fixed(3))]);
        },
        ObjType::BarChart { values, bar_width } => {
            assert(object_slots(o).skip(values@.len() as int) =~= seq![(bar_width, NumFormat::Plain), (o.color[0], NumFormat::Fixed(3)), (o.color[1], NumFormat::Fixed(3)), (o.color[2], NumFormat::Fixed(3)), (o.position[0], NumFormat::Fixed(3)), (o.position[1], NumFormat::Fixed(3)), (o.position[2], NumFormat::Fixed(3)), (o.scale, NumFormat::Fixed(3)), (o.rotation, NumFormat::Plain), (o.opacity, NumFormat::Fixed(3))]);
        },
        _ => {},
    }
}

/// The numbers an animation's call shows, slot by slot: its own parameters in
/// the order the call takes them (dx before dy, x before y, the three
/// coordinates of a point in order), each with the decimals it is printed with.
pub proof fn law_anim_slots_hold_the_fields<N>(t: AnimType<N>)
    ensures
        match t {
            AnimType::Create => anim_slots(t) =~= Seq::<(N, NumFormat)>::empty(),
            AnimType::Uncreate => anim_slots(t) =~= Seq::<(N, NumFormat)>::empty(),
            AnimType::Write => anim_slots(t) =~= Seq::<(N, NumFormat)>::empty(),
            AnimType::FadeIn => anim_slots(t) =~= Seq::<(N, NumFormat)>::empty(),
            AnimType::FadeOut => anim_slots(t) =~= Seq::<(N, NumFormat)>::empty(),
            AnimType::GrowFromCenter => anim_slots(t) =~= Seq::<(N, NumFormat)>::empty(),
            AnimType::DrawBorderThenFill => anim_slots(t) =~= Seq::<(N, NumFormat)>::empty(),
            AnimType::SpinInFromNothing => anim_slots(t) =~= Seq::<(N, NumFormat)>::empty(),
            AnimType::GrowFromPoint { point } => anim_slots(t) =~= seq![(point[0], NumFormat::Fixed(2)), (point[1], NumFormat::Fixed(2)), (point[2], NumFormat::Fixed(2))],
            AnimType::GrowFromEdge { edge } => anim_slots(t) =~= seq![(edge[0], NumFormat::Fixed(2)), (edge[1], NumFormat::Fixed(2)), (edge[2], NumFormat::Fixed(2))],
            AnimType::GrowArrow => anim_slots(t) =~= Seq::<(N, NumFormat)>::empty(),
            AnimType::SpiralIn => anim_slots(t) =~= Seq::<(N, NumFormat)>::empty(),
            AnimType::FadeInFromPoint { .. } => anim_slots(t) =~= Seq::<(N, NumFormat)>::empty(),
            AnimType::FadeInFrom { .. } => anim_slots(t) =~= Seq::<(N, NumFormat)>::empty(),
            AnimType::FadeOutToPoint { .. } => anim_slots(t) =~= Seq::<(N, NumFormat)>::empty(),
            AnimType::FadeOutAndShift { .. } => anim_slots(t) =~= Seq::<(N, NumFormat)>::empty(),
            AnimType::VFadeIn => anim_slots(t) =~= Seq::<(N, NumFormat)>::empty(),
            AnimType::VFadeOut => anim_slots(t) =~= Seq::<(N, NumFormat)>::empty(),
            AnimType::ShowCreationThenFadeOut => anim_slots(t) =~= Seq::<(N, NumFormat)>::empty(),
            AnimType::AddTextLetterByLetter => anim_slots(t) =~= Seq::<(N, NumFormat)>::empty(),
            AnimType::RemoveTextLetterByLetter => anim_slots(t) =~= Seq::<(N, NumFormat)>::empty(),
            AnimType::Unwrite => anim_slots(t) =~= Seq::<(N, NumFormat)>::empty(),
            AnimType::ShrinkToCenter => anim_slots(t) =~= Seq::<(N, NumFormat)>::empty(),
            AnimType::Shift { dx, dy } => anim_slots(t) =~= seq![(dx, NumFormat::Fixed(2)), (dy, NumFormat::Fixed(2))],
            AnimType::MoveTo { x, y } => anim_slots(t) =~= seq![(x, NumFormat::Fixed(2)), (y, NumFormat::Fixed(2))],
            AnimType::Rotate { angle } => anim_slots(t) =~= seq![(angle, NumFormat::Plain)],
            AnimType::Scale { factor } => anim_slots(t) =~= seq![(factor, NumFormat::Plain)],
            AnimType::ScaleInPlace { .. } => anim_slots(t) =~= Seq::<(N, NumFormat)>::empty(),
            AnimType::Transform { target_id } => anim_slots(t) =~= Seq::<(N, NumFormat)>::empty(),
            AnimType::FadeTransform { target_id } => anim_slots(t) =~= Seq::<(N, NumFormat)>::empty(),
            AnimType::ReplacementTransform { target_id } => anim_slots(t) =~= Seq::<(N, NumFormat)>::empty(),
            AnimType::TransformFromCopy { .. } => anim_slots(t) =~= Seq::<(N, NumFormat)>::empty(),
            AnimType::CounterclockwiseTransform { target_id } => anim_slots(t) =~= Seq::<(N, NumFormat)>::empty(),
            AnimType::ClockwiseTransform { target_id } => anim_slots(t) =~= Seq::<(N, NumFormat)>::empty(),
            AnimType::CyclicReplace { .. } => anim_slots(t) =~= Seq::<(N, NumFormat)>::empty(),
            AnimType::Swap { .. } => anim_slots(t) =~= Seq::<(N, NumFormat)>::empty(),
            AnimType::ApplyMethod { .. } => anim_slots(t) =~= Seq::<(N, NumFormat)>::empty(),
            AnimType::Restore => anim_slots(t) =~= Seq::<(N, NumFormat)>::empty(),
            AnimType::ChangeDecimalToValue { .. } => anim_slots(t) =~= Seq::<(N, NumFormat)>::empty(),
            AnimType::Flash => anim_slots(t) =~= Seq::<(N, NumFormat)>::empty(),
            AnimType::Indicate => anim_slots(t) =~= Seq::<(N, NumFormat)>::empty(),
            AnimType::Wiggle => anim_slots(t) =~= Seq::<(N, NumFormat)>::empty(),
            AnimType::ApplyWave => anim_slots(t) =~= Seq::<(N, NumFormat)>::empty(),
            AnimType::Circumscribe => anim_slots(t) =~= Seq::<(N, NumFormat)>::empty(),
            AnimType::ShowPassingFlash => anim_slots(t) =~= Seq::<(N, NumFormat)>::empty(),
            AnimType::FocusOn => anim_slots(t) =~= Seq::<(N, NumFormat)>::empty(),
            AnimType::Broadcast => anim_slots(t) =~= Seq::<(N, NumFormat)>::empty(),
            AnimType::ShowIncreasingSubsets => anim_slots(t) =~= Seq::<(N, NumFormat)>::empty(),
            AnimType::ShowSubmobjectsOneByOne => anim_slots(t) =~= Seq::<(N, NumFormat)>::empty(),
            AnimType::AnimatedBoundary => anim_slots(t) =~= Seq::<(N, NumFormat)>::empty(),
            AnimType::MoveCamera { .. } => anim_slots(t) =~= Seq::<(N, NumFormat)>::empty(),
            AnimType::CameraRotate { .. } => anim_slots(t) =~= Seq::<(N, NumFormat)>::empty(),
            AnimType::CameraZoom { .. } => anim_slots(t) =~= Seq::<(N, NumFormat)>::empty(),
            AnimType::CameraPan { .. } => anim_slots(t) =~= Seq::<(N, NumFormat)>::empty(),
            AnimType::Succession { animations } => anim_slots(t) =~= Seq::<(N, NumFormat)>::empty(),
            AnimType::AnimationGroup { animations } => anim_slots(t) =~= Seq::<(N, NumFormat)>::empty(),
            AnimType::LaggedStart { .. } => anim_slots(t) =~= Seq::<(N, NumFormat)>::empty(),
            AnimType::LaggedStartMap { .. } => anim_slots(t) =~= Seq::<(N, NumFormat)>::empty(),
            AnimType::Wait => anim_slots(t) =~= Seq::<(N, NumFormat)>::empty(),
            AnimType::Homotopy => anim_slots(t) =~= Seq::<(N, NumFormat)>::empty(),
            AnimType::PhaseFlow => anim_slots(t) =~= Seq::<(N, NumFormat)>::empty(),
            AnimType::UpdateFromFunc => anim_slots(t) =~= Seq::<(N, NumFormat)>::empty(),
            AnimType::UpdateFromAlphaFunc => anim_slots(t) =~= Seq::<(N, NumFormat)>::empty(),
            AnimType::MoveAlongPath { path_points } => {
                &&& anim_slots(t).len() == 2 * path_points@.len()
                &&& forall|i: int| 0 <= i < path_points@.len() ==> anim_slots(t)[2 * i] == (#[trigger] path_points@[i][0], NumFormat::Fixed(2))
                    && anim_slots(t)[2 * i + 1] == (path_points@[i][1], NumFormat::Fixed(2))
            },
        },
{
    match t {
        AnimType::MoveAlongPath { path_points } => {
            let ps = point_slots(path_points@);
            assert forall|i: int| 0 <= i < path_points@.len() implies ps[2 * i] == (#[trigger] path_points@[i][0], NumFormat::Fixed(2))
                && ps[2 * i + 1] == (path_points@[i][1], NumFormat::Fixed(2)) by {
                assert((2 * i) / 2 == i && (2 * i) % 2 == 0);
                assert((2 * i + 1) / 2 == i && (2 * i + 1) % 2 == 1);
            }
        },
        _ => {},
    }
}

// ─── Grouping of simultaneous animations ────────────────────────────────────

/// `groups` cuts `0..n` into consecutive, non-empty ranges `[start, end)`:
/// every later member of a range starts together with the range's first
/// (by `same_start(member, first)`), and the first animation after a range
/// does not. Each range becomes one `self.play(...)`.
pub open spec fn is_play_grouping<F: Fn(usize, usize) -> bool>(groups: Seq<(usize, usize)>, n: nat, same_start: F) -> bool {
    &&& n == 0 <==> groups.len() == 0
    &&& groups.len() > 0 ==> groups[0].0 == 0 && groups.last().1 == n
    &&& forall|k: int| 0 <= k < groups.len() ==> #[trigger] groups[k].0 < groups[k].1 <= n
    &&& forall|k: int| 0 <= k < groups.len() - 1 ==> #[trigger] groups[k].1 == groups[k + 1].0
    &&& forall|k: int, j: usize| 0 <= k < groups.len() && groups[k].0 < j < groups[k].1
        ==> #[trigger] call_ensures(same_start, (j, groups[k].0), true)
    &&& forall|k: int| 0 <= k < groups.len() && #[trigger] groups[k].1 < n
        ==> call_ensures(same_start, (groups[k].1, groups[k].0), false)
}

/// Cuts the animations `0..n`, sorted by start time, into the runs that start
/// together: a run takes its first animation and every following one that
/// `same_start` says starts with it.
pub fn play_groups<F: Fn(usize, usize) -> bool>(n: usize, same_start: F) -> (r: Vec<(usize, usize)>)
    requires
        forall|j: usize, i: usize| call_requires(same_start, (j, i)),
    ensures
        is_play_grouping(r@, n as nat, same_start),
{
    let mut groups: Vec<(usize, usize)> = Vec::new();
    let mut i: usize = 0;
    while i < n
        invariant
            i <= n,
            forall|j: usize, i: usize| call_requires(same_start, (j, i)),
            i == 0 <==> groups@.len() == 0,
            groups@.len() > 0 ==> groups@[0].0 == 0 && groups@.last().1 == i,
            forall|k: int| 0 <= k < groups@.len() ==> #[trigger] groups@[k].0 < groups@[k].1 <= i,
            forall|k: int| 0 <= k < groups@.len() - 1 ==> #[trigger] groups@[k].1 == groups@[k + 1].0,
            forall|k: int, j: usize| 0 <= k < groups@.len() && groups@[k].0 < j < groups@[k].1
                ==> #[trigger] call_ensures(same_start, (j, groups@[k].0), true),
            forall|k: int| 0 <= k < groups@.len() && #[trigger] groups@[k].1 < n
                ==> call_ensures(same_start, (groups@[k].1, groups@[k].0), false),
        decreases n - i,
    {
        let first = i;
        let mut end = i + 1;
        while end < n
            invariant
                first < end <= n,
                forall|j: usize, i: usize| call_requires(same_start, (j, i)),
                forall|j: usize| first < j < end ==> call_ensures(same_start, (j, first), true),
            ensures
                first < end <= n,
                forall|j: usize| first < j < end ==> call_ensures(same_start, (j, first), true),
                end < n ==> call_ensures(same_start, (end, first), false),
            decreases n - end,
        {
            if !same_start(end, first) {
                break;
            }
            end += 1;
        }
        let ghost old_groups = groups@;
        groups.push((first, end));
        assert forall|k: int| 0 <= k < groups@.len() && #[trigger] groups@[k].1 < n
            implies call_ensures(same_start, (groups@[k].1, groups@[k].0), false) by {
            if k < old_groups.len() as int {
                assert(groups@[k] == old_groups[k]);
            }
        }
        i = end;
    }
    groups
}

} // verus!
